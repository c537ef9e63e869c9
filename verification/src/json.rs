//! JSON bodies: the object that `GET /return_json` sends and the one that
//! `POST /json_info` expects.

use vstd::prelude::*;
use vstd::string::StringExecFns;
use crate::error::{ExtractError, MyError};
use crate::request::Request;
use crate::response::{
    html_response, json_text_response, text_response, Response, ResponseView,
    INTERNAL_SERVER_ERROR, OK,
};

verus! {

/// The error type of `serde_json`.
#[verifier::external_type_specification]
#[verifier::external_body]
pub struct ExJsonError(serde_json::Error);

/// The JSON string literal that `serde_json` writes for a text: the text
/// between double quotes, with the escapes that JSON asks for.
pub uninterp spec fn json_string_literal(text: Seq<char>) -> Seq<char>;

/// Whether a text needs no escape in JSON: it holds no double quote, no
/// backslash and no control character below U+0020.
pub open spec fn is_plain(text: Seq<char>) -> bool {
    forall|i: int|
        0 <= i < text.len() ==> {
            let c = #[trigger] text[i];
            c != '"' && c != '\\' && c as u32 >= 0x20
        }
}

/// A text between two double quotes.
pub open spec fn quoted(text: Seq<char>) -> Seq<char> {
    seq!['"'] + text + seq!['"']
}

/// The JSON string literal of a text: a plain text between double quotes,
/// and for any other text what `serde_json` writes.
pub open spec fn json_string(text: Seq<char>) -> Seq<char> {
    if is_plain(text) {
        quoted(text)
    } else {
        json_string_literal(text)
    }
}

/// Encodes a text as a JSON string literal with `serde_json::to_string`.
///
/// Trusted, of that call on a `str`: that it succeeds, since a text is
/// written into a byte vector and neither cause of failure that the crate
/// documents can arise; that the encoding depends on the text alone, so
/// that it can be named by [`json_string_literal`]; and that a text which
/// needs no escape is put between double quotes unchanged.
#[verifier::external_body]
fn encode_json_string(text: &str) -> (r: Result<String, serde_json::Error>)
    ensures
        r is Ok,
        r matches Ok(encoded) ==> encoded@ == json_string_literal(text@),
        r matches Ok(encoded) ==> (is_plain(text@) ==> encoded@ == quoted(text@)),
{
    serde_json::to_string(text)
}

/// The JSON text of an object with the single member `name`.
pub open spec fn name_object(name: Seq<char>) -> Seq<char> {
    "{\"name\":"@ + json_string(name) + "}"@
}

/// The object of a name that needs no escape is the name between quotes,
/// between the braces.
pub proof fn lemma_plain_name_object(name: Seq<char>)
    requires
        is_plain(name),
    ensures
        name_object(name) == "{\"name\":\""@ + name + "\"}"@,
{
    reveal_strlit("{\"name\":");
    reveal_strlit("{\"name\":\"");
    reveal_strlit("}");
    reveal_strlit("\"}");
    assert(name_object(name) =~= "{\"name\":\""@ + name + "\"}"@);
}

/// The object named `user` is the text `{"name":"user"}`.
pub proof fn lemma_user_object()
    ensures
        name_object("user"@) == "{\"name\":\"user\"}"@,
{
    reveal_strlit("user");
    reveal_strlit("{\"name\":\"");
    reveal_strlit("\"}");
    reveal_strlit("{\"name\":\"user\"}");
    assert(is_plain("user"@));
    lemma_plain_name_object("user"@);
    assert("{\"name\":\""@ + "user"@ + "\"}"@ =~= "{\"name\":\"user\"}"@);
}

/// The response for a JSON encoding that succeeded or failed: the encoded
/// text with status 200 and the JSON content type, or the response of an
/// internal error.
pub open spec fn json_reply(encoded: Option<Seq<char>>) -> ResponseView {
    match encoded {
        Some(text) => json_text_response(OK, text),
        None => html_response(INTERNAL_SERVER_ERROR, MyError::InternalError.message_spec()),
    }
}

/// Builds the response for the outcome of a JSON encoding.
pub fn json_response(encoded: Result<String, serde_json::Error>) -> (r: Response)
    ensures
        r@ == json_reply(
            match encoded {
                Ok(text) => Some(text@),
                Err(_) => None,
            },
        ),
{
    match encoded {
        Ok(text) => Response::json(OK, text),
        Err(_) => MyError::InternalError.error_response(),
    }
}

/// Puts an encoded `name` member between the braces of an object. A failed
/// encoding is handed on as it is.
pub fn frame_name_object(member: Result<String, serde_json::Error>) -> (r: Result<
    String,
    serde_json::Error,
>)
    ensures
        match (member, r) {
            (Ok(m), Ok(text)) => text@ == "{\"name\":"@ + m@ + "}"@,
            (Err(e), Err(same)) => same == e,
            _ => false,
        },
{
    match member {
        Ok(m) => {
            let text = String::from_str("{\"name\":").concat(m.as_str()).concat("}");
            Ok(text)
        },
        Err(e) => Err(e),
    }
}

/// A value that is sent as a JSON object.
#[derive(Clone, Copy, Debug)]
pub struct MyObj {
    pub name: &'static str,
}

impl MyObj {
    /// The JSON text of this object.
    pub fn to_json(&self) -> (r: Result<String, serde_json::Error>)
        ensures
            r matches Ok(text) && text@ == name_object(self.name@),
    {
        frame_name_object(encode_json_string(self.name))
    }

    /// The response that carries this object: status 200, JSON content type,
    /// the object's JSON text as the body, whatever the request.
    pub fn respond_to(self, _req: &Request) -> (r: Response)
        ensures
            r@ == json_reply(Some(name_object(self.name@))),
    {
        json_response(self.to_json())
    }
}

/// How JSON bodies are admitted: the longest body that is decoded, and the
/// status under which a body that is too long or cannot be decoded is
/// refused.
#[derive(Clone, Copy, Debug, PartialEq, Eq, Structural)]
pub struct JsonConfig {
    /// The longest body, in bytes, that is decoded.
    pub limit: usize,
    /// The status that is sent in place of 400 where a body is refused.
    pub rejection: Option<u16>,
}

/// The response to a JSON body that was not admitted: a bad request, with
/// its message, under the status that the configuration puts in the place
/// of 400 if it names one.
pub open spec fn json_failure(config: JsonConfig) -> ResponseView {
    text_response(
        match config.rejection {
            Some(status) => status,
            None => ExtractError::BadRequest.status_code_spec(),
        },
        ExtractError::BadRequest.message_spec(),
    )
}

impl JsonConfig {
    /// Decodes bodies of up to `limit` bytes and refuses the others with 400.
    pub fn new(limit: usize) -> (config: JsonConfig)
        ensures
            config == (JsonConfig { limit, rejection: None }),
    {
        JsonConfig { limit, rejection: None }
    }

    /// The same limit, with every refusal sent under this status.
    pub fn reject_with(self, status: u16) -> (config: JsonConfig)
        ensures
            config == (JsonConfig { limit: self.limit, rejection: Some(status) }),
    {
        JsonConfig { limit: self.limit, rejection: Some(status) }
    }

    /// Answers a body that was not admitted.
    pub fn failure(&self) -> (r: Response)
        ensures
            r@ == json_failure(*self),
    {
        let status = match self.rejection {
            Some(status) => status,
            None => ExtractError::BadRequest.status_code(),
        };
        Response::text(status, String::from_str(ExtractError::BadRequest.message()))
    }
}

/// The shape that the body of `POST /json_info` must have.
#[derive(Clone, Debug, PartialEq, Eq)]
pub struct Info {
    pub username: String,
}

/// The one-line greeting of a user.
pub open spec fn welcome(username: Seq<char>) -> Seq<char> {
    "Welcome "@ + username + "!"@
}

/// Renders the greeting of a user.
pub fn render_welcome(username: &str) -> (text: String)
    ensures
        text@ == welcome(username@),
{
    String::from_str("Welcome ").concat(username).concat("!")
}

} // verus!
