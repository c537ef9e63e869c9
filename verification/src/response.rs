//! Responses: a status code, a content type and a body.

use vstd::prelude::*;
use vstd::string::StringExecFns;
use crate::fields::Fields;

verus! {

/// 200 OK.
pub const OK: u16 = 200;

/// 400 Bad Request.
pub const BAD_REQUEST: u16 = 400;

/// 404 Not Found.
pub const NOT_FOUND: u16 = 404;

/// 405 Method Not Allowed.
pub const METHOD_NOT_ALLOWED: u16 = 405;

/// 409 Conflict.
pub const CONFLICT: u16 = 409;

/// 413 Payload Too Large.
pub const PAYLOAD_TOO_LARGE: u16 = 413;

/// 500 Internal Server Error.
pub const INTERNAL_SERVER_ERROR: u16 = 500;

/// 504 Gateway Timeout.
pub const GATEWAY_TIMEOUT: u16 = 504;

/// Whether a status code reports success (2xx).
pub open spec fn is_success(status: u16) -> bool {
    200 <= status < 300
}

/// Whether a status code reports a client error (4xx).
pub open spec fn is_client_error(status: u16) -> bool {
    400 <= status < 500
}

/// Whether a status code reports a server error (5xx).
pub open spec fn is_server_error(status: u16) -> bool {
    500 <= status < 600
}

/// The format of a response body.
#[derive(Clone, Copy, Debug, PartialEq, Eq, Structural)]
pub enum ContentType {
    /// `text/plain; charset=utf-8`
    PlainText,
    /// `text/html; charset=utf-8`
    Html,
    /// `application/json`
    Json,
    /// `application/octet-stream`
    OctetStream,
}

impl ContentType {
    /// The value of the `content-type` header for this format.
    pub open spec fn header_value_spec(self) -> Seq<char> {
        match self {
            ContentType::PlainText => "text/plain; charset=utf-8"@,
            ContentType::Html => "text/html; charset=utf-8"@,
            ContentType::Json => "application/json"@,
            ContentType::OctetStream => "application/octet-stream"@,
        }
    }

    /// The value of the `content-type` header for this format.
    pub fn header_value(self) -> (value: &'static str)
        ensures
            value@ == self.header_value_spec(),
    {
        match self {
            ContentType::PlainText => "text/plain; charset=utf-8",
            ContentType::Html => "text/html; charset=utf-8",
            ContentType::Json => "application/json",
            ContentType::OctetStream => "application/octet-stream",
        }
    }
}

/// The body of a response.
#[derive(Clone, Debug, PartialEq, Eq)]
pub enum Body {
    /// No body.
    Empty,
    /// Raw bytes, sent as they are.
    Bytes(Vec<u8>),
    /// Text, sent in UTF-8.
    Text(String),
}

/// The mathematical value of a [`Body`].
pub ghost enum BodyView {
    Empty,
    Bytes(Seq<u8>),
    Text(Seq<char>),
}

impl View for Body {
    type V = BodyView;

    open spec fn view(&self) -> BodyView {
        match self {
            Body::Empty => BodyView::Empty,
            Body::Bytes(bytes) => BodyView::Bytes(bytes@),
            Body::Text(text) => BodyView::Text(text@),
        }
    }
}

/// A response, made afresh for each request.
#[derive(Clone, Debug, PartialEq, Eq)]
pub struct Response {
    pub status: u16,
    pub content_type: ContentType,
    pub body: Body,
}

/// The mathematical value of a [`Response`].
pub ghost struct ResponseView {
    pub status: u16,
    pub content_type: ContentType,
    pub body: BodyView,
}

impl View for Response {
    type V = ResponseView;

    open spec fn view(&self) -> ResponseView {
        ResponseView { status: self.status, content_type: self.content_type, body: self.body@ }
    }
}

/// The value of a plain-text response.
pub open spec fn text_response(status: u16, text: Seq<char>) -> ResponseView {
    ResponseView { status, content_type: ContentType::PlainText, body: BodyView::Text(text) }
}

/// The value of an HTML response.
pub open spec fn html_response(status: u16, text: Seq<char>) -> ResponseView {
    ResponseView { status, content_type: ContentType::Html, body: BodyView::Text(text) }
}

/// The value of a response that carries already encoded JSON.
pub open spec fn json_text_response(status: u16, encoded: Seq<char>) -> ResponseView {
    ResponseView { status, content_type: ContentType::Json, body: BodyView::Text(encoded) }
}

/// The value of a response that sends bytes back as plain text.
pub open spec fn bytes_response(status: u16, bytes: Seq<u8>) -> ResponseView {
    ResponseView { status, content_type: ContentType::PlainText, body: BodyView::Bytes(bytes) }
}

/// The value of a response without a body.
pub open spec fn empty_response(status: u16) -> ResponseView {
    ResponseView { status, content_type: ContentType::PlainText, body: BodyView::Empty }
}

impl Response {
    /// A plain-text response.
    pub fn text(status: u16, text: String) -> (r: Response)
        ensures
            r@ == text_response(status, text@),
    {
        Response { status, content_type: ContentType::PlainText, body: Body::Text(text) }
    }

    /// A plain-text response with the status 200.
    pub fn ok_text(text: &str) -> (r: Response)
        ensures
            r@ == text_response(OK, text@),
    {
        Response::text(OK, String::from_str(text))
    }

    /// An HTML response.
    pub fn html(status: u16, text: String) -> (r: Response)
        ensures
            r@ == html_response(status, text@),
    {
        Response { status, content_type: ContentType::Html, body: Body::Text(text) }
    }

    /// A response whose body is JSON that has been encoded already.
    pub fn json(status: u16, encoded: String) -> (r: Response)
        ensures
            r@ == json_text_response(status, encoded@),
    {
        Response { status, content_type: ContentType::Json, body: Body::Text(encoded) }
    }

    /// A response that sends `bytes` as they are, declared as plain text.
    pub fn bytes(status: u16, bytes: Vec<u8>) -> (r: Response)
        ensures
            r@ == bytes_response(status, bytes@),
    {
        Response { status, content_type: ContentType::PlainText, body: Body::Bytes(bytes) }
    }

    /// A response without a body.
    pub fn empty(status: u16) -> (r: Response)
        ensures
            r@ == empty_response(status),
    {
        Response { status, content_type: ContentType::PlainText, body: Body::Empty }
    }

    /// Whether the response reports success.
    pub fn is_success(&self) -> (r: bool)
        ensures
            r == is_success(self@.status),
    {
        200 <= self.status && self.status < 300
    }

    /// Whether the response reports a client error.
    pub fn is_client_error(&self) -> (r: bool)
        ensures
            r == is_client_error(self@.status),
    {
        400 <= self.status && self.status < 500
    }

    /// Whether the response reports a server error.
    pub fn is_server_error(&self) -> (r: bool)
        ensures
            r == is_server_error(self@.status),
    {
        500 <= self.status && self.status < 600
    }

    /// The headers of the response: always exactly one `content-type`.
    pub fn headers(&self) -> (headers: Fields)
        ensures
            headers@ == seq![("content-type"@, self@.content_type.header_value_spec())],
    {
        let mut headers = Fields::new();
        headers.push(String::from_str("content-type"), String::from_str(self.content_type.header_value()));
        assert(headers@ =~= seq![("content-type"@, self@.content_type.header_value_spec())]);
        headers
    }
}

} // verus!
