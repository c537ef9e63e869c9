//! Errors that a handler reports in place of a response, and the mapping of
//! each to a status code and a rendered message.

use vstd::prelude::*;
use vstd::string::StringExecFns;
use crate::response::{
    html_response, is_client_error, is_server_error, text_response, Response, ResponseView,
    BAD_REQUEST, GATEWAY_TIMEOUT, INTERNAL_SERVER_ERROR, PAYLOAD_TOO_LARGE,
};

verus! {

/// The message of an error that carries a name: `my error: ` and the name.
pub open spec fn named_message(name: Seq<char>) -> Seq<char> {
    "my error: "@ + name
}

/// Renders the message of an error that carries a name.
fn render_named_message(name: &str) -> (message: String)
    ensures
        message@ == named_message(name@),
{
    String::from_str("my error: ").concat(name)
}

/// An error with a name and no status of its own: it maps to 500.
#[derive(Clone, Copy, Debug)]
pub struct MyErrorStruct {
    pub name: &'static str,
}

impl MyErrorStruct {
    /// The status code of this error.
    pub fn status_code(&self) -> (status: u16)
        ensures
            status == INTERNAL_SERVER_ERROR,
    {
        INTERNAL_SERVER_ERROR
    }

    /// The rendered message.
    pub fn message(&self) -> (message: String)
        ensures
            message@ == named_message(self.name@),
    {
        render_named_message(self.name)
    }

    /// The response that reports this error: its status, its message as
    /// plain text.
    pub fn error_response(&self) -> (r: Response)
        ensures
            r@ == text_response(INTERNAL_SERVER_ERROR, named_message(self.name@)),
    {
        Response::text(self.status_code(), self.message())
    }
}

/// An error with a name that is written to the log when it is raised. It maps
/// to 500.
#[derive(Clone, Copy, Debug)]
pub struct MyErrorLog {
    name: &'static str,
}

impl MyErrorLog {
    /// The error of this name.
    pub fn new(name: &'static str) -> (e: MyErrorLog)
        ensures
            e.name_spec() == name@,
    {
        MyErrorLog { name }
    }

    /// The error's name.
    pub closed spec fn name_spec(&self) -> Seq<char> {
        self.name@
    }

    /// The error's name.
    pub fn name(&self) -> (name: &'static str)
        ensures
            name@ == self.name_spec(),
    {
        self.name
    }

    /// The status code of this error.
    pub fn status_code(&self) -> (status: u16)
        ensures
            status == INTERNAL_SERVER_ERROR,
    {
        INTERNAL_SERVER_ERROR
    }

    /// The rendered message, which is also the line to log.
    pub fn message(&self) -> (message: String)
        ensures
            message@ == named_message(self.name_spec()),
    {
        render_named_message(self.name)
    }

    /// The response that reports this error: its status, its message as
    /// plain text.
    pub fn error_response(&self) -> (r: Response)
        ensures
            r@ == text_response(INTERNAL_SERVER_ERROR, named_message(self.name_spec())),
    {
        Response::text(self.status_code(), self.message())
    }
}

/// The errors that handlers declare, each with a fixed status code.
#[derive(Clone, Copy, Debug, PartialEq, Eq, Structural)]
pub enum MyError {
    InternalError,
    BadClientData,
    Timeout,
}

impl MyError {
    /// The status code that each variant maps to.
    pub open spec fn status_code_spec(self) -> u16 {
        match self {
            MyError::InternalError => INTERNAL_SERVER_ERROR,
            MyError::BadClientData => BAD_REQUEST,
            MyError::Timeout => GATEWAY_TIMEOUT,
        }
    }

    /// The message of each variant.
    pub open spec fn message_spec(self) -> Seq<char> {
        match self {
            MyError::InternalError => "internal error"@,
            MyError::BadClientData => "bad request"@,
            MyError::Timeout => "timeout"@,
        }
    }

    /// The status code of this error.
    pub fn status_code(&self) -> (status: u16)
        ensures
            status == self.status_code_spec(),
    {
        match *self {
            MyError::InternalError => INTERNAL_SERVER_ERROR,
            MyError::BadClientData => BAD_REQUEST,
            MyError::Timeout => GATEWAY_TIMEOUT,
        }
    }

    /// The rendered message.
    pub fn message(&self) -> (message: &'static str)
        ensures
            message@ == self.message_spec(),
    {
        match *self {
            MyError::InternalError => "internal error",
            MyError::BadClientData => "bad request",
            MyError::Timeout => "timeout",
        }
    }

    /// The response that reports this error: its status, its message as HTML.
    pub fn error_response(&self) -> (r: Response)
        ensures
            r@ == html_response(self.status_code_spec(), self.message_spec()),
    {
        Response::html(self.status_code(), String::from_str(self.message()))
    }
}

/// Why a value could not be extracted from a request.
#[derive(Clone, Copy, Debug, PartialEq, Eq, Structural)]
pub enum ExtractError {
    /// A parameter is missing or does not parse as what the handler expects.
    BadRequest,
    /// The body is longer than the configured limit.
    PayloadTooLarge,
}

impl ExtractError {
    /// The status code that each variant maps to.
    pub open spec fn status_code_spec(self) -> u16 {
        match self {
            ExtractError::BadRequest => BAD_REQUEST,
            ExtractError::PayloadTooLarge => PAYLOAD_TOO_LARGE,
        }
    }

    /// The message of each variant.
    pub open spec fn message_spec(self) -> Seq<char> {
        match self {
            ExtractError::BadRequest => "bad request"@,
            ExtractError::PayloadTooLarge => "payload too large"@,
        }
    }

    /// The status code of this error.
    pub fn status_code(&self) -> (status: u16)
        ensures
            status == self.status_code_spec(),
    {
        match *self {
            ExtractError::BadRequest => BAD_REQUEST,
            ExtractError::PayloadTooLarge => PAYLOAD_TOO_LARGE,
        }
    }

    /// The rendered message.
    pub fn message(&self) -> (message: &'static str)
        ensures
            message@ == self.message_spec(),
    {
        match *self {
            ExtractError::BadRequest => "bad request",
            ExtractError::PayloadTooLarge => "payload too large",
        }
    }

    /// The response that reports this error: its status, its message as
    /// plain text.
    pub fn error_response(&self) -> (r: Response)
        ensures
            r@ == text_response(self.status_code_spec(), self.message_spec()),
    {
        Response::text(self.status_code(), String::from_str(self.message()))
    }
}

/// What a handler reports in place of a response: one of the errors above.
#[derive(Clone, Copy, Debug)]
pub enum HandlerError {
    /// A declared error, rendered as HTML.
    Declared(MyError),
    /// A named error, rendered as plain text.
    Named(MyErrorStruct),
    /// A named error that was logged, rendered as plain text.
    Logged(MyErrorLog),
    /// A failed extraction, rendered as plain text.
    Extract(ExtractError),
}

/// The mathematical value of a [`HandlerError`].
pub ghost enum HandlerErrorView {
    Declared(MyError),
    Named(Seq<char>),
    Logged(Seq<char>),
    Extract(ExtractError),
}

impl View for HandlerError {
    type V = HandlerErrorView;

    open spec fn view(&self) -> HandlerErrorView {
        match self {
            HandlerError::Declared(e) => HandlerErrorView::Declared(*e),
            HandlerError::Named(e) => HandlerErrorView::Named(e.name@),
            HandlerError::Logged(e) => HandlerErrorView::Logged(e.name_spec()),
            HandlerError::Extract(e) => HandlerErrorView::Extract(*e),
        }
    }
}

/// The status code that an error maps to.
pub open spec fn error_status(error: HandlerErrorView) -> u16 {
    match error {
        HandlerErrorView::Declared(e) => e.status_code_spec(),
        HandlerErrorView::Named(_) => INTERNAL_SERVER_ERROR,
        HandlerErrorView::Logged(_) => INTERNAL_SERVER_ERROR,
        HandlerErrorView::Extract(e) => e.status_code_spec(),
    }
}

/// The message that an error renders.
pub open spec fn error_message(error: HandlerErrorView) -> Seq<char> {
    match error {
        HandlerErrorView::Declared(e) => e.message_spec(),
        HandlerErrorView::Named(name) => named_message(name),
        HandlerErrorView::Logged(name) => named_message(name),
        HandlerErrorView::Extract(e) => e.message_spec(),
    }
}

/// The response that reports an error: its status and its message, as HTML
/// for a declared error and as plain text for every other.
pub open spec fn error_reply(error: HandlerErrorView) -> ResponseView {
    match error {
        HandlerErrorView::Declared(_) => html_response(error_status(error), error_message(error)),
        _ => text_response(error_status(error), error_message(error)),
    }
}

impl HandlerError {
    /// The status code of this error.
    pub fn status_code(&self) -> (status: u16)
        ensures
            status == error_status(self@),
    {
        match self {
            HandlerError::Declared(e) => e.status_code(),
            HandlerError::Named(e) => e.status_code(),
            HandlerError::Logged(e) => e.status_code(),
            HandlerError::Extract(e) => e.status_code(),
        }
    }

    /// The rendered message.
    pub fn message(&self) -> (message: String)
        ensures
            message@ == error_message(self@),
    {
        match self {
            HandlerError::Declared(e) => String::from_str(e.message()),
            HandlerError::Named(e) => e.message(),
            HandlerError::Logged(e) => e.message(),
            HandlerError::Extract(e) => String::from_str(e.message()),
        }
    }

    /// Maps the error to the response that reports it.
    pub fn error_response(&self) -> (r: Response)
        ensures
            r@ == error_reply(self@),
    {
        match self {
            HandlerError::Declared(e) => e.error_response(),
            HandlerError::Named(e) => e.error_response(),
            HandlerError::Logged(e) => e.error_response(),
            HandlerError::Extract(e) => e.error_response(),
        }
    }
}

/// No error is reported as a success: every error maps to a client or
/// server error status, and its message is not empty.
pub proof fn lemma_errors_map_to_error_statuses(error: HandlerErrorView)
    ensures
        is_client_error(error_status(error)) || is_server_error(error_status(error)),
        error_message(error).len() > 0,
        error_reply(error).status == error_status(error),
{
    reveal_strlit("internal error");
    reveal_strlit("bad request");
    reveal_strlit("timeout");
    reveal_strlit("payload too large");
    reveal_strlit("my error: ");
}

/// Every extraction error maps to a client error status and renders a
/// message that is not empty.
pub proof fn lemma_extract_errors_are_client_errors(e: ExtractError)
    ensures
        is_client_error(e.status_code_spec()),
        e.message_spec().len() > 0,
{
    reveal_strlit("bad request");
    reveal_strlit("payload too large");
}

} // verus!
