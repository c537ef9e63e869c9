//! What a handler may hand back, and the one conversion of each into a
//! response.

use vstd::prelude::*;
use crate::error::{error_reply, HandlerError, HandlerErrorView};
use crate::json::{json_reply, name_object, MyObj};
use crate::request::Request;
use crate::response::{bytes_response, text_response, Response, ResponseView, OK};

verus! {

/// What a handler hands back.
#[derive(Debug)]
pub enum Reply {
    /// A response, sent as it is.
    Ready(Response),
    /// Bytes, sent with the status 200.
    Bytes(Vec<u8>),
    /// Text, sent as plain text with the status 200.
    Text(String),
    /// An object, sent as JSON with the status 200.
    Json(MyObj),
    /// An error, sent as its own response.
    Failed(HandlerError),
}

/// The mathematical value of a [`Reply`].
pub ghost enum ReplyView {
    Ready(ResponseView),
    Bytes(Seq<u8>),
    Text(Seq<char>),
    Json(Seq<char>),
    Failed(HandlerErrorView),
}

impl View for Reply {
    type V = ReplyView;

    open spec fn view(&self) -> ReplyView {
        match self {
            Reply::Ready(response) => ReplyView::Ready(response@),
            Reply::Bytes(bytes) => ReplyView::Bytes(bytes@),
            Reply::Text(text) => ReplyView::Text(text@),
            Reply::Json(obj) => ReplyView::Json(obj.name@),
            Reply::Failed(error) => ReplyView::Failed(error@),
        }
    }
}

/// The response that a reply becomes.
pub open spec fn reply_response(reply: ReplyView) -> ResponseView {
    match reply {
        ReplyView::Ready(response) => response,
        ReplyView::Bytes(bytes) => bytes_response(OK, bytes),
        ReplyView::Text(text) => text_response(OK, text),
        ReplyView::Json(name) => json_reply(Some(name_object(name))),
        ReplyView::Failed(error) => error_reply(error),
    }
}

impl Reply {
    /// Turns the reply into the response to `request`.
    pub fn respond_to(self, request: &Request) -> (r: Response)
        ensures
            r@ == reply_response(self@),
    {
        match self {
            Reply::Ready(response) => response,
            Reply::Bytes(bytes) => Response::bytes(OK, bytes),
            Reply::Text(text) => Response::text(OK, text),
            Reply::Json(obj) => obj.respond_to(request),
            Reply::Failed(error) => error.error_response(),
        }
    }
}

} // verus!
