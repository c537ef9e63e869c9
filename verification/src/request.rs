//! Requests as handlers see them: the method, the path, the query pairs, the
//! headers and the body, and beside them the parameters that the matched
//! route captured from the path.

use vstd::prelude::*;
use crate::error::ExtractError;
use crate::fields::{first_value, query_pairs, Fields};
use crate::method::Method;
use crate::text::{cut, cut_at_first, parse_u32, u32_value};

verus! {

/// A request, which does not change once it has been received.
#[derive(Debug)]
pub struct Request {
    method: Method,
    path: String,
    query: Fields,
    headers: Fields,
    body: Vec<u8>,
}

/// The mathematical value of a [`Request`].
pub ghost struct RequestView {
    pub method: Method,
    pub path: Seq<char>,
    pub query: Seq<(Seq<char>, Seq<char>)>,
    pub headers: Seq<(Seq<char>, Seq<char>)>,
    pub body: Seq<u8>,
}

impl View for Request {
    type V = RequestView;

    closed spec fn view(&self) -> RequestView {
        RequestView {
            method: self.method,
            path: self.path@,
            query: self.query@,
            headers: self.headers@,
            body: self.body@,
        }
    }
}

/// The value of the request that a method, a request target such as
/// `/show/7?verbose=1`, headers and a body make: the target is cut at its
/// first `?` into the path and the query string.
pub open spec fn request_of(
    method: Method,
    target: Seq<char>,
    headers: Seq<(Seq<char>, Seq<char>)>,
    body: Seq<u8>,
) -> RequestView {
    RequestView {
        method,
        path: cut_at_first(target, '?').0,
        query: query_pairs(cut_at_first(target, '?').1),
        headers,
        body,
    }
}

impl Request {
    /// The request with this method, target, headers and body.
    pub fn new(method: Method, target: &str, headers: Fields, body: Vec<u8>) -> (request: Request)
        ensures
            request@ == request_of(method, target@, headers@, body@),
    {
        let (path, query) = cut(target, '?');
        Request { method, path, query: Fields::parse_query(query.as_str()), headers, body }
    }

    /// The method.
    pub fn method(&self) -> (method: Method)
        ensures
            method == self@.method,
    {
        self.method
    }

    /// The path, without the query string.
    pub fn path(&self) -> (path: &str)
        ensures
            path@ == self@.path,
    {
        self.path.as_str()
    }

    /// The pairs of the query string, in order.
    pub fn query(&self) -> (query: &Fields)
        ensures
            query@ == self@.query,
    {
        &self.query
    }

    /// The headers, in order.
    pub fn headers(&self) -> (headers: &Fields)
        ensures
            headers@ == self@.headers,
    {
        &self.headers
    }

    /// The body, whatever its length.
    pub fn body(&self) -> (body: &Vec<u8>)
        ensures
            body@ == self@.body,
    {
        &self.body
    }

    /// The body, if it is no longer than `limit` bytes.
    pub fn body_within(&self, limit: usize) -> (r: Result<&Vec<u8>, ExtractError>)
        ensures
            match r {
                Ok(body) => self@.body.len() <= limit && body@ == self@.body,
                Err(e) => self@.body.len() > limit && e == ExtractError::PayloadTooLarge,
            },
    {
        if self.body.len() <= limit {
            Ok(&self.body)
        } else {
            Err(ExtractError::PayloadTooLarge)
        }
    }
}

/// What a handler is given: the request, and the parameters that the
/// matched route captured from its path.
#[derive(Debug)]
pub struct Context<'a> {
    request: &'a Request,
    params: Fields,
}

impl<'a> Context<'a> {
    /// The context of `request` under a route that captured `params`.
    pub fn new(request: &'a Request, params: Fields) -> (context: Context<'a>)
        ensures
            context.request_spec() == request@,
            context.params_spec() == params@,
    {
        Context { request, params }
    }

    /// The request.
    pub closed spec fn request_spec(&self) -> RequestView {
        self.request@
    }

    /// The captured parameters, in the order of the pattern.
    pub closed spec fn params_spec(&self) -> Seq<(Seq<char>, Seq<char>)> {
        self.params@
    }

    /// The request.
    pub fn request(&self) -> (request: &'a Request)
        ensures
            request@ == self.request_spec(),
    {
        self.request
    }

    /// The captured parameters, as text.
    pub fn params(&self) -> (params: &Fields)
        ensures
            params@ == self.params_spec(),
    {
        &self.params
    }

    /// The pairs of the query string.
    pub fn query(&self) -> (query: &Fields)
        ensures
            query@ == self.request_spec().query,
    {
        self.request.query()
    }

    /// The body, if it is no longer than `limit` bytes.
    pub fn body_within(&self, limit: usize) -> (r: Result<&Vec<u8>, ExtractError>)
        ensures
            match r {
                Ok(body) => self.request_spec().body.len() <= limit && body@
                    == self.request_spec().body,
                Err(e) => self.request_spec().body.len() > limit && e
                    == ExtractError::PayloadTooLarge,
            },
    {
        self.request.body_within(limit)
    }
}

/// The number that the parameter at `index` holds, if there is such a
/// parameter and it is a 32-bit unsigned number.
pub open spec fn number_at(params: Seq<(Seq<char>, Seq<char>)>, index: int) -> Option<u32> {
    if 0 <= index < params.len() {
        u32_value(params[index].1)
    } else {
        None
    }
}

/// The number that the first parameter named `name` holds, if there is such
/// a parameter and it is a 32-bit unsigned number.
pub open spec fn number_named(params: Seq<(Seq<char>, Seq<char>)>, name: Seq<char>) -> Option<u32> {
    match first_value(params, name) {
        Some(text) => u32_value(text),
        None => None,
    }
}

/// Reads the parameter at `index` as a 32-bit unsigned number. A missing
/// parameter and one that is no such number are bad requests.
pub fn param_u32_at(params: &Fields, index: usize) -> (r: Result<u32, ExtractError>)
    ensures
        match r {
            Ok(n) => number_at(params@, index as int) == Some(n),
            Err(e) => number_at(params@, index as int) is None && e == ExtractError::BadRequest,
        },
{
    if index >= params.len() {
        return Err(ExtractError::BadRequest);
    }
    match parse_u32(params.value_at(index).as_str()) {
        Some(n) => Ok(n),
        None => Err(ExtractError::BadRequest),
    }
}

/// Reads the first parameter named `name` as a 32-bit unsigned number. A
/// missing parameter and one that is no such number are bad requests.
pub fn param_u32(params: &Fields, name: &str) -> (r: Result<u32, ExtractError>)
    ensures
        match r {
            Ok(n) => number_named(params@, name@) == Some(n),
            Err(e) => number_named(params@, name@) is None && e == ExtractError::BadRequest,
        },
{
    match params.get(name) {
        Some(text) => match parse_u32(text.as_str()) {
            Some(n) => Ok(n),
            None => Err(ExtractError::BadRequest),
        },
        None => Err(ExtractError::BadRequest),
    }
}

/// The text of the parameter at `index`, if there is one.
pub open spec fn text_at(params: Seq<(Seq<char>, Seq<char>)>, index: int) -> Option<Seq<char>> {
    if 0 <= index < params.len() {
        Some(params[index].1)
    } else {
        None
    }
}

/// The text of the parameter at `index`. A missing parameter is a bad request.
pub fn param_at(params: &Fields, index: usize) -> (r: Result<&String, ExtractError>)
    ensures
        match r {
            Ok(text) => text_at(params@, index as int) == Some(text@),
            Err(e) => text_at(params@, index as int) is None && e == ExtractError::BadRequest,
        },
{
    if index < params.len() {
        Ok(params.value_at(index))
    } else {
        Err(ExtractError::BadRequest)
    }
}

} // verus!
