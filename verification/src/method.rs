//! Request methods.

use vstd::prelude::*;
use crate::text::same_text;

verus! {

/// The method of a request or of a route.
#[derive(Clone, Copy, Debug, PartialEq, Eq, Structural)]
pub enum Method {
    Get,
    Post,
    Head,
    Put,
    Delete,
    Patch,
    Options,
}

/// The method that an upper-case method name stands for, if any.
pub open spec fn method_named(name: Seq<char>) -> Option<Method> {
    if name == "GET"@ {
        Some(Method::Get)
    } else if name == "POST"@ {
        Some(Method::Post)
    } else if name == "HEAD"@ {
        Some(Method::Head)
    } else if name == "PUT"@ {
        Some(Method::Put)
    } else if name == "DELETE"@ {
        Some(Method::Delete)
    } else if name == "PATCH"@ {
        Some(Method::Patch)
    } else if name == "OPTIONS"@ {
        Some(Method::Options)
    } else {
        None
    }
}

impl Method {
    /// The method's upper-case name.
    pub open spec fn name_spec(self) -> Seq<char> {
        match self {
            Method::Get => "GET"@,
            Method::Post => "POST"@,
            Method::Head => "HEAD"@,
            Method::Put => "PUT"@,
            Method::Delete => "DELETE"@,
            Method::Patch => "PATCH"@,
            Method::Options => "OPTIONS"@,
        }
    }

    /// The method's upper-case name.
    pub fn name(self) -> (s: &'static str)
        ensures
            s@ == self.name_spec(),
    {
        match self {
            Method::Get => "GET",
            Method::Post => "POST",
            Method::Head => "HEAD",
            Method::Put => "PUT",
            Method::Delete => "DELETE",
            Method::Patch => "PATCH",
            Method::Options => "OPTIONS",
        }
    }

    /// Reads an upper-case method name. Names are case-sensitive.
    pub fn parse(name: &str) -> (m: Option<Method>)
        ensures
            m == method_named(name@),
    {
        if same_text(name, "GET") {
            Some(Method::Get)
        } else if same_text(name, "POST") {
            Some(Method::Post)
        } else if same_text(name, "HEAD") {
            Some(Method::Head)
        } else if same_text(name, "PUT") {
            Some(Method::Put)
        } else if same_text(name, "DELETE") {
            Some(Method::Delete)
        } else if same_text(name, "PATCH") {
            Some(Method::Patch)
        } else if same_text(name, "OPTIONS") {
            Some(Method::Options)
        } else {
            None
        }
    }
}

} // verus!
