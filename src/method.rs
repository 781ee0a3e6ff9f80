//! HTTP methods.
use vstd::prelude::*;

verus! {

/// The HTTP methods an operation can be registered for.
#[derive(Clone, Copy, Debug, PartialEq, Eq, Hash, Structural)]
pub enum HttpMethod {
    Get,
    Post,
    Put,
    Delete,
    Head,
    Options,
    Patch,
    Trace,
}

/// The name of a method, in capitals.
pub open spec fn method_name(m: HttpMethod) -> Seq<char> {
    match m {
        HttpMethod::Get => "GET"@,
        HttpMethod::Post => "POST"@,
        HttpMethod::Put => "PUT"@,
        HttpMethod::Delete => "DELETE"@,
        HttpMethod::Head => "HEAD"@,
        HttpMethod::Options => "OPTIONS"@,
        HttpMethod::Patch => "PATCH"@,
        HttpMethod::Trace => "TRACE"@,
    }
}

impl HttpMethod {
    /// The method's name, in capitals.
    pub fn as_str(&self) -> (r: &'static str)
        ensures
            r@ == method_name(*self),
    {
        match self {
            HttpMethod::Get => "GET",
            HttpMethod::Post => "POST",
            HttpMethod::Put => "PUT",
            HttpMethod::Delete => "DELETE",
            HttpMethod::Head => "HEAD",
            HttpMethod::Options => "OPTIONS",
            HttpMethod::Patch => "PATCH",
            HttpMethod::Trace => "TRACE",
        }
    }
}

/// An HTTP request method.
#[derive(Clone, Copy, Debug, PartialEq, Eq, Hash, Structural)]
pub enum Method {
    Get,
    Post,
    Put,
    Delete,
    Head,
    Options,
    Patch,
    Trace,
}

impl Method {
    /// The same method as an [`HttpMethod`].
    pub fn http_method(&self) -> (r: HttpMethod)
        ensures
            method_name(r) == method_name_of(*self),
    {
        match self {
            Method::Get => HttpMethod::Get,
            Method::Post => HttpMethod::Post,
            Method::Put => HttpMethod::Put,
            Method::Delete => HttpMethod::Delete,
            Method::Head => HttpMethod::Head,
            Method::Options => HttpMethod::Options,
            Method::Patch => HttpMethod::Patch,
            Method::Trace => HttpMethod::Trace,
        }
    }

    /// The method's name, in capitals.
    pub fn as_str(&self) -> (r: &'static str)
        ensures
            r@ == method_name_of(*self),
    {
        self.http_method().as_str()
    }
}

/// The name of a request method, in capitals.
pub open spec fn method_name_of(m: Method) -> Seq<char> {
    match m {
        Method::Get => "GET"@,
        Method::Post => "POST"@,
        Method::Put => "PUT"@,
        Method::Delete => "DELETE"@,
        Method::Head => "HEAD"@,
        Method::Options => "OPTIONS"@,
        Method::Patch => "PATCH"@,
        Method::Trace => "TRACE"@,
    }
}

} // verus!
