use vstd::prelude::*;

verus! {

/// Specify the HTTP method to use
#[derive(Debug, Copy, Clone, PartialEq, Eq, Structural)]
pub enum Method {
    GET,
    POST,
    PUT,
    DELETE,
    HEAD,
    OPTIONS,
    TRACE,
}

/// The methods whose request carries a payload read from a body source.
pub open spec fn spec_sends_body(m: Method) -> bool {
    m == Method::POST || m == Method::PUT
}

pub open spec fn spec_method_name(m: Method) -> Seq<char> {
    match m {
        Method::GET => "GET"@,
        Method::POST => "POST"@,
        Method::PUT => "PUT"@,
        Method::DELETE => "DELETE"@,
        Method::HEAD => "HEAD"@,
        Method::OPTIONS => "OPTIONS"@,
        Method::TRACE => "TRACE"@,
    }
}

impl Method {
    /// The method's name as it stands in the request line.
    pub fn name(&self) -> (r: &'static str)
        ensures
            r@ == spec_method_name(*self),
    {
        match self {
            Method::GET => "GET",
            Method::POST => "POST",
            Method::PUT => "PUT",
            Method::DELETE => "DELETE",
            Method::HEAD => "HEAD",
            Method::OPTIONS => "OPTIONS",
            Method::TRACE => "TRACE",
        }
    }

    /// Whether a request with this method uploads a body: POST and PUT do,
    /// the others attach no body source.
    pub fn sends_body(&self) -> (r: bool)
        ensures
            r == spec_sends_body(*self),
    {
        match self {
            Method::POST | Method::PUT => true,
            _ => false,
        }
    }
}

} // verus!
