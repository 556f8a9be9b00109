//! Building a request: method, URL, header lines, body source and policy.
use crate::method::Method;
use crate::number::{decimal, decimal_bytes};
use crate::url::Url;
use vstd::prelude::*;
use vstd::slice::slice_to_vec;

verus! {

#[verifier::external_type_specification]
#[verifier::external_body]
pub struct ExEmpty(std::io::Empty);

/// The number of redirects a new request follows.
pub const DEFAULT_REDIRECT_LIMIT: usize = 10;

/// The bytes of `Content-Length`.
pub open spec fn content_length_name() -> Seq<u8> {
    seq![67u8, 111, 110, 116, 101, 110, 116, 45, 76, 101, 110, 103, 116, 104]
}

/// The raw header line that sends `value` under `name`: the name, a colon and
/// a space, then the value.
pub open spec fn header_line(name: Seq<u8>, value: Seq<u8>) -> Seq<u8> {
    name + seq![58u8, 32u8] + value
}

/// What a request holds, apart from its body source.
pub struct RequestView {
    pub method: Method,
    pub url: Seq<char>,
    pub header_lines: Seq<Seq<u8>>,
    pub redirect_limit: Option<usize>,
}

/// A new request: no header line, and the default redirect limit.
pub open spec fn fresh_request(method: Method, url: Seq<char>) -> RequestView {
    RequestView {
        method,
        url,
        header_lines: Seq::empty(),
        redirect_limit: Some(DEFAULT_REDIRECT_LIMIT),
    }
}

/// An unsent request.
///
/// The request owns its header lines and its body source `B` until it is
/// sent; a request without a body has `std::io::Empty` there and no source.
pub struct Request<B> {
    method: Method,
    url: Url,
    headers: Vec<Vec<u8>>,
    redirect_limit: Option<usize>,
    body: Option<B>,
}

impl<B> View for Request<B> {
    type V = RequestView;

    closed spec fn view(&self) -> RequestView {
        RequestView {
            method: self.method,
            url: self.url@,
            header_lines: self.headers@.map_values(|l: Vec<u8>| l@),
            redirect_limit: self.redirect_limit,
        }
    }
}

impl Request<std::io::Empty> {
    /// Creates a request for a method and URL, with no header, no body
    /// source, and the default redirect limit.
    pub fn new(method: Method, url: Url) -> (r: Request<std::io::Empty>)
        ensures
            r@ == fresh_request(method, url@),
            r.spec_body() is None,
    {
        let r = Request {
            method,
            url,
            headers: Vec::new(),
            redirect_limit: Some(DEFAULT_REDIRECT_LIMIT),
            body: None,
        };
        assert(r@.header_lines =~= Seq::<Seq<u8>>::empty());
        assert(r@ == fresh_request(method, url@));
        r
    }

    /// Creates a GET request.
    pub fn get(url: Url) -> (r: Request<std::io::Empty>)
        ensures
            r@ == fresh_request(Method::GET, url@),
            r.spec_body() is None,
    {
        Self::new(Method::GET, url)
    }

    /// Creates a POST request; its payload is given with `body`.
    pub fn post(url: Url) -> (r: Request<std::io::Empty>)
        ensures
            r@ == fresh_request(Method::POST, url@),
            r.spec_body() is None,
    {
        Self::new(Method::POST, url)
    }

    /// Creates a PUT request; its payload is given with `body`.
    pub fn put(url: Url) -> (r: Request<std::io::Empty>)
        ensures
            r@ == fresh_request(Method::PUT, url@),
            r.spec_body() is None,
    {
        Self::new(Method::PUT, url)
    }
}

impl<B> Request<B> {
    /// The body source, if one was given.
    pub closed spec fn spec_body(&self) -> Option<B> {
        self.body
    }

    /// Adds one header line; a name may be given several times, and each
    /// line is sent.
    pub fn set_header(&mut self, name: &[u8], value: &[u8])
        ensures
            final(self)@ == (RequestView {
                header_lines: old(self)@.header_lines.push(header_line(name@, value@)),
                ..old(self)@
            }),
            final(self).spec_body() == old(self).spec_body(),
    {
        let mut line = slice_to_vec(name);
        line.push(58u8);
        line.push(32u8);
        let mut i: usize = 0;
        while i < value.len()
            invariant
                i <= value@.len(),
                line@ == name@ + seq![58u8, 32u8] + value@.subrange(0, i as int),
            decreases value@.len() - i,
        {
            line.push(value[i]);
            assert(value@.subrange(0, i + 1) =~= value@.subrange(0, i as int).push(value@[i as int]));
            assert(line@ =~= name@ + seq![58u8, 32u8] + value@.subrange(0, i + 1));
            i = i + 1;
        }
        assert(value@.subrange(0, value@.len() as int) =~= value@);
        self.headers.push(line);
        assert(final(self)@.header_lines =~= old(self)@.header_lines.push(header_line(name@, value@)));
    }

    /// Builder form of `set_header`.
    pub fn header(self, name: &[u8], value: &[u8]) -> (r: Self)
        ensures
            r@ == (RequestView {
                header_lines: self@.header_lines.push(header_line(name@, value@)),
                ..self@
            }),
            r.spec_body() == self.spec_body(),
    {
        let mut r = self;
        r.set_header(name, value);
        r
    }

    /// Sends `l` as the `Content-Length` header: the number of bytes the
    /// body source is expected to give.
    pub fn set_content_length(&mut self, l: u64)
        ensures
            final(self)@ == (RequestView {
                header_lines: old(self)@.header_lines.push(
                    header_line(content_length_name(), decimal(l as nat)),
                ),
                ..old(self)@
            }),
            final(self).spec_body() == old(self).spec_body(),
    {
        let name: Vec<u8> = vec![67u8, 111, 110, 116, 101, 110, 116, 45, 76, 101, 110, 103, 116, 104];
        assert(name@ =~= content_length_name());
        let value = decimal_bytes(l);
        self.set_header(name.as_slice(), value.as_slice());
    }

    /// Builder form of `set_content_length`.
    pub fn content_length(self, l: u64) -> (r: Self)
        ensures
            r@ == (RequestView {
                header_lines: self@.header_lines.push(
                    header_line(content_length_name(), decimal(l as nat)),
                ),
                ..self@
            }),
            r.spec_body() == self.spec_body(),
    {
        let mut r = self;
        r.set_content_length(l);
        r
    }

    /// Sets the source the payload is read from.
    pub fn set_body(&mut self, source: B)
        ensures
            final(self)@ == old(self)@,
            final(self).spec_body() == Some(source),
    {
        self.body = Some(source);
    }

    /// Gives the request a body source of another type; the request then
    /// owns it until it is sent.
    pub fn body<C>(self, source: C) -> (r: Request<C>)
        ensures
            r@ == self@,
            r.spec_body() == Some(source),
    {
        Request {
            method: self.method,
            url: self.url,
            headers: self.headers,
            redirect_limit: self.redirect_limit,
            body: Some(source),
        }
    }

    /// Sets how many redirects are followed: `Some(n)` follows up to `n`,
    /// and one more fails the transfer; `None` follows none, and a redirect
    /// response is handed back as it is.
    pub fn set_redirect_limit(&mut self, n: Option<usize>)
        ensures
            final(self)@ == (RequestView { redirect_limit: n, ..old(self)@ }),
            final(self).spec_body() == old(self).spec_body(),
    {
        self.redirect_limit = n;
    }

    /// Builder form of `set_redirect_limit`.
    pub fn redirect_limit(self, n: Option<usize>) -> (r: Self)
        ensures
            r@ == (RequestView { redirect_limit: n, ..self@ }),
            r.spec_body() == self.spec_body(),
    {
        let mut r = self;
        r.set_redirect_limit(n);
        r
    }

    pub fn method(&self) -> (m: Method)
        ensures
            m == self@.method,
    {
        self.method
    }

    pub fn url(&self) -> (u: &Url)
        ensures
            u@ == self@.url,
    {
        &self.url
    }

    /// The header lines, in the order they were added.
    pub fn header_lines(&self) -> (h: &Vec<Vec<u8>>)
        ensures
            h@.map_values(|l: Vec<u8>| l@) == self@.header_lines,
    {
        &self.headers
    }

    pub fn max_redirects(&self) -> (n: Option<usize>)
        ensures
            n == self@.redirect_limit,
    {
        self.redirect_limit
    }

    /// Takes the body source out, to hand it to the transfer.
    pub fn take_body(&mut self) -> (b: Option<B>)
        ensures
            b == old(self).spec_body(),
            final(self).spec_body() is None,
            final(self)@ == old(self)@,
    {
        self.body.take()
    }
}

} // verus!
