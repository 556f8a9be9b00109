//! URLs, parsed once when a request is built.
use crate::error::{Error, Kind};
use vstd::prelude::*;

verus! {

/// The serialisation of the URL that `s` parses to, or `None` when `s` is not
/// a valid absolute URL.
pub uninterp spec fn url_serialization(s: Seq<char>) -> Option<Seq<char>>;

/// Relies on url::Url::parse, whose result depends on the text alone, and on
/// Url::as_str, which hands back that URL's serialisation.
#[verifier::external_body]
fn parse_url_text(s: &str) -> (r: Option<String>)
    ensures
        match r {
            Some(t) => url_serialization(s@) == Some(t@),
            None => url_serialization(s@) is None,
        },
{
    url::Url::parse(s).ok().map(|u| u.as_str().to_string())
}

/// The text an optional string holds.
pub open spec fn text_view(o: Option<String>) -> Option<Seq<char>> {
    match o {
        Some(t) => Some(t@),
        None => None,
    }
}

/// A parsed URL, held as its serialisation.
#[derive(Debug)]
pub struct Url {
    text: String,
}

impl View for Url {
    type V = Seq<char>;

    closed spec fn view(&self) -> Seq<char> {
        self.text@
    }
}

/// What building a URL from `input` gives, given what the parser made of it.
pub open spec fn url_outcome(input: Seq<char>, parsed: Option<Seq<char>>, r: Result<Url, Error>) -> bool {
    match parsed {
        Some(t) => match r {
            Ok(u) => u@ == t,
            Err(_) => false,
        },
        None => match r {
            Ok(_) => false,
            Err(e) => e.kind == Kind::UrlParse && match e.url {
                Some(x) => x@ == input,
                None => false,
            },
        },
    }
}

impl Url {
    /// Parses `s`; a text that is not a valid URL fails with `UrlParse`,
    /// carrying the text.
    pub fn parse(s: &str) -> (r: Result<Url, Error>)
        ensures
            url_outcome(s@, url_serialization(s@), r),
    {
        let parsed = parse_url_text(s);
        assert(text_view(parsed) == url_serialization(s@));
        Url::from_parsed(s, parsed)
    }

    /// Builds the URL from what the parser made of `input`: its
    /// serialisation, or `None` when it rejected the text.
    pub fn from_parsed(input: &str, parsed: Option<String>) -> (r: Result<Url, Error>)
        ensures
            url_outcome(input@, text_view(parsed), r),
    {
        match parsed {
            Some(text) => Ok(Url { text }),
            None => Err(Error::new(Kind::UrlParse, Some(String::from_str(input)))),
        }
    }

    /// The URL's serialisation.
    pub fn as_str(&self) -> (r: &str)
        ensures
            r@ == self@,
    {
        self.text.as_str()
    }
}

/// Tries to convert strings into URLs.
pub trait TryIntoUrl {
    fn try_into_url(self) -> Result<Url, Error>;
}

impl<'a> TryIntoUrl for &'a str {
    fn try_into_url(self) -> Result<Url, Error> {
        Url::parse(self)
    }
}

impl<'a> TryIntoUrl for &'a String {
    fn try_into_url(self) -> Result<Url, Error> {
        Url::parse(self.as_str())
    }
}

impl TryIntoUrl for Url {
    fn try_into_url(self) -> Result<Url, Error> {
        Ok(self)
    }
}

impl<'a> TryIntoUrl for &'a Url {
    fn try_into_url(self) -> Result<Url, Error> {
        Ok(Url { text: String::from_str(self.text.as_str()) })
    }
}

} // verus!
