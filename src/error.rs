use vstd::prelude::*;

verus! {

/// The engine's result code for a successful transfer.
pub const ENGINE_OK: u32 = 0;

pub const CODE_RESOLVE_PROXY: u32 = 5;
pub const CODE_RESOLVE_HOST: u32 = 6;
pub const CODE_CONNECT: u32 = 7;
pub const CODE_HTTP2: u32 = 16;
pub const CODE_PARTIAL_FILE: u32 = 18;
pub const CODE_TIMEOUT: u32 = 28;
pub const CODE_SSL_CONNECT: u32 = 35;
pub const CODE_ABORTED_BY_CALLBACK: u32 = 42;
pub const CODE_INTERFACE_FAILED: u32 = 45;
pub const CODE_TOO_MANY_REDIRECTS: u32 = 47;
pub const CODE_GOT_NOTHING: u32 = 52;
pub const CODE_SEND_ERROR: u32 = 55;
pub const CODE_RECV_ERROR: u32 = 56;
pub const CODE_SSL_CERTPROBLEM: u32 = 58;
pub const CODE_SSL_CIPHER: u32 = 59;
pub const CODE_SSL_CACERT: u32 = 60;
pub const CODE_SSL_SHUTDOWN_FAILED: u32 = 80;
pub const CODE_HTTP2_STREAM: u32 = 92;

/// Specifies the type of error
#[derive(Debug, Clone, PartialEq, Eq)]
pub enum Kind {
    /// failure resolving proxy
    ResolveProxy,
    /// failure resolving host
    ResolveHost,
    /// failed connecting to host
    Connect,
    /// HTTP2 framing error
    Http2,
    /// failure reading from the specified Body
    BodyStreamFailure,
    /// outgoing interface could not be used
    InterfaceFailure,
    /// Redirect loop or too many redirects
    TooManyRedirects,
    /// The server sent nothing
    NothingFromServer,
    /// Failed to send on socket
    SendError,
    /// Failed to receive from socket
    RecvError,
    /// failure performing SSL handshake
    SslConnect,
    /// local client certificate problem
    SslLocalCertificate,
    /// The SSL cipher is invalid
    SslCipher,
    /// Remote server's SSL certificate is invalid
    SslCertificate,
    /// The remote server did not close via SSL
    SslShutdownFailed,
    /// The expected was not the reported size
    PartialFile,
    /// The specified timeout was exceeded
    Timeout,
    /// The URL could not be parsed
    UrlParse,
    /// The contents were not valid UTF-8
    NotUtf8,
    /// Any other failure: the code that reported it and a message
    Other(i64, String),
}

/// The kind of its own that an engine result code stands for, if it has one.
pub open spec fn code_kind(c: u32) -> Option<Kind> {
    if c == CODE_RESOLVE_PROXY {
        Some(Kind::ResolveProxy)
    } else if c == CODE_RESOLVE_HOST {
        Some(Kind::ResolveHost)
    } else if c == CODE_CONNECT {
        Some(Kind::Connect)
    } else if c == CODE_HTTP2 || c == CODE_HTTP2_STREAM {
        Some(Kind::Http2)
    } else if c == CODE_ABORTED_BY_CALLBACK {
        Some(Kind::BodyStreamFailure)
    } else if c == CODE_PARTIAL_FILE {
        Some(Kind::PartialFile)
    } else if c == CODE_SSL_CONNECT {
        Some(Kind::SslConnect)
    } else if c == CODE_TOO_MANY_REDIRECTS {
        Some(Kind::TooManyRedirects)
    } else if c == CODE_INTERFACE_FAILED {
        Some(Kind::InterfaceFailure)
    } else if c == CODE_GOT_NOTHING {
        Some(Kind::NothingFromServer)
    } else if c == CODE_SEND_ERROR {
        Some(Kind::SendError)
    } else if c == CODE_RECV_ERROR {
        Some(Kind::RecvError)
    } else if c == CODE_SSL_CERTPROBLEM {
        Some(Kind::SslLocalCertificate)
    } else if c == CODE_SSL_CIPHER {
        Some(Kind::SslCipher)
    } else if c == CODE_SSL_CACERT {
        Some(Kind::SslCertificate)
    } else if c == CODE_SSL_SHUTDOWN_FAILED {
        Some(Kind::SslShutdownFailed)
    } else if c == CODE_TIMEOUT {
        Some(Kind::Timeout)
    } else {
        None
    }
}

/// `k` is what the error mapper gives for the engine result code `c`: the
/// code's own kind, or else `Other` carrying the code and a fixed message.
pub open spec fn maps_code(k: Kind, c: u32) -> bool {
    match code_kind(c) {
        Some(known) => k == known,
        None => k matches Kind::Other(code, m) && code == c as i64 && m@
            == "unrecognised engine result code"@,
    }
}

/// Translates an engine result code into the kind of error it reports.
///
/// Codes without a kind of their own become `Other`, so engines that grow new
/// codes still map onto the taxonomy.
pub fn kind_from_code(c: u32) -> (k: Kind)
    ensures
        maps_code(k, c),
{
    match c {
        CODE_RESOLVE_PROXY => Kind::ResolveProxy,
        CODE_RESOLVE_HOST => Kind::ResolveHost,
        CODE_CONNECT => Kind::Connect,
        CODE_HTTP2 | CODE_HTTP2_STREAM => Kind::Http2,
        CODE_ABORTED_BY_CALLBACK => Kind::BodyStreamFailure,
        CODE_PARTIAL_FILE => Kind::PartialFile,
        CODE_SSL_CONNECT => Kind::SslConnect,
        CODE_TOO_MANY_REDIRECTS => Kind::TooManyRedirects,
        CODE_INTERFACE_FAILED => Kind::InterfaceFailure,
        CODE_GOT_NOTHING => Kind::NothingFromServer,
        CODE_SEND_ERROR => Kind::SendError,
        CODE_RECV_ERROR => Kind::RecvError,
        CODE_SSL_CERTPROBLEM => Kind::SslLocalCertificate,
        CODE_SSL_CIPHER => Kind::SslCipher,
        CODE_SSL_CACERT => Kind::SslCertificate,
        CODE_SSL_SHUTDOWN_FAILED => Kind::SslShutdownFailed,
        CODE_TIMEOUT => Kind::Timeout,
        _ => Kind::Other(c as i64, String::from_str("unrecognised engine result code")),
    }
}

/// The text that describes an error of kind `k`.
pub open spec fn kind_description(k: Kind) -> Seq<char> {
    match k {
        Kind::ResolveProxy => "failure resolving proxy"@,
        Kind::ResolveHost => "failure resolving host"@,
        Kind::Connect => "failed connecting to host"@,
        Kind::Http2 => "HTTP2 framing error"@,
        Kind::BodyStreamFailure => "failure reading from the specified Body"@,
        Kind::InterfaceFailure => "outgoing interface could not be used"@,
        Kind::TooManyRedirects => "Redirect loop or too many redirects"@,
        Kind::NothingFromServer => "The server sent nothing"@,
        Kind::SendError => "Failed to send on socket"@,
        Kind::RecvError => "Failed to receive from socket"@,
        Kind::SslConnect => "failure performing SSL handshake"@,
        Kind::SslLocalCertificate => "local client certificate problem"@,
        Kind::SslCipher => "The SSL cipher is invalid"@,
        Kind::SslCertificate => "Remote server's SSL certificate is invalid"@,
        Kind::SslShutdownFailed => "The remote server did not securely close its socket over SSL"@,
        Kind::PartialFile => "The expected was not the reported size"@,
        Kind::Timeout => "The specified timeout was exceeded"@,
        Kind::UrlParse => "The URL could not be parsed"@,
        Kind::NotUtf8 => "The contents were not UTF-8"@,
        Kind::Other(_, m) => m@,
    }
}

/// An error: its kind, and the URL it concerns when one is known.
#[derive(Debug, Clone, PartialEq, Eq)]
pub struct Error {
    pub kind: Kind,
    pub url: Option<String>,
}

impl Error {
    pub fn new(kind: Kind, url: Option<String>) -> (e: Error)
        ensures
            e.kind == kind,
            e.url == url,
    {
        Error { kind, url }
    }

    pub fn kind(&self) -> (k: &Kind)
        ensures
            *k == self.kind,
    {
        &self.kind
    }

    /// The text that describes the error's kind.
    pub fn description(&self) -> (r: &str)
        ensures
            r@ == kind_description(self.kind),
    {
        match &self.kind {
            Kind::ResolveProxy => "failure resolving proxy",
            Kind::ResolveHost => "failure resolving host",
            Kind::Connect => "failed connecting to host",
            Kind::Http2 => "HTTP2 framing error",
            Kind::BodyStreamFailure => "failure reading from the specified Body",
            Kind::InterfaceFailure => "outgoing interface could not be used",
            Kind::TooManyRedirects => "Redirect loop or too many redirects",
            Kind::NothingFromServer => "The server sent nothing",
            Kind::SendError => "Failed to send on socket",
            Kind::RecvError => "Failed to receive from socket",
            Kind::SslConnect => "failure performing SSL handshake",
            Kind::SslLocalCertificate => "local client certificate problem",
            Kind::SslCipher => "The SSL cipher is invalid",
            Kind::SslCertificate => "Remote server's SSL certificate is invalid",
            Kind::SslShutdownFailed => "The remote server did not securely close its socket over SSL",
            Kind::PartialFile => "The expected was not the reported size",
            Kind::Timeout => "The specified timeout was exceeded",
            Kind::UrlParse => "The URL could not be parsed",
            Kind::NotUtf8 => "The contents were not UTF-8",
            Kind::Other(_, m) => m.as_str(),
        }
    }

    /// The error as one line of text: the URL and a colon when the URL is
    /// known, then the description.
    pub fn message(&self) -> (r: String)
        ensures
            r@ == match self.url {
                Some(u) => u@ + ": "@ + kind_description(self.kind),
                None => kind_description(self.kind),
            },
    {
        match &self.url {
            Some(u) => {
                let mut r = String::from_str(u.as_str());
                r.append(": ");
                r.append(self.description());
                r
            },
            None => String::from_str(self.description()),
        }
    }
}

/// The result of an engine call that reports a code: `Ok` exactly for success.
pub open spec fn code_result_ok(r: Result<(), Error>, c: u32) -> bool {
    match r {
        Ok(()) => c == ENGINE_OK,
        Err(e) => c != ENGINE_OK && maps_code(e.kind, c) && e.url is None,
    }
}

/// Checks an engine result code: success is `Ok`, any other code the error
/// it maps to.
pub fn check_code(c: u32) -> (r: Result<(), Error>)
    ensures
        code_result_ok(r, c),
{
    if c == ENGINE_OK {
        Ok(())
    } else {
        Err(Error::new(kind_from_code(c), None))
    }
}

} // verus!
