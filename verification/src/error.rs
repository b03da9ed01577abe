//! The normalized error that the gateway reports, and its HTTP status.

use vstd::prelude::*;
use vstd::string::StringExecFns;

verus! {

/// The four ways in which a request can fail.
#[derive(Clone, Copy, Debug, PartialEq, Eq, Structural)]
pub enum ErrorKind {
    /// The outbound call did not reach the other side.
    Transport,
    /// The other side answered with a structured error.
    UpstreamApi,
    /// The request carries no usable session, or no `User-Agent`.
    Unauthenticated,
    /// The refresh token was rejected.
    RefreshFailed,
}

/// Lowest number that is an HTTP status code.
pub const MIN_STATUS: u16 = 100;

/// Highest number that is an HTTP status code.
pub const MAX_STATUS: u16 = 999;

pub const STATUS_OK: u16 = 200;

pub const STATUS_UNAUTHORIZED: u16 = 401;

pub const STATUS_INTERNAL_SERVER_ERROR: u16 = 500;

pub const STATUS_BAD_GATEWAY: u16 = 502;

/// The value of `name` in every error that the gateway itself raises.
pub open spec fn proxy_name() -> Seq<char> {
    "Proxy"@
}

/// An error as the client sees it: `{name, message, code}`, tagged with its kind.
#[derive(Clone, Debug, PartialEq, Eq)]
pub struct ProxyError {
    pub kind: ErrorKind,
    pub name: String,
    pub message: String,
    pub code: u16,
}

/// What a [`ProxyError`] is, as plain values.
pub struct ProxyErrorView {
    pub kind: ErrorKind,
    pub name: Seq<char>,
    pub message: Seq<char>,
    pub code: u16,
}

impl View for ProxyError {
    type V = ProxyErrorView;

    open spec fn view(&self) -> ProxyErrorView {
        ProxyErrorView { kind: self.kind, name: self.name@, message: self.message@, code: self.code }
    }
}

/// An error as the upstream API reports it.
#[derive(Clone, Debug, PartialEq, Eq)]
pub struct UpstreamError {
    pub name: String,
    pub message: String,
    pub code: u16,
}

/// What an [`UpstreamError`] is, as plain values.
pub struct UpstreamErrorView {
    pub name: Seq<char>,
    pub message: Seq<char>,
    pub code: u16,
}

impl View for UpstreamError {
    type V = UpstreamErrorView;

    open spec fn view(&self) -> UpstreamErrorView {
        UpstreamErrorView { name: self.name@, message: self.message@, code: self.code }
    }
}

/// The kind of an error that the gateway raises with status `code`: 401 is
/// `Unauthenticated`, everything else a transport failure.
pub open spec fn kind_of_status(code: u16) -> ErrorKind {
    if code == STATUS_UNAUTHORIZED {
        ErrorKind::Unauthenticated
    } else {
        ErrorKind::Transport
    }
}

/// The error that the gateway raises with status `code` and text `message`.
pub open spec fn local_error(code: u16, message: Seq<char>) -> ProxyErrorView {
    ProxyErrorView { kind: kind_of_status(code), name: proxy_name(), message, code }
}

/// The error that stands for an error of the upstream API: its name, message
/// and code as they came, and always of the kind `UpstreamApi`.
pub open spec fn upstream_error(error: UpstreamErrorView) -> ProxyErrorView {
    ProxyErrorView {
        kind: ErrorKind::UpstreamApi,
        name: error.name,
        message: error.message,
        code: error.code,
    }
}

impl ProxyErrorView {
    /// The HTTP status an error is answered with. A transport failure is 500;
    /// a missing session and a rejected refresh are 401; an upstream error keeps
    /// the upstream's code where that is a status code, and is 502 otherwise.
    pub open spec fn http_status(self) -> u16 {
        match self.kind {
            ErrorKind::Transport => STATUS_INTERNAL_SERVER_ERROR,
            ErrorKind::Unauthenticated => STATUS_UNAUTHORIZED,
            ErrorKind::RefreshFailed => STATUS_UNAUTHORIZED,
            ErrorKind::UpstreamApi => if MIN_STATUS <= self.code <= MAX_STATUS {
                self.code
            } else {
                STATUS_BAD_GATEWAY
            },
        }
    }
}

/// An error raised by the gateway itself, named `Proxy`.
pub fn new_error(code: u16, message: String) -> (e: ProxyError)
    ensures
        e@ == local_error(code, message@),
{
    let kind = if code == STATUS_UNAUTHORIZED {
        ErrorKind::Unauthenticated
    } else {
        ErrorKind::Transport
    };
    ProxyError { kind, name: String::from_str("Proxy"), message, code }
}

impl ProxyError {
    /// An error that the upstream API reported, kept as it came.
    pub fn from_upstream(error: UpstreamError) -> (e: ProxyError)
        ensures
            e@ == upstream_error(error@),
    {
        ProxyError {
            kind: ErrorKind::UpstreamApi,
            name: error.name,
            message: error.message,
            code: error.code,
        }
    }

    /// The rejection of a refresh token, with status 401.
    pub fn refresh_failed(message: String) -> (e: ProxyError)
        ensures
            e@ == (ProxyErrorView {
                kind: ErrorKind::RefreshFailed,
                name: proxy_name(),
                message: message@,
                code: STATUS_UNAUTHORIZED,
            }),
    {
        ProxyError {
            kind: ErrorKind::RefreshFailed,
            name: String::from_str("Proxy"),
            message,
            code: STATUS_UNAUTHORIZED,
        }
    }

    /// The HTTP status this error is answered with.
    pub fn to_http_status(&self) -> (status: u16)
        ensures
            status == self@.http_status(),
            MIN_STATUS <= status <= MAX_STATUS,
    {
        match self.kind {
            ErrorKind::Transport => STATUS_INTERNAL_SERVER_ERROR,
            ErrorKind::Unauthenticated => STATUS_UNAUTHORIZED,
            ErrorKind::RefreshFailed => STATUS_UNAUTHORIZED,
            ErrorKind::UpstreamApi => if MIN_STATUS <= self.code && self.code <= MAX_STATUS {
                self.code
            } else {
                STATUS_BAD_GATEWAY
            },
        }
    }
}

} // verus!
