//! What the gateway exchanges with its two sides: the requests it receives and
//! sends, and the responses it gets and gives.

use vstd::prelude::*;
use crate::cookie::text;
use crate::error::{ProxyError, ProxyErrorView};
use crate::session::{CookieChanges, CookieChangesView};

verus! {

/// What the gateway is started with, and never changes afterwards.
#[derive(Clone, Debug, PartialEq, Eq)]
pub struct GatewayConfig {
    /// The OAuth client's id.
    pub client_id: String,
    /// The OAuth client's secret.
    pub client_secret: String,
    /// Where the upstream API lives; a request's path is appended to it.
    pub upstream_base: String,
    /// The path that the session cookies are scoped to, if any.
    pub cookie_path: Option<String>,
}

/// What a [`GatewayConfig`] is, as plain values.
pub struct GatewayConfigView {
    pub client_id: Seq<char>,
    pub client_secret: Seq<char>,
    pub upstream_base: Seq<char>,
    pub cookie_path: Option<Seq<char>>,
}

impl View for GatewayConfig {
    type V = GatewayConfigView;

    open spec fn view(&self) -> GatewayConfigView {
        GatewayConfigView {
            client_id: self.client_id@,
            client_secret: self.client_secret@,
            upstream_base: self.upstream_base@,
            cookie_path: text(self.cookie_path),
        }
    }
}

/// The methods that the gateway forwards.
#[derive(Clone, Copy, Debug, PartialEq, Eq, Structural)]
pub enum Method {
    Get,
    Post,
    Delete,
}

/// A request to be forwarded, as it came in.
#[derive(Clone, Debug, PartialEq, Eq)]
pub struct ProxyRequest {
    pub method: Method,
    /// The part of the path that follows the gateway's own prefix.
    pub path: String,
    /// The `User-Agent` header, if the request has one.
    pub user_agent: Option<String>,
    pub body: String,
}

/// What a [`ProxyRequest`] is, as plain values.
pub struct ProxyRequestView {
    pub method: Method,
    pub path: Seq<char>,
    pub user_agent: Option<Seq<char>>,
    pub body: Seq<char>,
}

impl View for ProxyRequest {
    type V = ProxyRequestView;

    open spec fn view(&self) -> ProxyRequestView {
        ProxyRequestView {
            method: self.method,
            path: self.path@,
            user_agent: text(self.user_agent),
            body: self.body@,
        }
    }
}

/// A request to be forwarded whose `User-Agent` header is there.
#[derive(Clone, Debug, PartialEq, Eq)]
pub struct AdmittedRequest {
    pub method: Method,
    pub path: String,
    pub user_agent: String,
    pub body: String,
}

/// What an [`AdmittedRequest`] is, as plain values.
pub struct AdmittedRequestView {
    pub method: Method,
    pub path: Seq<char>,
    pub user_agent: Seq<char>,
    pub body: Seq<char>,
}

impl View for AdmittedRequest {
    type V = AdmittedRequestView;

    open spec fn view(&self) -> AdmittedRequestView {
        AdmittedRequestView {
            method: self.method,
            path: self.path@,
            user_agent: self.user_agent@,
            body: self.body@,
        }
    }
}

/// The view of a request that may have been admitted.
pub open spec fn admission(r: Option<AdmittedRequest>) -> Option<AdmittedRequestView> {
    match r {
        Some(request) => Some(request@),
        None => None,
    }
}

impl ProxyRequestView {
    /// The request with its `User-Agent`, if it has one; the rest as it came.
    pub open spec fn admitted(self) -> Option<AdmittedRequestView> {
        match self.user_agent {
            Some(user_agent) => Some(
                AdmittedRequestView {
                    method: self.method,
                    path: self.path,
                    user_agent,
                    body: self.body,
                },
            ),
            None => None,
        }
    }
}

impl ProxyRequest {
    /// Admits a request that carries a `User-Agent` header, and no other.
    pub fn into_admitted(self) -> (r: Option<AdmittedRequest>)
        ensures
            admission(r) == self@.admitted(),
    {
        match self.user_agent {
            Some(user_agent) => Some(
                AdmittedRequest {
                    method: self.method,
                    path: self.path,
                    user_agent,
                    body: self.body,
                },
            ),
            None => None,
        }
    }
}

/// The two grants of the token endpoint.
#[derive(Clone, Copy, Debug, PartialEq, Eq, Structural)]
pub enum Grant {
    AuthorizationCode,
    RefreshToken,
}

/// A call of the token endpoint.
#[derive(Clone, Debug, PartialEq, Eq)]
pub struct TokenRequest {
    pub grant: Grant,
    pub client_id: String,
    pub client_secret: String,
    /// The authorization code or the refresh token, as the grant says.
    pub token: String,
}

/// What a [`TokenRequest`] is, as plain values.
pub struct TokenRequestView {
    pub grant: Grant,
    pub client_id: Seq<char>,
    pub client_secret: Seq<char>,
    pub token: Seq<char>,
}

impl View for TokenRequest {
    type V = TokenRequestView;

    open spec fn view(&self) -> TokenRequestView {
        TokenRequestView {
            grant: self.grant,
            client_id: self.client_id@,
            client_secret: self.client_secret@,
            token: self.token@,
        }
    }
}

/// A call of the upstream API.
#[derive(Clone, Debug, PartialEq, Eq)]
pub struct UpstreamRequest {
    pub method: Method,
    pub url: String,
    /// The value of the `Authorization` header.
    pub authorization: String,
    /// The value of the `User-Agent` header.
    pub user_agent: String,
    pub body: String,
}

/// What an [`UpstreamRequest`] is, as plain values.
pub struct UpstreamRequestView {
    pub method: Method,
    pub url: Seq<char>,
    pub authorization: Seq<char>,
    pub user_agent: Seq<char>,
    pub body: Seq<char>,
}

impl View for UpstreamRequest {
    type V = UpstreamRequestView;

    open spec fn view(&self) -> UpstreamRequestView {
        UpstreamRequestView {
            method: self.method,
            url: self.url@,
            authorization: self.authorization@,
            user_agent: self.user_agent@,
            body: self.body@,
        }
    }
}

/// What the upstream API answered.
#[derive(Clone, Debug, PartialEq, Eq)]
pub struct UpstreamResponse {
    pub status: u16,
    pub body: String,
}

/// What an [`UpstreamResponse`] is, as plain values.
pub struct UpstreamResponseView {
    pub status: u16,
    pub body: Seq<char>,
}

impl View for UpstreamResponse {
    type V = UpstreamResponseView;

    open spec fn view(&self) -> UpstreamResponseView {
        UpstreamResponseView { status: self.status, body: self.body@ }
    }
}

/// How a call of the upstream API ended.
#[derive(Clone, Debug, PartialEq, Eq)]
pub enum UpstreamOutcome {
    /// The upstream answered, with whatever status.
    Answered(UpstreamResponse),
    /// The call did not reach the upstream.
    Unreachable,
}

/// What an [`UpstreamOutcome`] is, as plain values.
pub enum UpstreamOutcomeView {
    Answered(UpstreamResponseView),
    Unreachable,
}

impl View for UpstreamOutcome {
    type V = UpstreamOutcomeView;

    open spec fn view(&self) -> UpstreamOutcomeView {
        match self {
            UpstreamOutcome::Answered(response) => UpstreamOutcomeView::Answered(response@),
            UpstreamOutcome::Unreachable => UpstreamOutcomeView::Unreachable,
        }
    }
}

/// The body of a response of the gateway.
#[derive(Clone, Debug, PartialEq, Eq)]
pub enum Body {
    Empty,
    /// The upstream's body, as it came.
    Text(String),
    /// A normalized error, sent as `{name, message, code}`.
    Error(ProxyError),
}

/// What a [`Body`] is, as plain values.
pub enum BodyView {
    Empty,
    Text(Seq<char>),
    Error(ProxyErrorView),
}

impl View for Body {
    type V = BodyView;

    open spec fn view(&self) -> BodyView {
        match self {
            Body::Empty => BodyView::Empty,
            Body::Text(text) => BodyView::Text(text@),
            Body::Error(error) => BodyView::Error(error@),
        }
    }
}

/// A response of the gateway.
#[derive(Clone, Debug, PartialEq, Eq)]
pub struct Response {
    pub status: u16,
    pub cookies: CookieChanges,
    pub body: Body,
}

/// What a [`Response`] is, as plain values.
pub struct ResponseView {
    pub status: u16,
    pub cookies: CookieChangesView,
    pub body: BodyView,
}

impl View for Response {
    type V = ResponseView;

    open spec fn view(&self) -> ResponseView {
        ResponseView { status: self.status, cookies: self.cookies@, body: self.body@ }
    }
}

} // verus!
