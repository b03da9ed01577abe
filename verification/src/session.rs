//! The session store: credentials, the cookies they are issued as, and the
//! handle that the client holds.

use vstd::prelude::*;
use vstd::string::StringExecFns;
use crate::cookie::{
    access_cookie, clone_text, deadline, deadline_after, refresh_cookie, text, CookieChange,
    CookieChangeView, CookieName, Lifetime, SetCookie,
};
use crate::error::{
    local_error, new_error, proxy_name, upstream_error, ErrorKind, ProxyError, ProxyErrorView,
    UpstreamError, UpstreamErrorView, STATUS_INTERNAL_SERVER_ERROR, STATUS_UNAUTHORIZED,
};

verus! {

/// What the token endpoint answers on success.
#[derive(Clone, Debug, PartialEq, Eq)]
pub struct TokenResponse {
    pub access_token: String,
    pub refresh_token: String,
    /// Seconds for which the access token is valid.
    pub expires_in: u64,
}

/// What a [`TokenResponse`] is, as plain values.
pub struct TokenResponseView {
    pub access_token: Seq<char>,
    pub refresh_token: Seq<char>,
    pub expires_in: u64,
}

impl View for TokenResponse {
    type V = TokenResponseView;

    open spec fn view(&self) -> TokenResponseView {
        TokenResponseView {
            access_token: self.access_token@,
            refresh_token: self.refresh_token@,
            expires_in: self.expires_in,
        }
    }
}

/// How a call of the token endpoint fails.
#[derive(Clone, Debug, PartialEq, Eq)]
pub enum TokenFailure {
    /// The call did not reach the endpoint.
    Transport,
    /// The endpoint answered with an error.
    Api(UpstreamError),
}

/// What a [`TokenFailure`] is, as plain values.
pub enum TokenFailureView {
    Transport,
    Api(UpstreamErrorView),
}

impl View for TokenFailure {
    type V = TokenFailureView;

    open spec fn view(&self) -> TokenFailureView {
        match self {
            TokenFailure::Transport => TokenFailureView::Transport,
            TokenFailure::Api(e) => TokenFailureView::Api(e@),
        }
    }
}

/// How a call of the token endpoint ended.
#[derive(Clone, Debug, PartialEq, Eq)]
pub enum TokenOutcome {
    /// The endpoint granted tokens.
    Granted(TokenResponse),
    /// The call failed.
    Failed(TokenFailure),
}

/// What a [`TokenOutcome`] is, as plain values.
pub enum TokenOutcomeView {
    Granted(TokenResponseView),
    Failed(TokenFailureView),
}

impl View for TokenOutcome {
    type V = TokenOutcomeView;

    open spec fn view(&self) -> TokenOutcomeView {
        match self {
            TokenOutcome::Granted(response) => TokenOutcomeView::Granted(response@),
            TokenOutcome::Failed(failure) => TokenOutcomeView::Failed(failure@),
        }
    }
}

/// The tokens of a session, and the instant at which the access token ends.
#[derive(Clone, Debug, PartialEq, Eq)]
pub struct Credential {
    pub access_token: String,
    pub refresh_token: String,
    /// The instant, in seconds, from which the access token is no longer valid.
    pub expires_at: u64,
}

/// What a [`Credential`] is, as plain values.
pub struct CredentialView {
    pub access_token: Seq<char>,
    pub refresh_token: Seq<char>,
    pub expires_at: u64,
}

impl View for Credential {
    type V = CredentialView;

    open spec fn view(&self) -> CredentialView {
        CredentialView {
            access_token: self.access_token@,
            refresh_token: self.refresh_token@,
            expires_at: self.expires_at,
        }
    }
}

/// What the store gives when it makes or renews a session: the credential, and
/// the cookies by which the client's handle changes.
#[derive(Clone, Debug, PartialEq, Eq)]
pub struct Stored {
    pub credential: Credential,
    pub cookies: CookieChanges,
}

/// What a [`Stored`] is, as plain values.
pub struct StoredView {
    pub credential: CredentialView,
    pub cookies: CookieChangesView,
}

impl View for Stored {
    type V = StoredView;

    open spec fn view(&self) -> StoredView {
        StoredView { credential: self.credential@, cookies: self.cookies@ }
    }
}

/// The view of what the store gives, or of the error that came in its place.
pub open spec fn stored_result(r: Result<Stored, ProxyError>) -> Result<StoredView, ProxyErrorView> {
    match r {
        Ok(stored) => Ok(stored@),
        Err(error) => Err(error@),
    }
}

/// Text of the error for an exchange that did not reach the token endpoint.
pub open spec fn exchange_failed_message() -> Seq<char> {
    "Error while exchanging the token"@
}

/// Text of the error for a refresh that gave no new access token.
pub open spec fn refresh_failed_message() -> Seq<char> {
    "Unable to refresh the access token"@
}

/// The error for a refresh that gave no new access token.
pub open spec fn refresh_rejected() -> ProxyErrorView {
    ProxyErrorView {
        kind: ErrorKind::RefreshFailed,
        name: proxy_name(),
        message: refresh_failed_message(),
        code: STATUS_UNAUTHORIZED,
    }
}

/// The credential that tokens granted at `now` make up, beside `refresh_token`
/// as the refresh token: the access token ends when its declared lifetime does.
pub open spec fn credential_of(
    granted: TokenResponseView,
    refresh_token: Seq<char>,
    now: u64,
) -> CredentialView {
    CredentialView {
        access_token: granted.access_token,
        refresh_token,
        expires_at: deadline(now, granted.expires_in),
    }
}

/// What an exchange of an authorization code at `now` gives. Granted tokens
/// make the credential, and both are handed out as cookies: the access token
/// for the lifetime that the endpoint declared, the refresh token for the
/// fixed horizon. A transport failure is a 500 of the gateway. An error of the
/// endpoint keeps its name, message and code.
pub open spec fn created(outcome: TokenOutcomeView, now: u64, path: Option<Seq<char>>) -> Result<
    StoredView,
    ProxyErrorView,
> {
    match outcome {
        TokenOutcomeView::Granted(granted) => Ok(
            StoredView {
                credential: credential_of(granted, granted.refresh_token, now),
                cookies: CookieChangesView {
                    access: CookieChangeView::Issue(
                        access_cookie(granted.access_token, granted.expires_in, path),
                    ),
                    refresh: CookieChangeView::Issue(
                        refresh_cookie(granted.refresh_token, now, path),
                    ),
                },
            },
        ),
        TokenOutcomeView::Failed(TokenFailureView::Transport) => Err(
            local_error(STATUS_INTERNAL_SERVER_ERROR, exchange_failed_message()),
        ),
        TokenOutcomeView::Failed(TokenFailureView::Api(error)) => Err(upstream_error(error)),
    }
}

/// What a refresh with `refresh_token` at `now` gives. The new access token
/// stands beside the refresh token that was sent, which is never rotated, and
/// is handed out as a cookie for the lifetime that the endpoint declared; the
/// refresh-token cookie stays as it is. Every failure is the rejection of the
/// refresh token.
pub open spec fn refreshed(
    refresh_token: Seq<char>,
    outcome: TokenOutcomeView,
    now: u64,
    path: Option<Seq<char>>,
) -> Result<StoredView, ProxyErrorView> {
    match outcome {
        TokenOutcomeView::Granted(granted) => Ok(
            StoredView {
                credential: credential_of(granted, refresh_token, now),
                cookies: CookieChangesView {
                    access: CookieChangeView::Issue(
                        access_cookie(granted.access_token, granted.expires_in, path),
                    ),
                    refresh: CookieChangeView::Keep,
                },
            },
        ),
        TokenOutcomeView::Failed(_) => Err(refresh_rejected()),
    }
}

/// Turns the outcome of an exchange of an authorization code into a session.
pub fn create(outcome: TokenOutcome, now: u64, path: &Option<String>) -> (r: Result<
    Stored,
    ProxyError,
>)
    ensures
        stored_result(r) == created(outcome@, now, text(*path)),
{
    match outcome {
        TokenOutcome::Granted(granted) => {
            let access = SetCookie::access(
                granted.access_token.clone(),
                granted.expires_in,
                clone_text(path),
            );
            let refresh = SetCookie::refresh(granted.refresh_token.clone(), now, clone_text(path));
            Ok(
                Stored {
                    credential: Credential {
                        access_token: granted.access_token,
                        refresh_token: granted.refresh_token,
                        expires_at: deadline_after(now, granted.expires_in),
                    },
                    cookies: CookieChanges {
                        access: CookieChange::Issue(access),
                        refresh: CookieChange::Issue(refresh),
                    },
                },
            )
        },
        TokenOutcome::Failed(TokenFailure::Transport) => Err(
            new_error(
                STATUS_INTERNAL_SERVER_ERROR,
                String::from_str("Error while exchanging the token"),
            ),
        ),
        TokenOutcome::Failed(TokenFailure::Api(error)) => Err(ProxyError::from_upstream(error)),
    }
}

/// Turns the outcome of a refresh with `refresh_token` into the renewed
/// session.
pub fn refresh(
    refresh_token: String,
    outcome: TokenOutcome,
    now: u64,
    path: &Option<String>,
) -> (r: Result<Stored, ProxyError>)
    ensures
        stored_result(r) == refreshed(refresh_token@, outcome@, now, text(*path)),
{
    match outcome {
        TokenOutcome::Granted(granted) => {
            let access = SetCookie::access(
                granted.access_token.clone(),
                granted.expires_in,
                clone_text(path),
            );
            Ok(
                Stored {
                    credential: Credential {
                        access_token: granted.access_token,
                        refresh_token,
                        expires_at: deadline_after(now, granted.expires_in),
                    },
                    cookies: CookieChanges {
                        access: CookieChange::Issue(access),
                        refresh: CookieChange::Keep,
                    },
                },
            )
        },
        TokenOutcome::Failed(_) => Err(
            ProxyError::refresh_failed(String::from_str("Unable to refresh the access token")),
        ),
    }
}

/// The access-token cookie of a new or renewed session is kept for exactly
/// the seconds that the endpoint declared, at every instant, and so ends when
/// the credential's access token does. It is `HttpOnly` and `Secure`.
pub proof fn access_cookie_lasts_as_declared(
    refresh_token: Seq<char>,
    granted: TokenResponseView,
    now: u64,
    path: Option<Seq<char>>,
)
    ensures
        created(TokenOutcomeView::Granted(granted), now, path) matches Ok(stored) && {
            &&& stored.cookies.access == CookieChangeView::Issue(
                access_cookie(granted.access_token, granted.expires_in, path),
            )
            &&& access_cookie(granted.access_token, granted.expires_in, path).lifetime
                == Lifetime::MaxAge(granted.expires_in)
            &&& access_cookie(granted.access_token, granted.expires_in, path).lifetime.end(now)
                == stored.credential.expires_at
            &&& access_cookie(granted.access_token, granted.expires_in, path).http_only
            &&& access_cookie(granted.access_token, granted.expires_in, path).secure
        },
        refreshed(refresh_token, TokenOutcomeView::Granted(granted), now, path) matches Ok(
            stored,
        ) && {
            &&& stored.cookies.access == CookieChangeView::Issue(
                access_cookie(granted.access_token, granted.expires_in, path),
            )
            &&& access_cookie(granted.access_token, granted.expires_in, path).lifetime.end(now)
                == stored.credential.expires_at
        },
{
}

/// A refresh never rotates the refresh token: the credential keeps the one
/// that was sent, whatever refresh token the answer carries, and the
/// refresh-token cookie is left as it is.
pub proof fn refresh_keeps_refresh_token(
    refresh_token: Seq<char>,
    granted: TokenResponseView,
    now: u64,
    path: Option<Seq<char>>,
)
    ensures
        refreshed(refresh_token, TokenOutcomeView::Granted(granted), now, path) matches Ok(
            stored,
        ) && {
            &&& stored.credential.refresh_token == refresh_token
            &&& stored.credential.access_token == granted.access_token
            &&& stored.cookies.refresh == CookieChangeView::Keep
        },
{
}

/// What a response does to the two cookies of the session.
#[derive(Clone, Debug, PartialEq, Eq)]
pub struct CookieChanges {
    /// The change to the cookie named `access-token`.
    pub access: CookieChange,
    /// The change to the cookie named `refresh-token`.
    pub refresh: CookieChange,
}

/// What a [`CookieChanges`] is, as plain values.
pub struct CookieChangesView {
    pub access: CookieChangeView,
    pub refresh: CookieChangeView,
}

impl View for CookieChanges {
    type V = CookieChangesView;

    open spec fn view(&self) -> CookieChangesView {
        CookieChangesView { access: self.access@, refresh: self.refresh@ }
    }
}

/// A response that leaves both cookies as they are.
pub open spec fn unchanged() -> CookieChangesView {
    CookieChangesView { access: CookieChangeView::Keep, refresh: CookieChangeView::Keep }
}

/// A response that tells the client to drop both cookies.
pub open spec fn cleared() -> CookieChangesView {
    CookieChangesView { access: CookieChangeView::Clear, refresh: CookieChangeView::Clear }
}

impl CookieChangesView {
    /// Each cookie that is handed out carries the name of its place.
    pub open spec fn well_named(self) -> bool {
        &&& self.access matches CookieChangeView::Issue(c) ==> c.name == CookieName::AccessToken
        &&& self.refresh matches CookieChangeView::Issue(c) ==> c.name == CookieName::RefreshToken
    }
}

impl CookieChanges {
    /// Leaves both cookies as they are.
    pub fn unchanged() -> (changes: CookieChanges)
        ensures
            changes@ == unchanged(),
    {
        CookieChanges { access: CookieChange::Keep, refresh: CookieChange::Keep }
    }
}

/// Removes what the client holds of a session: both cookies are dropped,
/// whether or not the client held any.
pub fn destroy() -> (changes: CookieChanges)
    ensures
        changes@ == cleared(),
        changes@.well_named(),
{
    CookieChanges { access: CookieChange::Clear, refresh: CookieChange::Clear }
}

/// The session handle as a request presents it: the values of the cookies that
/// the client still holds.
#[derive(Clone, Debug, PartialEq, Eq)]
pub struct Presented {
    pub access_token: Option<String>,
    pub refresh_token: Option<String>,
}

/// What a [`Presented`] is, as plain values.
pub struct PresentedView {
    pub access_token: Option<Seq<char>>,
    pub refresh_token: Option<Seq<char>>,
}

impl View for Presented {
    type V = PresentedView;

    open spec fn view(&self) -> PresentedView {
        PresentedView {
            access_token: text(self.access_token),
            refresh_token: text(self.refresh_token),
        }
    }
}

/// What a presented handle resolves to.
#[derive(Clone, Debug, PartialEq, Eq)]
pub enum Loaded {
    /// The request carries neither token.
    NotFound,
    /// The request carries an access token.
    Valid { access_token: String },
    /// The access token is gone, the refresh token is there.
    Expired { refresh_token: String },
}

/// What a [`Loaded`] is, as plain values.
pub enum LoadedView {
    NotFound,
    Valid { access_token: Seq<char> },
    Expired { refresh_token: Seq<char> },
}

impl View for Loaded {
    type V = LoadedView;

    open spec fn view(&self) -> LoadedView {
        match self {
            Loaded::NotFound => LoadedView::NotFound,
            Loaded::Valid { access_token } => LoadedView::Valid { access_token: access_token@ },
            Loaded::Expired { refresh_token } => LoadedView::Expired {
                refresh_token: refresh_token@,
            },
        }
    }
}

impl PresentedView {
    /// A handle with an access token is valid, whatever else it holds. One with
    /// a refresh token alone has expired. One with neither is no handle.
    pub open spec fn loaded(self) -> LoadedView {
        match self.access_token {
            Some(access_token) => LoadedView::Valid { access_token },
            None => match self.refresh_token {
                Some(refresh_token) => LoadedView::Expired { refresh_token },
                None => LoadedView::NotFound,
            },
        }
    }
}

/// Resolves a presented handle.
pub fn load(presented: Presented) -> (found: Loaded)
    ensures
        found@ == presented@.loaded(),
{
    match presented.access_token {
        Some(access_token) => Loaded::Valid { access_token },
        None => match presented.refresh_token {
            Some(refresh_token) => Loaded::Expired { refresh_token },
            None => Loaded::NotFound,
        },
    }
}

/// A cookie as the client holds it.
#[derive(Clone, Debug, PartialEq, Eq)]
pub struct HeldToken {
    pub value: String,
    /// The instant, in seconds, from which the client no longer sends it.
    pub expires_at: u64,
}

/// What a [`HeldToken`] is, as plain values.
pub struct HeldTokenView {
    pub value: Seq<char>,
    pub expires_at: u64,
}

impl View for HeldToken {
    type V = HeldTokenView;

    open spec fn view(&self) -> HeldTokenView {
        HeldTokenView { value: self.value@, expires_at: self.expires_at }
    }
}

/// The view of a place that may hold a cookie.
pub open spec fn held(slot: Option<HeldToken>) -> Option<HeldTokenView> {
    match slot {
        Some(token) => Some(token@),
        None => None,
    }
}

/// The place after a response that carries `change` has reached the client at
/// `now`.
pub open spec fn slot_after(slot: Option<HeldTokenView>, change: CookieChangeView, now: u64) -> Option<
    HeldTokenView,
> {
    match change {
        CookieChangeView::Keep => slot,
        CookieChangeView::Issue(c) => Some(
            HeldTokenView { value: c.value, expires_at: c.lifetime.end(now) },
        ),
        CookieChangeView::Clear => None,
    }
}

/// What the client sends of a place at `now`: the value, until the cookie ends.
pub open spec fn sent(slot: Option<HeldTokenView>, now: u64) -> Option<Seq<char>> {
    match slot {
        Some(token) => if now < token.expires_at {
            Some(token.value)
        } else {
            None
        },
        None => None,
    }
}

/// The session handle as the client holds it: the two cookies, each with the
/// instant at which it ends.
#[derive(Clone, Debug, PartialEq, Eq)]
pub struct SessionHandle {
    pub access: Option<HeldToken>,
    pub refresh: Option<HeldToken>,
}

/// What a [`SessionHandle`] is, as plain values.
pub struct SessionHandleView {
    pub access: Option<HeldTokenView>,
    pub refresh: Option<HeldTokenView>,
}

impl View for SessionHandle {
    type V = SessionHandleView;

    open spec fn view(&self) -> SessionHandleView {
        SessionHandleView { access: held(self.access), refresh: held(self.refresh) }
    }
}

/// The handle of a client that holds nothing.
pub open spec fn empty_handle() -> SessionHandleView {
    SessionHandleView { access: None, refresh: None }
}

impl SessionHandleView {
    /// The handle after a response with these changes has reached the client
    /// at `now`.
    pub open spec fn apply(self, changes: CookieChangesView, now: u64) -> SessionHandleView {
        SessionHandleView {
            access: slot_after(self.access, changes.access, now),
            refresh: slot_after(self.refresh, changes.refresh, now),
        }
    }

    /// What a request made at `now` presents.
    pub open spec fn present(self, now: u64) -> PresentedView {
        PresentedView {
            access_token: sent(self.access, now),
            refresh_token: sent(self.refresh, now),
        }
    }
}

fn apply_change(slot: Option<HeldToken>, change: &CookieChange, now: u64) -> (after: Option<
    HeldToken,
>)
    ensures
        held(after) == slot_after(held(slot), change@, now),
{
    match change {
        CookieChange::Keep => slot,
        CookieChange::Issue(c) => Some(
            HeldToken { value: c.value.clone(), expires_at: c.lifetime.end_at(now) },
        ),
        CookieChange::Clear => None,
    }
}

fn send(slot: &Option<HeldToken>, now: u64) -> (value: Option<String>)
    ensures
        text(value) == sent(held(*slot), now),
{
    match slot {
        Some(token) => if now < token.expires_at {
            Some(token.value.clone())
        } else {
            None
        },
        None => None,
    }
}

impl SessionHandle {
    /// The handle of a client that holds nothing.
    pub fn new() -> (handle: SessionHandle)
        ensures
            handle@ == empty_handle(),
    {
        SessionHandle { access: None, refresh: None }
    }

    /// Takes in the cookies of a response that reaches the client at `now`.
    pub fn apply(self, changes: &CookieChanges, now: u64) -> (after: SessionHandle)
        ensures
            after@ == self@.apply(changes@, now),
    {
        SessionHandle {
            access: apply_change(self.access, &changes.access, now),
            refresh: apply_change(self.refresh, &changes.refresh, now),
        }
    }

    /// The cookies that a request made at `now` carries.
    pub fn present(&self, now: u64) -> (presented: Presented)
        ensures
            presented@ == self@.present(now),
    {
        Presented {
            access_token: send(&self.access, now),
            refresh_token: send(&self.refresh, now),
        }
    }
}

} // verus!
