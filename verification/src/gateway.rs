//! The gateway's decisions: login, logout, and the forwarding of a request
//! with the credential that its session resolves to.
//!
//! A request is handled in steps. Each step takes the state that the handling
//! is in and the event that has arrived, and gives the next state and the one
//! action to carry out: a call of the token endpoint, a call of the upstream
//! API, or the response. The outcome of a call comes back as the next event.

use vstd::prelude::*;
use vstd::pervasive::unreached;
use vstd::string::StringExecFns;
use crate::error::{
    local_error, new_error, STATUS_INTERNAL_SERVER_ERROR, STATUS_OK, STATUS_UNAUTHORIZED,
};
use crate::message::{
    AdmittedRequest, AdmittedRequestView, Body, BodyView, GatewayConfig, GatewayConfigView, Grant,
    ProxyRequest, ProxyRequestView, Response, ResponseView, TokenRequest, TokenRequestView,
    UpstreamOutcome, UpstreamOutcomeView, UpstreamRequest, UpstreamRequestView,
};
use crate::session::{
    cleared, create, created, destroy, load, refresh, refreshed, unchanged, CookieChanges,
    CookieChangesView, Loaded, LoadedView, Presented, PresentedView, TokenOutcome,
    TokenOutcomeView,
};

verus! {

/// Text of the error for a request without a session.
pub open spec fn missing_session_message() -> Seq<char> {
    "No access or refresh token found"@
}

/// Text of the error for a request without a `User-Agent` header.
pub open spec fn missing_user_agent_message() -> Seq<char> {
    "No User-Agent header found. This may be required for accessing the homeworker API"@
}

/// Text of the error for an upstream that could not be reached.
pub open spec fn unreachable_message() -> Seq<char> {
    "Proxy could not reach the homeworker API"@
}

/// The value of the `Authorization` header for an access token.
pub open spec fn bearer(access_token: Seq<char>) -> Seq<char> {
    "Bearer "@ + access_token
}

/// The call that exchanges an authorization code.
pub open spec fn exchange_request(config: GatewayConfigView, code: Seq<char>) -> TokenRequestView {
    TokenRequestView {
        grant: Grant::AuthorizationCode,
        client_id: config.client_id,
        client_secret: config.client_secret,
        token: code,
    }
}

/// The call that refreshes an access token.
pub open spec fn refresh_request(
    config: GatewayConfigView,
    refresh_token: Seq<char>,
) -> TokenRequestView {
    TokenRequestView {
        grant: Grant::RefreshToken,
        client_id: config.client_id,
        client_secret: config.client_secret,
        token: refresh_token,
    }
}

/// The call that forwards a request: the same method and body, the path behind
/// the upstream's base, the access token as bearer, the `User-Agent` as it came.
pub open spec fn upstream_request(
    config: GatewayConfigView,
    access_token: Seq<char>,
    request: AdmittedRequestView,
) -> UpstreamRequestView {
    UpstreamRequestView {
        method: request.method,
        url: config.upstream_base + request.path,
        authorization: bearer(access_token),
        user_agent: request.user_agent,
        body: request.body,
    }
}

/// The response by which the gateway itself refuses a request.
pub open spec fn rejection(status: u16, cookies: CookieChangesView, message: Seq<char>) -> ResponseView {
    ResponseView { status, cookies, body: BodyView::Error(local_error(status, message)) }
}

/// The response to a login, given how the exchange of the code ended at `now`.
/// A new session is handed out as two cookies, with status 200 and no body.
/// An error is answered with its status and itself as the body, and no cookie.
pub open spec fn login_response(
    config: GatewayConfigView,
    outcome: TokenOutcomeView,
    now: u64,
) -> ResponseView {
    match created(outcome, now, config.cookie_path) {
        Ok(stored) => ResponseView {
            status: STATUS_OK,
            cookies: stored.cookies,
            body: BodyView::Empty,
        },
        Err(error) => ResponseView {
            status: error.http_status(),
            cookies: unchanged(),
            body: BodyView::Error(error),
        },
    }
}

/// The response to a logout: both cookies are dropped, with status 200,
/// whether or not there was a session.
pub open spec fn logout_response() -> ResponseView {
    ResponseView { status: STATUS_OK, cookies: cleared(), body: BodyView::Empty }
}

/// The state that handling a request is in.
#[derive(Clone, Debug, PartialEq, Eq)]
pub enum State {
    /// Nothing has arrived yet.
    Ready,
    /// A login waits for the exchange of its code.
    Exchanging,
    /// A request to forward waits for a new access token.
    Refreshing { refresh_token: String, request: AdmittedRequest },
    /// A request has been forwarded and waits for the upstream. The cookies
    /// are those that the response will carry.
    Forwarding { cookies: CookieChanges },
    /// The response has been given.
    Done,
}

/// What a [`State`] is, as plain values.
pub enum StateView {
    Ready,
    Exchanging,
    Refreshing { refresh_token: Seq<char>, request: AdmittedRequestView },
    Forwarding { cookies: CookieChangesView },
    Done,
}

impl View for State {
    type V = StateView;

    open spec fn view(&self) -> StateView {
        match self {
            State::Ready => StateView::Ready,
            State::Exchanging => StateView::Exchanging,
            State::Refreshing { refresh_token, request } => StateView::Refreshing {
                refresh_token: refresh_token@,
                request: request@,
            },
            State::Forwarding { cookies } => StateView::Forwarding { cookies: cookies@ },
            State::Done => StateView::Done,
        }
    }
}

/// A request as it reaches the gateway.
#[derive(Clone, Debug, PartialEq, Eq)]
pub enum Inbound {
    /// `POST /login`, with the authorization code as its body.
    Login { code: String },
    /// `POST /logout`.
    Logout,
    /// A request under the forwarded prefix, with the cookies it carries.
    Proxy { presented: Presented, request: ProxyRequest },
}

/// What an [`Inbound`] is, as plain values.
pub enum InboundView {
    Login { code: Seq<char> },
    Logout,
    Proxy { presented: PresentedView, request: ProxyRequestView },
}

impl View for Inbound {
    type V = InboundView;

    open spec fn view(&self) -> InboundView {
        match self {
            Inbound::Login { code } => InboundView::Login { code: code@ },
            Inbound::Logout => InboundView::Logout,
            Inbound::Proxy { presented, request } => InboundView::Proxy {
                presented: presented@,
                request: request@,
            },
        }
    }
}

/// What can arrive while a request is handled.
#[derive(Clone, Debug, PartialEq, Eq)]
pub enum Event {
    /// The request itself.
    Inbound(Inbound),
    /// The outcome of a call of the token endpoint.
    Token(TokenOutcome),
    /// The outcome of a call of the upstream API.
    Upstream(UpstreamOutcome),
}

/// What an [`Event`] is, as plain values.
pub enum EventView {
    Inbound(InboundView),
    Token(TokenOutcomeView),
    Upstream(UpstreamOutcomeView),
}

impl View for Event {
    type V = EventView;

    open spec fn view(&self) -> EventView {
        match self {
            Event::Inbound(inbound) => EventView::Inbound(inbound@),
            Event::Token(outcome) => EventView::Token(outcome@),
            Event::Upstream(outcome) => EventView::Upstream(outcome@),
        }
    }
}

/// What the gateway asks its caller to do.
#[derive(Clone, Debug, PartialEq, Eq)]
pub enum Action {
    /// Call the token endpoint and come back with the outcome.
    CallToken(TokenRequest),
    /// Call the upstream API and come back with the outcome.
    Forward(UpstreamRequest),
    /// Answer the client.
    Respond(Response),
}

/// What an [`Action`] is, as plain values.
pub enum ActionView {
    CallToken(TokenRequestView),
    Forward(UpstreamRequestView),
    Respond(ResponseView),
}

impl View for Action {
    type V = ActionView;

    open spec fn view(&self) -> ActionView {
        match self {
            Action::CallToken(request) => ActionView::CallToken(request@),
            Action::Forward(request) => ActionView::Forward(request@),
            Action::Respond(response) => ActionView::Respond(response@),
        }
    }
}

/// One step: the state that follows, and what to do.
#[derive(Clone, Debug, PartialEq, Eq)]
pub struct Transition {
    pub state: State,
    pub action: Action,
}

/// What a [`Transition`] is, as plain values.
pub struct TransitionView {
    pub state: StateView,
    pub action: ActionView,
}

impl View for Transition {
    type V = TransitionView;

    open spec fn view(&self) -> TransitionView {
        TransitionView { state: self.state@, action: self.action@ }
    }
}

/// The step that ends the handling with `response`.
pub open spec fn respond(response: ResponseView) -> TransitionView {
    TransitionView { state: StateView::Done, action: ActionView::Respond(response) }
}

/// The step once the access token is known: the request goes to the
/// upstream, and the response will carry `cookies`.
pub open spec fn forwarded(
    config: GatewayConfigView,
    access_token: Seq<char>,
    request: AdmittedRequestView,
    cookies: CookieChangesView,
) -> TransitionView {
    TransitionView {
        state: StateView::Forwarding { cookies },
        action: ActionView::Forward(upstream_request(config, access_token, request)),
    }
}

/// The first step for a request to forward. Without a session it is refused
/// with 401. Without a `User-Agent` header it is refused with 401 as well,
/// before any outbound call, and the cookies stay as they are. Otherwise, with
/// an access token it is forwarded at once, and with a refresh token alone the
/// token endpoint is called first.
pub open spec fn proxy_start(
    config: GatewayConfigView,
    presented: PresentedView,
    request: ProxyRequestView,
) -> TransitionView {
    match presented.loaded() {
        LoadedView::NotFound => respond(
            rejection(STATUS_UNAUTHORIZED, unchanged(), missing_session_message()),
        ),
        LoadedView::Valid { access_token } => match request.admitted() {
            None => respond(
                rejection(STATUS_UNAUTHORIZED, unchanged(), missing_user_agent_message()),
            ),
            Some(admitted) => forwarded(config, access_token, admitted, unchanged()),
        },
        LoadedView::Expired { refresh_token } => match request.admitted() {
            None => respond(
                rejection(STATUS_UNAUTHORIZED, unchanged(), missing_user_agent_message()),
            ),
            Some(admitted) => TransitionView {
                state: StateView::Refreshing { refresh_token, request: admitted },
                action: ActionView::CallToken(refresh_request(config, refresh_token)),
            },
        },
    }
}

/// The step once the refresh has ended at `now`. A new access token is handed
/// to the client as a cookie and the request is forwarded with it. A failure
/// is answered with 401, and the client is told to drop both cookies.
pub open spec fn after_refresh(
    config: GatewayConfigView,
    refresh_token: Seq<char>,
    request: AdmittedRequestView,
    outcome: TokenOutcomeView,
    now: u64,
) -> TransitionView {
    match refreshed(refresh_token, outcome, now, config.cookie_path) {
        Ok(stored) => forwarded(config, stored.credential.access_token, request, stored.cookies),
        Err(error) => respond(
            ResponseView {
                status: error.http_status(),
                cookies: cleared(),
                body: BodyView::Error(error),
            },
        ),
    }
}

/// The response once the upstream call has ended. An answer is passed on with
/// its status and body as they came. An upstream out of reach is a 500.
pub open spec fn relayed(cookies: CookieChangesView, outcome: UpstreamOutcomeView) -> ResponseView {
    match outcome {
        UpstreamOutcomeView::Answered(response) => ResponseView {
            status: response.status,
            cookies,
            body: BodyView::Text(response.body),
        },
        UpstreamOutcomeView::Unreachable => rejection(
            STATUS_INTERNAL_SERVER_ERROR,
            cookies,
            unreachable_message(),
        ),
    }
}

impl StateView {
    /// Whether `event` is what this state waits for.
    pub open spec fn accepts(self, event: EventView) -> bool {
        match (self, event) {
            (StateView::Ready, EventView::Inbound(_)) => true,
            (StateView::Exchanging, EventView::Token(_)) => true,
            (StateView::Refreshing { .. }, EventView::Token(_)) => true,
            (StateView::Forwarding { .. }, EventView::Upstream(_)) => true,
            _ => false,
        }
    }
}

/// The step that `event`, arriving at `now`, causes in `state`. It is stated
/// for the events that the state accepts.
pub open spec fn step_spec(
    config: GatewayConfigView,
    state: StateView,
    event: EventView,
    now: u64,
) -> TransitionView
    recommends
        state.accepts(event),
{
    match (state, event) {
        (StateView::Ready, EventView::Inbound(InboundView::Login { code })) => TransitionView {
            state: StateView::Exchanging,
            action: ActionView::CallToken(exchange_request(config, code)),
        },
        (StateView::Ready, EventView::Inbound(InboundView::Logout)) => respond(logout_response()),
        (
            StateView::Ready,
            EventView::Inbound(InboundView::Proxy { presented, request }),
        ) => proxy_start(config, presented, request),
        (StateView::Exchanging, EventView::Token(outcome)) => respond(
            login_response(config, outcome, now),
        ),
        (
            StateView::Refreshing { refresh_token, request },
            EventView::Token(outcome),
        ) => after_refresh(config, refresh_token, request, outcome, now),
        (StateView::Forwarding { cookies }, EventView::Upstream(outcome)) => respond(
            relayed(cookies, outcome),
        ),
        _ => arbitrary(),
    }
}

/// The event that tells how the call asked for by `action` ended fits the
/// action: a token outcome for a call of the token endpoint, an upstream
/// outcome for a forwarded request.
pub open spec fn answers(action: ActionView, event: EventView) -> bool {
    match action {
        ActionView::CallToken(_) => event is Token,
        ActionView::Forward(_) => event is Upstream,
        ActionView::Respond(_) => false,
    }
}

/// A step never leaves its caller without a way on: the state after a
/// response is `Done`, and the state after a call accepts every outcome of
/// that call.
pub proof fn step_leads_on(
    config: GatewayConfigView,
    state: StateView,
    event: EventView,
    now: u64,
    next: EventView,
)
    requires
        state.accepts(event),
    ensures
        step_spec(config, state, event, now).action is Respond <==> step_spec(
            config,
            state,
            event,
            now,
        ).state == StateView::Done,
        answers(step_spec(config, state, event, now).action, next) ==> step_spec(
            config,
            state,
            event,
            now,
        ).state.accepts(next),
{
}

fn rejected(status: u16, cookies: CookieChanges, message: String) -> (response: Response)
    ensures
        response@ == rejection(status, cookies@, message@),
{
    Response { status, cookies, body: Body::Error(new_error(status, message)) }
}

fn responding(response: Response) -> (t: Transition)
    ensures
        t@ == respond(response@),
{
    Transition { state: State::Done, action: Action::Respond(response) }
}

/// The call of the token endpoint that a login makes.
pub fn login_request(config: &GatewayConfig, code: String) -> (request: TokenRequest)
    ensures
        request@ == exchange_request(config@, code@),
{
    TokenRequest {
        grant: Grant::AuthorizationCode,
        client_id: config.client_id.clone(),
        client_secret: config.client_secret.clone(),
        token: code,
    }
}

/// Answers a login whose exchange ended with `outcome` at `now`.
pub fn login(config: &GatewayConfig, outcome: TokenOutcome, now: u64) -> (response: Response)
    ensures
        response@ == login_response(config@, outcome@, now),
        response@.cookies.well_named(),
{
    match create(outcome, now, &config.cookie_path) {
        Ok(stored) => Response { status: STATUS_OK, cookies: stored.cookies, body: Body::Empty },
        Err(error) => Response {
            status: error.to_http_status(),
            cookies: CookieChanges::unchanged(),
            body: Body::Error(error),
        },
    }
}

/// Answers a logout.
pub fn logout() -> (response: Response)
    ensures
        response@ == logout_response(),
        response@.cookies.well_named(),
{
    Response { status: STATUS_OK, cookies: destroy(), body: Body::Empty }
}

/// Forwards a request under its access token.
pub fn forward(
    config: &GatewayConfig,
    access_token: String,
    request: AdmittedRequest,
    cookies: CookieChanges,
) -> (t: Transition)
    ensures
        t@ == forwarded(config@, access_token@, request@, cookies@),
{
    let upstream = UpstreamRequest {
        method: request.method,
        url: config.upstream_base.clone().concat(request.path.as_str()),
        authorization: String::from_str("Bearer ").concat(access_token.as_str()),
        user_agent: request.user_agent,
        body: request.body,
    };
    Transition { state: State::Forwarding { cookies }, action: Action::Forward(upstream) }
}

fn missing_user_agent() -> (t: Transition)
    ensures
        t@ == respond(
            rejection(STATUS_UNAUTHORIZED, unchanged(), missing_user_agent_message()),
        ),
{
    responding(
        rejected(
            STATUS_UNAUTHORIZED,
            CookieChanges::unchanged(),
            String::from_str(
                "No User-Agent header found. This may be required for accessing the homeworker API",
            ),
        ),
    )
}

/// Takes up a request to forward, with the cookies that it carries.
pub fn proxy(config: &GatewayConfig, presented: Presented, request: ProxyRequest) -> (t: Transition)
    ensures
        t@ == proxy_start(config@, presented@, request@),
{
    match load(presented) {
        Loaded::NotFound => responding(
            rejected(
                STATUS_UNAUTHORIZED,
                CookieChanges::unchanged(),
                String::from_str("No access or refresh token found"),
            ),
        ),
        Loaded::Valid { access_token } => match request.into_admitted() {
            None => missing_user_agent(),
            Some(admitted) => forward(config, access_token, admitted, CookieChanges::unchanged()),
        },
        Loaded::Expired { refresh_token } => match request.into_admitted() {
            None => missing_user_agent(),
            Some(admitted) => {
                let call = TokenRequest {
                    grant: Grant::RefreshToken,
                    client_id: config.client_id.clone(),
                    client_secret: config.client_secret.clone(),
                    token: refresh_token.clone(),
                };
                Transition {
                    state: State::Refreshing { refresh_token, request: admitted },
                    action: Action::CallToken(call),
                }
            },
        },
    }
}

/// Goes on with a request once the refresh of its access token has ended with
/// `outcome` at `now`.
pub fn refresh_token(
    config: &GatewayConfig,
    token: String,
    request: AdmittedRequest,
    outcome: TokenOutcome,
    now: u64,
) -> (t: Transition)
    ensures
        t@ == after_refresh(config@, token@, request@, outcome@, now),
{
    match refresh(token, outcome, now, &config.cookie_path) {
        Ok(stored) => forward(config, stored.credential.access_token, request, stored.cookies),
        Err(error) => responding(
            Response {
                status: error.to_http_status(),
                cookies: destroy(),
                body: Body::Error(error),
            },
        ),
    }
}

/// Answers a request whose upstream call ended with `outcome`.
pub fn relay(cookies: CookieChanges, outcome: UpstreamOutcome) -> (response: Response)
    ensures
        response@ == relayed(cookies@, outcome@),
{
    match outcome {
        UpstreamOutcome::Answered(upstream) => Response {
            status: upstream.status,
            cookies,
            body: Body::Text(upstream.body),
        },
        UpstreamOutcome::Unreachable => rejected(
            STATUS_INTERNAL_SERVER_ERROR,
            cookies,
            String::from_str("Proxy could not reach the homeworker API"),
        ),
    }
}

impl State {
    /// Whether `event` is what this state waits for.
    pub fn accepts(&self, event: &Event) -> (yes: bool)
        ensures
            yes == self@.accepts(event@),
    {
        match self {
            State::Ready => match event {
                Event::Inbound(_) => true,
                _ => false,
            },
            State::Exchanging => match event {
                Event::Token(_) => true,
                _ => false,
            },
            State::Refreshing { .. } => match event {
                Event::Token(_) => true,
                _ => false,
            },
            State::Forwarding { .. } => match event {
                Event::Upstream(_) => true,
                _ => false,
            },
            State::Done => false,
        }
    }
}

/// Takes one step: `event` has arrived at `now` while the handling was in
/// `state`.
pub fn step(config: &GatewayConfig, state: State, event: Event, now: u64) -> (t: Transition)
    requires
        state@.accepts(event@),
    ensures
        t@ == step_spec(config@, state@, event@, now),
{
    match state {
        State::Ready => match event {
            Event::Inbound(Inbound::Login { code }) => Transition {
                state: State::Exchanging,
                action: Action::CallToken(login_request(config, code)),
            },
            Event::Inbound(Inbound::Logout) => responding(logout()),
            Event::Inbound(Inbound::Proxy { presented, request }) => proxy(
                config,
                presented,
                request,
            ),
            _ => unreached(),
        },
        State::Exchanging => match event {
            Event::Token(outcome) => responding(login(config, outcome, now)),
            _ => unreached(),
        },
        State::Refreshing { refresh_token: token, request } => match event {
            Event::Token(outcome) => refresh_token(config, token, request, outcome, now),
            _ => unreached(),
        },
        State::Forwarding { cookies } => match event {
            Event::Upstream(outcome) => responding(relay(cookies, outcome)),
            _ => unreached(),
        },
        State::Done => unreached(),
    }
}

} // verus!
