//! A request from its arrival to its response, and a session across requests.
//!
//! [`handled`] follows the gateway's steps for one request against given
//! outcomes of the outbound calls. The proof functions state what then holds
//! of every request and of every session.

use vstd::prelude::*;
use crate::cookie::{access_cookie, deadline, CookieChangeView, CookieName, Lifetime};
use crate::error::{ErrorKind, STATUS_OK, STATUS_UNAUTHORIZED};
use crate::gateway::{
    exchange_request, missing_session_message, missing_user_agent_message, refresh_request,
    rejection, step_spec, upstream_request, ActionView, EventView, InboundView, StateView,
};
use crate::message::{
    AdmittedRequestView, BodyView, GatewayConfigView, ProxyRequestView, ResponseView,
    UpstreamOutcomeView, UpstreamResponseView,
};
use crate::session::{
    cleared, empty_handle, unchanged, PresentedView, SessionHandleView, TokenFailureView,
    TokenOutcomeView, TokenResponseView,
};

verus! {

/// How the outbound calls of one request would end.
pub struct World {
    /// The outcome of a call of the token endpoint.
    pub token: TokenOutcomeView,
    /// The outcome of a call of the upstream API.
    pub upstream: UpstreamOutcomeView,
}

impl World {
    /// The event that carrying out `action` brings back.
    pub open spec fn answer(self, action: ActionView) -> EventView {
        match action {
            ActionView::Forward(_) => EventView::Upstream(self.upstream),
            _ => EventView::Token(self.token),
        }
    }
}

/// One request, handled.
pub struct Handled {
    /// The outbound calls that were made, in their order.
    pub calls: Seq<ActionView>,
    /// The state that the handling ended in.
    pub state: StateView,
    /// The response.
    pub response: ResponseView,
}

/// The handling of `inbound`, arriving at `now`, where the outbound calls end
/// as `world` says: the gateway's steps, for as long as they ask for a call.
pub open spec fn handled(
    config: GatewayConfigView,
    inbound: InboundView,
    world: World,
    now: u64,
) -> Handled {
    let first = step_spec(config, StateView::Ready, EventView::Inbound(inbound), now);
    match first.action {
        ActionView::Respond(response) => Handled { calls: seq![], state: first.state, response },
        _ => {
            let second = step_spec(config, first.state, world.answer(first.action), now);
            match second.action {
                ActionView::Respond(response) => Handled {
                    calls: seq![first.action],
                    state: second.state,
                    response,
                },
                _ => {
                    let third = step_spec(config, second.state, world.answer(second.action), now);
                    Handled {
                        calls: seq![first.action, second.action],
                        state: third.state,
                        response: match third.action {
                            ActionView::Respond(response) => response,
                            _ => arbitrary(),
                        },
                    }
                },
            }
        },
    }
}

/// The handling of a request to forward.
pub open spec fn forwarding(
    config: GatewayConfigView,
    presented: PresentedView,
    request: ProxyRequestView,
    world: World,
    now: u64,
) -> Handled {
    handled(config, InboundView::Proxy { presented, request }, world, now)
}

/// Every request is answered after at most two outbound calls, made one after
/// the other: at most one of the token endpoint, then at most one of the
/// upstream API. Nothing is tried twice.
pub proof fn handling_ends(config: GatewayConfigView, inbound: InboundView, world: World, now: u64)
    ensures
        handled(config, inbound, world, now).state == StateView::Done,
        handled(config, inbound, world, now).calls.len() <= 2,
        handled(config, inbound, world, now).calls.len() == 2 ==> {
            &&& handled(config, inbound, world, now).calls[0] is CallToken
            &&& handled(config, inbound, world, now).calls[1] is Forward
        },
{
}

/// The cookies of every response carry the names of their places.
pub proof fn cookies_are_well_named(
    config: GatewayConfigView,
    inbound: InboundView,
    world: World,
    now: u64,
)
    ensures
        handled(config, inbound, world, now).response.cookies.well_named(),
{
}

/// A request whose upstream call is answered gets the upstream's status and
/// body as they came, whatever the status is.
pub proof fn upstream_answer_passes_through(
    config: GatewayConfigView,
    presented: PresentedView,
    request: ProxyRequestView,
    world: World,
    answer: UpstreamResponseView,
    now: u64,
)
    requires
        world.upstream == UpstreamOutcomeView::Answered(answer),
        handled(config, InboundView::Proxy { presented, request }, world, now).calls.len() > 0,
        handled(config, InboundView::Proxy { presented, request }, world, now).calls.last() is Forward,
    ensures
        forwarding(config, presented, request, world, now).response.status == answer.status,
        forwarding(config, presented, request, world, now).response.body == BodyView::Text(
            answer.body,
        ),
{
}

/// A request without a `User-Agent` header is answered with 401 without any
/// outbound call, neither of the token endpoint nor of the upstream API,
/// whatever it presents, and the cookies stay as they are. Where it presents
/// a token, the response says that the header is missing.
pub proof fn missing_user_agent_is_refused(
    config: GatewayConfigView,
    presented: PresentedView,
    request: ProxyRequestView,
    world: World,
    now: u64,
)
    requires
        request.user_agent is None,
    ensures
        forwarding(config, presented, request, world, now).calls.len() == 0,
        forwarding(config, presented, request, world, now).response.status == STATUS_UNAUTHORIZED,
        forwarding(config, presented, request, world, now).response.cookies == unchanged(),
        forwarding(config, presented, request, world, now).response.body matches BodyView::Error(e)
            && e.kind == ErrorKind::Unauthenticated,
        presented.access_token is Some || presented.refresh_token is Some ==> forwarding(
            config,
            presented,
            request,
            world,
            now,
        ).response == rejection(STATUS_UNAUTHORIZED, unchanged(), missing_user_agent_message()),
{
}

/// A request that presents no token is answered with 401, as unauthenticated,
/// without an outbound call, and the cookies stay as they are.
pub proof fn no_session_is_refused(
    config: GatewayConfigView,
    presented: PresentedView,
    request: ProxyRequestView,
    world: World,
    now: u64,
)
    requires
        presented.access_token is None,
        presented.refresh_token is None,
    ensures
        forwarding(config, presented, request, world, now).calls.len() == 0,
        forwarding(config, presented, request, world, now).response == rejection(
            STATUS_UNAUTHORIZED,
            unchanged(),
            missing_session_message(),
        ),
        forwarding(config, presented, request, world, now).response.body matches BodyView::Error(e)
            && e.kind == ErrorKind::Unauthenticated,
{
}

/// After a login whose exchange succeeds at `now`, a request made at any
/// `later` instant before the access token ends needs no refresh: with a
/// `User-Agent` it is forwarded at once, under the new access token, and an
/// answer of the upstream is its response.
pub proof fn login_then_forward_needs_no_refresh(
    config: GatewayConfigView,
    before: SessionHandleView,
    code: Seq<char>,
    granted: TokenResponseView,
    request: ProxyRequestView,
    login_world: World,
    world: World,
    now: u64,
    later: u64,
)
    requires
        login_world.token == TokenOutcomeView::Granted(granted),
        now <= later < deadline(now, granted.expires_in),
    ensures
        ({
            let login = handled(config, InboundView::Login { code }, login_world, now);
            let session = before.apply(login.response.cookies, now);
            let run = forwarding(config, session.present(later), request, world, later);
            &&& login.calls == seq![ActionView::CallToken(exchange_request(config, code))]
            &&& login.response.status == STATUS_OK
            &&& login.response.body == BodyView::Empty
            &&& session.present(later).access_token == Some(granted.access_token)
            &&& forall|i: int| 0 <= i < run.calls.len() ==> !(#[trigger] run.calls[i] is CallToken)
            &&& request.admitted() matches Some(admitted) ==> {
                &&& run.calls == seq![
                    ActionView::Forward(upstream_request(config, granted.access_token, admitted)),
                ]
                &&& run.response.cookies == unchanged()
                &&& world.upstream matches UpstreamOutcomeView::Answered(answer) ==> {
                    &&& run.response.status == answer.status
                    &&& run.response.body == BodyView::Text(answer.body)
                }
            }
        }),
{
}

/// A session whose access token has ended and whose refresh token is still
/// there: a request with a `User-Agent` causes exactly one refresh and is then
/// forwarded under the new access token. An answer of the upstream is its
/// response. The response hands the new access token to the client, as an
/// `HttpOnly` and `Secure` cookie kept for exactly the seconds that the
/// endpoint declared, and leaves the refresh token as it is.
pub proof fn expired_access_is_refreshed_once(
    config: GatewayConfigView,
    session: SessionHandleView,
    refresh_token: Seq<char>,
    request: ProxyRequestView,
    admitted: AdmittedRequestView,
    granted: TokenResponseView,
    answer: UpstreamResponseView,
    world: World,
    now: u64,
)
    requires
        session.present(now).access_token is None,
        session.present(now).refresh_token == Some(refresh_token),
        request.admitted() == Some(admitted),
        world.token == TokenOutcomeView::Granted(granted),
        world.upstream == UpstreamOutcomeView::Answered(answer),
    ensures
        ({
            let run = forwarding(config, session.present(now), request, world, now);
            let after = session.apply(run.response.cookies, now);
            &&& run.calls == seq![
                ActionView::CallToken(refresh_request(config, refresh_token)),
                ActionView::Forward(upstream_request(config, granted.access_token, admitted)),
            ]
            &&& run.response.status == answer.status
            &&& run.response.body == BodyView::Text(answer.body)
            &&& run.response.cookies.access == CookieChangeView::Issue(
                access_cookie(granted.access_token, granted.expires_in, config.cookie_path),
            )
            &&& run.response.cookies.access matches CookieChangeView::Issue(cookie) && {
                &&& cookie.name == CookieName::AccessToken
                &&& cookie.value == granted.access_token
                &&& cookie.lifetime == Lifetime::MaxAge(granted.expires_in)
                &&& cookie.http_only
                &&& cookie.secure
            }
            &&& run.response.cookies.refresh == CookieChangeView::Keep
            &&& after.refresh == session.refresh
            &&& after.present(now).refresh_token == Some(refresh_token)
            &&& now < deadline(now, granted.expires_in) ==> after.present(now).access_token
                == Some(granted.access_token)
        }),
{
}

/// A session whose access token has ended and whose refresh token is
/// rejected: a request with a `User-Agent` is answered with 401 after the one
/// refresh, nothing is forwarded, and the client is told to drop both cookies.
/// Every request after that is refused as unauthenticated, without an
/// outbound call.
pub proof fn rejected_refresh_clears_session(
    config: GatewayConfigView,
    session: SessionHandleView,
    refresh_token: Seq<char>,
    request: ProxyRequestView,
    failure: TokenFailureView,
    world: World,
    now: u64,
    next_request: ProxyRequestView,
    next_world: World,
    later: u64,
)
    requires
        session.present(now).access_token is None,
        session.present(now).refresh_token == Some(refresh_token),
        request.user_agent is Some,
        world.token == TokenOutcomeView::Failed(failure),
    ensures
        ({
            let run = forwarding(config, session.present(now), request, world, now);
            let after = session.apply(run.response.cookies, now);
            let next = forwarding(config, after.present(later), next_request, next_world, later);
            &&& run.calls == seq![ActionView::CallToken(refresh_request(config, refresh_token))]
            &&& run.response.status == STATUS_UNAUTHORIZED
            &&& run.response.body matches BodyView::Error(e) && e.kind == ErrorKind::RefreshFailed
            &&& run.response.cookies == cleared()
            &&& after == empty_handle()
            &&& next.calls.len() == 0
            &&& next.response == rejection(
                STATUS_UNAUTHORIZED,
                unchanged(),
                missing_session_message(),
            )
        }),
{
}

/// A session whose tokens have both ended presents nothing, at that instant
/// and at every later one: its requests are refused as unauthenticated.
pub proof fn ended_session_stays_ended(
    config: GatewayConfigView,
    session: SessionHandleView,
    request: ProxyRequestView,
    world: World,
    now: u64,
    later: u64,
)
    requires
        session.present(now).access_token is None,
        session.present(now).refresh_token is None,
        now <= later,
    ensures
        session.present(later) == session.present(now),
        forwarding(config, session.present(later), request, world, later).calls.len() == 0,
        forwarding(config, session.present(later), request, world, later).response.status
            == STATUS_UNAUTHORIZED,
{
}

/// A logout is answered with 200 without an outbound call, whatever the
/// client held. Afterwards the client holds nothing, and every request is
/// refused with 401 without an outbound call.
pub proof fn logout_ends_session(
    config: GatewayConfigView,
    session: SessionHandleView,
    logout_world: World,
    now: u64,
    request: ProxyRequestView,
    world: World,
    later: u64,
)
    ensures
        ({
            let logout = handled(config, InboundView::Logout, logout_world, now);
            let after = session.apply(logout.response.cookies, now);
            let run = forwarding(config, after.present(later), request, world, later);
            &&& logout.calls.len() == 0
            &&& logout.response.status == STATUS_OK
            &&& after == empty_handle()
            &&& run.calls.len() == 0
            &&& run.response.status == STATUS_UNAUTHORIZED
        }),
{
}

/// Destroying a session twice is destroying it once, and destroying one that
/// is not there gives the same.
pub proof fn destroy_is_idempotent(session: SessionHandleView, now: u64, later: u64)
    ensures
        session.apply(cleared(), now) == empty_handle(),
        session.apply(cleared(), now).apply(cleared(), later) == session.apply(cleared(), now),
        empty_handle().apply(cleared(), now) == empty_handle(),
{
}

} // verus!
