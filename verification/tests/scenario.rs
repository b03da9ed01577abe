use homeworker_proxy::cookie::{CookieChange, CookieName, Lifetime, SameSite, SetCookie};
use homeworker_proxy::error::{ErrorKind, ProxyError, UpstreamError};
use homeworker_proxy::gateway::{step, Action, Event, Inbound, State, Transition};
use homeworker_proxy::message::{
    Body, GatewayConfig, Method, ProxyRequest, Response, TokenRequest, UpstreamOutcome,
    UpstreamRequest, UpstreamResponse,
};
use homeworker_proxy::message::Grant;
use homeworker_proxy::session::{
    CookieChanges, SessionHandle, TokenFailure, TokenOutcome, TokenResponse,
};

fn config() -> GatewayConfig {
    GatewayConfig {
        client_id: "client".to_owned(),
        client_secret: "secret".to_owned(),
        upstream_base: "https://upstream.example".to_owned(),
        cookie_path: Some("/homeworker".to_owned()),
    }
}

fn get(path: &str, user_agent: Option<&str>) -> ProxyRequest {
    ProxyRequest {
        method: Method::Get,
        path: path.to_owned(),
        user_agent: user_agent.map(|s| s.to_owned()),
        body: String::new(),
    }
}

fn granted(access: &str, refresh: &str, expires_in: u64) -> TokenOutcome {
    TokenOutcome::Granted(TokenResponse {
        access_token: access.to_owned(),
        refresh_token: refresh.to_owned(),
        expires_in,
    })
}

fn answered(status: u16, body: &str) -> UpstreamOutcome {
    UpstreamOutcome::Answered(UpstreamResponse { status, body: body.to_owned() })
}

/// Drives one request to its response; gives the calls made and the response.
fn run(
    inbound: Inbound,
    token: &TokenOutcome,
    upstream: &UpstreamOutcome,
    now: u64,
) -> (Vec<Action>, Response) {
    let config = config();
    let mut calls = Vec::new();
    let mut t: Transition = step(&config, State::Ready, Event::Inbound(inbound), now);
    loop {
        let event = match &t.action {
            Action::Respond(response) => {
                assert_eq!(t.state, State::Done);
                return (calls, response.clone());
            }
            Action::CallToken(_) => Event::Token(token.clone()),
            Action::Forward(_) => Event::Upstream(upstream.clone()),
        };
        calls.push(t.action.clone());
        assert!(calls.len() <= 2);
        t = step(&config, t.state, event, now);
    }
}

fn forward_at(
    session: &SessionHandle,
    request: ProxyRequest,
    token: &TokenOutcome,
    upstream: &UpstreamOutcome,
    now: u64,
) -> (Vec<Action>, Response) {
    run(Inbound::Proxy { presented: session.present(now), request }, token, upstream, now)
}

fn unused_token() -> TokenOutcome {
    TokenOutcome::Failed(TokenFailure::Transport)
}

fn logged_in(now: u64, expires_in: u64) -> SessionHandle {
    let (_, response) = run(
        Inbound::Login { code: "abc123".to_owned() },
        &granted("access-1", "refresh-1", expires_in),
        &UpstreamOutcome::Unreachable,
        now,
    );
    SessionHandle::new().apply(&response.cookies, now)
}

#[test]
fn login_forward_logout_scenario() {
    let now: u64 = 1_700_000_000;
    let (calls, response) = run(
        Inbound::Login { code: "abc123".to_owned() },
        &granted("access-1", "refresh-1", 3600),
        &UpstreamOutcome::Unreachable,
        now,
    );
    assert_eq!(
        calls,
        vec![Action::CallToken(TokenRequest {
            grant: Grant::AuthorizationCode,
            client_id: "client".to_owned(),
            client_secret: "secret".to_owned(),
            token: "abc123".to_owned(),
        })]
    );
    assert_eq!(response.status, 200);
    assert_eq!(response.body, Body::Empty);
    assert_eq!(
        response.cookies,
        CookieChanges {
            access: CookieChange::Issue(SetCookie {
                name: CookieName::AccessToken,
                value: "access-1".to_owned(),
                http_only: true,
                secure: true,
                path: Some("/homeworker".to_owned()),
                same_site: SameSite::Lax,
                lifetime: Lifetime::MaxAge(3600),
            }),
            refresh: CookieChange::Issue(SetCookie {
                name: CookieName::RefreshToken,
                value: "refresh-1".to_owned(),
                http_only: true,
                secure: true,
                path: Some("/homeworker".to_owned()),
                same_site: SameSite::Lax,
                lifetime: Lifetime::ExpiresAt(1_700_000_000 + 729 * 86_400),
            }),
        }
    );
    assert_eq!(CookieName::AccessToken.as_str(), "access-token");
    assert_eq!(CookieName::RefreshToken.as_str(), "refresh-token");

    let session = SessionHandle::new().apply(&response.cookies, now);
    let (calls, response) = forward_at(
        &session,
        get("/api/v2/me", Some("test")),
        &unused_token(),
        &answered(200, "{\"id\":7}"),
        now,
    );
    assert_eq!(
        calls,
        vec![Action::Forward(UpstreamRequest {
            method: Method::Get,
            url: "https://upstream.example/api/v2/me".to_owned(),
            authorization: "Bearer access-1".to_owned(),
            user_agent: "test".to_owned(),
            body: String::new(),
        })]
    );
    assert_eq!(response.status, 200);
    assert_eq!(response.body, Body::Text("{\"id\":7}".to_owned()));
    assert_eq!(response.cookies, CookieChanges::unchanged());

    let (calls, response) =
        run(Inbound::Logout, &unused_token(), &UpstreamOutcome::Unreachable, now + 1);
    assert!(calls.is_empty());
    assert_eq!(response.status, 200);
    assert_eq!(response.body, Body::Empty);
    assert_eq!(
        response.cookies,
        CookieChanges { access: CookieChange::Clear, refresh: CookieChange::Clear }
    );

    let session = session.apply(&response.cookies, now + 1);
    assert_eq!(session, SessionHandle::new());
    let (calls, response) = forward_at(
        &session,
        get("/api/v2/me", Some("test")),
        &granted("never", "never", 1),
        &answered(200, "never"),
        now + 2,
    );
    assert!(calls.is_empty());
    assert_eq!(response.status, 401);
}

#[test]
fn forward_right_after_login_makes_no_refresh() {
    let now: u64 = 50;
    let session = logged_in(now, 1);
    let (calls, response) = forward_at(
        &session,
        get("/api/v2/me", Some("ua")),
        &granted("other", "other", 10),
        &answered(204, ""),
        now,
    );
    assert_eq!(calls.len(), 1);
    assert!(matches!(calls[0], Action::Forward(_)));
    assert_eq!(response.status, 204);
    assert_eq!(response.body, Body::Text(String::new()));
}

#[test]
fn login_with_zero_lifetime_needs_refresh_at_once() {
    let now: u64 = 50;
    let session = logged_in(now, 0);
    assert_eq!(session.present(now).access_token, None);
    assert_eq!(session.present(now).refresh_token, Some("refresh-1".to_owned()));
    let (calls, _) = forward_at(
        &session,
        get("/x", Some("ua")),
        &granted("access-2", "ignored", 10),
        &answered(200, "ok"),
        now,
    );
    assert_eq!(calls.len(), 2);
    assert!(matches!(calls[0], Action::CallToken(_)));
}

#[test]
fn expired_access_token_is_refreshed_once() {
    let now: u64 = 1000;
    let session = logged_in(now, 60);
    let later = now + 60;
    assert_eq!(session.present(later - 1).access_token, Some("access-1".to_owned()));
    assert_eq!(session.present(later).access_token, None);

    let request = ProxyRequest {
        method: Method::Post,
        path: "/api/v2/notes".to_owned(),
        user_agent: Some("agent/1.0".to_owned()),
        body: "hello".to_owned(),
    };
    let (calls, response) = forward_at(
        &session,
        request,
        &granted("access-2", "refresh-rotated", 120),
        &answered(201, "created"),
        later,
    );
    assert_eq!(
        calls,
        vec![
            Action::CallToken(TokenRequest {
                grant: Grant::RefreshToken,
                client_id: "client".to_owned(),
                client_secret: "secret".to_owned(),
                token: "refresh-1".to_owned(),
            }),
            Action::Forward(UpstreamRequest {
                method: Method::Post,
                url: "https://upstream.example/api/v2/notes".to_owned(),
                authorization: "Bearer access-2".to_owned(),
                user_agent: "agent/1.0".to_owned(),
                body: "hello".to_owned(),
            }),
        ]
    );
    assert_eq!(response.status, 201);
    assert_eq!(response.body, Body::Text("created".to_owned()));
    assert_eq!(
        response.cookies,
        CookieChanges {
            access: CookieChange::Issue(SetCookie {
                name: CookieName::AccessToken,
                value: "access-2".to_owned(),
                http_only: true,
                secure: true,
                path: Some("/homeworker".to_owned()),
                same_site: SameSite::Lax,
                lifetime: Lifetime::MaxAge(120),
            }),
            refresh: CookieChange::Keep,
        }
    );
    let after = session.clone().apply(&response.cookies, later);
    assert_eq!(after.refresh, session.refresh);
    assert_eq!(after.present(later).access_token, Some("access-2".to_owned()));
    assert_eq!(after.present(later).refresh_token, Some("refresh-1".to_owned()));
    assert_eq!(after.present(later + 119).access_token, Some("access-2".to_owned()));
    assert_eq!(after.present(later + 120).access_token, None);
}

#[test]
fn rejected_refresh_gives_401_and_clears_the_session() {
    let now: u64 = 1000;
    let session = logged_in(now, 60);
    let later = now + 61;
    let rejected = TokenOutcome::Failed(TokenFailure::Api(UpstreamError {
        name: "invalid_grant".to_owned(),
        message: "refresh token revoked".to_owned(),
        code: 400,
    }));
    let (calls, response) =
        forward_at(&session, get("/api/v2/me", Some("ua")), &rejected, &answered(200, "no"), later);
    assert_eq!(calls.len(), 1);
    assert!(matches!(calls[0], Action::CallToken(_)));
    assert_eq!(response.status, 401);
    assert_eq!(
        response.body,
        Body::Error(ProxyError {
            kind: ErrorKind::RefreshFailed,
            name: "Proxy".to_owned(),
            message: "Unable to refresh the access token".to_owned(),
            code: 401,
        })
    );
    assert_eq!(
        response.cookies,
        CookieChanges { access: CookieChange::Clear, refresh: CookieChange::Clear }
    );

    let after = session.apply(&response.cookies, later);
    assert_eq!(after, SessionHandle::new());
    let (calls, response) = forward_at(
        &after,
        get("/api/v2/me", Some("ua")),
        &granted("a", "r", 5),
        &answered(200, "no"),
        later + 1,
    );
    assert!(calls.is_empty());
    assert_eq!(response.status, 401);
    assert_eq!(
        response.body,
        Body::Error(ProxyError {
            kind: ErrorKind::Unauthenticated,
            name: "Proxy".to_owned(),
            message: "No access or refresh token found".to_owned(),
            code: 401,
        })
    );
    assert_eq!(response.cookies, CookieChanges::unchanged());
}

#[test]
fn refresh_that_cannot_reach_the_endpoint_gives_401() {
    let session = logged_in(0, 10);
    let (calls, response) = forward_at(
        &session,
        get("/x", Some("ua")),
        &TokenOutcome::Failed(TokenFailure::Transport),
        &answered(200, "no"),
        10,
    );
    assert_eq!(calls.len(), 1);
    assert_eq!(response.status, 401);
}

#[test]
fn session_with_both_tokens_ended_is_unauthenticated() {
    let session = logged_in(0, 10);
    let end = 729 * 86_400;
    assert_eq!(session.present(end - 1).refresh_token, Some("refresh-1".to_owned()));
    assert_eq!(session.present(end).refresh_token, None);
    let (calls, response) =
        forward_at(&session, get("/x", Some("ua")), &granted("a", "r", 5), &answered(200, ""), end);
    assert!(calls.is_empty());
    assert_eq!(response.status, 401);
    let (calls, response) = forward_at(
        &session,
        get("/x", Some("ua")),
        &granted("a", "r", 5),
        &answered(200, ""),
        end + 1000,
    );
    assert!(calls.is_empty());
    assert_eq!(response.status, 401);
}

#[test]
fn logout_without_a_session_succeeds() {
    let (calls, response) = run(Inbound::Logout, &unused_token(), &UpstreamOutcome::Unreachable, 5);
    assert!(calls.is_empty());
    assert_eq!(response.status, 200);
    let after = SessionHandle::new().apply(&response.cookies, 5);
    assert_eq!(after, SessionHandle::new());
    let again = after.apply(&response.cookies, 6);
    assert_eq!(again, SessionHandle::new());
}

#[test]
fn missing_user_agent_gives_401_without_forwarding() {
    let session = logged_in(0, 100);
    let (calls, response) =
        forward_at(&session, get("/api/v2/me", None), &granted("a", "r", 5), &answered(200, ""), 1);
    assert!(calls.is_empty());
    assert_eq!(response.status, 401);
    assert_eq!(
        response.body,
        Body::Error(ProxyError {
            kind: ErrorKind::Unauthenticated,
            name: "Proxy".to_owned(),
            message:
                "No User-Agent header found. This may be required for accessing the homeworker API"
                    .to_owned(),
            code: 401,
        })
    );
}

#[test]
fn missing_user_agent_with_expired_access_makes_no_refresh() {
    let session = logged_in(0, 10);
    assert_eq!(session.present(10).access_token, None);
    assert_eq!(session.present(10).refresh_token, Some("refresh-1".to_owned()));
    let (calls, response) = forward_at(
        &session,
        get("/api/v2/me", None),
        &granted("access-2", "r", 30),
        &answered(200, ""),
        10,
    );
    assert!(calls.is_empty());
    assert_eq!(response.status, 401);
    assert_eq!(response.cookies, CookieChanges::unchanged());
    assert_eq!(
        response.body,
        Body::Error(ProxyError {
            kind: ErrorKind::Unauthenticated,
            name: "Proxy".to_owned(),
            message:
                "No User-Agent header found. This may be required for accessing the homeworker API"
                    .to_owned(),
            code: 401,
        })
    );
    let after = session.clone().apply(&response.cookies, 10);
    assert_eq!(after, session);
}

#[test]
fn missing_user_agent_and_no_session_reports_the_session() {
    let (calls, response) = forward_at(
        &SessionHandle::new(),
        get("/api/v2/me", None),
        &granted("a", "r", 30),
        &answered(200, ""),
        10,
    );
    assert!(calls.is_empty());
    assert_eq!(response.status, 401);
    assert_eq!(response.cookies, CookieChanges::unchanged());
    assert_eq!(
        response.body,
        Body::Error(ProxyError {
            kind: ErrorKind::Unauthenticated,
            name: "Proxy".to_owned(),
            message: "No access or refresh token found".to_owned(),
            code: 401,
        })
    );
}

#[test]
fn refreshed_cookie_keeps_the_declared_lifetime_at_any_instant() {
    let late: u64 = u64::MAX - 10;
    let session = SessionHandle {
        access: None,
        refresh: Some(homeworker_proxy::session::HeldToken {
            value: "refresh-1".to_owned(),
            expires_at: u64::MAX,
        }),
    };
    let (calls, response) = forward_at(
        &session,
        get("/api/v2/me", Some("ua")),
        &granted("access-2", "ignored", 100),
        &answered(200, "ok"),
        late,
    );
    assert_eq!(calls.len(), 2);
    assert!(matches!(&response.cookies.access, CookieChange::Issue(c)
        if c.lifetime == Lifetime::MaxAge(100) && c.http_only && c.secure
            && c.value == "access-2" && c.name == CookieName::AccessToken));
    assert_eq!(response.cookies.refresh, CookieChange::Keep);
    let after = session.apply(&response.cookies, late);
    assert_eq!(after.present(late).refresh_token, Some("refresh-1".to_owned()));
    assert_eq!(after.present(late).access_token, Some("access-2".to_owned()));
}

#[test]
fn login_cookie_keeps_the_declared_lifetime_at_any_instant() {
    let (_, response) = run(
        Inbound::Login { code: "abc123".to_owned() },
        &granted("a", "r", 100),
        &UpstreamOutcome::Unreachable,
        u64::MAX - 10,
    );
    assert!(matches!(&response.cookies.access, CookieChange::Issue(c)
        if c.lifetime == Lifetime::MaxAge(100)));
    assert!(matches!(&response.cookies.refresh, CookieChange::Issue(c)
        if c.lifetime == Lifetime::ExpiresAt(u64::MAX)));
    let (_, response) = run(
        Inbound::Login { code: "abc123".to_owned() },
        &granted("a", "r", u64::MAX),
        &UpstreamOutcome::Unreachable,
        1_700_000_000,
    );
    assert!(matches!(&response.cookies.access, CookieChange::Issue(c)
        if c.lifetime == Lifetime::MaxAge(u64::MAX)));
}

#[test]
fn upstream_errors_pass_through_unchanged() {
    let session = logged_in(0, 100);
    for (status, body) in [
        (400u16, "bad"),
        (404, "{\"error\":\"not found\"}"),
        (418, ""),
        (500, "boom"),
        (503, "<html>down</html>"),
    ] {
        let (calls, response) = forward_at(
            &session,
            get("/api/v2/me", Some("ua")),
            &unused_token(),
            &answered(status, body),
            1,
        );
        assert_eq!(calls.len(), 1);
        assert_eq!(response.status, status);
        assert_eq!(response.body, Body::Text(body.to_owned()));
        assert_eq!(response.cookies, CookieChanges::unchanged());
    }
}

#[test]
fn unreachable_upstream_gives_500() {
    let session = logged_in(0, 100);
    let (calls, response) = forward_at(
        &session,
        ProxyRequest {
            method: Method::Delete,
            path: "/api/v2/notes/3".to_owned(),
            user_agent: Some("ua".to_owned()),
            body: "gone".to_owned(),
        },
        &unused_token(),
        &UpstreamOutcome::Unreachable,
        1,
    );
    assert_eq!(calls.len(), 1);
    assert!(matches!(&calls[0], Action::Forward(r) if r.method == Method::Delete
        && r.url == "https://upstream.example/api/v2/notes/3" && r.body == "gone"));
    assert_eq!(response.status, 500);
    assert_eq!(
        response.body,
        Body::Error(ProxyError {
            kind: ErrorKind::Transport,
            name: "Proxy".to_owned(),
            message: "Proxy could not reach the homeworker API".to_owned(),
            code: 500,
        })
    );
}

#[test]
fn failed_login_reports_the_error_and_sets_no_cookie() {
    let (calls, response) = run(
        Inbound::Login { code: "bad".to_owned() },
        &TokenOutcome::Failed(TokenFailure::Transport),
        &UpstreamOutcome::Unreachable,
        9,
    );
    assert_eq!(calls.len(), 1);
    assert_eq!(response.status, 500);
    assert_eq!(
        response.body,
        Body::Error(ProxyError {
            kind: ErrorKind::Transport,
            name: "Proxy".to_owned(),
            message: "Error while exchanging the token".to_owned(),
            code: 500,
        })
    );
    assert_eq!(response.cookies, CookieChanges::unchanged());

    let upstream = UpstreamError {
        name: "Forbidden".to_owned(),
        message: "bad code".to_owned(),
        code: 403,
    };
    let (_, response) = run(
        Inbound::Login { code: "bad".to_owned() },
        &TokenOutcome::Failed(TokenFailure::Api(upstream)),
        &UpstreamOutcome::Unreachable,
        9,
    );
    assert_eq!(response.status, 403);
    assert_eq!(
        response.body,
        Body::Error(ProxyError {
            kind: ErrorKind::UpstreamApi,
            name: "Forbidden".to_owned(),
            message: "bad code".to_owned(),
            code: 403,
        })
    );
    assert_eq!(response.cookies, CookieChanges::unchanged());
}
