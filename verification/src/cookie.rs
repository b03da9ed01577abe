//! The cookies that carry a session: their names, attributes and lifetimes.

use vstd::prelude::*;

verus! {

/// Days for which a refresh token is kept, whatever the upstream declares.
pub const REFRESH_DAYS: u64 = 729;

pub const SECONDS_PER_DAY: u64 = 86_400;

/// [`REFRESH_DAYS`] in seconds.
pub const REFRESH_SECONDS: u64 = 62_985_600;

/// The instant, in seconds, at which a lifetime that starts at `now` ends. An
/// end beyond the last instant that a `u64` holds is that last instant.
pub open spec fn deadline(now: u64, lifetime: u64) -> u64 {
    if now + lifetime > u64::MAX {
        u64::MAX
    } else {
        (now + lifetime) as u64
    }
}

/// Computes [`deadline`].
pub fn deadline_after(now: u64, lifetime: u64) -> (end: u64)
    ensures
        end == deadline(now, lifetime),
{
    if lifetime > u64::MAX - now {
        u64::MAX
    } else {
        now + lifetime
    }
}

/// The view of an optional string.
pub open spec fn text(s: Option<String>) -> Option<Seq<char>> {
    match s {
        Some(s) => Some(s@),
        None => None,
    }
}

/// Copies an optional string.
pub fn clone_text(s: &Option<String>) -> (copy: Option<String>)
    ensures
        text(copy) == text(*s),
{
    match s {
        Some(s) => Some(s.clone()),
        None => None,
    }
}

/// The two cookies of a session.
#[derive(Clone, Copy, Debug, PartialEq, Eq, Structural)]
pub enum CookieName {
    AccessToken,
    RefreshToken,
}

impl CookieName {
    /// The name as it stands in a `Cookie` header.
    pub open spec fn spec_name(self) -> Seq<char> {
        match self {
            CookieName::AccessToken => "access-token"@,
            CookieName::RefreshToken => "refresh-token"@,
        }
    }

    /// The name as it stands in a `Cookie` header: `access-token` or
    /// `refresh-token`.
    pub fn as_str(&self) -> (name: &'static str)
        ensures
            name@ == self.spec_name(),
    {
        match self {
            CookieName::AccessToken => "access-token",
            CookieName::RefreshToken => "refresh-token",
        }
    }
}

/// The `SameSite` attribute of a cookie.
#[derive(Clone, Copy, Debug, PartialEq, Eq, Structural)]
pub enum SameSite {
    Strict,
    Lax,
    Unrestricted,
}

/// How long the client keeps a cookie.
#[derive(Clone, Copy, Debug, PartialEq, Eq, Structural)]
pub enum Lifetime {
    /// For this many seconds from the moment it is set (`Max-Age`).
    MaxAge(u64),
    /// Until this instant, in seconds (`Expires`).
    ExpiresAt(u64),
}

impl Lifetime {
    /// The instant at which a cookie set at `now` with this lifetime ends.
    pub open spec fn end(self, now: u64) -> u64 {
        match self {
            Lifetime::MaxAge(seconds) => deadline(now, seconds),
            Lifetime::ExpiresAt(instant) => instant,
        }
    }

    /// Computes [`Lifetime::end`].
    pub fn end_at(&self, now: u64) -> (end: u64)
        ensures
            end == self.end(now),
    {
        match self {
            Lifetime::MaxAge(seconds) => deadline_after(now, *seconds),
            Lifetime::ExpiresAt(instant) => *instant,
        }
    }
}

/// A cookie that the gateway hands to the client.
#[derive(Clone, Debug, PartialEq, Eq)]
pub struct SetCookie {
    pub name: CookieName,
    pub value: String,
    pub http_only: bool,
    pub secure: bool,
    pub path: Option<String>,
    pub same_site: SameSite,
    pub lifetime: Lifetime,
}

/// What a [`SetCookie`] is, as plain values.
pub struct SetCookieView {
    pub name: CookieName,
    pub value: Seq<char>,
    pub http_only: bool,
    pub secure: bool,
    pub path: Option<Seq<char>>,
    pub same_site: SameSite,
    pub lifetime: Lifetime,
}

impl View for SetCookie {
    type V = SetCookieView;

    open spec fn view(&self) -> SetCookieView {
        SetCookieView {
            name: self.name,
            value: self.value@,
            http_only: self.http_only,
            secure: self.secure,
            path: text(self.path),
            same_site: self.same_site,
            lifetime: self.lifetime,
        }
    }
}

/// The cookie that carries a token: `HttpOnly`, `Secure`, `SameSite=Lax`,
/// scoped to `path` where one is given.
pub open spec fn session_cookie(
    name: CookieName,
    value: Seq<char>,
    path: Option<Seq<char>>,
    lifetime: Lifetime,
) -> SetCookieView {
    SetCookieView {
        name,
        value,
        http_only: true,
        secure: true,
        path,
        same_site: SameSite::Lax,
        lifetime,
    }
}

/// The access-token cookie, kept for as long as the upstream says the token
/// lives.
pub open spec fn access_cookie(
    token: Seq<char>,
    expires_in: u64,
    path: Option<Seq<char>>,
) -> SetCookieView {
    session_cookie(CookieName::AccessToken, token, path, Lifetime::MaxAge(expires_in))
}

/// The refresh-token cookie, kept for [`REFRESH_DAYS`] days from `now`.
pub open spec fn refresh_cookie(
    token: Seq<char>,
    now: u64,
    path: Option<Seq<char>>,
) -> SetCookieView {
    session_cookie(
        CookieName::RefreshToken,
        token,
        path,
        Lifetime::ExpiresAt(deadline(now, REFRESH_SECONDS)),
    )
}

impl SetCookie {
    /// Builds the cookie that carries a token.
    pub fn session(name: CookieName, value: String, path: Option<String>, lifetime: Lifetime) -> (c:
        SetCookie)
        ensures
            c@ == session_cookie(name, value@, text(path), lifetime),
    {
        SetCookie {
            name,
            value,
            http_only: true,
            secure: true,
            path,
            same_site: SameSite::Lax,
            lifetime,
        }
    }

    /// Builds the access-token cookie.
    pub fn access(token: String, expires_in: u64, path: Option<String>) -> (c: SetCookie)
        ensures
            c@ == access_cookie(token@, expires_in, text(path)),
    {
        SetCookie::session(CookieName::AccessToken, token, path, Lifetime::MaxAge(expires_in))
    }

    /// Builds the refresh-token cookie.
    pub fn refresh(token: String, now: u64, path: Option<String>) -> (c: SetCookie)
        ensures
            c@ == refresh_cookie(token@, now, text(path)),
    {
        let end = deadline_after(now, REFRESH_SECONDS);
        SetCookie::session(CookieName::RefreshToken, token, path, Lifetime::ExpiresAt(end))
    }
}

/// What a response does to one cookie of the session.
#[derive(Clone, Debug, PartialEq, Eq)]
pub enum CookieChange {
    /// The response does not mention it.
    Keep,
    /// The response sets it anew.
    Issue(SetCookie),
    /// The response tells the client to drop it.
    Clear,
}

/// What a [`CookieChange`] is, as plain values.
pub enum CookieChangeView {
    Keep,
    Issue(SetCookieView),
    Clear,
}

impl View for CookieChange {
    type V = CookieChangeView;

    open spec fn view(&self) -> CookieChangeView {
        match self {
            CookieChange::Keep => CookieChangeView::Keep,
            CookieChange::Issue(c) => CookieChangeView::Issue(c@),
            CookieChange::Clear => CookieChangeView::Clear,
        }
    }
}

/// [`REFRESH_SECONDS`] is [`REFRESH_DAYS`] days.
pub proof fn refresh_seconds_are_days()
    ensures
        REFRESH_SECONDS == REFRESH_DAYS * SECONDS_PER_DAY,
{
}

} // verus!
