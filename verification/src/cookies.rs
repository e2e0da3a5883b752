//! Cookies: the session, and the token that guards every form.
use vstd::prelude::*;
use vstd::utf8::encode_utf8;
use axum_extra::extract::cookie::CookieJar;
use crate::records::optional;
use crate::text::{byte_len, same_text};
use crate::token::{generate_session_token, is_token, law_token_bytes, TOKEN_CHARS};

verus! {

/// How long a session lasts, in seconds: a week.
pub const SESSION_TTL_SECONDS: i64 = 7 * 24 * 60 * 60;

pub const SESSION_COOKIE: &'static str = "session_id";

pub const CSRF_COOKIE: &'static str = "csrf_token";

/// Whether a cookie goes along with requests that other sites cause.
#[derive(Debug, Clone, Copy, PartialEq, Eq, Structural)]
pub enum SameSite {
    Strict,
    Lax,
}

/// A cookie that is handed out. `T` is the type of text.
#[derive(Debug, PartialEq)]
pub struct CookieOf<T> {
    pub name: T,
    pub value: T,
    pub path: T,
    pub http_only: bool,
    pub same_site: SameSite,
    /// For how many seconds the browser keeps it.
    pub max_age: i64,
}

/// A cookie that is handed out.
pub type Cookie = CookieOf<String>;

/// A cookie as contracts speak of it.
pub type CookieView = CookieOf<Seq<char>>;

impl View for CookieOf<String> {
    type V = CookieView;

    open spec fn view(&self) -> CookieView {
        CookieOf {
            name: self.name@,
            value: self.value@,
            path: self.path@,
            http_only: self.http_only,
            same_site: self.same_site,
            max_age: self.max_age,
        }
    }
}

/// The jar of a request and its response.
#[verifier::external_type_specification]
#[verifier::external_body]
pub struct ExCookieJar(CookieJar);

/// The value of each cookie that a jar holds, by name.
pub uninterp spec fn jar_values(jar: CookieJar) -> Map<Seq<char>, Seq<char>>;

/// The cookies that a jar hands out with the response, by name.
pub uninterp spec fn jar_changes(jar: CookieJar) -> Map<Seq<char>, CookieOf<Seq<char>>>;

/// A jar as contracts speak of it.
pub struct JarView {
    pub values: Map<Seq<char>, Seq<char>>,
    pub changes: Map<Seq<char>, CookieView>,
}

impl JarView {
    /// The value of the cookie called `name`.
    pub open spec fn get(self, name: Seq<char>) -> Option<Seq<char>> {
        if self.values.contains_key(name) {
            Some(self.values[name])
        } else {
            None
        }
    }

    /// The jar once `cookie` is handed out.
    pub open spec fn with(self, cookie: CookieView) -> JarView {
        JarView {
            values: self.values.insert(cookie.name, cookie.value),
            changes: self.changes.insert(cookie.name, cookie),
        }
    }
}

pub open spec fn jar_view(jar: CookieJar) -> JarView {
    JarView { values: jar_values(jar), changes: jar_changes(jar) }
}

/// `CookieJar::get`: the value of the cookie of that name, if the jar holds one.
#[verifier::external_body]
pub(crate) fn cookie_value(jar: &CookieJar, name: &str) -> (r: Option<String>)
    ensures
        optional(r) == jar_view(*jar).get(name@),
{
    jar.get(name).map(|cookie| cookie.value().to_owned())
}

/// `CookieJar::add`: the jar then holds the cookie and hands it out, in place of one of the
/// same name; the others stay.
#[verifier::external_body]
pub(crate) fn add_cookie(jar: CookieJar, cookie: Cookie) -> (r: CookieJar)
    ensures
        jar_values(r) == jar_values(jar).insert(cookie.name@, cookie.value@),
        jar_changes(r) == jar_changes(jar).insert(cookie.name@, cookie@),
{
    let same_site = match cookie.same_site {
        SameSite::Strict => axum_extra::extract::cookie::SameSite::Strict,
        SameSite::Lax => axum_extra::extract::cookie::SameSite::Lax,
    };
    let built = axum_extra::extract::cookie::Cookie::build((cookie.name, cookie.value))
        .path(cookie.path)
        .http_only(cookie.http_only)
        .same_site(same_site)
        .max_age(time::Duration::seconds(cookie.max_age))
        .build();
    jar.add(built)
}

/// The cookie that makes a browser forget `cookie`: it has no value and no time left.
pub open spec fn removal_of(cookie: CookieView) -> CookieView {
    CookieOf { value: Seq::empty(), max_age: 0, ..cookie }
}

/// `CookieJar::add` on a cookie that `Cookie::make_removal` has emptied. That also dates it
/// back to a time in the past, of which nothing is said here.
#[verifier::external_body]
pub(crate) fn add_removal(jar: CookieJar, cookie: Cookie) -> (r: CookieJar)
    ensures
        jar_values(r) == jar_values(jar).insert(cookie.name@, removal_of(cookie@).value),
        jar_changes(r) == jar_changes(jar).insert(cookie.name@, removal_of(cookie@)),
{
    let same_site = match cookie.same_site {
        SameSite::Strict => axum_extra::extract::cookie::SameSite::Strict,
        SameSite::Lax => axum_extra::extract::cookie::SameSite::Lax,
    };
    let mut built = axum_extra::extract::cookie::Cookie::build((cookie.name, cookie.value))
        .path(cookie.path)
        .http_only(cookie.http_only)
        .same_site(same_site)
        .build();
    built.make_removal();
    jar.add(built)
}

/// A cookie of the forum: sent to every path, hidden from scripts, never sent for other
/// sites, kept for as long as a session lasts.
pub open spec fn forum_cookie(name: Seq<char>, value: Seq<char>) -> CookieView {
    CookieOf {
        name,
        value,
        path: "/"@,
        http_only: true,
        same_site: SameSite::Strict,
        max_age: SESSION_TTL_SECONDS,
    }
}

/// The cookie of a session.
pub fn session_cookie(token: String) -> (r: Cookie)
    ensures
        r@ == forum_cookie(SESSION_COOKIE@, token@),
{
    CookieOf {
        name: SESSION_COOKIE.to_owned(),
        value: token,
        path: "/".to_owned(),
        http_only: true,
        same_site: SameSite::Strict,
        max_age: SESSION_TTL_SECONDS,
    }
}

/// Hands out `token` as the one that guards forms.
pub fn with_csrf_token(jar: CookieJar, token: String) -> (r: (CookieJar, String))
    ensures
        jar_view(r.0) == jar_view(jar).with(forum_cookie(CSRF_COOKIE@, token@)),
        r.1@ == token@,
{
    let cookie = CookieOf {
        name: CSRF_COOKIE.to_owned(),
        value: token.clone(),
        path: "/".to_owned(),
        http_only: true,
        same_site: SameSite::Strict,
        max_age: SESSION_TTL_SECONDS,
    };
    (add_cookie(jar, cookie), token)
}

/// Whether `token` guards the forms of a visitor who came with the jar `before` and leaves
/// with `after`: it is the one the jar held already, or else a fresh one, which is handed out.
pub open spec fn csrf_ensured(before: JarView, after: JarView, token: Seq<char>) -> bool {
    match before.get(CSRF_COOKIE@) {
        Some(held) => token == held && after == before,
        None => is_token(token) && after == before.with(forum_cookie(CSRF_COOKIE@, token)),
    }
}

/// The token that guards the forms of a visitor, and the jar that holds it.
pub fn ensure_csrf_token(jar: CookieJar) -> (r: (CookieJar, String))
    ensures
        csrf_ensured(jar_view(jar), jar_view(r.0), r.1@),
{
    match cookie_value(&jar, CSRF_COOKIE) {
        Some(token) => (jar, token),
        None => {
            let token = generate_session_token();
            with_csrf_token(jar, token)
        },
    }
}

/// Whether a form carries the token that guards it: one of the right length that the jar
/// holds.
pub open spec fn csrf_ok(jar: JarView, submitted_token: Seq<char>) -> bool {
    encode_utf8(submitted_token).len() == TOKEN_CHARS && jar.get(CSRF_COOKIE@) == Some(submitted_token)
}

/// Whether a form carries the token that guards it.
pub fn valid_csrf(jar: &CookieJar, submitted_token: &str) -> (r: bool)
    ensures
        r == csrf_ok(jar_view(*jar), submitted_token@),
{
    byte_len(submitted_token) == TOKEN_CHARS && match cookie_value(jar, CSRF_COOKIE) {
        Some(token) => same_text(token.as_str(), submitted_token),
        None => false,
    }
}

/// A form that carries the token which was handed out with it is accepted. This is so of
/// every fresh token, and of one the visitor held already if it has the length of a token.
pub proof fn law_csrf_round_trip(before: JarView, after: JarView, token: Seq<char>)
    requires
        csrf_ensured(before, after, token),
        before.get(CSRF_COOKIE@) is Some ==> encode_utf8(token).len() == TOKEN_CHARS,
    ensures
        csrf_ok(after, token),
{
    if before.get(CSRF_COOKIE@) is None {
        law_token_bytes(token);
    }
}

/// Handing out a session leaves the token that guards forms as it was.
pub proof fn law_session_keeps_csrf(jar: JarView, token: Seq<char>)
    ensures
        jar.with(forum_cookie(SESSION_COOKIE@, token)).get(CSRF_COOKIE@) == jar.get(CSRF_COOKIE@),
{
    reveal_strlit("session_id");
    reveal_strlit("csrf_token");
    assert(SESSION_COOKIE@[0] == 's');
    assert(CSRF_COOKIE@[0] == 'c');
}

} // verus!
