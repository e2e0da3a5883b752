use axum_extra::extract::cookie::{Cookie, CookieJar, SameSite};
use onion_forum::clock::{is_usable, now_ts, timestamp_of};
use onion_forum::cookies::{ensure_csrf_token, session_cookie, valid_csrf, with_csrf_token, SESSION_TTL_SECONDS};
use onion_forum::dialogue::{csrf_rejected, get_current_user, Next, Response};
use onion_forum::headers::security_headers;
use onion_forum::session::logout_post;
use onion_forum::store::Command;

fn token(c: char) -> String {
    c.to_string().repeat(64)
}

#[test]
fn a_session_lasts_a_week() {
    let cookie = session_cookie("abc".to_string());
    assert_eq!(cookie.name, "session_id");
    assert_eq!(cookie.value, "abc");
    assert_eq!(cookie.path, "/");
    assert!(cookie.http_only);
    assert_eq!(cookie.max_age, 604800);
    assert_eq!(SESSION_TTL_SECONDS, 604800);
}

#[test]
fn a_token_is_handed_out_once() {
    let (jar, fresh) = ensure_csrf_token(CookieJar::new());
    let cookie = jar.get("csrf_token").unwrap();
    assert_eq!(cookie.value(), fresh);
    assert_eq!(cookie.path(), Some("/"));
    assert_eq!(cookie.http_only(), Some(true));
    assert_eq!(cookie.same_site(), Some(SameSite::Strict));
    assert_eq!(cookie.max_age().map(|age| age.whole_seconds()), Some(604800));
    let (jar, again) = ensure_csrf_token(jar);
    assert_eq!(again, fresh);
    assert!(valid_csrf(&jar, &fresh));
}

#[test]
fn a_token_that_is_given_is_handed_out() {
    let (jar, given) = with_csrf_token(CookieJar::new().add(Cookie::new("other", "1")), token('a'));
    assert_eq!(given, token('a'));
    assert_eq!(jar.get("csrf_token").unwrap().value(), token('a'));
    assert_eq!(jar.get("other").unwrap().value(), "1");
}

#[test]
fn only_the_token_of_the_jar_is_accepted() {
    let jar = CookieJar::new().add(Cookie::new("csrf_token", token('a')));
    assert!(valid_csrf(&jar, &token('a')));
    assert!(!valid_csrf(&jar, &token('b')));
    assert!(!valid_csrf(&jar, ""));
    assert!(!valid_csrf(&CookieJar::new(), &token('a')));
    let short = CookieJar::new().add(Cookie::new("csrf_token", "abc"));
    assert!(!valid_csrf(&short, "abc"));
}

#[test]
fn a_form_without_its_token_is_forbidden() {
    match csrf_rejected() {
        Response::Text { status, body } => {
            assert_eq!(status, 403);
            assert_eq!(body, "Invalid or missing CSRF token.");
        }
        _ => panic!("not a text"),
    }
}

#[test]
fn the_session_tells_who_the_visitor_is() {
    let jar = CookieJar::new().add(Cookie::new("session_id", "abc"));
    assert_eq!(
        get_current_user(&jar, 5),
        Some(Command::FindSessionUser { token: "abc".to_string(), now: 5 })
    );
    assert_eq!(get_current_user(&CookieJar::new(), 5), None);
}

#[test]
fn logging_out_takes_the_session_back() {
    let jar = CookieJar::new()
        .add(Cookie::new("csrf_token", token('a')))
        .add(Cookie::new("session_id", "abc"));
    let step = logout_post(jar, &token('a'));
    assert_eq!(step.commands, vec![Command::DeleteSession { token: "abc".to_string() }]);
    match step.next {
        Next::Respond(Response::Redirect { jar: Some(jar), to }) => {
            assert_eq!(to, "/");
            let cookie = jar.get("session_id").unwrap();
            assert_eq!(cookie.value(), "");
            assert_eq!(cookie.path(), Some("/"));
            assert_eq!(cookie.max_age().map(|age| age.whole_seconds()), Some(0));
            assert_eq!(jar.get("csrf_token").unwrap().value(), token('a'));
        }
        _ => panic!("not a redirection with a jar"),
    }
}

#[test]
fn logging_out_needs_the_token_but_no_session() {
    let jar = CookieJar::new().add(Cookie::new("csrf_token", token('a')));
    let step = logout_post(jar, &token('b'));
    assert!(step.commands.is_empty());
    assert!(matches!(step.next, Next::Respond(Response::Text { status: 403, .. })));
    let jar = CookieJar::new().add(Cookie::new("csrf_token", token('a')));
    let step = logout_post(jar, &token('a'));
    assert!(step.commands.is_empty());
    assert!(matches!(step.next, Next::Respond(Response::Redirect { jar: Some(_), .. })));
}

#[test]
fn the_clock_gives_seconds() {
    let before = std::time::SystemTime::now()
        .duration_since(std::time::UNIX_EPOCH)
        .unwrap()
        .as_secs() as i64;
    let now = now_ts().unwrap();
    assert!(before <= now && now <= before + 60);
    assert!(is_usable(now));
    assert!(!is_usable(-1));
    assert!(!is_usable(i64::MAX));
    assert_eq!(timestamp_of(Some(17)), Some(17));
    assert_eq!(timestamp_of(None), None);
}

#[test]
fn every_response_has_its_headers() {
    let headers = security_headers();
    let names: Vec<&str> = headers.iter().map(|h| h.name).collect();
    assert_eq!(
        names,
        vec![
            "content-security-policy",
            "x-content-type-options",
            "x-frame-options",
            "referrer-policy",
            "permissions-policy",
            "cross-origin-resource-policy",
            "cache-control",
            "x-dns-prefetch-control",
        ]
    );
    assert!(headers[0].value.contains("script-src 'none'"));
    assert_eq!(headers[2].value, "DENY");
    assert_eq!(headers[6].value, "no-store");
}
