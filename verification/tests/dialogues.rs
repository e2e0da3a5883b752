use axum_extra::extract::cookie::{Cookie, CookieJar};
use onion_forum::dialogue::{is_registration_enabled, Next, Response};
use onion_forum::account::{hash_password, verify_password};
use onion_forum::admin::insert_category;
use onion_forum::captcha::keep_captcha;
use onion_forum::login::{
    draw, login_post, login_post_with, settle_hash, settle_login, AuthForm, Fresh, LoginRequest,
    LoginState,
};
use onion_forum::pages::{template_failure, Page};
use onion_forum::session::login_get_with;
use onion_forum::store::{Cell, Command, Reply};

const NOW: i64 = 1_700_000_000;

fn csrf() -> String {
    "c".repeat(64)
}

fn jar() -> CookieJar {
    CookieJar::new().add(Cookie::new("csrf_token", csrf()))
}

fn form(action: &str) -> AuthForm {
    AuthForm {
        username: " Alice ".to_string(),
        password: "a good password".to_string(),
        action: action.to_string(),
        captcha_id: "id".to_string(),
        captcha_solution: "abc".to_string(),
        csrf_token: csrf(),
    }
}

fn fresh() -> Fresh {
    Fresh {
        token: "f".repeat(64),
        captcha_id: "next".to_string(),
        salt: "c29tZXNhbHRzb21lc2FsdA".to_string(),
    }
}

fn number(n: i64) -> Reply {
    Reply::Rows(vec![vec![Cell::Int(n)]])
}

fn text(s: &str) -> Reply {
    Reply::Rows(vec![vec![Cell::Text(s.to_string())]])
}

fn waiting(next: Next<LoginState, Response>) -> LoginState {
    match next {
        Next::Await(state) => state,
        Next::Respond(_) => panic!("ended"),
    }
}

fn error(next: Next<LoginState, Response>) -> String {
    match next {
        Next::Respond(Response::Page { page: Page::LoginError(e), .. }) => e.error,
        _ => panic!("not turned down"),
    }
}

#[test]
fn a_form_asks_for_failures_first() {
    let step = login_post(jar(), form("login"), NOW);
    assert_eq!(
        step.commands,
        vec![Command::CountAttempts { username: "alice".to_string(), since: NOW - 900 }]
    );
    let step = waiting(step.next).advance_with(&number(4), NOW, fresh());
    assert_eq!(step.commands, vec![Command::FindCaptcha { id: "id".to_string(), now: NOW }]);
}

#[test]
fn five_failures_end_it_there() {
    let step = login_post(jar(), form("x"), NOW);
    let step = waiting(step.next).advance_with(&number(5), NOW, fresh());
    assert!(step.commands.is_empty());
    match step.next {
        Next::Respond(Response::Page { page: Page::LoginError(e), .. }) => {
            assert_eq!(e.error, "Too many failed attempts. Try again in 15 minutes.");
            assert_eq!(e.mode, "x");
            assert_eq!(e.captcha_id, Some("next".to_string()));
        }
        _ => panic!("not turned down"),
    }
}

#[test]
fn registering_goes_step_by_step() {
    let step = login_post(jar(), form("register"), NOW);
    let step = waiting(step.next).advance_with(&Reply::Failed, NOW, fresh());
    let step = waiting(step.next).advance_with(&text("abc"), NOW, fresh());
    assert_eq!(
        step.commands,
        vec![Command::DeleteCaptcha { id: "id".to_string() }, Command::RegistrationSetting]
    );
    let step = waiting(step.next).advance_with(&Reply::Failed, NOW, fresh());
    assert_eq!(step.commands, vec![Command::CountUsers]);
    let step = waiting(step.next).advance_with(&number(0), NOW + 1, fresh());
    match &step.commands[0] {
        Command::InsertUser { username, password_hash, created_at, is_admin } => {
            assert_eq!(username, "alice");
            assert!(password_hash.contains("$c29tZXNhbHRzb21lc2FsdA$"));
            assert_eq!((*created_at, *is_admin), (NOW + 1, 1));
        }
        _ => panic!("no account"),
    }
    let step = waiting(step.next).advance_with(&Reply::Done { rowid: 7 }, NOW + 2, fresh());
    assert_eq!(
        step.commands,
        vec![
            Command::InsertSession {
                token: "f".repeat(64),
                user_id: 7,
                created_at: NOW + 1,
                expires_at: NOW + 1 + 604800,
            },
            Command::ClearAttempts { username: "alice".to_string() },
        ]
    );
    match step.next {
        Next::Respond(Response::Redirect { jar: Some(jar), to }) => {
            assert_eq!(to, "/");
            assert_eq!(jar.get("session_id").unwrap().value(), "f".repeat(64));
        }
        _ => panic!("no session"),
    }
}

#[test]
fn an_account_that_cannot_be_hashed_fails() {
    let step = login_post(jar(), form("register"), NOW);
    let step = waiting(step.next).advance_with(&number(0), NOW, fresh());
    let step = waiting(step.next).advance_with(&text("abc"), NOW, fresh());
    let salt = Fresh { salt: "?".to_string(), ..fresh() };
    let step = waiting(step.next).advance_with(&text("1"), NOW, salt);
    assert!(step.commands.is_empty());
    assert_eq!(error(step.next), "Account creation failed. Please try again.");
}

#[test]
fn a_captcha_that_is_not_known_is_invalid() {
    let step = login_post(jar(), form("login"), NOW);
    let step = waiting(step.next).advance_with(&number(0), NOW, fresh());
    let step = waiting(step.next).advance_with(&Reply::Rows(vec![]), NOW, fresh());
    assert_eq!(
        step.commands,
        vec![
            Command::DeleteCaptcha { id: "id".to_string() },
            Command::InsertAttempt { username: "alice".to_string(), now: NOW },
        ]
    );
    assert_eq!(error(step.next), "Invalid CAPTCHA");
}

#[test]
fn the_page_to_log_in_waits_for_the_setting() {
    let step = login_get_with(jar(), csrf(), None, NOW);
    assert_eq!(step.commands, vec![Command::RegistrationSetting]);
    match step.next {
        Next::Await(state) => {
            let step = state.advance_with(&text("0"), "id".to_string());
            match step.next {
                Next::Respond(Response::Page { page, .. }) => {
                    assert_eq!(page.template(), "login.html");
                    match page {
                        Page::Login(p) => {
                            assert_eq!(p.captcha_id, "id");
                            assert!(p.registration_disabled);
                        }
                        _ => panic!("another page"),
                    }
                }
                _ => panic!("no page"),
            }
        }
        Next::Respond(_) => panic!("ended"),
    }
}

#[test]
fn registering_is_open_unless_it_was_closed() {
    assert!(is_registration_enabled(&Reply::Failed));
    assert!(is_registration_enabled(&Reply::Rows(vec![])));
    assert!(is_registration_enabled(&text("1")));
    assert!(!is_registration_enabled(&text("0")));
    assert!(!is_registration_enabled(&text("")));
}

#[test]
fn a_failing_template_is_shown() {
    assert_eq!(template_failure("no such template"), "<pre>no such template</pre>");
}

fn request() -> LoginRequest {
    LoginRequest {
        jar: jar(),
        form: form("login"),
        username: "bob".to_string(),
        solution: "xyz".to_string(),
    }
}

#[test]
fn a_form_goes_by_the_name_and_solution_made_of_it() {
    let step = login_post_with(request(), NOW);
    assert_eq!(
        step.commands,
        vec![Command::CountAttempts { username: "bob".to_string(), since: NOW - 900 }]
    );
    let step = waiting(step.next).advance_with(&number(0), NOW, fresh());
    let step = waiting(step.next).advance_with(&text("xyz"), NOW, fresh());
    assert_eq!(
        step.commands,
        vec![
            Command::DeleteCaptcha { id: "id".to_string() },
            Command::FindCredentials { username: "bob".to_string() },
        ]
    );
}

#[test]
fn a_member_who_is_identified_gets_in() {
    let step = settle_login(request(), Some(9), NOW, fresh());
    assert_eq!(
        step.commands,
        vec![
            Command::InsertSession {
                token: "f".repeat(64),
                user_id: 9,
                created_at: NOW,
                expires_at: NOW + 604800,
            },
            Command::ClearAttempts { username: "bob".to_string() },
        ]
    );
    let step = settle_login(request(), None, NOW, fresh());
    assert_eq!(
        step.commands,
        vec![Command::InsertAttempt { username: "bob".to_string(), now: NOW }]
    );
    assert_eq!(error(step.next), "Invalid credentials");
}

#[test]
fn an_account_needs_a_hash() {
    let step = settle_hash(request(), Some("hash".to_string()), "next".to_string());
    assert_eq!(step.commands, vec![Command::CountUsers]);
    let step = waiting(step.next).advance_with(&number(3), NOW, fresh());
    assert_eq!(
        step.commands,
        vec![Command::InsertUser {
            username: "bob".to_string(),
            password_hash: "hash".to_string(),
            created_at: NOW,
            is_admin: 0,
        }]
    );
    let step = waiting(step.next).advance_with(&Reply::Failed, NOW + 1, fresh());
    assert_eq!(
        step.commands,
        vec![Command::InsertAttempt { username: "bob".to_string(), now: NOW }]
    );
    assert_eq!(error(step.next), "Username taken");
    let step = settle_hash(request(), None, "next".to_string());
    assert_eq!(error(step.next), "Account creation failed. Please try again.");
}

#[test]
fn what_is_left_to_chance_is_drawn_anew() {
    let (a, b) = (draw(), draw());
    assert_eq!(a.token.len(), 64);
    assert_eq!(a.captcha_id.len(), 36);
    assert_eq!(a.captcha_id.chars().nth(14), Some('4'));
    assert_ne!(a.token, b.token);
    assert_ne!(a.captcha_id, b.captcha_id);
    assert_ne!(a.salt, b.salt);
    assert_eq!(a.salt.len(), 22);
    let hash = hash_password("a good password", &a.salt).unwrap();
    assert!(verify_password("a good password", &hash));
    assert_ne!(hash_password("a good password", &b.salt), Some(hash));
}

#[test]
fn a_solution_is_kept_for_five_minutes() {
    let step = keep_captcha("id".to_string(), "abc".to_string(), NOW);
    assert_eq!(
        step.commands,
        vec![
            Command::StoreCaptcha {
                id: "id".to_string(),
                solution: "abc".to_string(),
                expires_at: NOW + 300,
            },
            Command::PurgeCaptchas { now: NOW },
        ]
    );
}

#[test]
fn a_category_needs_a_slug() {
    assert_eq!(
        insert_category("A B".to_string(), "a-b".to_string()),
        vec![Command::InsertCategory { slug: "a-b".to_string(), name: "A B".to_string() }]
    );
    assert!(insert_category("?".to_string(), String::new()).is_empty());
}
