use axum_extra::extract::cookie::{Cookie, CookieJar};
use onion_forum::account::verify_password;
use onion_forum::admin::{
    admin_create_category, admin_delete_category, admin_delete_thread, admin_delete_user,
    admin_page, admin_set_registration,
};
use onion_forum::captcha::{get_captcha, is_captcha_id};
use onion_forum::dialogue::{Next, Response, Step};
use onion_forum::index::index;
use onion_forum::login::{login_post, AuthForm};
use onion_forum::pages::{AdminPage, IndexPage, LoginError, LoginPage, Page, ThreadPage};
use onion_forum::posting::{comment, create_thread, reply, CreateThreadForm, ReplyForm};
use onion_forum::schema::{init_db, InitOutcome};
use onion_forum::session::{login_get, logout_post};
use onion_forum::store::{Cell, Command, Reply, Shape};
use onion_forum::thread::thread_view;
use rusqlite::types::{Value, ValueRef};
use rusqlite::{params_from_iter, Connection, Row};

const NOW: i64 = 1_700_000_000;

const CAPTCHA: &str = "550e8400-e29b-41d4-a716-446655440000";

fn bound(cell: Cell) -> Value {
    match cell {
        Cell::Null | Cell::Other => Value::Null,
        Cell::Int(n) => Value::Integer(n),
        Cell::Text(text) => Value::Text(text),
    }
}

fn cells(row: &Row) -> rusqlite::Result<Vec<Cell>> {
    let mut cells = Vec::new();
    for i in 0..row.as_ref().column_count() {
        cells.push(match row.get_ref(i)? {
            ValueRef::Null => Cell::Null,
            ValueRef::Integer(n) => Cell::Int(n),
            ValueRef::Text(bytes) => Cell::Text(String::from_utf8(bytes.to_vec()).unwrap()),
            _ => Cell::Other,
        });
    }
    Ok(cells)
}

fn execute(db: &Connection, command: &Command) -> rusqlite::Result<Reply> {
    let sql = command.sql();
    let values = params_from_iter(command.params().into_iter().map(bound));
    match command.shape() {
        Shape::Batch => {
            db.execute_batch(&sql)?;
            Ok(Reply::Done { rowid: db.last_insert_rowid() })
        }
        Shape::Execute => {
            db.execute(&sql, values)?;
            Ok(Reply::Done { rowid: db.last_insert_rowid() })
        }
        Shape::First => Ok(Reply::Rows(vec![db.prepare(&sql)?.query_row(values, cells)?])),
        Shape::All => {
            let mut statement = db.prepare(&sql)?;
            let rows = statement.query_map(values, cells)?;
            Ok(Reply::Rows(rows.flatten().collect()))
        }
    }
}

fn carry_out(db: &Connection, commands: &[Command]) -> Reply {
    let mut reply = Reply::Failed;
    for command in commands {
        reply = execute(db, command).unwrap_or(Reply::Failed);
    }
    reply
}

fn converse<S>(
    db: &Connection,
    first: Step<S>,
    advance: impl Fn(S, &Reply) -> Step<S>,
) -> Response {
    let mut step = first;
    loop {
        let reply = carry_out(db, &step.commands);
        match step.next {
            Next::Respond(response) => return response,
            Next::Await(state) => step = advance(state, &reply),
        }
    }
}

fn initialise(db: &Connection, now: i64) -> InitOutcome {
    let mut step = init_db();
    loop {
        let reply = carry_out(db, &step.commands);
        match step.next {
            Next::Respond(outcome) => return outcome,
            Next::Await(state) => step = state.advance(&reply, now),
        }
    }
}

fn forum() -> Connection {
    let db = Connection::open_in_memory().unwrap();
    assert_eq!(initialise(&db, NOW), InitOutcome::Ready);
    db
}

fn number(db: &Connection, sql: &str) -> i64 {
    db.query_row(sql, [], |row| row.get(0)).unwrap()
}

fn text(db: &Connection, sql: &str) -> String {
    db.query_row(sql, [], |row| row.get(0)).unwrap()
}

fn csrf() -> String {
    "c".repeat(64)
}

fn stranger() -> CookieJar {
    CookieJar::new().add(Cookie::new("csrf_token", csrf()))
}

fn target(response: &Response) -> String {
    match response {
        Response::Redirect { to, .. } => to.clone(),
        _ => panic!("not a redirection"),
    }
}

fn jar_of(response: Response) -> CookieJar {
    match response {
        Response::Redirect { jar: Some(jar), .. } => jar,
        _ => panic!("no jar"),
    }
}

fn error_of(response: Response) -> LoginError {
    match response {
        Response::Page { page: Page::LoginError(error), .. } => error,
        _ => panic!("not a form that was turned down"),
    }
}

fn is_forbidden(response: &Response) -> bool {
    matches!(response, Response::Text { status: 403, .. })
}

fn auth(username: &str, password: &str, action: &str, solution: &str) -> AuthForm {
    AuthForm {
        username: username.to_string(),
        password: password.to_string(),
        action: action.to_string(),
        captcha_id: CAPTCHA.to_string(),
        captcha_solution: solution.to_string(),
        csrf_token: csrf(),
    }
}

fn send(db: &Connection, jar: CookieJar, form: AuthForm, now: i64) -> Response {
    converse(db, login_post(jar, form, now), |s, r| s.advance(r, now))
}

/// Has a CAPTCHA drawn and sends the form with its solution.
fn enter(db: &Connection, username: &str, password: &str, action: &str, now: i64) -> Response {
    let first = get_captcha(CAPTCHA.to_string(), "AbC12", now);
    converse(db, first, |_, _| unreachable!());
    send(db, stranger(), auth(username, password, action, " aBc12 "), now)
}

fn register(db: &Connection, username: &str) -> CookieJar {
    jar_of(enter(db, username, "a good password", "register", NOW))
}

fn index_page(db: &Connection, jar: CookieJar, cat: Option<&str>, page: Option<i64>) -> IndexPage {
    let first = index(jar, cat.map(|c| c.to_string()), page, NOW);
    match converse(db, first, |s, r| s.advance(r)) {
        Response::Page { page: Page::Index(page), .. } => page,
        _ => panic!("not the front page"),
    }
}

fn view(db: &Connection, jar: CookieJar, thread_id: i64, page: Option<i64>) -> Response {
    converse(db, thread_view(jar, thread_id, page, NOW), |s, r| s.advance(r))
}

fn thread_page(db: &Connection, jar: CookieJar, thread_id: i64, page: Option<i64>) -> ThreadPage {
    match view(db, jar, thread_id, page) {
        Response::Page { page: Page::Thread(page), .. } => page,
        _ => panic!("not the page of a thread"),
    }
}

fn open_thread(
    db: &Connection,
    jar: &CookieJar,
    title: &str,
    content: &str,
    category_id: Option<i64>,
    now: i64,
) -> Response {
    let form = CreateThreadForm {
        title: title.to_string(),
        content: content.to_string(),
        category_id,
        csrf_token: csrf(),
    };
    converse(db, create_thread(jar, form, now), |s, r| s.advance(r, now))
}

fn words(content: &str) -> ReplyForm {
    ReplyForm { content: content.to_string(), csrf_token: csrf() }
}

fn send_reply(db: &Connection, jar: &CookieJar, thread_id: i64, content: &str, now: i64) -> Response {
    let first = reply(jar, thread_id, words(content), now);
    converse(db, first, |s, r| s.advance_reply(r, now))
}

fn send_comment(db: &Connection, jar: &CookieJar, post_id: i64, content: &str, now: i64) -> Response {
    let first = comment(jar, post_id, words(content), now);
    converse(db, first, |s, r| s.advance_comment(r, now))
}

fn administration(db: &Connection, jar: CookieJar) -> Response {
    converse(db, admin_page(jar, NOW), |s, r| s.advance(r))
}

fn admin_view(db: &Connection, jar: CookieJar) -> AdminPage {
    match administration(db, jar) {
        Response::Page { page: Page::Admin(page), .. } => page,
        _ => panic!("not the page of the administrators"),
    }
}

fn login_view(db: &Connection, jar: CookieJar, mode: Option<&str>) -> LoginPage {
    let first = login_get(jar, mode.map(|m| m.to_string()), NOW);
    match converse(db, first, |s, r| s.advance(r)) {
        Response::Page { page: Page::Login(page), .. } => page,
        _ => panic!("not the page to log in"),
    }
}

#[test]
fn a_new_database_gets_its_first_categories() {
    let db = forum();
    assert_eq!(number(&db, "SELECT COUNT(*) FROM categories"), 4);
    assert_eq!(text(&db, "SELECT slug FROM categories WHERE id = 1"), "technology");
    assert_eq!(text(&db, "SELECT name FROM categories WHERE slug = 'secret'"), "Secret");
    assert_eq!(text(&db, "SELECT value FROM app_settings"), "1");
}

#[test]
fn making_ready_twice_keeps_everything() {
    let db = forum();
    db.execute("DELETE FROM categories WHERE id > 1", []).unwrap();
    db.execute("INSERT INTO threads (title, created_at, last_activity_at) VALUES ('t', 1, 1)", []).unwrap();
    assert_eq!(initialise(&db, NOW), InitOutcome::Ready);
    assert_eq!(number(&db, "SELECT COUNT(*) FROM categories"), 1);
    assert_eq!(number(&db, "SELECT category_id FROM threads"), 1);
}

#[test]
fn making_ready_again_changes_no_row() {
    let db = forum();
    let jar = register(&db, "alice");
    open_thread(&db, &jar, "a", "b", None, NOW);
    send_comment(&db, &jar, 1, "c", NOW);
    let before = number(&db, "SELECT total_changes()");
    assert_eq!(initialise(&db, NOW), InitOutcome::Ready);
    assert_eq!(number(&db, "SELECT total_changes()"), before);
}

#[test]
fn an_older_database_gets_the_columns_it_lacks() {
    let db = Connection::open_in_memory().unwrap();
    db.execute_batch(
        "CREATE TABLE users (id INTEGER PRIMARY KEY, username TEXT, password_hash TEXT, created_at INTEGER);
         CREATE TABLE sessions (token TEXT, user_id INTEGER, created_at INTEGER);
         INSERT INTO sessions VALUES ('old', 1, 1);",
    )
    .unwrap();
    assert_eq!(initialise(&db, NOW), InitOutcome::Ready);
    assert_eq!(number(&db, "SELECT COUNT(is_admin) FROM users"), 0);
    assert_eq!(number(&db, "SELECT COUNT(expires_at) FROM sessions"), 0);
}

#[test]
fn sessions_that_have_ended_go() {
    let db = forum();
    register(&db, "alice");
    assert_eq!(initialise(&db, NOW + 604799), InitOutcome::Ready);
    assert_eq!(number(&db, "SELECT COUNT(*) FROM sessions"), 1);
    assert_eq!(initialise(&db, NOW + 604800), InitOutcome::Ready);
    assert_eq!(number(&db, "SELECT COUNT(*) FROM sessions"), 0);
}

#[test]
fn a_database_that_is_not_usable_is_broken() {
    let db = Connection::open_in_memory().unwrap();
    db.execute_batch("CREATE VIEW users AS SELECT 1 AS x; CREATE VIEW categories AS SELECT 1 AS x;").unwrap();
    assert_eq!(initialise(&db, NOW), InitOutcome::Broken);
}

#[test]
fn the_first_account_is_that_of_an_administrator() {
    let db = forum();
    let jar = register(&db, "alice");
    assert_eq!(number(&db, "SELECT is_admin FROM users WHERE username = 'alice'"), 1);
    register(&db, "bob");
    assert_eq!(number(&db, "SELECT is_admin FROM users WHERE username = 'bob'"), 0);
    let token = jar.get("session_id").unwrap().value().to_string();
    assert_eq!(token.len(), 64);
    assert_eq!(text(&db, "SELECT token FROM sessions WHERE user_id = 1"), token);
    assert_eq!(number(&db, "SELECT expires_at - created_at FROM sessions WHERE user_id = 1"), 604800);
    assert_eq!(index_page(&db, jar, None, None).current_user, Some("alice".to_string()));
}

#[test]
fn what_is_kept_of_a_password_is_its_hash() {
    let db = forum();
    register(&db, "alice");
    let hash = text(&db, "SELECT password_hash FROM users");
    assert!(verify_password("a good password", &hash));
    assert!(!hash.contains("good"));
}

#[test]
fn members_get_in_with_their_password() {
    let db = forum();
    register(&db, "alice");
    let response = enter(&db, " Alice ", "a good password", "login", NOW + 5);
    assert_eq!(target(&response), "/");
    let jar = jar_of(response);
    assert_eq!(number(&db, "SELECT COUNT(*) FROM sessions"), 2);
    assert!(index_page(&db, jar, None, None).is_admin);
}

#[test]
fn a_wrong_password_is_noted() {
    let db = forum();
    register(&db, "alice");
    let response = enter(&db, "alice", "a bad password", "login", NOW);
    let error = error_of(response);
    assert_eq!(error.error, "Invalid credentials");
    assert_eq!(error.mode, "login");
    assert_eq!(error.csrf_token, csrf());
    assert!(is_captcha_id(&error.captcha_id.unwrap()));
    assert!(!error.registration_disabled);
    assert_eq!(number(&db, "SELECT COUNT(*) FROM login_attempts WHERE username = 'alice'"), 1);
    assert_eq!(number(&db, "SELECT COUNT(*) FROM sessions"), 1);
    let error = error_of(enter(&db, "nobody", "a bad password", "", NOW));
    assert_eq!(error.error, "Invalid credentials");
}

#[test]
fn five_failures_are_too_many() {
    let db = forum();
    register(&db, "alice");
    for i in 0..5 {
        let error = error_of(enter(&db, "alice", "a bad password", "login", NOW + i));
        assert_eq!(error.error, "Invalid credentials");
    }
    let error = error_of(enter(&db, "alice", "a good password", "login", NOW + 5));
    assert_eq!(error.error, "Too many failed attempts. Try again in 15 minutes.");
    assert_eq!(error.mode, "login");
    assert_eq!(number(&db, "SELECT COUNT(*) FROM login_attempts"), 5);
    assert_eq!(number(&db, "SELECT COUNT(*) FROM captchas"), 1);
    let error = error_of(enter(&db, "alice", "a good password", "login", NOW + 899));
    assert_eq!(error.error, "Too many failed attempts. Try again in 15 minutes.");
    let response = enter(&db, "alice", "a good password", "login", NOW + 901);
    assert_eq!(target(&response), "/");
    assert_eq!(number(&db, "SELECT COUNT(*) FROM login_attempts"), 0);
}

#[test]
fn a_captcha_counts_once_and_for_five_minutes() {
    let db = forum();
    register(&db, "alice");
    let form = || auth("alice", "a good password", "login", "abc12");
    let error = error_of(send(&db, stranger(), form(), NOW));
    assert_eq!(error.error, "Invalid CAPTCHA");
    assert_eq!(error.mode, "login");
    converse(&db, get_captcha(CAPTCHA.to_string(), "ABC12", NOW), |_, _| unreachable!());
    let error = error_of(send(&db, stranger(), form(), NOW + 300));
    assert_eq!(error.error, "Invalid CAPTCHA");
    assert_eq!(number(&db, "SELECT COUNT(*) FROM captchas"), 0);
    converse(&db, get_captcha(CAPTCHA.to_string(), "ABC12", NOW), |_, _| unreachable!());
    assert_eq!(target(&send(&db, stranger(), form(), NOW + 299)), "/");
    let error = error_of(send(&db, stranger(), form(), NOW));
    assert_eq!(error.error, "Invalid CAPTCHA");
}

#[test]
fn a_wrong_solution_spends_the_captcha() {
    let db = forum();
    converse(&db, get_captcha(CAPTCHA.to_string(), "ABC12", NOW), |_, _| unreachable!());
    let error = error_of(send(&db, stranger(), auth("alice", "x", "register", "abc13"), NOW));
    assert_eq!(error.error, "Invalid CAPTCHA");
    assert_eq!(error.mode, "register");
    assert_eq!(number(&db, "SELECT COUNT(*) FROM captchas"), 0);
    assert_eq!(number(&db, "SELECT COUNT(*) FROM login_attempts"), 1);
}

#[test]
fn drawing_a_captcha_purges_those_that_expired() {
    let db = forum();
    let other = "550e8400e29b41d4a716446655440001";
    converse(&db, get_captcha(other.to_string(), "X", NOW), |_, _| unreachable!());
    let response = converse(&db, get_captcha(CAPTCHA.to_string(), "Y", NOW + 301), |_, _| unreachable!());
    assert!(matches!(response, Response::Image { ref content_type } if content_type == "image/png"));
    assert_eq!(text(&db, "SELECT id || ' ' || solution FROM captchas"), format!("{} y", CAPTCHA));
}

#[test]
fn a_captcha_needs_a_number() {
    let db = forum();
    for id in ["", "x", "550e8400-e29b-41d4-a716-44665544000", "550e8400-e29b-41d4-a716-44665544000g"] {
        assert!(!is_captcha_id(id));
        let response = converse(&db, get_captcha(id.to_string(), "Y", NOW), |_, _| unreachable!());
        match response {
            Response::Text { status, body } => {
                assert_eq!(status, 400);
                assert_eq!(body, "Invalid CAPTCHA id.");
            }
            _ => panic!("not a text"),
        }
    }
    assert_eq!(number(&db, "SELECT COUNT(*) FROM captchas"), 0);
}

#[test]
fn numbers_come_in_four_forms() {
    for id in [
        "550e8400e29b41d4a716446655440000",
        "550E8400-e29b-41d4-a716-446655440000",
        "{550e8400-e29b-41d4-a716-446655440000}",
        "urn:uuid:550e8400-e29b-41d4-a716-446655440000",
        "URN:Uuid:550e8400-e29b-41d4-a716-446655440000",
    ] {
        assert!(is_captcha_id(id), "{}", id);
    }
    for id in [
        "550e8400e29b41d4a71644665544000g",
        "550e8400-e29b-41d4-a7164-46655440000",
        "{550e8400-e29b-41d4-a716-446655440000",
        "{550e8400e29b41d4a716446655440000}",
        "uri:uuid:550e8400-e29b-41d4-a716-446655440000",
        "550e8400-e29b-41d4-a716-4466554400€",
    ] {
        assert!(!is_captcha_id(id), "{}", id);
    }
}

#[test]
fn bad_names_and_passwords_open_no_account() {
    let db = forum();
    for (username, password) in [("al", "a good password"), ("alice", "too short"), ("al ice", "a good password")] {
        let error = error_of(enter(&db, username, password, "register", NOW));
        assert_eq!(
            error.error,
            "Username must use lowercase letters, numbers, _ or -, and password must be 10-128 characters."
        );
        assert_eq!(error.mode, "register");
    }
    assert_eq!(number(&db, "SELECT COUNT(*) FROM users"), 0);
    assert_eq!(number(&db, "SELECT COUNT(*) FROM login_attempts"), 3);
}

#[test]
fn a_name_can_be_taken() {
    let db = forum();
    register(&db, "alice");
    let error = error_of(enter(&db, "ALICE", "another password", "register", NOW));
    assert_eq!(error.error, "Username taken");
    assert_eq!(error.mode, "register");
    assert_eq!(number(&db, "SELECT COUNT(*) FROM users"), 1);
    assert_eq!(number(&db, "SELECT COUNT(*) FROM login_attempts WHERE username = 'alice'"), 1);
}

#[test]
fn registering_can_be_closed_and_opened() {
    let db = forum();
    let admin = register(&db, "alice");
    let first = admin_set_registration(&admin, "0".to_string(), &csrf(), NOW);
    assert_eq!(target(&converse(&db, first, |s, r| s.advance(r))), "/admin");
    assert_eq!(text(&db, "SELECT value FROM app_settings"), "0");
    assert!(login_view(&db, stranger(), None).registration_disabled);
    let error = error_of(enter(&db, "bob", "a good password", "register", NOW));
    assert_eq!(error.error, "Registration is currently disabled by the administrator.");
    assert_eq!(error.mode, "register");
    assert_eq!(error.captcha_id, None);
    assert!(error.registration_disabled);
    assert_eq!(number(&db, "SELECT COUNT(*) FROM login_attempts"), 0);
    let first = admin_set_registration(&admin, "1".to_string(), &csrf(), NOW);
    converse(&db, first, |s, r| s.advance(r));
    register(&db, "bob");
    let first = admin_set_registration(&admin, "yes".to_string(), &csrf(), NOW);
    converse(&db, first, |s, r| s.advance(r));
    assert_eq!(text(&db, "SELECT value FROM app_settings"), "0");
}

#[test]
fn the_page_to_log_in_hands_out_a_captcha_and_a_token() {
    let db = forum();
    let page = login_view(&db, CookieJar::new(), None);
    assert_eq!(page.mode, "login");
    assert_eq!(page.current_user, None);
    assert_eq!(page.csrf_token.len(), 64);
    assert!(is_captcha_id(&page.captcha_id));
    assert!(!page.registration_disabled);
    let page = login_view(&db, register(&db, "alice"), Some("register"));
    assert_eq!(page.mode, "register");
    assert_eq!(page.current_user, Some("alice".to_string()));
    assert_eq!(page.csrf_token, csrf());
}

#[test]
fn logging_out_ends_the_session() {
    let db = forum();
    let jar = register(&db, "alice");
    let after = jar_of(converse(&db, logout_post(jar.clone(), &csrf()), |_, _| unreachable!()));
    assert_eq!(number(&db, "SELECT COUNT(*) FROM sessions"), 0);
    assert_eq!(index_page(&db, jar, None, None).current_user, None);
    assert_eq!(index_page(&db, after, None, None).current_user, None);
}

#[test]
fn a_session_ends_by_itself() {
    let db = forum();
    let jar = register(&db, "alice");
    let response = open_thread(&db, &jar, "a", "b", None, NOW + 604800);
    assert_eq!(target(&response), "/login");
    let response = open_thread(&db, &jar, "a", "b", None, NOW + 604799);
    assert_eq!(target(&response), "/thread/1");
}

#[test]
fn a_thread_opens_with_its_first_post() {
    let db = forum();
    let jar = register(&db, "alice");
    let response = open_thread(&db, &jar, "  A title ", " Some text ", Some(2), NOW + 9);
    assert_eq!(target(&response), "/thread/1");
    let page = thread_page(&db, jar, 1, None);
    assert_eq!(page.thread.title, "A title");
    assert_eq!(page.thread.posts_count, 1);
    assert_eq!(page.thread.created_at, NOW + 9);
    assert_eq!(page.thread.last_activity_at, NOW + 9);
    assert_eq!(page.thread.category_slug, Some("learning".to_string()));
    assert_eq!(page.thread.author, Some("alice".to_string()));
    assert_eq!(page.posts.len(), 1);
    assert_eq!(page.posts[0].content, "Some text");
    assert_eq!(page.posts[0].author, Some("alice".to_string()));
    assert_eq!(page.current_user, Some("alice".to_string()));
    assert!(page.is_admin);
    assert_eq!((page.page, page.total_pages), (1, 1));
}

#[test]
fn a_thread_without_a_category_gets_the_first() {
    let db = forum();
    let jar = register(&db, "alice");
    db.execute("DELETE FROM categories WHERE id = 1", []).unwrap();
    open_thread(&db, &jar, "a", "b", None, NOW);
    assert_eq!(number(&db, "SELECT category_id FROM threads"), 2);
    db.execute("DELETE FROM categories", []).unwrap();
    open_thread(&db, &jar, "a", "b", None, NOW);
    assert_eq!(number(&db, "SELECT category_id FROM threads WHERE id = 2"), 1);
}

#[test]
fn an_empty_thread_is_not_opened() {
    let db = forum();
    let jar = register(&db, "alice");
    assert_eq!(target(&open_thread(&db, &jar, " \t", "b", None, NOW)), "/");
    assert_eq!(target(&open_thread(&db, &jar, "a", "\n", None, NOW)), "/");
    assert_eq!(target(&open_thread(&db, &stranger(), "a", "b", None, NOW)), "/login");
    assert_eq!(number(&db, "SELECT COUNT(*) FROM threads"), 0);
}

#[test]
fn a_thread_that_cannot_be_kept_leads_to_the_front_page() {
    let db = forum();
    let jar = register(&db, "alice");
    db.execute_batch("DROP TABLE threads").unwrap();
    assert_eq!(target(&open_thread(&db, &jar, "a", "b", Some(1), NOW)), "/");
    assert_eq!(number(&db, "SELECT COUNT(*) FROM posts"), 0);
}

#[test]
fn long_texts_are_cut_down() {
    let db = forum();
    let jar = register(&db, "alice");
    open_thread(&db, &jar, &"t".repeat(141), &"c".repeat(5001), None, NOW);
    assert_eq!(text(&db, "SELECT title FROM threads"), format!("{}…", "t".repeat(139)));
    assert_eq!(text(&db, "SELECT content FROM posts"), format!("{}…", "c".repeat(4999)));
    send_comment(&db, &jar, 1, &"d".repeat(2001), NOW);
    assert_eq!(text(&db, "SELECT content FROM comments"), format!("{}…", "d".repeat(1999)));
}

#[test]
fn replies_are_counted() {
    let db = forum();
    let jar = register(&db, "alice");
    open_thread(&db, &jar, "a", "b", None, NOW);
    assert_eq!(target(&send_reply(&db, &jar, 1, " again ", NOW + 3)), "/thread/1");
    let page = thread_page(&db, jar, 1, None);
    assert_eq!(page.thread.posts_count, 2);
    assert_eq!(page.thread.last_activity_at, NOW + 3);
    assert_eq!(page.posts[1].content, "again");
    assert_eq!(page.posts[1].created_at, NOW + 3);
}

#[test]
fn replies_need_a_thread_a_member_and_a_text() {
    let db = forum();
    let jar = register(&db, "alice");
    open_thread(&db, &jar, "a", "b", None, NOW);
    assert_eq!(target(&send_reply(&db, &jar, 7, "x", NOW)), "/");
    assert_eq!(target(&send_reply(&db, &jar, 1, "  ", NOW)), "/thread/1");
    assert_eq!(target(&send_reply(&db, &stranger(), 1, "x", NOW)), "/login");
    assert_eq!(number(&db, "SELECT COUNT(*) FROM posts"), 1);
    assert_eq!(number(&db, "SELECT posts_count FROM threads"), 1);
}

#[test]
fn comments_stand_with_their_post() {
    let db = forum();
    let jar = register(&db, "alice");
    open_thread(&db, &jar, "a", "b", None, NOW);
    send_reply(&db, &jar, 1, "c", NOW);
    assert_eq!(target(&send_comment(&db, &jar, 2, "one", NOW + 1)), "/thread/1#p2");
    send_comment(&db, &jar, 1, "two", NOW + 2);
    send_comment(&db, &jar, 2, "three", NOW + 3);
    let page = thread_page(&db, jar, 1, None);
    assert_eq!(page.thread.last_activity_at, NOW + 3);
    assert_eq!(page.thread.posts_count, 2);
    let groups: Vec<(i64, Vec<&str>)> = page
        .comments_map
        .iter()
        .map(|g| (g.post_id, g.comments.iter().map(|c| c.content.as_str()).collect()))
        .collect();
    assert_eq!(groups, vec![(2, vec!["one", "three"]), (1, vec!["two"])]);
}

#[test]
fn comments_need_a_post_a_member_and_a_text() {
    let db = forum();
    let jar = register(&db, "alice");
    open_thread(&db, &jar, "a", "b", None, NOW);
    assert_eq!(target(&send_comment(&db, &jar, 7, "x", NOW)), "/");
    assert_eq!(target(&send_comment(&db, &jar, 1, "  ", NOW)), "/thread/1");
    assert_eq!(target(&send_comment(&db, &stranger(), 1, "x", NOW)), "/login");
    assert_eq!(number(&db, "SELECT COUNT(*) FROM comments"), 0);
}

#[test]
fn a_thread_that_is_not_there_is_not_found() {
    let db = forum();
    match view(&db, stranger(), 3, None) {
        Response::Html { body, jar } => {
            assert_eq!(body, "404 Not Found");
            assert_eq!(jar.get("csrf_token").unwrap().value(), csrf());
        }
        _ => panic!("found"),
    }
}

#[test]
fn a_page_beyond_all_numbers_is_no_matter() {
    let db = forum();
    let response = view(&db, stranger(), 3, Some(i64::MAX));
    assert!(matches!(response, Response::Html { ref body, .. } if body == "404 Not Found"));
    let jar = register(&db, "alice");
    open_thread(&db, &jar, "a", "b", None, NOW);
    let page = thread_page(&db, jar, 1, Some(i64::MAX));
    assert!(page.posts.is_empty());
    assert_eq!(page.page, i64::MAX);
}

#[test]
fn a_thread_has_fifty_posts_a_page() {
    let db = forum();
    let jar = register(&db, "alice");
    open_thread(&db, &jar, "a", "1", None, NOW);
    for i in 2..=51 {
        send_reply(&db, &jar, 1, &i.to_string(), NOW);
    }
    let page = thread_page(&db, jar.clone(), 1, Some(1));
    assert_eq!((page.posts.len(), page.total_pages), (50, 2));
    let page = thread_page(&db, jar.clone(), 1, Some(2));
    assert_eq!((page.posts.len(), page.page), (1, 2));
    assert_eq!(page.posts[0].content, "51");
    assert!(page.comments_map.is_empty());
    assert!(thread_page(&db, jar, 1, Some(3)).posts.is_empty());
}

#[test]
fn the_front_page_lists_threads_by_activity() {
    let db = forum();
    let jar = register(&db, "alice");
    register(&db, "bob");
    for i in 0..21 {
        let category = if i == 0 { 2 } else { 1 };
        open_thread(&db, &jar, &format!("t{}", i), "x", Some(category), NOW + i);
    }
    let page = index_page(&db, jar.clone(), None, None);
    assert_eq!(page.threads.len(), 20);
    assert_eq!(page.threads[0].title, "t20");
    assert_eq!((page.page, page.total_pages), (1, 2));
    assert_eq!(page.recent_posts.len(), 10);
    assert_eq!(page.recent_posts[0].thread_title, "t20");
    assert_eq!(page.categories.len(), 4);
    assert_eq!(page.categories[0].name, "Learning");
    assert!(page.cat.is_none());
    assert_eq!(page.all_users.len(), 1);
    assert_eq!(page.all_users[0].username, "bob");
    let page = index_page(&db, jar, None, Some(2));
    assert_eq!(page.threads.len(), 1);
    assert_eq!(page.threads[0].title, "t0");
    let page = index_page(&db, stranger(), Some("learning"), Some(-3));
    assert_eq!(page.threads.len(), 1);
    assert_eq!(page.cat.unwrap().slug, "learning");
    assert_eq!((page.page, page.total_pages), (1, 1));
    assert!(page.all_users.is_empty());
    let page = index_page(&db, stranger(), Some("nothing"), None);
    assert_eq!(page.threads.len(), 20);
    assert!(page.cat.is_none());
}

#[test]
fn only_administrators_see_their_page() {
    let db = forum();
    let admin = register(&db, "alice");
    let member = register(&db, "bob");
    let page = admin_view(&db, admin);
    assert_eq!(page.current_user, Some("alice".to_string()));
    assert!(page.is_admin && page.registration_enabled);
    assert_eq!(page.categories.len(), 4);
    assert_eq!(page.all_users.len(), 1);
    assert_eq!(page.csrf_token, csrf());
    for jar in [member, stranger()] {
        match administration(&db, jar) {
            Response::Redirect { jar: None, to } => assert_eq!(to, "/"),
            _ => panic!("shown"),
        }
    }
}

#[test]
fn deleting_a_member_deletes_what_the_member_wrote() {
    let db = forum();
    let admin = register(&db, "alice");
    let member = register(&db, "bob");
    open_thread(&db, &admin, "a", "b", None, NOW);
    open_thread(&db, &member, "c", "d", None, NOW);
    send_reply(&db, &member, 1, "e", NOW);
    send_comment(&db, &member, 1, "f", NOW);
    let first = admin_delete_user(&member, 1, &csrf(), NOW);
    assert_eq!(target(&converse(&db, first, |s, r| s.advance(r))), "/");
    assert_eq!(number(&db, "SELECT COUNT(*) FROM users"), 2);
    let first = admin_delete_user(&admin, 2, &csrf(), NOW);
    assert_eq!(target(&converse(&db, first, |s, r| s.advance(r))), "/");
    assert_eq!(number(&db, "SELECT COUNT(*) FROM users"), 1);
    assert_eq!(number(&db, "SELECT COUNT(*) FROM threads"), 1);
    assert_eq!(number(&db, "SELECT COUNT(*) FROM posts"), 1);
    assert_eq!(number(&db, "SELECT COUNT(*) FROM comments"), 0);
}

#[test]
fn administrators_delete_threads() {
    let db = forum();
    let admin = register(&db, "alice");
    let member = register(&db, "bob");
    open_thread(&db, &admin, "a", "b", None, NOW);
    for jar in [member, stranger()] {
        let first = admin_delete_thread(&jar, 1, &csrf(), NOW);
        assert_eq!(target(&converse(&db, first, |s, r| s.advance(r))), "/");
        assert_eq!(number(&db, "SELECT COUNT(*) FROM threads"), 1);
    }
    let first = admin_delete_thread(&admin, 1, &csrf(), NOW);
    assert_eq!(target(&converse(&db, first, |s, r| s.advance(r))), "/");
    assert_eq!(number(&db, "SELECT COUNT(*) FROM threads"), 0);
}

#[test]
fn administrators_create_categories() {
    let db = forum();
    let admin = register(&db, "alice");
    for name in [" Rust & Co. ", "  ", "?!", "Rust co"] {
        let first = admin_create_category(&admin, name.to_string(), &csrf(), NOW);
        assert_eq!(target(&converse(&db, first, |s, r| s.advance(r))), "/");
    }
    assert_eq!(number(&db, "SELECT COUNT(*) FROM categories"), 5);
    assert_eq!(text(&db, "SELECT name FROM categories WHERE slug = 'rust-co'"), "Rust & Co.");
    let first = admin_create_category(&admin, "x".repeat(40), &csrf(), NOW);
    converse(&db, first, |s, r| s.advance(r));
    assert_eq!(text(&db, "SELECT name FROM categories ORDER BY id DESC LIMIT 1"), format!("{}…", "x".repeat(31)));
    assert_eq!(text(&db, "SELECT slug FROM categories ORDER BY id DESC LIMIT 1"), "x".repeat(31));
}

#[test]
fn threads_move_before_their_category_goes() {
    let db = forum();
    let admin = register(&db, "alice");
    open_thread(&db, &admin, "a", "b", Some(1), NOW);
    let first = admin_delete_category(&admin, 1, &csrf(), NOW);
    assert_eq!(target(&converse(&db, first, |s, r| s.advance(r))), "/admin");
    assert_eq!(number(&db, "SELECT COUNT(*) FROM categories"), 3);
    assert_eq!(number(&db, "SELECT category_id FROM threads"), 2);
}

#[test]
fn the_last_category_stays() {
    let db = forum();
    let admin = register(&db, "alice");
    for id in [1, 2, 3, 4] {
        let first = admin_delete_category(&admin, id, &csrf(), NOW);
        assert_eq!(target(&converse(&db, first, |s, r| s.advance(r))), "/admin");
    }
    assert_eq!(number(&db, "SELECT id FROM categories"), 4);
}

#[test]
fn no_form_works_without_its_token() {
    let db = forum();
    let jar = register(&db, "alice");
    open_thread(&db, &jar, "a", "b", None, NOW);
    let bad = "d".repeat(64);
    let before = number(&db, "SELECT total_changes()");
    let form = CreateThreadForm {
        title: "a".to_string(),
        content: "b".to_string(),
        category_id: None,
        csrf_token: bad.clone(),
    };
    let first = create_thread(&jar, form, NOW);
    assert!(is_forbidden(&converse(&db, first, |s, r| s.advance(r, NOW))));
    let words = || ReplyForm { content: "x".to_string(), csrf_token: bad.clone() };
    let first = reply(&jar, 1, words(), NOW);
    assert!(is_forbidden(&converse(&db, first, |s, r| s.advance_reply(r, NOW))));
    let first = comment(&jar, 1, words(), NOW);
    assert!(is_forbidden(&converse(&db, first, |s, r| s.advance_comment(r, NOW))));
    let mut form = auth("alice", "a good password", "login", "x");
    form.csrf_token = bad.clone();
    assert!(is_forbidden(&send(&db, jar.clone(), form, NOW)));
    assert!(is_forbidden(&converse(&db, logout_post(jar.clone(), &bad), |_, _| unreachable!())));
    for first in [
        admin_delete_user(&jar, 1, &bad, NOW),
        admin_delete_thread(&jar, 1, &bad, NOW),
        admin_create_category(&jar, "x".to_string(), &bad, NOW),
        admin_delete_category(&jar, 1, &bad, NOW),
        admin_set_registration(&jar, "0".to_string(), &bad, NOW),
    ] {
        assert!(is_forbidden(&converse(&db, first, |s, r| s.advance(r))));
    }
    assert_eq!(number(&db, "SELECT total_changes()"), before);
}
