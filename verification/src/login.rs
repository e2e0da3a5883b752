//! Logging in and registering.
use vstd::prelude::*;
use axum_extra::extract::cookie::CookieJar;
use crate::account::{
    generate_salt, hash_password, hashed, is_salt, registration_ok, valid_registration, verifies,
    verify_password,
};
use crate::captcha::{is_random_uuid, new_captcha_id};
use crate::clock::is_now;
use crate::cookies::{
    add_cookie, csrf_ok, forum_cookie, jar_view, session_cookie, valid_csrf, JarView,
    SESSION_COOKIE, SESSION_TTL_SECONDS,
};
use crate::dialogue::{
    ask, asked, comes_to, commands_view, csrf_rejected, end, ended, forbidden, group_written,
    is_registration_enabled, lemma_comes_to, lemma_written_few, paged, registration_open, respond,
    run, written, Next, Response, ResponseOf, ResponseView, Step, StepOf, StepView,
};
use crate::pages::{LoginErrorOf, Page, PageView};
use crate::records::{
    count, counted, find, find_text, found, found_text, optional, Credentials, CredentialsOf,
    ReplyView,
};
use crate::store::{Command, CommandOf, CommandView, Reply, ReplyOf};
use crate::text::{lowercase, same_text, trim, trimmed};
use crate::token::{generate_session_token, is_token};

verus! {

/// How far back failed attempts count, in seconds.
pub const ATTEMPT_WINDOW_SECONDS: i64 = 900;

/// How many failed attempts are too many.
pub const MAX_ATTEMPTS: i64 = 5;

pub const TOO_MANY_ATTEMPTS: &'static str = "Too many failed attempts. Try again in 15 minutes.";

pub const INVALID_CAPTCHA: &'static str = "Invalid CAPTCHA";

pub const REGISTRATION_DISABLED: &'static str =
    "Registration is currently disabled by the administrator.";

pub const BAD_REGISTRATION: &'static str =
    "Username must use lowercase letters, numbers, _ or -, and password must be 10-128 characters.";

pub const ACCOUNT_FAILED: &'static str = "Account creation failed. Please try again.";

pub const USERNAME_TAKEN: &'static str = "Username taken";

pub const INVALID_CREDENTIALS: &'static str = "Invalid credentials";

/// What is left to chance when a form to log in or register is answered. `T` is the type of
/// text.
pub struct FreshOf<T> {
    /// The token of a session that begins.
    pub token: T,
    /// The CAPTCHA to solve next.
    pub captcha_id: T,
    /// The salt of a password that is hashed.
    pub salt: T,
}

/// What is left to chance when a form to log in or register is answered.
pub type Fresh = FreshOf<String>;

/// What is left to chance, as contracts speak of it.
pub type FreshView = FreshOf<Seq<char>>;

impl View for FreshOf<String> {
    type V = FreshView;

    open spec fn view(&self) -> FreshView {
        FreshOf { token: self.token@, captcha_id: self.captcha_id@, salt: self.salt@ }
    }
}

/// What holds of it however it falls.
pub open spec fn is_fresh(fresh: FreshView) -> bool {
    is_token(fresh.token) && is_random_uuid(fresh.captcha_id) && is_salt(fresh.salt)
}

/// Draws what is left to chance.
pub fn draw() -> (r: Fresh)
    ensures
        is_fresh(r@),
{
    FreshOf {
        token: generate_session_token(),
        captcha_id: new_captcha_id(),
        salt: generate_salt(),
    }
}

/// A form to log in or register. `T` is the type of text.
#[derive(Debug, PartialEq)]
pub struct AuthFormOf<T> {
    pub username: T,
    pub password: T,
    pub action: T,
    pub captcha_id: T,
    pub captcha_solution: T,
    pub csrf_token: T,
}

/// A form to log in or register.
pub type AuthForm = AuthFormOf<String>;

/// A form to log in or register, as contracts speak of it.
pub type AuthFormView = AuthFormOf<Seq<char>>;

impl View for AuthFormOf<String> {
    type V = AuthFormView;

    open spec fn view(&self) -> AuthFormView {
        AuthFormOf {
            username: self.username@,
            password: self.password@,
            action: self.action@,
            captcha_id: self.captcha_id@,
            captcha_solution: self.captcha_solution@,
            csrf_token: self.csrf_token@,
        }
    }
}

/// The name that a form is about: trimmed, in lowercase.
pub open spec fn account_name(form: AuthFormView) -> Seq<char> {
    lowercase(trimmed(form.username))
}

/// The solution of a CAPTCHA that a form gives: trimmed, in lowercase.
pub open spec fn given_solution(form: AuthFormView) -> Seq<char> {
    lowercase(trimmed(form.captcha_solution))
}

/// A form that is being answered. `J` is the type of jars, `F` that of forms, `T` that of text.
pub struct LoginRequestOf<J, F, T> {
    pub jar: J,
    pub form: F,
    /// The name that the form is about.
    pub username: T,
    /// The solution of its CAPTCHA that the form gives.
    pub solution: T,
}

/// A form that is being answered.
pub type LoginRequest = LoginRequestOf<CookieJar, AuthForm, String>;

/// A form that is being answered, as contracts speak of it.
pub type LoginRequestView = LoginRequestOf<JarView, AuthFormView, Seq<char>>;

impl View for LoginRequestOf<CookieJar, AuthForm, String> {
    type V = LoginRequestView;

    open spec fn view(&self) -> LoginRequestView {
        LoginRequestOf {
            jar: jar_view(self.jar),
            form: self.form@,
            username: self.username@,
            solution: self.solution@,
        }
    }
}

/// A form, with what is made of its name and solution.
pub open spec fn request_of(jar: JarView, form: AuthFormView) -> LoginRequestView {
    LoginRequestOf {
        jar,
        form,
        username: account_name(form),
        solution: given_solution(form),
    }
}

/// Which reply a form to log in or register waits for. `R` is the type of requests, `T` that of
/// text.
pub enum LoginStateOf<R, T> {
    Attempts(R),
    Captcha(R),
    Setting(R),
    Users { request: R, password_hash: T },
    Insert { request: R, created_at: i64, expires_at: i64 },
    Credentials(R),
}

/// Which reply a form to log in or register waits for.
pub type LoginState = LoginStateOf<LoginRequest, String>;

/// Which reply a form waits for, as contracts speak of it.
pub type LoginStateView = LoginStateOf<LoginRequestView, Seq<char>>;

impl View for LoginStateOf<LoginRequest, String> {
    type V = LoginStateView;

    open spec fn view(&self) -> LoginStateView {
        match self {
            LoginStateOf::Attempts(request) => LoginStateOf::Attempts(request@),
            LoginStateOf::Captcha(request) => LoginStateOf::Captcha(request@),
            LoginStateOf::Setting(request) => LoginStateOf::Setting(request@),
            LoginStateOf::Users { request, password_hash } => LoginStateOf::Users {
                request: request@,
                password_hash: password_hash@,
            },
            LoginStateOf::Insert { request, created_at, expires_at } => LoginStateOf::Insert {
                request: request@,
                created_at: *created_at,
                expires_at: *expires_at,
            },
            LoginStateOf::Credentials(request) => LoginStateOf::Credentials(request@),
        }
    }
}

/// Whether a hash that is about to be kept for an account is one that its password matches.
pub open spec fn keeps_password(state: LoginStateView) -> bool {
    match state {
        LoginStateOf::Users { request, password_hash } => verifies(
            request.form.password,
            password_hash,
        ),
        _ => true,
    }
}

/// The page that says why a form was turned down.
pub open spec fn turned_down(
    request: LoginRequestView,
    error: Seq<char>,
    mode: Seq<char>,
    captcha_id: Seq<char>,
) -> ResponseView {
    paged(
        request.jar,
        PageView::LoginError(
            LoginErrorOf {
                error,
                mode,
                captcha_id: Some(captcha_id),
                csrf_token: request.form.csrf_token,
                registration_disabled: false,
            },
        ),
    )
}

/// The page that says that nobody can register.
pub open spec fn registration_closed(request: LoginRequestView) -> ResponseView {
    paged(
        request.jar,
        PageView::LoginError(
            LoginErrorOf {
                error: REGISTRATION_DISABLED@,
                mode: "register"@,
                captcha_id: None,
                csrf_token: request.form.csrf_token,
                registration_disabled: true,
            },
        ),
    )
}

/// The commands that begin a session and forget the failed attempts before it.
pub open spec fn session_commands(
    username: Seq<char>,
    user_id: i64,
    token: Seq<char>,
    created_at: i64,
    expires_at: i64,
) -> Seq<CommandView> {
    seq![
        CommandOf::InsertSession { token, user_id, created_at, expires_at },
        CommandOf::ClearAttempts { username },
    ]
}

/// When a session ends that begins at a time.
pub open spec fn session_end(created_at: i64) -> i64 {
    (created_at + SESSION_TTL_SECONDS) as i64
}

/// The response that begins a session: its cookie, and the way to the front page.
pub open spec fn welcome(jar: JarView, token: Seq<char>) -> ResponseView {
    ResponseOf::Redirect {
        jar: Some(jar.with(forum_cookie(SESSION_COOKIE@, token))),
        to: "/"@,
    }
}

/// Whether a solution of a CAPTCHA is the one that was kept.
pub open spec fn is_solved(solution: Seq<char>, reply: ReplyView) -> bool {
    found_text(reply) == Some(solution)
}

/// The member whose name and password a form gives.
pub open spec fn identified(form: AuthFormView, reply: ReplyView) -> Option<i64> {
    match found::<Credentials>(reply) {
        Some(credentials) => if verifies(form.password, credentials.password_hash) {
            Some(credentials.user_id)
        } else {
            None
        },
        None => None,
    }
}

/// The command that opens an account. The first account of all is that of an administrator.
pub open spec fn account_insertion(
    username: Seq<char>,
    password_hash: Seq<char>,
    created_at: i64,
    accounts: ReplyView,
) -> CommandView {
    CommandOf::InsertUser {
        username,
        password_hash,
        created_at,
        is_admin: if counted(accounts) == 0 {
            1
        } else {
            0
        },
    }
}

/// Whether a form waits for the reply that lets it open an account, and this is that reply.
pub open spec fn may_register(state: LoginStateView, reply: ReplyView) -> bool {
    state matches LoginStateOf::Setting(request) && registration_open(reply) && registration_ok(
        request.username,
        request.form.password,
    )
}

/// How a form to log in or register begins: with the question how often that failed of late.
pub open spec fn login_begun(request: LoginRequestView, now: i64) -> StepView<LoginStateView> {
    if !csrf_ok(request.jar, request.form.csrf_token) {
        ended(Seq::empty(), forbidden())
    } else {
        asked(
            CommandOf::CountAttempts {
                username: request.username,
                since: (now - ATTEMPT_WINDOW_SECONDS) as i64,
            },
            LoginStateOf::Attempts(request),
        )
    }
}

/// How a form to register goes on once its password is hashed, or could not be.
pub open spec fn hash_settled(
    request: LoginRequestView,
    password_hash: Option<Seq<char>>,
    captcha_id: Seq<char>,
) -> StepView<LoginStateView> {
    match password_hash {
        None => ended(
            Seq::empty(),
            turned_down(request, ACCOUNT_FAILED@, "register"@, captcha_id),
        ),
        Some(password_hash) => asked(
            CommandOf::CountUsers,
            LoginStateOf::Users { request, password_hash },
        ),
    }
}

/// How a form to log in ends for the member it identifies, or for none.
pub open spec fn login_settled(
    request: LoginRequestView,
    user_id: Option<i64>,
    now: i64,
    fresh: FreshView,
) -> StepView<LoginStateView> {
    match user_id {
        Some(user_id) => ended(
            session_commands(request.username, user_id, fresh.token, now, session_end(now)),
            welcome(request.jar, fresh.token),
        ),
        None => ended(
            seq![CommandOf::InsertAttempt { username: request.username, now }],
            turned_down(request, INVALID_CREDENTIALS@, "login"@, fresh.captcha_id),
        ),
    }
}

/// How a form to log in or register goes on after a reply.
pub open spec fn login_next(
    state: LoginStateView,
    reply: ReplyView,
    now: i64,
    fresh: FreshView,
) -> StepView<LoginStateView> {
    match state {
        LoginStateOf::Attempts(request) => if counted(reply) >= MAX_ATTEMPTS {
            ended(
                Seq::empty(),
                turned_down(request, TOO_MANY_ATTEMPTS@, request.form.action, fresh.captcha_id),
            )
        } else {
            asked(
                CommandOf::FindCaptcha { id: request.form.captcha_id, now },
                LoginStateOf::Captcha(request),
            )
        },
        LoginStateOf::Captcha(request) => {
            let deletion = CommandOf::DeleteCaptcha { id: request.form.captcha_id };
            let username = request.username;
            if !is_solved(request.solution, reply) {
                ended(
                    seq![deletion, CommandOf::InsertAttempt { username, now }],
                    turned_down(request, INVALID_CAPTCHA@, request.form.action, fresh.captcha_id),
                )
            } else if request.form.action == "register"@ {
                StepOf {
                    commands: seq![deletion, CommandOf::RegistrationSetting],
                    next: Next::Await(LoginStateOf::Setting(request)),
                }
            } else {
                StepOf {
                    commands: seq![deletion, CommandOf::FindCredentials { username }],
                    next: Next::Await(LoginStateOf::Credentials(request)),
                }
            }
        },
        LoginStateOf::Setting(request) => {
            let form = request.form;
            if !registration_open(reply) {
                ended(Seq::empty(), registration_closed(request))
            } else if !registration_ok(request.username, form.password) {
                ended(
                    seq![CommandOf::InsertAttempt { username: request.username, now }],
                    turned_down(request, BAD_REGISTRATION@, "register"@, fresh.captcha_id),
                )
            } else {
                hash_settled(request, hashed(form.password, fresh.salt), fresh.captcha_id)
            }
        },
        LoginStateOf::Users { request, password_hash } => asked(
            account_insertion(request.username, password_hash, now, reply),
            LoginStateOf::Insert { request, created_at: now, expires_at: session_end(now) },
        ),
        LoginStateOf::Insert { request, created_at, expires_at } => match reply {
            ReplyOf::Done { rowid } => ended(
                session_commands(request.username, rowid, fresh.token, created_at, expires_at),
                welcome(request.jar, fresh.token),
            ),
            _ => ended(
                seq![CommandOf::InsertAttempt { username: request.username, now: created_at }],
                turned_down(request, USERNAME_TAKEN@, "register"@, fresh.captcha_id),
            ),
        },
        LoginStateOf::Credentials(request) => login_settled(
            request,
            identified(request.form, reply),
            now,
            fresh,
        ),
    }
}

/// Begins with a form to log in or register, of which the name and the solution are known.
pub fn login_post_with(request: LoginRequest, now: i64) -> (r: Step<LoginState>)
    requires
        is_now(now),
    ensures
        r@ == login_begun(request@, now),
{
    if !valid_csrf(&request.jar, request.form.csrf_token.as_str()) {
        return respond(csrf_rejected());
    }
    let command = CommandOf::CountAttempts {
        username: request.username.clone(),
        since: now - ATTEMPT_WINDOW_SECONDS,
    };
    ask(command, LoginStateOf::Attempts(request))
}

/// Begins with a form to log in or register.
pub fn login_post(jar: CookieJar, form: AuthForm, now: i64) -> (r: Step<LoginState>)
    requires
        is_now(now),
    ensures
        r@ == login_begun(request_of(jar_view(jar), form@), now),
{
    let username = trim(form.username.as_str()).as_str().to_lowercase();
    let solution = trim(form.captcha_solution.as_str()).as_str().to_lowercase();
    login_post_with(LoginRequestOf { jar, form, username, solution }, now)
}

/// The page that says why a form was turned down.
fn turn_down(request: LoginRequest, error: &str, mode: &str, captcha_id: String) -> (r: Response)
    ensures
        r@ == turned_down(request@, error@, mode@, captcha_id@),
{
    ResponseOf::Page {
        jar: request.jar,
        page: Page::LoginError(
            LoginErrorOf {
                error: error.to_owned(),
                mode: mode.to_owned(),
                captcha_id: Some(captcha_id),
                csrf_token: request.form.csrf_token,
                registration_disabled: false,
            },
        ),
    }
}

/// The step that notes a failed attempt and turns a form down.
fn fail(request: LoginRequest, error: &str, mode: &str, captcha_id: String, now: i64) -> (r: Step<
    LoginState,
>)
    ensures
        r@ == ended::<LoginStateView>(
            seq![CommandOf::InsertAttempt { username: request@.username, now }],
            turned_down(request@, error@, mode@, captcha_id@),
        ),
{
    let commands: Vec<Command> = vec![
        CommandOf::InsertAttempt { username: request.username.clone(), now },
    ];
    proof {
        assert(commands_view(commands@) =~= seq![
            CommandOf::InsertAttempt { username: request@.username, now },
        ]);
    }
    end(commands, turn_down(request, error, mode, captcha_id))
}

/// The step that begins a session.
fn open_session(
    request: LoginRequest,
    user_id: i64,
    token: String,
    created_at: i64,
    expires_at: i64,
) -> (r: Step<LoginState>)
    ensures
        r@ == ended::<LoginStateView>(
            session_commands(request@.username, user_id, token@, created_at, expires_at),
            welcome(request@.jar, token@),
        ),
{
    let commands: Vec<Command> = vec![
        CommandOf::InsertSession { token: token.clone(), user_id, created_at, expires_at },
        CommandOf::ClearAttempts { username: request.username },
    ];
    proof {
        assert(commands_view(commands@) =~= session_commands(
            request@.username,
            user_id,
            token@,
            created_at,
            expires_at,
        ));
    }
    let jar = add_cookie(request.jar, session_cookie(token));
    end(commands, ResponseOf::Redirect { jar: Some(jar), to: "/".to_owned() })
}

/// Goes on with a form to register once its password is hashed, or could not be.
pub fn settle_hash(request: LoginRequest, password_hash: Option<String>, captcha_id: String) -> (r:
    Step<LoginState>)
    ensures
        r@ == hash_settled(request@, optional(password_hash), captcha_id@),
{
    match password_hash {
        None => respond(turn_down(request, ACCOUNT_FAILED, "register", captcha_id)),
        Some(password_hash) => ask(
            CommandOf::CountUsers,
            LoginStateOf::Users { request, password_hash },
        ),
    }
}

/// Ends a form to log in for the member it identifies, or for none.
pub fn settle_login(request: LoginRequest, user_id: Option<i64>, now: i64, fresh: Fresh) -> (r:
    Step<LoginState>)
    requires
        is_now(now),
    ensures
        r@ == login_settled(request@, user_id, now, fresh@),
{
    match user_id {
        Some(user_id) => open_session(
            request,
            user_id,
            fresh.token,
            now,
            now + SESSION_TTL_SECONDS,
        ),
        None => fail(request, INVALID_CREDENTIALS, "login", fresh.captcha_id, now),
    }
}

impl LoginStateOf<LoginRequest, String> {
    /// Goes on with a form to log in or register after a reply, with what was drawn for it.
    pub fn advance_with(self, reply: &Reply, now: i64, fresh: Fresh) -> (r: Step<LoginState>)
        requires
            is_now(now),
        ensures
            r@ == login_next(self@, reply@, now, fresh@),
            r@.next matches Next::Await(state) ==> keeps_password(state),
            may_register(self@, reply@) && is_salt(fresh@.salt) ==> r@.next is Await,
    {
        match self {
            LoginStateOf::Attempts(request) => {
                if count(reply) >= MAX_ATTEMPTS {
                    let mode = request.form.action.clone();
                    respond(turn_down(request, TOO_MANY_ATTEMPTS, mode.as_str(), fresh.captcha_id))
                } else {
                    let id = request.form.captcha_id.clone();
                    ask(CommandOf::FindCaptcha { id, now }, LoginStateOf::Captcha(request))
                }
            },
            LoginStateOf::Captcha(request) => {
                let username = request.username.clone();
                let deletion = CommandOf::DeleteCaptcha { id: request.form.captcha_id.clone() };
                let solved = match find_text(reply) {
                    Some(kept) => same_text(kept.as_str(), request.solution.as_str()),
                    None => false,
                };
                if !solved {
                    let mode = request.form.action.clone();
                    let commands: Vec<Command> = vec![
                        deletion,
                        CommandOf::InsertAttempt { username, now },
                    ];
                    proof {
                        assert(commands_view(commands@) =~= seq![
                            deletion@,
                            CommandOf::InsertAttempt { username: username@, now },
                        ]);
                    }
                    end(
                        commands,
                        turn_down(request, INVALID_CAPTCHA, mode.as_str(), fresh.captcha_id),
                    )
                } else if same_text(request.form.action.as_str(), "register") {
                    let commands: Vec<Command> = vec![deletion, CommandOf::RegistrationSetting];
                    proof {
                        assert(commands_view(commands@) =~= seq![
                            deletion@,
                            CommandOf::RegistrationSetting,
                        ]);
                    }
                    StepOf { commands, next: Next::Await(LoginStateOf::Setting(request)) }
                } else {
                    let commands: Vec<Command> = vec![
                        deletion,
                        CommandOf::FindCredentials { username },
                    ];
                    proof {
                        assert(commands_view(commands@) =~= seq![
                            deletion@,
                            CommandOf::FindCredentials { username: username@ },
                        ]);
                    }
                    StepOf { commands, next: Next::Await(LoginStateOf::Credentials(request)) }
                }
            },
            LoginStateOf::Setting(request) => {
                if !is_registration_enabled(reply) {
                    return respond(
                        ResponseOf::Page {
                            jar: request.jar,
                            page: Page::LoginError(
                                LoginErrorOf {
                                    error: REGISTRATION_DISABLED.to_owned(),
                                    mode: "register".to_owned(),
                                    captcha_id: None,
                                    csrf_token: request.form.csrf_token,
                                    registration_disabled: true,
                                },
                            ),
                        },
                    );
                }
                if !valid_registration(request.username.as_str(), request.form.password.as_str()) {
                    return fail(request, BAD_REGISTRATION, "register", fresh.captcha_id, now);
                }
                let hash = hash_password(request.form.password.as_str(), fresh.salt.as_str());
                settle_hash(request, hash, fresh.captcha_id)
            },
            LoginStateOf::Users { request, password_hash } => {
                let is_admin: i64 = if count(reply) == 0 {
                    1
                } else {
                    0
                };
                let command = CommandOf::InsertUser {
                    username: request.username.clone(),
                    password_hash,
                    created_at: now,
                    is_admin,
                };
                let expires_at = now + SESSION_TTL_SECONDS;
                ask(command, LoginStateOf::Insert { request, created_at: now, expires_at })
            },
            LoginStateOf::Insert { request, created_at, expires_at } => match reply {
                ReplyOf::Done { rowid } => open_session(
                    request,
                    *rowid,
                    fresh.token,
                    created_at,
                    expires_at,
                ),
                _ => fail(request, USERNAME_TAKEN, "register", fresh.captcha_id, created_at),
            },
            LoginStateOf::Credentials(request) => {
                let user_id = match find::<Credentials>(reply) {
                    Some(credentials) => if verify_password(
                        request.form.password.as_str(),
                        credentials.password_hash.as_str(),
                    ) {
                        Some(credentials.user_id)
                    } else {
                        None
                    },
                    None => None,
                };
                settle_login(request, user_id, now, fresh)
            },
        }
    }

    /// Goes on with a form to log in or register after a reply.
    pub fn advance(self, reply: &Reply, now: i64) -> (r: Step<LoginState>)
        requires
            is_now(now),
        ensures
            exists|fresh: FreshView| #[trigger]
                is_fresh(fresh) && r@ == login_next(self@, reply@, now, fresh),
            r@.next matches Next::Await(state) ==> keeps_password(state),
            may_register(self@, reply@) ==> r@.next is Await,
    {
        let fresh = draw();
        self.advance_with(reply, now, fresh)
    }
}

/// What comes of a form to register whose CAPTCHA is solved, by what the database answers: what
/// is written after the CAPTCHA is spent, and the response.
pub open spec fn register_outcome(
    request: LoginRequestView,
    now: i64,
    fresh: FreshView,
    answers: spec_fn(CommandView) -> ReplyView,
) -> (Seq<CommandView>, ResponseView) {
    let form = request.form;
    let username = request.username;
    let attempt = CommandOf::InsertAttempt { username, now };
    if !registration_open(answers(CommandOf::RegistrationSetting)) {
        (Seq::empty(), registration_closed(request))
    } else if !registration_ok(username, form.password) {
        (seq![attempt], turned_down(request, BAD_REGISTRATION@, "register"@, fresh.captcha_id))
    } else {
        match hashed(form.password, fresh.salt) {
            None => (
                Seq::empty(),
                turned_down(request, ACCOUNT_FAILED@, "register"@, fresh.captcha_id),
            ),
            Some(password_hash) => {
                let insertion = account_insertion(
                    username,
                    password_hash,
                    now,
                    answers(CommandOf::CountUsers),
                );
                match answers(insertion) {
                    ReplyOf::Done { rowid } => (
                        seq![insertion] + session_commands(
                            username,
                            rowid,
                            fresh.token,
                            now,
                            session_end(now),
                        ),
                        welcome(request.jar, fresh.token),
                    ),
                    _ => (
                        seq![insertion, attempt],
                        turned_down(request, USERNAME_TAKEN@, "register"@, fresh.captcha_id),
                    ),
                }
            },
        }
    }
}

/// What comes of a form to log in whose CAPTCHA is solved.
pub open spec fn enter_outcome(
    request: LoginRequestView,
    now: i64,
    fresh: FreshView,
    answers: spec_fn(CommandView) -> ReplyView,
) -> (Seq<CommandView>, ResponseView) {
    let username = request.username;
    match identified(request.form, answers(CommandOf::FindCredentials { username })) {
        Some(user_id) => (
            session_commands(username, user_id, fresh.token, now, session_end(now)),
            welcome(request.jar, fresh.token),
        ),
        None => (
            seq![CommandOf::InsertAttempt { username, now }],
            turned_down(request, INVALID_CREDENTIALS@, "login"@, fresh.captcha_id),
        ),
    }
}

/// What comes of a form whose CAPTCHA was looked up at the time `looked`.
pub open spec fn checked_outcome(
    request: LoginRequestView,
    looked: i64,
    later: i64,
    fresh: FreshView,
    answers: spec_fn(CommandView) -> ReplyView,
) -> (Seq<CommandView>, ResponseView) {
    let form = request.form;
    let deletion = CommandOf::DeleteCaptcha { id: form.captcha_id };
    if !is_solved(
        request.solution,
        answers(CommandOf::FindCaptcha { id: form.captcha_id, now: looked }),
    ) {
        (
            seq![deletion, CommandOf::InsertAttempt { username: request.username, now: later }],
            turned_down(request, INVALID_CAPTCHA@, form.action, fresh.captcha_id),
        )
    } else {
        let (commands, response) = if form.action == "register"@ {
            register_outcome(request, later, fresh, answers)
        } else {
            enter_outcome(request, later, fresh, answers)
        };
        (seq![deletion] + commands, response)
    }
}

/// How often logging in under a name failed of late, by what the database answers.
pub open spec fn recent_failures(
    form: AuthFormView,
    now: i64,
    answers: spec_fn(CommandView) -> ReplyView,
) -> i64 {
    counted(
        answers(
            CommandOf::CountAttempts {
                username: account_name(form),
                since: (now - ATTEMPT_WINDOW_SECONDS) as i64,
            },
        ),
    )
}

/// What comes of a form to log in or register, by what the database answers: what is written,
/// and the response.
pub open spec fn login_outcome(
    jar: JarView,
    form: AuthFormView,
    now: i64,
    looked: i64,
    later: i64,
    fresh: FreshView,
    answers: spec_fn(CommandView) -> ReplyView,
) -> (Seq<CommandView>, ResponseView) {
    let request = request_of(jar, form);
    if !csrf_ok(jar, form.csrf_token) {
        (Seq::empty(), forbidden())
    } else if recent_failures(form, now, answers) >= MAX_ATTEMPTS {
        (Seq::empty(), turned_down(request, TOO_MANY_ATTEMPTS@, form.action, fresh.captcha_id))
    } else {
        checked_outcome(request, looked, later, fresh, answers)
    }
}

/// How a form goes on whose CAPTCHA is looked up at the time `looked` and which is decided at
/// the time `later`.
pub open spec fn login_at(looked: i64, later: i64, fresh: FreshView) -> spec_fn(
    LoginStateView,
    ReplyView,
) -> StepView<LoginStateView> {
    |s: LoginStateView, r: ReplyView|
        login_next(
            s,
            r,
            if s is Attempts {
                looked
            } else {
                later
            },
            fresh,
        )
}

/// A form to log in or register, from its first step to its response.
pub open spec fn login_run(
    jar: JarView,
    form: AuthFormView,
    now: i64,
    looked: i64,
    later: i64,
    fresh: FreshView,
    answers: spec_fn(CommandView) -> ReplyView,
) -> Option<(Seq<CommandView>, ResponseView)> {
    run(login_begun(request_of(jar, form), now), login_at(looked, later, fresh), answers, 5)
}

proof fn lemma_register(
    request: LoginRequestView,
    looked: i64,
    later: i64,
    fresh: FreshView,
    answers: spec_fn(CommandView) -> ReplyView,
)
    ensures
        comes_to(
            run(
                login_next(
                    LoginStateOf::Setting(request),
                    answers(CommandOf::RegistrationSetting),
                    later,
                    fresh,
                ),
                login_at(looked, later, fresh),
                answers,
                2,
            ),
            register_outcome(request, later, fresh, answers),
        ),
{
    broadcast use group_written;

    let next = login_at(looked, later, fresh);
    let form = request.form;
    let setting = answers(CommandOf::RegistrationSetting);
    let asked_users = login_next(LoginStateOf::Setting(request), setting, later, fresh);
    let outcome = register_outcome(request, later, fresh, answers);
    if registration_open(setting) && registration_ok(request.username, form.password) {
        if let Some(password_hash) = hashed(form.password, fresh.salt) {
            let users = answers(CommandOf::CountUsers);
            let state = LoginStateOf::Users { request, password_hash };
            let inserting = login_next(state, users, later, fresh);
            let insertion = account_insertion(request.username, password_hash, later, users);
            let expires_at = session_end(later);
            let waiting = LoginStateOf::Insert { request, created_at: later, expires_at };
            let last = login_next(waiting, answers(insertion), later, fresh);
            assert(last.next is Respond);
            let rest = (last.commands, last.next->Respond_0);
            lemma_comes_to(inserting, waiting, next, answers, 1, rest);
            assert(outcome.0 =~= written(inserting.commands) + rest.0);
            lemma_comes_to(asked_users, state, next, answers, 2, outcome);
            assert(outcome.0 =~= written(asked_users.commands) + outcome.0);
        }
    }
}

proof fn lemma_checked(
    request: LoginRequestView,
    looked: i64,
    later: i64,
    fresh: FreshView,
    answers: spec_fn(CommandView) -> ReplyView,
)
    ensures
        comes_to(
            run(
                login_next(
                    LoginStateOf::Captcha(request),
                    answers(CommandOf::FindCaptcha { id: request.form.captcha_id, now: looked }),
                    later,
                    fresh,
                ),
                login_at(looked, later, fresh),
                answers,
                3,
            ),
            checked_outcome(request, looked, later, fresh, answers),
        ),
{
    broadcast use group_written;

    let next = login_at(looked, later, fresh);
    let form = request.form;
    let sought = answers(CommandOf::FindCaptcha { id: form.captcha_id, now: looked });
    let step = login_next(LoginStateOf::Captcha(request), sought, later, fresh);
    if is_solved(request.solution, sought) {
        let deletion = CommandOf::DeleteCaptcha { id: form.captcha_id };
        lemma_written_few(deletion, step.commands[1]);
        lemma_written_few(step.commands[1], step.commands[1]);
        assert(written(step.commands) =~= seq![deletion]);
        if form.action == "register"@ {
            let rest = register_outcome(request, later, fresh, answers);
            lemma_register(request, looked, later, fresh, answers);
            lemma_comes_to(step, LoginStateOf::Setting(request), next, answers, 3, rest);
        } else {
            let rest = enter_outcome(request, later, fresh, answers);
            lemma_comes_to(step, LoginStateOf::Credentials(request), next, answers, 3, rest);
        }
    }
}

/// A form to log in or register always comes to an end. It writes nothing unless it carries
/// the token that guards it and logging in under that name did not fail too often of late. Its
/// CAPTCHA is then spent, solved or not. A session begins only for a member whose password
/// matches, or with a new account; every failure that is the visitor's is noted.
pub proof fn law_login(
    jar: JarView,
    form: AuthFormView,
    now: i64,
    looked: i64,
    later: i64,
    fresh: FreshView,
    answers: spec_fn(CommandView) -> ReplyView,
)
    ensures
        comes_to(
            login_run(jar, form, now, looked, later, fresh, answers),
            login_outcome(jar, form, now, looked, later, fresh, answers),
        ),
{
    broadcast use group_written;

    let next = login_at(looked, later, fresh);
    let request = request_of(jar, form);
    let begun = login_begun(request_of(jar, form), now);
    let outcome = login_outcome(jar, form, now, looked, later, fresh, answers);
    if csrf_ok(jar, form.csrf_token) {
        let attempts = answers(begun.commands.last());
        let step = login_next(LoginStateOf::Attempts(request), attempts, looked, fresh);
        if recent_failures(form, now, answers) < MAX_ATTEMPTS {
            lemma_checked(request, looked, later, fresh, answers);
            lemma_comes_to(step, LoginStateOf::Captcha(request), next, answers, 4, outcome);
            assert(written(step.commands) + outcome.0 =~= outcome.0);
        }
        lemma_comes_to(begun, LoginStateOf::Attempts(request), next, answers, 5, outcome);
        assert(written(begun.commands) + outcome.0 =~= outcome.0);
    }
}

/// Once logging in under a name failed too often of late, a form for that name is turned down
/// before its CAPTCHA or its password is looked at: nothing is asked of the database but how
/// often it failed.
pub proof fn law_rate_limit(
    jar: JarView,
    form: AuthFormView,
    now: i64,
    looked: i64,
    later: i64,
    fresh: FreshView,
    answers: spec_fn(CommandView) -> ReplyView,
)
    requires
        csrf_ok(jar, form.csrf_token),
        recent_failures(form, now, answers) >= MAX_ATTEMPTS,
    ensures
        login_run(jar, form, now, looked, later, fresh, answers) == Some(
            (
                seq![
                    CommandView::CountAttempts {
                        username: account_name(form),
                        since: (now - ATTEMPT_WINDOW_SECONDS) as i64,
                    },
                ],
                turned_down(
                    request_of(jar, form),
                    TOO_MANY_ATTEMPTS@,
                    form.action,
                    fresh.captcha_id,
                ),
            ),
        ),
{
    reveal_with_fuel(run, 2);
    let begun = login_begun(request_of(jar, form), now).commands;
    assert(begun + Seq::<CommandView>::empty() =~= begun);
}

/// A CAPTCHA counts once: whoever gets past the limit on failures spends it, whatever comes of
/// the form.
pub proof fn law_captcha_spent(
    jar: JarView,
    form: AuthFormView,
    now: i64,
    looked: i64,
    later: i64,
    fresh: FreshView,
    answers: spec_fn(CommandView) -> ReplyView,
)
    requires
        csrf_ok(jar, form.csrf_token),
        recent_failures(form, now, answers) < MAX_ATTEMPTS,
    ensures
        login_run(jar, form, now, looked, later, fresh, answers) matches Some((commands, response))
            && written(commands).len() > 0 && written(commands)[0] == (
        CommandView::DeleteCaptcha { id: form.captcha_id }),
{
    law_login(jar, form, now, looked, later, fresh, answers);
}

/// Whether the database no longer finds the CAPTCHAs that some commands deleted.
pub open spec fn forgets_captchas(
    commands: Seq<CommandView>,
    answers: spec_fn(CommandView) -> ReplyView,
) -> bool {
    forall|id: Seq<char>, now: i64|
        commands.contains(CommandView::DeleteCaptcha { id }) ==> found_text(
            #[trigger] answers(CommandView::FindCaptcha { id, now }),
        ) is None
}

/// A CAPTCHA serves one try, right or wrong: where the database has forgotten what the first
/// form deleted, a second form with the same CAPTCHA is turned down whatever its solution. It
/// writes that the CAPTCHA goes and that the try failed, and nothing else; the jar stays.
pub proof fn law_captcha_once(
    first_jar: JarView,
    first: AuthFormView,
    first_now: i64,
    first_looked: i64,
    first_later: i64,
    first_fresh: FreshView,
    first_answers: spec_fn(CommandView) -> ReplyView,
    jar: JarView,
    form: AuthFormView,
    now: i64,
    looked: i64,
    later: i64,
    fresh: FreshView,
    answers: spec_fn(CommandView) -> ReplyView,
)
    requires
        csrf_ok(first_jar, first.csrf_token),
        recent_failures(first, first_now, first_answers) < MAX_ATTEMPTS,
        login_run(
            first_jar,
            first,
            first_now,
            first_looked,
            first_later,
            first_fresh,
            first_answers,
        ) matches Some((commands, response)) && forgets_captchas(written(commands), answers),
        form.captcha_id == first.captcha_id,
        csrf_ok(jar, form.csrf_token),
        recent_failures(form, now, answers) < MAX_ATTEMPTS,
    ensures
        comes_to(
            login_run(jar, form, now, looked, later, fresh, answers),
            (
                seq![
                    CommandView::DeleteCaptcha { id: form.captcha_id },
                    CommandView::InsertAttempt { username: account_name(form), now: later },
                ],
                turned_down(
                    request_of(jar, form),
                    INVALID_CAPTCHA@,
                    form.action,
                    fresh.captcha_id,
                ),
            ),
        ),
{
    law_captcha_spent(
        first_jar,
        first,
        first_now,
        first_looked,
        first_later,
        first_fresh,
        first_answers,
    );
    let (commands, response) = login_run(
        first_jar,
        first,
        first_now,
        first_looked,
        first_later,
        first_fresh,
        first_answers,
    )->0;
    let id = form.captcha_id;
    assert(written(commands)[0] == (CommandView::DeleteCaptcha { id }));
    assert(written(commands).contains(CommandView::DeleteCaptcha { id }));
    assert(found_text(answers(CommandView::FindCaptcha { id, now: looked })) is None);
    law_login(jar, form, now, looked, later, fresh, answers);
}

/// Whether a form shows that the visitor is the member of that number: by the password, or by
/// having just opened the account.
pub open spec fn is_earned(
    form: AuthFormView,
    user_id: i64,
    now: i64,
    fresh: FreshView,
    answers: spec_fn(CommandView) -> ReplyView,
) -> bool {
    let username = account_name(form);
    if form.action == "register"@ {
        &&& registration_open(answers(CommandOf::RegistrationSetting))
        &&& registration_ok(username, form.password)
        &&& hashed(form.password, fresh.salt) matches Some(hash) && answers(
            account_insertion(username, hash, now, answers(CommandOf::CountUsers)),
        ) == (ReplyView::Done { rowid: user_id })
    } else {
        identified(form, answers(CommandOf::FindCredentials { username })) == Some(user_id)
    }
}

/// A session begins only where the token that guards forms, the limit on failures, the CAPTCHA
/// and the password or a new account all allow it. It lasts for its whole time, its token is
/// the one that the visitor gets as a cookie, and the failures before it are forgotten.
pub proof fn law_session_earned(
    jar: JarView,
    form: AuthFormView,
    now: i64,
    looked: i64,
    later: i64,
    fresh: FreshView,
    answers: spec_fn(CommandView) -> ReplyView,
    i: int,
)
    requires
        is_now(later),
        login_run(jar, form, now, looked, later, fresh, answers) matches Some((commands, response)) && 0
            <= i < written(commands).len() && written(commands)[i] is InsertSession,
    ensures
        login_run(jar, form, now, looked, later, fresh, answers) matches Some((commands, response)) && {
            let user_id = written(commands)[i]->InsertSession_user_id;
            &&& csrf_ok(jar, form.csrf_token)
            &&& recent_failures(form, now, answers) < MAX_ATTEMPTS
            &&& is_solved(given_solution(form), answers(CommandOf::FindCaptcha { id: form.captcha_id, now: looked }))
            &&& is_earned(form, user_id, later, fresh, answers)
            &&& written(commands)[i] == (CommandView::InsertSession {
                token: fresh.token,
                user_id,
                created_at: later,
                expires_at: session_end(later),
            })
            &&& session_end(later) == later + SESSION_TTL_SECONDS
            &&& written(commands).last() == (CommandView::ClearAttempts {
                username: account_name(form),
            })
            &&& response == welcome(jar, fresh.token)
        },
{
    law_login(jar, form, now, looked, later, fresh, answers);
}

/// Where all of them allow it, the session does begin.
pub proof fn law_session_granted(
    jar: JarView,
    form: AuthFormView,
    now: i64,
    looked: i64,
    later: i64,
    fresh: FreshView,
    answers: spec_fn(CommandView) -> ReplyView,
    user_id: i64,
)
    requires
        csrf_ok(jar, form.csrf_token),
        recent_failures(form, now, answers) < MAX_ATTEMPTS,
        is_solved(given_solution(form), answers(CommandOf::FindCaptcha { id: form.captcha_id, now: looked })),
        is_earned(form, user_id, later, fresh, answers),
    ensures
        login_run(jar, form, now, looked, later, fresh, answers) matches Some((commands, response))
            && written(commands).len() >= 3 && written(commands).skip(written(commands).len() - 2)
            == session_commands(
            account_name(form),
            user_id,
            fresh.token,
            later,
            session_end(later),
        ) && response == welcome(jar, fresh.token),
{
    law_login(jar, form, now, looked, later, fresh, answers);
    let (commands, response) = login_run(jar, form, now, looked, later, fresh, answers)->0;
    assert(written(commands).skip(written(commands).len() - 2) =~= session_commands(
        account_name(form),
        user_id,
        fresh.token,
        later,
        session_end(later),
    ));
}

/// An account opens only where registering is open, with a name and a password that may be,
/// and what is kept of the password is its hash. The first account of all is that of an
/// administrator, and no other is.
pub proof fn law_account_opened(
    jar: JarView,
    form: AuthFormView,
    now: i64,
    looked: i64,
    later: i64,
    fresh: FreshView,
    answers: spec_fn(CommandView) -> ReplyView,
    i: int,
)
    requires
        login_run(jar, form, now, looked, later, fresh, answers) matches Some((commands, response)) && 0
            <= i < written(commands).len() && written(commands)[i] is InsertUser,
    ensures
        form.action == "register"@,
        registration_open(answers(CommandOf::RegistrationSetting)),
        registration_ok(account_name(form), form.password),
        login_run(jar, form, now, looked, later, fresh, answers) matches Some((commands, response))
            && written(commands)[i] matches CommandOf::InsertUser {
            username,
            password_hash,
            created_at,
            is_admin,
        } && {
            &&& username == account_name(form)
            &&& hashed(form.password, fresh.salt) == Some(password_hash)
            &&& created_at == later
            &&& is_admin == 1 <==> counted(answers(CommandOf::CountUsers)) == 0
            &&& is_admin == 0 <==> counted(answers(CommandOf::CountUsers)) != 0
        },
{
    law_login(jar, form, now, looked, later, fresh, answers);
}

/// Whether a form that got past the limit on failures fails by what it holds: by its CAPTCHA,
/// by a name or password that does not fit, or by a name that is taken.
pub open spec fn is_failure(
    form: AuthFormView,
    looked: i64,
    later: i64,
    fresh: FreshView,
    answers: spec_fn(CommandView) -> ReplyView,
) -> bool {
    let username = account_name(form);
    ||| !is_solved(given_solution(form), answers(CommandOf::FindCaptcha { id: form.captcha_id, now: looked }))
    ||| form.action != "register"@ && identified(
        form,
        answers(CommandOf::FindCredentials { username }),
    ) is None
    ||| {
        &&& form.action == "register"@
        &&& registration_open(answers(CommandOf::RegistrationSetting))
        &&& registration_ok(username, form.password) ==> (hashed(form.password, fresh.salt) matches Some(
            hash,
        ) && answers(
            account_insertion(username, hash, later, answers(CommandOf::CountUsers)),
        ) !is Done)
    }
}

/// Every such failure is noted under the name that the form is about, and begins no session.
pub proof fn law_failure_noted(
    jar: JarView,
    form: AuthFormView,
    now: i64,
    looked: i64,
    later: i64,
    fresh: FreshView,
    answers: spec_fn(CommandView) -> ReplyView,
)
    requires
        csrf_ok(jar, form.csrf_token),
        recent_failures(form, now, answers) < MAX_ATTEMPTS,
        is_failure(form, looked, later, fresh, answers),
    ensures
        login_run(jar, form, now, looked, later, fresh, answers) matches Some((commands, response)) && {
            &&& written(commands).last() == (CommandView::InsertAttempt {
                username: account_name(form),
                now: later,
            })
            &&& forall|i: int|
                0 <= i < written(commands).len() ==> #[trigger] written(commands)[i] !is InsertSession
            &&& response is Page
        },
{
    law_login(jar, form, now, looked, later, fresh, answers);
}

/// Whoever opens an account gets in with its name and password later: the hash that is kept
/// for the account is one that the password matches.
pub proof fn law_password_kept(
    request: LoginRequestView,
    password_hash: Seq<char>,
    accounts: ReplyView,
    now: i64,
    fresh: FreshView,
    form: AuthFormView,
    user_id: i64,
    credentials: ReplyView,
)
    requires
        keeps_password(LoginStateOf::Users { request, password_hash }),
        form.password == request.form.password,
        found::<Credentials>(credentials) == Some(CredentialsOf { user_id, password_hash }),
    ensures
        login_next(LoginStateOf::Users { request, password_hash }, accounts, now, fresh).commands
            == seq![account_insertion(request.username, password_hash, now, accounts)],
        identified(form, credentials) == Some(user_id),
{
}

} // verus!
