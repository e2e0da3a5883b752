//! The page to log in, and logging out.
use vstd::prelude::*;
use axum_extra::extract::cookie::CookieJar;
use crate::captcha::{is_random_uuid, new_captcha_id};
use crate::cookies::{
    add_removal, cookie_value, csrf_ensured, csrf_ok, ensure_csrf_token, forum_cookie, jar_view,
    removal_of, session_cookie, valid_csrf, JarView, CSRF_COOKIE, SESSION_COOKIE,
};
use crate::dialogue::{
    ask, asked, commands_view, csrf_rejected, current_visitor, end, ended, forbidden,
    get_current_user, is_registration_enabled, only_reads, paged, read_visitor, registration_open,
    respond, run, session_question, visitor, visitor_name, ResponseOf, Step, StepView,
};
use crate::pages::{LoginPageOf, Page, PageView};
use crate::records::{optional, ReplyView};
use crate::store::{Command, CommandOf, CommandView, Reply};

verus! {

/// Which reply the page to log in waits for. `J` is the type of jars, `T` that of text.
pub enum LoginPageStateOf<J, T> {
    User { jar: J, csrf_token: T, mode: T },
    Setting { jar: J, csrf_token: T, mode: T, current_user: Option<T> },
}

/// Which reply the page to log in waits for.
pub type LoginPageState = LoginPageStateOf<CookieJar, String>;

/// Which reply the page to log in waits for, as contracts speak of it.
pub type LoginPageStateView = LoginPageStateOf<JarView, Seq<char>>;

impl View for LoginPageStateOf<CookieJar, String> {
    type V = LoginPageStateView;

    open spec fn view(&self) -> LoginPageStateView {
        match self {
            LoginPageStateOf::User { jar, csrf_token, mode } => LoginPageStateOf::User {
                jar: jar_view(*jar),
                csrf_token: csrf_token@,
                mode: mode@,
            },
            LoginPageStateOf::Setting { jar, csrf_token, mode, current_user } => LoginPageStateOf::Setting {
                jar: jar_view(*jar),
                csrf_token: csrf_token@,
                mode: mode@,
                current_user: optional(*current_user),
            },
        }
    }
}

/// Which of its forms the page shows: the one to log in, unless another was asked for.
pub open spec fn shown_mode(mode: Option<Seq<char>>) -> Seq<char> {
    match mode {
        Some(m) => m,
        None => "login"@,
    }
}

/// How the page to log in begins.
pub open spec fn login_page_begun(
    jar: JarView,
    csrf_token: Seq<char>,
    mode: Option<Seq<char>>,
    now: i64,
) -> StepView<LoginPageStateView> {
    let mode = shown_mode(mode);
    match session_question(jar, now) {
        Some(question) => asked(question, LoginPageStateOf::User { jar, csrf_token, mode }),
        None => asked(
            CommandOf::RegistrationSetting,
            LoginPageStateOf::Setting { jar, csrf_token, mode, current_user: None },
        ),
    }
}

/// How the page to log in goes on after a reply.
pub open spec fn login_page_next(
    state: LoginPageStateView,
    reply: ReplyView,
    captcha_id: Seq<char>,
) -> StepView<LoginPageStateView> {
    match state {
        LoginPageStateOf::User { jar, csrf_token, mode } => asked(
            CommandOf::RegistrationSetting,
            LoginPageStateOf::Setting {
                jar,
                csrf_token,
                mode,
                current_user: visitor_name(visitor(reply)),
            },
        ),
        LoginPageStateOf::Setting { jar, csrf_token, mode, current_user } => ended(
            Seq::empty(),
            paged(
                jar,
                PageView::Login(
                    LoginPageOf {
                        current_user,
                        mode,
                        captcha_id,
                        csrf_token,
                        registration_disabled: !registration_open(reply),
                    },
                ),
            ),
        ),
    }
}

/// Begins with the page to log in, for a visitor whose forms `csrf_token` guards.
pub fn login_get_with(jar: CookieJar, csrf_token: String, mode: Option<String>, now: i64) -> (r:
    Step<LoginPageState>)
    ensures
        r@ == login_page_begun(jar_view(jar), csrf_token@, optional(mode), now),
{
    let mode = match mode {
        Some(m) => m,
        None => "login".to_owned(),
    };
    match get_current_user(&jar, now) {
        Some(question) => ask(question, LoginPageStateOf::User { jar, csrf_token, mode }),
        None => ask(
            CommandOf::RegistrationSetting,
            LoginPageStateOf::Setting { jar, csrf_token, mode, current_user: None },
        ),
    }
}

/// Begins with the page to log in.
pub fn login_get(jar: CookieJar, mode: Option<String>, now: i64) -> (r: Step<LoginPageState>)
    ensures
        exists|after: JarView, token: Seq<char>| #[trigger]
            csrf_ensured(jar_view(jar), after, token) && r@ == login_page_begun(
                after,
                token,
                optional(mode),
                now,
            ),
{
    let (after, token) = ensure_csrf_token(jar);
    login_get_with(after, token, mode, now)
}

impl LoginPageStateOf<CookieJar, String> {
    /// Goes on with the page to log in after a reply; `captcha_id` is the CAPTCHA to solve.
    pub fn advance_with(self, reply: &Reply, captcha_id: String) -> (r: Step<LoginPageState>)
        ensures
            r@ == login_page_next(self@, reply@, captcha_id@),
    {
        match self {
            LoginPageStateOf::User { jar, csrf_token, mode } => {
                let current_user = match read_visitor(reply) {
                    Some(user) => Some(user.name),
                    None => None,
                };
                ask(
                    CommandOf::RegistrationSetting,
                    LoginPageStateOf::Setting { jar, csrf_token, mode, current_user },
                )
            },
            LoginPageStateOf::Setting { jar, csrf_token, mode, current_user } => {
                let registration_disabled = !is_registration_enabled(reply);
                let page = LoginPageOf {
                    current_user,
                    mode,
                    captcha_id,
                    csrf_token,
                    registration_disabled,
                };
                respond(ResponseOf::Page { jar, page: Page::Login(page) })
            },
        }
    }

    /// Goes on with the page to log in after a reply.
    pub fn advance(self, reply: &Reply) -> (r: Step<LoginPageState>)
        ensures
            exists|captcha_id: Seq<char>| #[trigger]
                is_random_uuid(captcha_id) && r@ == login_page_next(self@, reply@, captcha_id),
    {
        let captcha_id = new_captcha_id();
        self.advance_with(reply, captcha_id)
    }
}

/// The page to log in is always shown, and nothing is written for it. It greets a member who is
/// logged in, carries the token that guards its forms, and says whether one can register.
pub proof fn law_login_page(
    jar: JarView,
    csrf_token: Seq<char>,
    mode: Option<Seq<char>>,
    now: i64,
    captcha_id: Seq<char>,
    answers: spec_fn(CommandView) -> ReplyView,
)
    ensures
        run(
            login_page_begun(jar, csrf_token, mode, now),
            |s: LoginPageStateView, r: ReplyView| login_page_next(s, r, captcha_id),
            answers,
            2,
        ) matches Some((commands, response)) && only_reads(commands) && response == paged(
            jar,
            PageView::Login(
                LoginPageOf {
                    current_user: visitor_name(current_visitor(jar, now, answers)),
                    mode: shown_mode(mode),
                    captcha_id,
                    csrf_token,
                    registration_disabled: !registration_open(
                        answers(CommandOf::RegistrationSetting),
                    ),
                },
            ),
        ),
{
    reveal_with_fuel(run, 3);
}

/// The jar once the session is taken back.
pub open spec fn without_session(jar: JarView) -> JarView {
    jar.with(removal_of(forum_cookie(SESSION_COOKIE@, Seq::empty())))
}

/// What comes of a request to log out: the session ends, and its cookie is taken back.
pub open spec fn logout_ended(jar: JarView, csrf_token: Seq<char>) -> StepView<()> {
    if !csrf_ok(jar, csrf_token) {
        ended(Seq::empty(), forbidden())
    } else {
        ended(
            match jar.get(SESSION_COOKIE@) {
                Some(token) => seq![CommandOf::DeleteSession { token }],
                None => Seq::empty(),
            },
            ResponseOf::Redirect { jar: Some(without_session(jar)), to: "/"@ },
        )
    }
}

/// Logs a visitor out.
pub fn logout_post(jar: CookieJar, csrf_token: &str) -> (r: Step<()>)
    ensures
        r@ == logout_ended(jar_view(jar), csrf_token@),
{
    if !valid_csrf(&jar, csrf_token) {
        return respond(csrf_rejected());
    }
    let mut commands: Vec<Command> = Vec::new();
    if let Some(token) = cookie_value(&jar, SESSION_COOKIE) {
        commands.push(CommandOf::DeleteSession { token });
    }
    let cookie = session_cookie(String::new());
    proof {
        let expected: Seq<CommandView> = match jar_view(jar).get(SESSION_COOKIE@) {
            Some(token) => seq![CommandOf::DeleteSession { token }],
            None => Seq::empty(),
        };
        assert(commands_view(commands@) =~= expected);
        assert(cookie@.value =~= Seq::empty());
    }
    let jar = add_removal(jar, cookie);
    end(commands, ResponseOf::Redirect { jar: Some(jar), to: "/".to_owned() })
}

/// Logging out ends the session that the visitor holds and no other, makes the browser forget
/// it by a cookie without a value or a time left, and leads to the front page. The token that
/// guards forms stays as it was. Twice leaves the jar as once does.
pub proof fn law_logout(jar: JarView, csrf_token: Seq<char>, token: Seq<char>)
    requires
        csrf_ok(jar, csrf_token),
        jar.get(SESSION_COOKIE@) == Some(token),
    ensures
        logout_ended(jar, csrf_token) == ended::<()>(
            seq![CommandView::DeleteSession { token }],
            ResponseOf::Redirect { jar: Some(without_session(jar)), to: "/"@ },
        ),
        without_session(jar).get(SESSION_COOKIE@) == Some(Seq::<char>::empty()),
        without_session(jar).changes[SESSION_COOKIE@].value == Seq::<char>::empty(),
        without_session(jar).changes[SESSION_COOKIE@].path == "/"@,
        without_session(jar).changes[SESSION_COOKIE@].max_age == 0,
        csrf_ok(without_session(jar), csrf_token),
        without_session(without_session(jar)) == without_session(jar),
{
    reveal_strlit("session_id");
    reveal_strlit("csrf_token");
    assert(SESSION_COOKIE@[0] == 's');
    assert(CSRF_COOKIE@[0] == 'c');
    assert(without_session(without_session(jar)).values =~= without_session(jar).values);
    assert(without_session(without_session(jar)).changes =~= without_session(jar).changes);
}

/// Whether the database no longer finds the sessions that some commands deleted.
pub open spec fn forgets_sessions(
    commands: Seq<CommandView>,
    answers: spec_fn(CommandView) -> ReplyView,
) -> bool {
    forall|token: Seq<char>, now: i64|
        commands.contains(CommandView::DeleteSession { token }) ==> visitor(
            #[trigger] answers(CommandView::FindSessionUser { token, now }),
        ) is None
}

/// After logging out, the very jar that a visitor came with is nobody's: where the database has
/// forgotten the session that was deleted, no later request with that jar finds a member.
pub proof fn law_logged_out(
    jar: JarView,
    csrf_token: Seq<char>,
    now: i64,
    answers: spec_fn(CommandView) -> ReplyView,
)
    requires
        csrf_ok(jar, csrf_token),
        forgets_sessions(logout_ended(jar, csrf_token).commands, answers),
    ensures
        current_visitor(jar, now, answers) is None,
{
    if let Some(token) = jar.get(SESSION_COOKIE@) {
        let commands = logout_ended(jar, csrf_token).commands;
        assert(commands[0] == (CommandView::DeleteSession { token }));
        assert(commands.contains(CommandView::DeleteSession { token }));
        assert(visitor(answers(CommandView::FindSessionUser { token, now })) is None);
    }
}

} // verus!
