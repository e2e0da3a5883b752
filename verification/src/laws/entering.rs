//! What comes of logging in and registering, told command by command.
use vstd::prelude::*;
use vstd::utf8::encode_utf8;
use crate::account::{argon2_matches, argon2id_text, cost_text, has_few_lanes};
use crate::cookies::{CookieView, JarView, SameSite};
use crate::dialogue::{run, ResponseView};
use crate::laws::premises::{
    carries_token, gives_no_number, gives_no_text, gives_number, gives_text,
};
use crate::login::{
    login_begun, login_next, request_of, AuthFormView, FreshView, LoginStateOf, LoginStateView,
};
use crate::pages::{LoginErrorOf, PageView};
use crate::records::ReplyView;
use crate::store::{CellOf, CommandView, ReplyOf};
use crate::text::{lowercase, trimmed};

verus! {

/// When each reply to a form to log in or register comes in.
pub struct LoginTimes {
    pub counted: i64,
    pub solved: i64,
    pub allowed: i64,
    pub numbered: i64,
    pub opened: i64,
    pub known: i64,
}

/// What a form to log in or register comes to that is sent at `now`.
pub open spec fn timed_run(
    jar: JarView,
    form: AuthFormView,
    now: i64,
    times: LoginTimes,
    fresh: FreshView,
    answers: spec_fn(CommandView) -> ReplyView,
) -> Option<(Seq<CommandView>, ResponseView)> {
    run(
        login_begun(request_of(jar, form), now),
        |s: LoginStateView, r: ReplyView|
            login_next(
                s,
                r,
                match s {
                    LoginStateOf::Attempts(_) => times.counted,
                    LoginStateOf::Captcha(_) => times.solved,
                    LoginStateOf::Setting(_) => times.allowed,
                    LoginStateOf::Users { request, password_hash } => times.numbered,
                    LoginStateOf::Insert { request, created_at, expires_at } => times.opened,
                    LoginStateOf::Credentials(_) => times.known,
                },
                fresh,
            ),
        answers,
        5,
    )
}

/// The name that a form is about.
pub open spec fn name_in(form: AuthFormView) -> Seq<char> {
    lowercase(trimmed(form.username))
}

/// The question how often a name failed in the last 900 seconds.
pub open spec fn failures_question(form: AuthFormView, now: i64) -> CommandView {
    CommandView::CountAttempts { username: name_in(form), since: (now - 900) as i64 }
}

/// Whether a reply counts up to this number; where it tells none, that is 0.
pub open spec fn counts_to(reply: ReplyView, n: i64) -> bool {
    gives_number(reply, n) || (gives_no_number(reply) && n == 0)
}

/// Whether a form gets past the question how often its name failed: fewer than 5 times.
pub open spec fn gets_to_captcha(
    jar: JarView,
    form: AuthFormView,
    now: i64,
    answers: spec_fn(CommandView) -> ReplyView,
    failures: i64,
) -> bool {
    &&& carries_token(jar, form.csrf_token)
    &&& counts_to(answers(failures_question(form, now)), failures)
    &&& failures < 5
}

/// Whether a form also solves its CAPTCHA.
pub open spec fn solves_captcha(
    jar: JarView,
    form: AuthFormView,
    now: i64,
    times: LoginTimes,
    answers: spec_fn(CommandView) -> ReplyView,
    failures: i64,
) -> bool {
    &&& gets_to_captcha(jar, form, now, answers, failures)
    &&& gives_text(
        answers(CommandView::FindCaptcha { id: form.captcha_id, now: times.counted }),
        lowercase(trimmed(form.captcha_solution)),
    )
}

/// Whether a form solves its CAPTCHA and asks to register while one can.
pub open spec fn asks_to_register(
    jar: JarView,
    form: AuthFormView,
    now: i64,
    times: LoginTimes,
    answers: spec_fn(CommandView) -> ReplyView,
    failures: i64,
) -> bool {
    &&& solves_captcha(jar, form, now, times, answers, failures)
    &&& form.action == "register"@
    &&& gives_text(answers(CommandView::RegistrationSetting), "1"@) || gives_no_text(
        answers(CommandView::RegistrationSetting),
    )
}

/// Whether an account may have this name and password: 3 to 20 lowercase letters, digits,
/// underscores and hyphens, and 10 to 128 bytes.
pub open spec fn is_account(username: Seq<char>, password: Seq<char>) -> bool {
    &&& 3 <= username.len() <= 20
    &&& forall|i: int|
        0 <= i < username.len() ==> {
            let c = #[trigger] username[i];
            'a' <= c <= 'z' || '0' <= c <= '9' || c == '_' || c == '-'
        }
    &&& 10 <= encode_utf8(password).len() <= 128
}

/// The page that turns a form down for this reason, in this mode, with a new CAPTCHA and the
/// token that the form carries.
pub open spec fn refusal(
    jar: JarView,
    form: AuthFormView,
    error: Seq<char>,
    mode: Seq<char>,
    captcha_id: Seq<char>,
) -> ResponseView {
    ResponseView::Page {
        jar,
        page: PageView::LoginError(
            LoginErrorOf {
                error,
                mode,
                captcha_id: Some(captcha_id),
                csrf_token: form.csrf_token,
                registration_disabled: false,
            },
        ),
    }
}

/// The way to the front page with the cookie of a session that lasts for 604800 seconds.
pub open spec fn greeting(jar: JarView, token: Seq<char>) -> ResponseView {
    ResponseView::Redirect {
        jar: Some(
            JarView {
                values: jar.values.insert("session_id"@, token),
                changes: jar.changes.insert(
                    "session_id"@,
                    CookieView {
                        name: "session_id"@,
                        value: token,
                        path: "/"@,
                        http_only: true,
                        same_site: SameSite::Strict,
                        max_age: 604800,
                    },
                ),
            },
        ),
        to: "/"@,
    }
}

/// The hash of a password with a salt, which takes 8192 KiB, two passes and one lane.
pub open spec fn kept_hash(password: Seq<char>, salt: Seq<char>) -> Option<Seq<char>> {
    argon2id_text(encode_utf8(password), salt, 8192, 2, 1)
}

/// Whether the first row that was found tells of this member and hash.
pub open spec fn tells_credentials(reply: ReplyView, user_id: i64, hash: Seq<char>) -> bool {
    &&& reply matches ReplyOf::Rows(rows)
    &&& rows.len() > 0
    &&& rows[0].len() >= 2
    &&& rows[0][0] == CellOf::<Seq<char>>::Int(user_id)
    &&& rows[0][1] == CellOf::Text(hash)
}

/// Whether a reply tells of no member and hash.
pub open spec fn tells_no_credentials(reply: ReplyView) -> bool {
    !{
        &&& reply matches ReplyOf::Rows(rows)
        &&& rows.len() > 0
        &&& rows[0].len() >= 2
        &&& rows[0][0] is Int
        &&& rows[0][1] is Text
    }
}

/// Whether a password matches a hash.
pub open spec fn opens(password: Seq<char>, hash: Seq<char>) -> bool {
    has_few_lanes(cost_text(hash)) && argon2_matches(encode_utf8(password), hash)
}

/// The command that opens an account for a form. The first account of all administers the forum.
pub open spec fn account_command(
    form: AuthFormView,
    hash: Seq<char>,
    created_at: i64,
    accounts: i64,
) -> CommandView {
    CommandView::InsertUser {
        username: name_in(form),
        password_hash: hash,
        created_at,
        is_admin: if accounts == 0 {
            1
        } else {
            0
        },
    }
}

/// A form without the token is turned down, and nothing is asked.
pub proof fn law_untokened_refused(
    jar: JarView,
    form: AuthFormView,
    now: i64,
    times: LoginTimes,
    fresh: FreshView,
    answers: spec_fn(CommandView) -> ReplyView,
)
    requires
        !carries_token(jar, form.csrf_token),
    ensures
        timed_run(jar, form, now, times, fresh, answers) == Some(
            (
                Seq::<CommandView>::empty(),
                ResponseView::Text { status: 403, body: "Invalid or missing CSRF token."@ },
            ),
        ),
{
    reveal_with_fuel(run, 6);
}

/// A form about a name that failed 5 times in the last 900 seconds is turned down, and nothing is
/// written.
pub proof fn law_failures_refused(
    jar: JarView,
    form: AuthFormView,
    now: i64,
    times: LoginTimes,
    fresh: FreshView,
    answers: spec_fn(CommandView) -> ReplyView,
    failures: i64,
)
    requires
        carries_token(jar, form.csrf_token),
        counts_to(answers(failures_question(form, now)), failures),
        failures >= 5,
    ensures
        timed_run(jar, form, now, times, fresh, answers) == Some(
            (
                seq![
                    failures_question(form, now),
                ],
                refusal(jar, form, "Too many failed attempts. Try again in 15 minutes."@, form.action, fresh.captcha_id),
            ),
        ),
{
    reveal_with_fuel(run, 6);
    let c0 = failures_question(form, now);
    assert(seq![c0] + Seq::<CommandView>::empty() =~= seq![c0]);
}

/// A form with a wrong solution is turned down. Its CAPTCHA is spent, and the failure is noted.
pub proof fn law_unsolved_refused(
    jar: JarView,
    form: AuthFormView,
    now: i64,
    times: LoginTimes,
    fresh: FreshView,
    answers: spec_fn(CommandView) -> ReplyView,
    failures: i64,
)
    requires
        gets_to_captcha(jar, form, now, answers, failures),
        !gives_text(
            answers(CommandView::FindCaptcha { id: form.captcha_id, now: times.counted }),
            lowercase(trimmed(form.captcha_solution)),
        ),
    ensures
        timed_run(jar, form, now, times, fresh, answers) == Some(
            (
                seq![
                    failures_question(form, now),
                    CommandView::FindCaptcha { id: form.captcha_id, now: times.counted },
                    CommandView::DeleteCaptcha { id: form.captcha_id },
                    CommandView::InsertAttempt { username: name_in(form), now: times.solved },
                ],
                refusal(jar, form, "Invalid CAPTCHA"@, form.action, fresh.captcha_id),
            ),
        ),
{
    reveal_with_fuel(run, 6);
    let c0 = failures_question(form, now);
    let c1 = CommandView::FindCaptcha { id: form.captcha_id, now: times.counted };
    let c2 = CommandView::DeleteCaptcha { id: form.captcha_id };
    let c3 = CommandView::InsertAttempt { username: name_in(form), now: times.solved };
    assert(seq![c0] + (seq![c1] + (seq![c2, c3])) =~= seq![c0, c1, c2, c3]);
}

/// Nobody can register while the registration is closed.
pub proof fn law_registration_closed(
    jar: JarView,
    form: AuthFormView,
    now: i64,
    times: LoginTimes,
    fresh: FreshView,
    answers: spec_fn(CommandView) -> ReplyView,
    failures: i64,
    value: Seq<char>,
)
    requires
        solves_captcha(jar, form, now, times, answers, failures),
        form.action == "register"@,
        gives_text(answers(CommandView::RegistrationSetting), value),
        value != "1"@,
    ensures
        timed_run(jar, form, now, times, fresh, answers) == Some(
            (
                seq![
                    failures_question(form, now),
                    CommandView::FindCaptcha { id: form.captcha_id, now: times.counted },
                    CommandView::DeleteCaptcha { id: form.captcha_id },
                    CommandView::RegistrationSetting,
                ],
                ResponseView::Page {
                    jar,
                    page: PageView::LoginError(
                        LoginErrorOf {
                            error: "Registration is currently disabled by the administrator."@,
                            mode: "register"@,
                            captcha_id: None,
                            csrf_token: form.csrf_token,
                            registration_disabled: true,
                        },
                    ),
                },
            ),
        ),
{
    reveal_with_fuel(run, 6);
    let c0 = failures_question(form, now);
    let c1 = CommandView::FindCaptcha { id: form.captcha_id, now: times.counted };
    let c2 = CommandView::DeleteCaptcha { id: form.captcha_id };
    let c3 = CommandView::RegistrationSetting;
    assert(
        seq![c0] + (
            seq![c1] + (seq![c2, c3] + (Seq::<CommandView>::empty()))
        ) =~= seq![c0, c1, c2, c3]
    );
}

/// A form to register with a name or password that does not do is turned down, and the failure is
/// noted.
pub proof fn law_unfit_refused(
    jar: JarView,
    form: AuthFormView,
    now: i64,
    times: LoginTimes,
    fresh: FreshView,
    answers: spec_fn(CommandView) -> ReplyView,
    failures: i64,
)
    requires
        asks_to_register(jar, form, now, times, answers, failures),
        !is_account(name_in(form), form.password),
    ensures
        timed_run(jar, form, now, times, fresh, answers) == Some(
            (
                seq![
                    failures_question(form, now),
                    CommandView::FindCaptcha { id: form.captcha_id, now: times.counted },
                    CommandView::DeleteCaptcha { id: form.captcha_id },
                    CommandView::RegistrationSetting,
                    CommandView::InsertAttempt { username: name_in(form), now: times.allowed },
                ],
                refusal(jar, form, "Username must use lowercase letters, numbers, _ or -, and password must be 10-128 characters."@, "register"@, fresh.captcha_id),
            ),
        ),
{
    reveal_with_fuel(run, 6);
    let c0 = failures_question(form, now);
    let c1 = CommandView::FindCaptcha { id: form.captcha_id, now: times.counted };
    let c2 = CommandView::DeleteCaptcha { id: form.captcha_id };
    let c3 = CommandView::RegistrationSetting;
    let c4 = CommandView::InsertAttempt { username: name_in(form), now: times.allowed };
    assert(seq![c0] + (seq![c1] + (seq![c2, c3] + (seq![c4]))) =~= seq![c0, c1, c2, c3, c4]);
}

/// Where the password cannot be hashed, no account is opened.
pub proof fn law_unhashed_refused(
    jar: JarView,
    form: AuthFormView,
    now: i64,
    times: LoginTimes,
    fresh: FreshView,
    answers: spec_fn(CommandView) -> ReplyView,
    failures: i64,
)
    requires
        asks_to_register(jar, form, now, times, answers, failures),
        is_account(name_in(form), form.password),
        kept_hash(form.password, fresh.salt) is None,
    ensures
        timed_run(jar, form, now, times, fresh, answers) == Some(
            (
                seq![
                    failures_question(form, now),
                    CommandView::FindCaptcha { id: form.captcha_id, now: times.counted },
                    CommandView::DeleteCaptcha { id: form.captcha_id },
                    CommandView::RegistrationSetting,
                ],
                refusal(jar, form, "Account creation failed. Please try again."@, "register"@, fresh.captcha_id),
            ),
        ),
{
    reveal_with_fuel(run, 6);
    let c0 = failures_question(form, now);
    let c1 = CommandView::FindCaptcha { id: form.captcha_id, now: times.counted };
    let c2 = CommandView::DeleteCaptcha { id: form.captcha_id };
    let c3 = CommandView::RegistrationSetting;
    assert(
        seq![c0] + (
            seq![c1] + (seq![c2, c3] + (Seq::<CommandView>::empty()))
        ) =~= seq![c0, c1, c2, c3]
    );
}

/// An account that cannot be opened, such as one whose name is taken, is noted as a failure.
pub proof fn law_taken_refused(
    jar: JarView,
    form: AuthFormView,
    now: i64,
    times: LoginTimes,
    fresh: FreshView,
    answers: spec_fn(CommandView) -> ReplyView,
    failures: i64,
    hash: Seq<char>,
    accounts: i64,
)
    requires
        asks_to_register(jar, form, now, times, answers, failures),
        is_account(name_in(form), form.password),
        kept_hash(form.password, fresh.salt) == Some(hash),
        counts_to(answers(CommandView::CountUsers), accounts),
        !(answers(account_command(form, hash, times.numbered, accounts)) is Done),
    ensures
        timed_run(jar, form, now, times, fresh, answers) == Some(
            (
                seq![
                    failures_question(form, now),
                    CommandView::FindCaptcha { id: form.captcha_id, now: times.counted },
                    CommandView::DeleteCaptcha { id: form.captcha_id },
                    CommandView::RegistrationSetting,
                    CommandView::CountUsers,
                    account_command(form, hash, times.numbered, accounts),
                    CommandView::InsertAttempt { username: name_in(form), now: times.numbered },
                ],
                refusal(jar, form, "Username taken"@, "register"@, fresh.captcha_id),
            ),
        ),
{
    reveal_with_fuel(run, 6);
    let c0 = failures_question(form, now);
    let c1 = CommandView::FindCaptcha { id: form.captcha_id, now: times.counted };
    let c2 = CommandView::DeleteCaptcha { id: form.captcha_id };
    let c3 = CommandView::RegistrationSetting;
    let c4 = CommandView::CountUsers;
    let c5 = account_command(form, hash, times.numbered, accounts);
    let c6 = CommandView::InsertAttempt { username: name_in(form), now: times.numbered };
    assert(
        seq![c0] + (
            seq![c1] + (seq![c2, c3] + (seq![c4] + (seq![c5] + (seq![c6]))))
        ) =~= seq![c0, c1, c2, c3, c4, c5, c6]
    );
}

/// A form to register opens an account with its name and the hash of its password, at the time of
/// writing. The first account of all administers the forum. A session of it begins, and its
/// failures are forgotten.
pub proof fn law_account_begun(
    jar: JarView,
    form: AuthFormView,
    now: i64,
    times: LoginTimes,
    fresh: FreshView,
    answers: spec_fn(CommandView) -> ReplyView,
    failures: i64,
    hash: Seq<char>,
    accounts: i64,
    rowid: i64,
)
    requires
        asks_to_register(jar, form, now, times, answers, failures),
        is_account(name_in(form), form.password),
        kept_hash(form.password, fresh.salt) == Some(hash),
        counts_to(answers(CommandView::CountUsers), accounts),
        answers(account_command(form, hash, times.numbered, accounts)) == (ReplyView::Done { rowid }),
        times.numbered <= i64::MAX - 604800,
    ensures
        timed_run(jar, form, now, times, fresh, answers) == Some(
            (
                seq![
                    failures_question(form, now),
                    CommandView::FindCaptcha { id: form.captcha_id, now: times.counted },
                    CommandView::DeleteCaptcha { id: form.captcha_id },
                    CommandView::RegistrationSetting,
                    CommandView::CountUsers,
                    account_command(form, hash, times.numbered, accounts),
                    CommandView::InsertSession {
                        token: fresh.token,
                        user_id: rowid,
                        created_at: times.numbered,
                        expires_at: (times.numbered + 604800) as i64,
                    },
                    CommandView::ClearAttempts { username: name_in(form) },
                ],
                greeting(jar, fresh.token),
            ),
        ),
{
    reveal_with_fuel(run, 6);
    let c0 = failures_question(form, now);
    let c1 = CommandView::FindCaptcha { id: form.captcha_id, now: times.counted };
    let c2 = CommandView::DeleteCaptcha { id: form.captcha_id };
    let c3 = CommandView::RegistrationSetting;
    let c4 = CommandView::CountUsers;
    let c5 = account_command(form, hash, times.numbered, accounts);
    let c6 = CommandView::InsertSession {
        token: fresh.token,
        user_id: rowid,
        created_at: times.numbered,
        expires_at: (times.numbered + 604800) as i64,
    };
    let c7 = CommandView::ClearAttempts { username: name_in(form) };
    assert(
        seq![c0] + (
            seq![c1] + (seq![c2, c3] + (seq![c4] + (seq![c5] + (seq![c6, c7]))))
        ) =~= seq![c0, c1, c2, c3, c4, c5, c6, c7]
    );
}

/// A form to log in with the password of a member begins a session of that member, which lasts
/// for 604800 seconds from the time of writing, and their failures are forgotten.
pub proof fn law_member_enters(
    jar: JarView,
    form: AuthFormView,
    now: i64,
    times: LoginTimes,
    fresh: FreshView,
    answers: spec_fn(CommandView) -> ReplyView,
    failures: i64,
    user_id: i64,
    hash: Seq<char>,
)
    requires
        solves_captcha(jar, form, now, times, answers, failures),
        form.action != "register"@,
        tells_credentials(
            answers(CommandView::FindCredentials { username: name_in(form) }),
            user_id,
            hash,
        ),
        opens(form.password, hash),
        times.known <= i64::MAX - 604800,
    ensures
        timed_run(jar, form, now, times, fresh, answers) == Some(
            (
                seq![
                    failures_question(form, now),
                    CommandView::FindCaptcha { id: form.captcha_id, now: times.counted },
                    CommandView::DeleteCaptcha { id: form.captcha_id },
                    CommandView::FindCredentials { username: name_in(form) },
                    CommandView::InsertSession {
                        token: fresh.token,
                        user_id: user_id,
                        created_at: times.known,
                        expires_at: (times.known + 604800) as i64,
                    },
                    CommandView::ClearAttempts { username: name_in(form) },
                ],
                greeting(jar, fresh.token),
            ),
        ),
{
    reveal_with_fuel(run, 6);
    let c0 = failures_question(form, now);
    let c1 = CommandView::FindCaptcha { id: form.captcha_id, now: times.counted };
    let c2 = CommandView::DeleteCaptcha { id: form.captcha_id };
    let c3 = CommandView::FindCredentials { username: name_in(form) };
    let c4 = CommandView::InsertSession {
        token: fresh.token,
        user_id: user_id,
        created_at: times.known,
        expires_at: (times.known + 604800) as i64,
    };
    let c5 = CommandView::ClearAttempts { username: name_in(form) };
    assert(seq![c0] + (seq![c1] + (seq![c2, c3] + (seq![c4, c5]))) =~= seq![c0, c1, c2, c3, c4, c5]);
}

/// A form to log in without the name and password of a member is turned down, and the failure is
/// noted.
pub proof fn law_unknown_refused(
    jar: JarView,
    form: AuthFormView,
    now: i64,
    times: LoginTimes,
    fresh: FreshView,
    answers: spec_fn(CommandView) -> ReplyView,
    failures: i64,
    user_id: i64,
    hash: Seq<char>,
)
    requires
        solves_captcha(jar, form, now, times, answers, failures),
        form.action != "register"@,
        tells_no_credentials(
            answers(CommandView::FindCredentials { username: name_in(form) }),
        ) || (tells_credentials(
            answers(CommandView::FindCredentials { username: name_in(form) }),
            user_id,
            hash,
        ) && !opens(form.password, hash)),
    ensures
        timed_run(jar, form, now, times, fresh, answers) == Some(
            (
                seq![
                    failures_question(form, now),
                    CommandView::FindCaptcha { id: form.captcha_id, now: times.counted },
                    CommandView::DeleteCaptcha { id: form.captcha_id },
                    CommandView::FindCredentials { username: name_in(form) },
                    CommandView::InsertAttempt { username: name_in(form), now: times.known },
                ],
                refusal(jar, form, "Invalid credentials"@, "login"@, fresh.captcha_id),
            ),
        ),
{
    reveal_with_fuel(run, 6);
    let c0 = failures_question(form, now);
    let c1 = CommandView::FindCaptcha { id: form.captcha_id, now: times.counted };
    let c2 = CommandView::DeleteCaptcha { id: form.captcha_id };
    let c3 = CommandView::FindCredentials { username: name_in(form) };
    let c4 = CommandView::InsertAttempt { username: name_in(form), now: times.known };
    assert(seq![c0] + (seq![c1] + (seq![c2, c3] + (seq![c4]))) =~= seq![c0, c1, c2, c3, c4]);
}

/// A name and a password do for an account just where both have their measure.
pub proof fn law_account_measure(username: Seq<char>, password: Seq<char>)
    ensures
        crate::account::registration_ok(username, password) <==> is_account(username, password),
{
}

} // verus!
