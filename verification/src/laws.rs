//! What holds across the forum.
use vstd::prelude::*;
use crate::admin::{admin_begun, admin_page_begun, task_address, AdminTaskView};
use crate::cookies::{csrf_ok, forum_cookie, JarView, SESSION_COOKIE};
use crate::dialogue::{ended, forbidden, redirected, session_question};
use crate::login::{
    login_begun, request_of, session_commands, welcome, AuthFormView, LoginStateView,
};
use crate::posting::{member_form_begun, AnswerStateView, CreateStateView};
use crate::session::logout_ended;
use crate::store::CommandView;

pub mod administering;
pub mod breaks;
pub mod entering;
pub mod functions;
pub mod measures;
pub mod premises;
pub mod rows;
pub mod starting;
pub mod statements;
pub mod texts;
pub mod views;
pub mod visiting;
pub mod writing;

verus! {

/// Every form is guarded: without the token that the visitor was handed out, it is turned down
/// before the database is asked for anything.
pub proof fn law_forms_guarded(
    jar: JarView,
    csrf_token: Seq<char>,
    now: i64,
    thread: CreateStateView,
    answer: AnswerStateView,
    form: AuthFormView,
    task: AdminTaskView,
)
    requires
        !csrf_ok(jar, csrf_token),
        form.csrf_token == csrf_token,
    ensures
        member_form_begun(jar, csrf_token, now, thread) == ended::<CreateStateView>(
            Seq::empty(),
            forbidden(),
        ),
        member_form_begun(jar, csrf_token, now, answer) == ended::<AnswerStateView>(
            Seq::empty(),
            forbidden(),
        ),
        login_begun(request_of(jar, form), now) == ended::<LoginStateView>(
            Seq::empty(),
            forbidden(),
        ),
        logout_ended(jar, csrf_token) == ended::<()>(Seq::empty(), forbidden()),
        admin_begun(jar, csrf_token, now, task) == ended::<crate::admin::AdminStateView>(
            Seq::empty(),
            forbidden(),
        ),
{
}

/// A visitor without a session writes nothing and learns nothing that is for members: a form
/// for them leads to the page to log in, a task for administrators to where it leads anyway,
/// and their page to the front page.
pub proof fn law_strangers(
    jar: JarView,
    csrf_token: Seq<char>,
    now: i64,
    thread: CreateStateView,
    answer: AnswerStateView,
    task: AdminTaskView,
)
    requires
        csrf_ok(jar, csrf_token),
        jar.get(SESSION_COOKIE@) is None,
    ensures
        member_form_begun(jar, csrf_token, now, thread) == ended::<CreateStateView>(
            Seq::empty(),
            redirected("/login"@),
        ),
        member_form_begun(jar, csrf_token, now, answer) == ended::<AnswerStateView>(
            Seq::empty(),
            redirected("/login"@),
        ),
        admin_begun(jar, csrf_token, now, task) == ended::<crate::admin::AdminStateView>(
            Seq::empty(),
            redirected(task_address(task)),
        ),
        admin_page_begun(jar, csrf_token, now) == ended::<crate::admin::AdminPageStateView>(
            Seq::empty(),
            redirected("/"@),
        ),
{
}

/// A session that begins is recognised: the visitor's next request asks the database for the
/// very token under which the session is kept, and a request to log out deletes that token.
pub proof fn law_session_recognised(
    jar: JarView,
    csrf_token: Seq<char>,
    username: Seq<char>,
    user_id: i64,
    token: Seq<char>,
    created_at: i64,
    expires_at: i64,
    now: i64,
)
    requires
        csrf_ok(jar, csrf_token),
    ensures
        session_commands(username, user_id, token, created_at, expires_at)[0] matches CommandView::InsertSession {
            token: kept,
            ..
        } && kept == token,
        welcome(jar, token) matches crate::dialogue::ResponseOf::Redirect { jar: Some(after), .. }
            && session_question(after, now) == Some(CommandView::FindSessionUser { token, now })
            && logout_ended(after, csrf_token).commands == seq![
            CommandView::DeleteSession { token },
        ],
{
    crate::cookies::law_session_keeps_csrf(jar, token);
    let after = jar.with(forum_cookie(SESSION_COOKIE@, token));
    assert(csrf_ok(after, csrf_token));
}

} // verus!
