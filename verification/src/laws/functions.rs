//! What the functions of the forum give, told by their arguments.
use vstd::prelude::*;
use vstd::utf8::encode_utf8;
use axum_extra::extract::cookie::CookieJar;
use crate::account::{
    hash_password, is_salt, username_char, valid_registration, valid_username, verify_password,
};
use crate::admin::{
    admin_begun, admin_create_category, admin_delete_category, admin_delete_thread,
    admin_delete_user, admin_next, admin_page, admin_page_begun, admin_page_next, admin_page_with,
    admin_set_registration, insert_category, AdminPageState, AdminState, AdminTaskView,
};
use crate::calendar::{date_text, datetimeformat, is_date, law_shown_once, shows};
use crate::captcha::{
    captcha_ended, captcha_stored, get_captcha, is_captcha_id, is_random_uuid, is_uuid,
    keep_captcha,
};
use crate::clock::{is_usable, timestamp_of};
use crate::cookies::{
    csrf_ensured, ensure_csrf_token, jar_view, session_cookie, valid_csrf, with_csrf_token, Cookie,
    CookieView, JarView, SameSite,
};
use crate::dialogue::{
    commands_view, csrf_rejected, get_current_user, is_registration_enabled, Next, Response,
    ResponseView, Step,
};
use crate::headers::{guarding_headers, security_headers, Header};
use crate::healthz;
use crate::index::{index, index_begun, index_next, index_with, IndexState};
use crate::laws::entering::{greeting, is_account, kept_hash, law_account_measure, opens, refusal};
use crate::laws::measures::law_pages_enough;
use crate::laws::premises::{
    carries_token, gives_no_number, gives_no_text, gives_number, gives_text, has_session, who,
};
use crate::laws::rows::{
    holds, law_category_row, law_comment_row, law_credentials_row, law_member_row, law_post_row,
    law_recent_post_row, law_thread_row, law_user_row,
};
use crate::laws::texts::{is_blank, is_core, law_decimal, law_trimmed, law_trimmed_end, number_of};
use crate::laws::visiting::{is_asked_for, is_enough};
use crate::login::{
    draw, is_fresh, login_begun, login_next, login_post, login_post_with, settle_hash, settle_login,
    AuthForm, Fresh, FreshView, LoginRequest, LoginRequestView, LoginState, LoginStateView,
};
use crate::markup::{
    clamp_text, clamped, join_words, line_breaks, markdown_html, markdown_to_html, nl2br, sanitized,
    slug, slug_of, words_joined,
};
use crate::pages::{template_failure, Page, PostComments};
use crate::paging::{is_page, offset_of, offset_within, pages_of, requested_page};
use crate::posting::{
    comment, comment_next, create_next, create_thread, member_form_begun, reply, reply_next,
    AnswerState, AnswerStateView, CreateState, CreateStateView, CreateThreadForm,
    CreateThreadFormOf, ReplyForm,
};
use crate::records::{
    count, find, find_int, find_text, found, list, listed, optional, views, Category, Comment,
    Credentials, FromRow, Member, Post, RecentPost, Thread, User,
};
use crate::schema::{init_db, init_next, InitOutcome, InitState, InitStep};
use crate::session::{
    login_get, login_get_with, login_page_begun, login_page_next, logout_ended, logout_post,
    LoginPageState,
};
use crate::sql::{params_of, shape_of, sql_of};
use crate::store::{row_view, Cell, CellOf, Command, CommandView, Reply, Shape};
use crate::text::{
    byte_len, decimal, from_chars, is_white, is_whitespace, lowercase, replace, replaced, same_text,
    to_chars, to_decimal, trim, trim_end, trimmed,
};
use crate::thread::{
    group_comments, grouped, thread_begun, thread_next, thread_view, thread_view_with, ThreadState,
};
use crate::token::{generate_session_token, hex, is_token, token_of};

verus! {

/// A name may be taken if it has 3 to 20 lowercase letters, digits, underscores and hyphens.
pub proof fn law_valid_username(username: &str, r: bool)
    requires
        call_ensures(valid_username, (username,), r),
    ensures
        r <==> 3 <= username@.len() <= 20 && forall|i: int|
            0 <= i < username@.len() ==> {
                let c = #[trigger] username@[i];
                'a' <= c <= 'z' || '0' <= c <= '9' || c == '_' || c == '-'
            },
{
    if 3 <= username@.len() <= 20 && forall|i: int|
        0 <= i < username@.len() ==> {
            let c = #[trigger] username@[i];
            'a' <= c <= 'z' || '0' <= c <= '9' || c == '_' || c == '-'
        } {
        assert forall|i: int| 0 <= i < username@.len() implies username_char(
            #[trigger] username@[i],
        ) by {}
    }
}

/// An account may be opened if its name and password have their measure.
pub proof fn law_valid_registration(username: &str, password: &str, r: bool)
    requires
        call_ensures(valid_registration, (username, password), r),
    ensures
        r <==> is_account(username@, password@),
{
    law_account_measure(username@, password@);
}

/// What is kept of a password is its hash, which that password opens.
pub proof fn law_hash_password(password: &str, salt: &str, r: Option<String>)
    requires
        call_ensures(hash_password, (password, salt), r),
    ensures
        r matches Some(hash) ==> kept_hash(password@, salt@) == Some(hash@) && opens(
            password@,
            hash@,
        ),
        r is None ==> kept_hash(password@, salt@) is None,
{
}

/// A password is accepted if it opens the hash.
pub proof fn law_verify_password(password: &str, hash: &str, r: bool)
    requires
        call_ensures(verify_password, (password, hash), r),
    ensures
        r <==> opens(password@, hash@),
{
}

/// The form to delete a member begins that task and no other.
pub proof fn law_user_task(
    jar: &CookieJar,
    user_id: i64,
    csrf_token: &str,
    now: i64,
    r: Step<AdminState>,
)
    requires
        call_ensures(admin_delete_user, (jar, user_id, csrf_token, now), r),
    ensures
        r@ == admin_begun(jar_view(*jar), csrf_token@, now, AdminTaskView::DeleteUser { user_id }),
{
}

/// The form to delete a thread begins that task and no other.
pub proof fn law_thread_task(
    jar: &CookieJar,
    thread_id: i64,
    csrf_token: &str,
    now: i64,
    r: Step<AdminState>,
)
    requires
        call_ensures(admin_delete_thread, (jar, thread_id, csrf_token, now), r),
    ensures
        r@ == admin_begun(jar_view(*jar), csrf_token@, now, AdminTaskView::DeleteThread { thread_id }),
{
}

/// The form to create a category begins that task and no other.
pub proof fn law_category_task(
    jar: &CookieJar,
    name: String,
    csrf_token: &str,
    now: i64,
    r: Step<AdminState>,
)
    requires
        call_ensures(admin_create_category, (jar, name, csrf_token, now), r),
    ensures
        r@ == admin_begun(
            jar_view(*jar),
            csrf_token@,
            now,
            AdminTaskView::CreateCategory { name: name@ },
        ),
{
}

/// The form to delete a category begins that task and no other.
pub proof fn law_category_removal_task(
    jar: &CookieJar,
    category_id: i64,
    csrf_token: &str,
    now: i64,
    r: Step<AdminState>,
)
    requires
        call_ensures(admin_delete_category, (jar, category_id, csrf_token, now), r),
    ensures
        r@ == admin_begun(
            jar_view(*jar),
            csrf_token@,
            now,
            AdminTaskView::DeleteCategory { category_id },
        ),
{
}

/// The form to open or close the registration begins that task and no other.
pub proof fn law_registration_task(
    jar: &CookieJar,
    enabled: String,
    csrf_token: &str,
    now: i64,
    r: Step<AdminState>,
)
    requires
        call_ensures(admin_set_registration, (jar, enabled, csrf_token, now), r),
    ensures
        r@ == admin_begun(
            jar_view(*jar),
            csrf_token@,
            now,
            AdminTaskView::SetRegistration { enabled: enabled@ },
        ),
{
}

/// A category is inserted under its name and what stands for it, unless that is nothing.
pub proof fn law_insert_category(name: String, slug: String, r: Vec<Command>)
    requires
        call_ensures(insert_category, (name, slug), r),
    ensures
        slug@.len() > 0 ==> r@.len() == 1 && r@[0]@ == (CommandView::InsertCategory {
            slug: slug@,
            name: name@,
        }),
        slug@.len() == 0 ==> r@.len() == 0,
{
    assert(commands_view(r@).len() == r@.len());
    if r@.len() > 0 {
        assert(commands_view(r@)[0] == r@[0]@);
    }
}

/// A task goes on as its dialogue says.
pub proof fn law_task_advanced(state: AdminState, reply: &Reply, r: Step<AdminState>)
    requires
        call_ensures(AdminState::advance, (state, reply), r),
    ensures
        r@ == admin_next(state@, reply@),
{
}

/// The page for administrators begins with the jar and token that it is given.
pub proof fn law_admin_page_begun(
    jar: CookieJar,
    csrf_token: String,
    now: i64,
    r: Step<AdminPageState>,
)
    requires
        call_ensures(admin_page_with, (jar, csrf_token, now), r),
    ensures
        r@ == admin_page_begun(jar_view(jar), csrf_token@, now),
{
}

/// The page for administrators begins with a token, fresh where the visitor has none.
pub proof fn law_admin_page_guarded(jar: CookieJar, now: i64, r: Step<AdminPageState>)
    requires
        call_ensures(admin_page, (jar, now), r),
    ensures
        exists|after: JarView, token: Seq<char>| #[trigger]
            csrf_ensured(jar_view(jar), after, token) && r@ == admin_page_begun(after, token, now),
{
}

/// The page for administrators goes on as its dialogue says.
pub proof fn law_admin_page_advanced(
    state: AdminPageState,
    reply: &Reply,
    r: Step<AdminPageState>,
)
    requires
        call_ensures(AdminPageState::advance, (state, reply), r),
    ensures
        r@ == admin_page_next(state@, reply@),
{
}

/// A timestamp within the years -9999 to 9999 is shown by its date and time of day; any other as
/// nothing.
pub proof fn law_date_shown(value: i64, year: int, month: int, day: int, r: String)
    requires
        call_ensures(datetimeformat, (value,), r),
    ensures
        -377705116800 <= value <= 253402300799 && is_date(value as int / 86400, year, month, day)
            ==> r@ == date_text(year, month, day, value as int % 86400),
        value < -377705116800 || value > 253402300799 ==> r@.len() == 0,
{
    if -377705116800 <= value <= 253402300799 && is_date(value as int / 86400, year, month, day) {
        let t = date_text(year, month, day, value as int % 86400);
        assert(shows(t, value));
        law_shown_once(r@, t, value);
    }
}

/// A CAPTCHA may be drawn under a UUID.
pub proof fn law_captcha_number(id: &str, r: bool)
    requires
        call_ensures(is_captcha_id, (id,), r),
    ensures
        r <==> is_uuid(id@),
{
}

/// A CAPTCHA is drawn for the number, characters and time that were given.
pub proof fn law_captcha_asked(id: String, drawn: &str, now: i64, r: Step<()>)
    requires
        call_ensures(get_captcha, (id, drawn, now), r),
    ensures
        r@ == captcha_ended(id@, drawn@, now),
{
}

/// A solution is kept for the number and time that were given.
pub proof fn law_captcha_put(id: String, solution: String, now: i64, r: Step<()>)
    requires
        call_ensures(keep_captcha, (id, solution, now), r),
    ensures
        r@ == captcha_stored(id@, solution@, now),
{
}

/// A timestamp is the number of seconds that have gone by.
pub proof fn law_timestamp_told(seconds: u64, r: Option<i64>)
    requires
        call_ensures(timestamp_of, (Some(seconds),), r),
    ensures
        seconds <= i64::MAX ==> r == Some(seconds as i64),
{
}

/// There is no timestamp for a time before 1970.
pub proof fn law_timestamp_missing(r: Option<i64>)
    requires
        call_ensures(timestamp_of, (None,), r),
    ensures
        r is None,
{
}

/// A time is of use if it lies after 1970 and leaves 604800 seconds.
pub proof fn law_time_usable(now: i64, r: bool)
    requires
        call_ensures(is_usable, (now,), r),
    ensures
        r <==> 0 <= now && now + 604800 <= i64::MAX,
{
}

/// The cookie of a session holds its token, for a week.
pub proof fn law_session_cookie(token: String, r: Cookie)
    requires
        call_ensures(session_cookie, (token,), r),
    ensures
        r@ == (CookieView {
            name: "session_id"@,
            value: token@,
            path: "/"@,
            http_only: true,
            same_site: SameSite::Strict,
            max_age: 604800,
        }),
{
}

/// The token that guards forms is handed out as a cookie, for a week.
pub proof fn law_token_handed_out(jar: CookieJar, token: String, r: (CookieJar, String))
    requires
        call_ensures(with_csrf_token, (jar, token), r),
    ensures
        r.1@ == token@,
        jar_view(r.0).values == jar_view(jar).values.insert("csrf_token"@, token@),
        jar_view(r.0).changes == jar_view(jar).changes.insert(
            "csrf_token"@,
            (CookieView {
            name: "csrf_token"@,
            value: token@,
            path: "/"@,
            http_only: true,
            same_site: SameSite::Strict,
            max_age: 604800,
        }),
        ),
{
}

/// A visitor keeps the token that guards forms, or gets a fresh one.
pub proof fn law_token_had(jar: CookieJar, r: (CookieJar, String))
    requires
        call_ensures(ensure_csrf_token, (jar,), r),
    ensures
        csrf_ensured(jar_view(jar), jar_view(r.0), r.1@),
{
}

/// A form is accepted if it carries the token that the jar holds.
pub proof fn law_token_checked(jar: &CookieJar, token: &str, r: bool)
    requires
        call_ensures(valid_csrf, (jar, token), r),
    ensures
        r <==> carries_token(jar_view(*jar), token@),
{
}

/// A form without its token is answered so.
pub proof fn law_form_rejected(r: Response)
    requires
        call_ensures(csrf_rejected, (), r),
    ensures
        r@ == (ResponseView::Text { status: 403, body: "Invalid or missing CSRF token."@ }),
{
}

/// Whoever brings a session is looked up by it, and nobody else is.
pub proof fn law_visitor_asked(jar: &CookieJar, now: i64, r: Option<Command>)
    requires
        call_ensures(get_current_user, (jar, now), r),
    ensures
        has_session(jar_view(*jar)) ==> r is Some && r->0@ == who(jar_view(*jar), now),
        !has_session(jar_view(*jar)) ==> r is None,
{
}

/// The registration is open unless the setting is a text other than `1`.
pub proof fn law_registration_read(reply: &Reply, r: bool)
    requires
        call_ensures(is_registration_enabled, (reply,), r),
    ensures
        gives_text(reply@, "1"@) || gives_no_text(reply@) ==> r,
        r ==> gives_text(reply@, "1"@) || gives_no_text(reply@),
{
}

/// The headers that go with every response are given in order.
pub proof fn law_headers_given(i: int, r: Vec<Header>)
    requires
        call_ensures(security_headers, (), r),
        0 <= i < 8,
    ensures
        r@.len() == 8,
        r@[i]@ == guarding_headers()[i],
{
    assert(views(r@).len() == r@.len());
    assert(views(r@)[i] == r@[i]@);
}

/// The probe is answered so.
pub proof fn law_probe(r: &'static str)
    requires
        call_ensures(healthz, (), r),
    ensures
        r@ == "ok"@,
{
}

/// The front page begins with what it is asked for.
pub proof fn law_index_begun(
    jar: CookieJar,
    csrf_token: String,
    cat: Option<String>,
    page: Option<i64>,
    now: i64,
    r: Step<IndexState>,
)
    requires
        call_ensures(index_with, (jar, csrf_token, cat, page, now), r),
    ensures
        r@ == index_begun(jar_view(jar), csrf_token@, optional(cat), page, now),
{
}

/// The front page begins with a token, fresh where the visitor has none.
pub proof fn law_index_guarded(
    jar: CookieJar,
    cat: Option<String>,
    page: Option<i64>,
    now: i64,
    r: Step<IndexState>,
)
    requires
        call_ensures(index, (jar, cat, page, now), r),
    ensures
        exists|after: JarView, token: Seq<char>| #[trigger]
            csrf_ensured(jar_view(jar), after, token) && r@ == index_begun(
                after,
                token,
                optional(cat),
                page,
                now,
            ),
{
}

/// The front page goes on as its dialogue says.
pub proof fn law_index_advanced(state: IndexState, reply: &Reply, r: Step<IndexState>)
    requires
        call_ensures(IndexState::advance, (state, reply), r),
    ensures
        r@ == index_next(state@, reply@),
{
}

/// What is drawn is a token of 64 digits, the number of a CAPTCHA, and a salt.
pub proof fn law_drawn(r: Fresh)
    requires
        call_ensures(draw, (), r),
    ensures
        is_token(r@.token),
        is_random_uuid(r@.captcha_id),
        is_salt(r@.salt),
{
}

/// A form to log in or register begins with its name and solution, trimmed and in lowercase.
pub proof fn law_login_sent(jar: CookieJar, form: AuthForm, now: i64, r: Step<LoginState>)
    requires
        call_ensures(login_post, (jar, form, now), r),
    ensures
        r@ == login_begun(
            LoginRequestView {
                jar: jar_view(jar),
                form: form@,
                username: lowercase(trimmed(form.username@)),
                solution: lowercase(trimmed(form.captcha_solution@)),
            },
            now,
        ),
{
}

/// A form of which the name and the solution are known begins with them.
pub proof fn law_login_begun(request: LoginRequest, now: i64, r: Step<LoginState>)
    requires
        call_ensures(login_post_with, (request, now), r),
    ensures
        r@ == login_begun(request@, now),
{
}

/// A form to log in or register goes on as its dialogue says, with what was drawn for it.
pub proof fn law_login_advanced(
    state: LoginState,
    reply: &Reply,
    now: i64,
    fresh: Fresh,
    r: Step<LoginState>,
)
    requires
        call_ensures(LoginState::advance_with, (state, reply, now, fresh), r),
    ensures
        r@ == login_next(state@, reply@, now, fresh@),
{
}

/// A form to log in or register goes on with a fresh token, CAPTCHA and salt.
pub proof fn law_login_drawn(state: LoginState, reply: &Reply, now: i64, r: Step<LoginState>)
    requires
        call_ensures(LoginState::advance, (state, reply, now), r),
    ensures
        exists|fresh: FreshView| #[trigger]
            is_fresh(fresh) && r@ == login_next(state@, reply@, now, fresh),
{
}

/// Once a password is hashed, the accounts are counted; where it cannot be, the form is turned
/// down.
pub proof fn law_hash_settled(
    request: LoginRequest,
    password_hash: Option<String>,
    captcha_id: String,
    r: Step<LoginState>,
)
    requires
        call_ensures(settle_hash, (request, password_hash, captcha_id), r),
    ensures
        password_hash matches Some(hash) ==> r@.commands == seq![CommandView::CountUsers]
            && r@.next == Next::<LoginStateView, ResponseView>::Await(
            LoginStateView::Users { request: request@, password_hash: hash@ },
        ),
        password_hash is None ==> r@.commands == Seq::<CommandView>::empty() && r@.next == Next::<
            LoginStateView,
            ResponseView,
        >::Respond(
            refusal(
                request@.jar,
                request@.form,
                "Account creation failed. Please try again."@,
                "register"@,
                captcha_id@,
            ),
        ),
{
}

/// A form that identifies a member begins a session of that member; any other is turned down.
pub proof fn law_login_settled(
    request: LoginRequest,
    user_id: Option<i64>,
    now: i64,
    fresh: Fresh,
    r: Step<LoginState>,
)
    requires
        call_ensures(settle_login, (request, user_id, now, fresh), r),
    ensures
        user_id matches Some(id) ==> r@.commands == seq![
            CommandView::InsertSession {
                token: fresh@.token,
                user_id: id,
                created_at: now,
                expires_at: (now + 604800) as i64,
            },
            CommandView::ClearAttempts { username: request@.username },
        ] && r@.next == Next::<LoginStateView, ResponseView>::Respond(
            greeting(request@.jar, fresh@.token),
        ),
        user_id is None ==> r@.commands == seq![
            CommandView::InsertAttempt { username: request@.username, now },
        ] && r@.next == Next::<LoginStateView, ResponseView>::Respond(
            refusal(
                request@.jar,
                request@.form,
                "Invalid credentials"@,
                "login"@,
                fresh@.captcha_id,
            ),
        ),
{
}

/// A text is cut down to its measure.
pub proof fn law_text_clamped(s: &str, max_len: usize, r: String)
    requires
        call_ensures(clamp_text, (s, max_len), r),
    ensures
        r@ == clamped(s@, max_len as int),
        encode_utf8(s@).len() <= max_len ==> r@ == s@,
{
}

/// Line ends are shown as break tags.
pub proof fn law_breaks_shown(value: String, r: String)
    requires
        call_ensures(nl2br, (value,), r),
    ensures
        r@ == line_breaks(value@),
{
}

/// Words are joined by dashes.
pub proof fn law_words_put_together(marks: &Vec<Option<char>>, r: String)
    requires
        call_ensures(join_words, (marks,), r),
    ensures
        r@ == words_joined(marks@),
{
}

/// What stands for a name in addresses are its words.
pub proof fn law_slug_made(name: &str, r: String)
    requires
        call_ensures(slug, (name,), r),
    ensures
        r@ == slug_of(name@),
{
}

/// Markdown is shown as HTML, with strikethrough, of which only what is harmless is left.
pub proof fn law_markdown_shown(text: String, r: String)
    requires
        call_ensures(markdown_to_html, (text,), r),
    ensures
        r@ == sanitized(markdown_html(text@, true)),
{
}

/// A page names its template.
pub proof fn law_template_named(page: &Page, r: &'static str)
    requires
        call_ensures(Page::template, (page,), r),
    ensures
        page is Index ==> r@ == "index.html"@,
        page is Thread ==> r@ == "thread.html"@,
        page is Login || page is LoginError ==> r@ == "login.html"@,
        page is Admin ==> r@ == "admin.html"@,
{
}

/// A page that cannot be rendered says why.
pub proof fn law_template_failed(message: &str, r: String)
    requires
        call_ensures(template_failure, (message,), r),
    ensures
        r@ == "<pre>"@ + message@ + "</pre>"@,
{
}

/// The page that a request asks for is told.
pub proof fn law_page_told(page: Option<i64>, n: i64, r: i64)
    requires
        call_ensures(requested_page, (page,), r),
    ensures
        is_asked_for(page, n) ==> r == n,
{
}

/// A page can be shown if the entries before it can be counted.
pub proof fn law_page_possible(page: Option<i64>, per_page: i64, n: i64, r: bool)
    requires
        call_ensures(is_page, (page, per_page), r),
        is_asked_for(page, n),
    ensures
        r <==> (n - 1) * per_page <= i64::MAX,
{
}

/// So many entries come before a page.
pub proof fn law_offset_told(page: Option<i64>, per_page: i64, n: i64, r: i64)
    requires
        call_ensures(offset_of, (page, per_page), r),
        is_asked_for(page, n),
    ensures
        r == (n - 1) * per_page,
{
}

/// So many entries come before a page, or as many as can be told.
pub proof fn law_offset_capped(page: Option<i64>, per_page: i64, n: i64, r: i64)
    requires
        call_ensures(offset_within, (page, per_page), r),
        is_asked_for(page, n),
    ensures
        (n - 1) * per_page <= i64::MAX ==> r == (n - 1) * per_page,
        (n - 1) * per_page > i64::MAX ==> r == i64::MAX,
{
}

/// There are just enough pages.
pub proof fn law_pages_told(total: i64, per_page: i64, r: i64)
    requires
        call_ensures(pages_of, (total, per_page), r),
        per_page > 0,
    ensures
        is_enough(r as int, per_page as int, total as int),
{
    law_pages_enough(total as int, per_page as int);
}

/// A form for a new thread begins with what it says.
pub proof fn law_thread_sent(
    jar: &CookieJar,
    form: CreateThreadForm,
    now: i64,
    r: Step<CreateState>,
)
    requires
        call_ensures(create_thread, (jar, form, now), r),
    ensures
        r@ == member_form_begun(
            jar_view(*jar),
            form.csrf_token@,
            now,
            CreateStateView::User(
                CreateThreadFormOf {
                    title: form.title@,
                    content: form.content@,
                    category_id: form.category_id,
                    csrf_token: form.csrf_token@,
                },
            ),
        ),
{
}

/// A new thread goes on as its dialogue says.
pub proof fn law_thread_advanced(
    state: CreateState,
    reply: &Reply,
    now: i64,
    r: Step<CreateState>,
)
    requires
        call_ensures(CreateState::advance, (state, reply, now), r),
    ensures
        r@ == create_next(state@, reply@, now),
{
}

/// A form for a reply begins with its thread and text.
pub proof fn law_reply_sent(
    jar: &CookieJar,
    thread_id: i64,
    form: ReplyForm,
    now: i64,
    r: Step<AnswerState>,
)
    requires
        call_ensures(reply, (jar, thread_id, form, now), r),
    ensures
        r@ == member_form_begun(
            jar_view(*jar),
            form.csrf_token@,
            now,
            AnswerStateView::User { target: thread_id, content: form.content@ },
        ),
{
}

/// A form for a comment begins with its post and text.
pub proof fn law_comment_sent(
    jar: &CookieJar,
    post_id: i64,
    form: ReplyForm,
    now: i64,
    r: Step<AnswerState>,
)
    requires
        call_ensures(comment, (jar, post_id, form, now), r),
    ensures
        r@ == member_form_begun(
            jar_view(*jar),
            form.csrf_token@,
            now,
            AnswerStateView::User { target: post_id, content: form.content@ },
        ),
{
}

/// A reply goes on as its dialogue says.
pub proof fn law_reply_advanced(state: AnswerState, reply: &Reply, now: i64, r: Step<AnswerState>)
    requires
        call_ensures(AnswerState::advance_reply, (state, reply, now), r),
    ensures
        r@ == reply_next(state@, reply@, now),
{
}

/// A comment goes on as its dialogue says.
pub proof fn law_comment_advanced(
    state: AnswerState,
    reply: &Reply,
    now: i64,
    r: Step<AnswerState>,
)
    requires
        call_ensures(AnswerState::advance_comment, (state, reply, now), r),
    ensures
        r@ == comment_next(state@, reply@, now),
{
}

/// A list gives the records that the rows hold, in order.
pub proof fn law_records_listed<R: FromRow>(reply: &Reply, r: Vec<R>)
    requires
        call_ensures(list::<R>, (reply,), r),
    ensures
        views(r@) == listed::<R>(reply@),
{
}

/// What is found is the record of the first row.
pub proof fn law_record_found<R: FromRow>(reply: &Reply, r: Option<R>)
    requires
        call_ensures(find::<R>, (reply,), r),
    ensures
        r matches Some(record) ==> found::<R>(reply@) == Some(record@),
        r is None ==> found::<R>(reply@) is None,
{
}

/// A number is found where the first row begins with it.
pub proof fn law_number_found(reply: &Reply, r: Option<i64>)
    requires
        call_ensures(find_int, (reply,), r),
    ensures
        r matches Some(n) ==> gives_number(reply@, n),
        r is None ==> gives_no_number(reply@),
{
}

/// What is counted is the number that was found, or 0.
pub proof fn law_count_found(reply: &Reply, r: i64)
    requires
        call_ensures(count, (reply,), r),
    ensures
        gives_number(reply@, r) || (gives_no_number(reply@) && r == 0),
{
}

/// A text is found where the first row begins with it.
pub proof fn law_text_found(reply: &Reply, r: Option<String>)
    requires
        call_ensures(find_text, (reply,), r),
    ensures
        r matches Some(t) ==> gives_text(reply@, t@),
        r is None ==> gives_no_text(reply@),
{
}

/// A row is read as a member that a session belongs to just where each column is of its kind, and
/// each field holds its own column.
pub proof fn law_user_read(row: &Vec<Cell>, r: Option<User>)
    requires
        call_ensures(<User as FromRow>::from_row, (row,), r),
    ensures
        match r {
            Some(record) => {
                &&& row@.len() >= 3
                &&& row@[0]@ == CellOf::<Seq<char>>::Int(record.id)
                &&& row@[1]@ == CellOf::Text(record.name@)
                &&& (row@[2]@ matches CellOf::Int(n) && record.is_admin == (n == 1))
            },
            None => !{
                &&& row@.len() >= 3
                &&& row@[0]@ is Int
                &&& row@[1]@ is Text
                &&& row@[2]@ is Int
            },
        },
{
    law_user_row(row_view(row@));
}

/// A row is read as a category just where each column is of its kind, and each field holds its
/// own column.
pub proof fn law_category_read(row: &Vec<Cell>, r: Option<Category>)
    requires
        call_ensures(<Category as FromRow>::from_row, (row,), r),
    ensures
        match r {
            Some(record) => {
                &&& row@.len() >= 3
                &&& row@[0]@ == CellOf::<Seq<char>>::Int(record.id)
                &&& row@[1]@ == CellOf::Text(record.slug@)
                &&& row@[2]@ == CellOf::Text(record.name@)
            },
            None => !{
                &&& row@.len() >= 3
                &&& row@[0]@ is Int
                &&& row@[1]@ is Text
                &&& row@[2]@ is Text
            },
        },
{
    law_category_row(row_view(row@));
}

/// A row is read as a thread just where each column is of its kind, and each field holds its own
/// column.
pub proof fn law_thread_read(row: &Vec<Cell>, r: Option<Thread>)
    requires
        call_ensures(<Thread as FromRow>::from_row, (row,), r),
    ensures
        match r {
            Some(record) => {
                &&& row@.len() >= 8
                &&& row@[0]@ == CellOf::<Seq<char>>::Int(record.id)
                &&& row@[1]@ == CellOf::Text(record.title@)
                &&& row@[2]@ == CellOf::<Seq<char>>::Int(record.posts_count)
                &&& row@[3]@ == CellOf::<Seq<char>>::Int(record.created_at)
                &&& row@[4]@ == CellOf::<Seq<char>>::Int(record.last_activity_at)
                &&& holds(row@[5]@, optional(record.category_name))
                &&& holds(row@[6]@, optional(record.category_slug))
                &&& holds(row@[7]@, optional(record.author))
            },
            None => !{
                &&& row@.len() >= 8
                &&& row@[0]@ is Int
                &&& row@[1]@ is Text
                &&& row@[2]@ is Int
                &&& row@[3]@ is Int
                &&& row@[4]@ is Int
                &&& (row@[5]@ is Text || row@[5]@ is Null)
                &&& (row@[6]@ is Text || row@[6]@ is Null)
                &&& (row@[7]@ is Text || row@[7]@ is Null)
            },
        },
{
    law_thread_row(row_view(row@));
}

/// A row is read as a recent post just where each column is of its kind, and each field holds its
/// own column.
pub proof fn law_recent_post_read(row: &Vec<Cell>, r: Option<RecentPost>)
    requires
        call_ensures(<RecentPost as FromRow>::from_row, (row,), r),
    ensures
        match r {
            Some(record) => {
                &&& row@.len() >= 8
                &&& row@[0]@ == CellOf::<Seq<char>>::Int(record.post_id)
                &&& row@[1]@ == CellOf::<Seq<char>>::Int(record.created_at)
                &&& holds(row@[2]@, optional(record.author))
                &&& row@[3]@ == CellOf::Text(record.content@)
                &&& row@[4]@ == CellOf::<Seq<char>>::Int(record.thread_id)
                &&& row@[5]@ == CellOf::Text(record.thread_title@)
                &&& holds(row@[6]@, optional(record.category_name))
                &&& holds(row@[7]@, optional(record.category_slug))
            },
            None => !{
                &&& row@.len() >= 8
                &&& row@[0]@ is Int
                &&& row@[1]@ is Int
                &&& (row@[2]@ is Text || row@[2]@ is Null)
                &&& row@[3]@ is Text
                &&& row@[4]@ is Int
                &&& row@[5]@ is Text
                &&& (row@[6]@ is Text || row@[6]@ is Null)
                &&& (row@[7]@ is Text || row@[7]@ is Null)
            },
        },
{
    law_recent_post_row(row_view(row@));
}

/// A row is read as a member just where each column is of its kind, and each field holds its own
/// column.
pub proof fn law_member_read(row: &Vec<Cell>, r: Option<Member>)
    requires
        call_ensures(<Member as FromRow>::from_row, (row,), r),
    ensures
        match r {
            Some(record) => {
                &&& row@.len() >= 3
                &&& row@[0]@ == CellOf::<Seq<char>>::Int(record.id)
                &&& row@[1]@ == CellOf::Text(record.username@)
                &&& row@[2]@ == CellOf::<Seq<char>>::Int(record.created_at)
            },
            None => !{
                &&& row@.len() >= 3
                &&& row@[0]@ is Int
                &&& row@[1]@ is Text
                &&& row@[2]@ is Int
            },
        },
{
    law_member_row(row_view(row@));
}

/// A row is read as a post just where each column is of its kind, and each field holds its own
/// column.
pub proof fn law_post_read(row: &Vec<Cell>, r: Option<Post>)
    requires
        call_ensures(<Post as FromRow>::from_row, (row,), r),
    ensures
        match r {
            Some(record) => {
                &&& row@.len() >= 4
                &&& row@[0]@ == CellOf::<Seq<char>>::Int(record.id)
                &&& holds(row@[1]@, optional(record.author))
                &&& row@[2]@ == CellOf::Text(record.content@)
                &&& row@[3]@ == CellOf::<Seq<char>>::Int(record.created_at)
            },
            None => !{
                &&& row@.len() >= 4
                &&& row@[0]@ is Int
                &&& (row@[1]@ is Text || row@[1]@ is Null)
                &&& row@[2]@ is Text
                &&& row@[3]@ is Int
            },
        },
{
    law_post_row(row_view(row@));
}

/// A row is read as a comment just where each column is of its kind, and each field holds its own
/// column.
pub proof fn law_comment_read(row: &Vec<Cell>, r: Option<Comment>)
    requires
        call_ensures(<Comment as FromRow>::from_row, (row,), r),
    ensures
        match r {
            Some(record) => {
                &&& row@.len() >= 5
                &&& row@[0]@ == CellOf::<Seq<char>>::Int(record.id)
                &&& row@[1]@ == CellOf::<Seq<char>>::Int(record.post_id)
                &&& holds(row@[2]@, optional(record.author))
                &&& row@[3]@ == CellOf::Text(record.content@)
                &&& row@[4]@ == CellOf::<Seq<char>>::Int(record.created_at)
            },
            None => !{
                &&& row@.len() >= 5
                &&& row@[0]@ is Int
                &&& row@[1]@ is Int
                &&& (row@[2]@ is Text || row@[2]@ is Null)
                &&& row@[3]@ is Text
                &&& row@[4]@ is Int
            },
        },
{
    law_comment_row(row_view(row@));
}

/// A row is read as the credentials of a member just where each column is of its kind, and each
/// field holds its own column.
pub proof fn law_credentials_read(row: &Vec<Cell>, r: Option<Credentials>)
    requires
        call_ensures(<Credentials as FromRow>::from_row, (row,), r),
    ensures
        match r {
            Some(record) => {
                &&& row@.len() >= 2
                &&& row@[0]@ == CellOf::<Seq<char>>::Int(record.user_id)
                &&& row@[1]@ == CellOf::Text(record.password_hash@)
            },
            None => !{
                &&& row@.len() >= 2
                &&& row@[0]@ is Int
                &&& row@[1]@ is Text
            },
        },
{
    law_credentials_row(row_view(row@));
}

/// Making the database ready begins with the tables.
pub proof fn law_start_begun(r: InitStep)
    requires
        call_ensures(init_db, (), r),
    ensures
        r@.commands == seq![CommandView::CreateTables],
        r@.next == Next::<InitState, InitOutcome>::Await(InitState::Tables),
{
}

/// Making the database ready goes on as its dialogue says.
pub proof fn law_start_advanced(state: InitState, reply: &Reply, now: i64, r: InitStep)
    requires
        call_ensures(InitState::advance, (state, reply, now), r),
    ensures
        r@ == init_next(state, reply@, now),
{
}

/// The page to log in begins with what it is asked for.
pub proof fn law_login_page_begun(
    jar: CookieJar,
    csrf_token: String,
    mode: Option<String>,
    now: i64,
    r: Step<LoginPageState>,
)
    requires
        call_ensures(login_get_with, (jar, csrf_token, mode, now), r),
    ensures
        r@ == login_page_begun(jar_view(jar), csrf_token@, optional(mode), now),
{
}

/// The page to log in begins with a token, fresh where the visitor has none.
pub proof fn law_login_page_guarded(
    jar: CookieJar,
    mode: Option<String>,
    now: i64,
    r: Step<LoginPageState>,
)
    requires
        call_ensures(login_get, (jar, mode, now), r),
    ensures
        exists|after: JarView, token: Seq<char>| #[trigger]
            csrf_ensured(jar_view(jar), after, token) && r@ == login_page_begun(
                after,
                token,
                optional(mode),
                now,
            ),
{
}

/// The page to log in goes on as its dialogue says, with the CAPTCHA that was drawn for it.
pub proof fn law_login_page_advanced(
    state: LoginPageState,
    reply: &Reply,
    captcha_id: String,
    r: Step<LoginPageState>,
)
    requires
        call_ensures(LoginPageState::advance_with, (state, reply, captcha_id), r),
    ensures
        r@ == login_page_next(state@, reply@, captcha_id@),
{
}

/// The page to log in goes on with a fresh CAPTCHA.
pub proof fn law_login_page_drawn(state: LoginPageState, reply: &Reply, r: Step<LoginPageState>)
    requires
        call_ensures(LoginPageState::advance, (state, reply), r),
    ensures
        exists|captcha_id: Seq<char>| #[trigger]
            is_random_uuid(captcha_id) && r@ == login_page_next(state@, reply@, captcha_id),
{
}

/// Logging out ends as its dialogue says.
pub proof fn law_logout_sent(jar: CookieJar, csrf_token: &str, r: Step<()>)
    requires
        call_ensures(logout_post, (jar, csrf_token), r),
    ensures
        r@ == logout_ended(jar_view(jar), csrf_token@),
{
}

/// A command is stated in its SQL.
pub proof fn law_sql_given(command: &Command, r: String)
    requires
        call_ensures(Command::sql, (command,), r),
    ensures
        r@ == sql_of(command@),
{
}

/// A command binds its values.
pub proof fn law_params_given(command: &Command, r: Vec<Cell>)
    requires
        call_ensures(Command::params, (command,), r),
    ensures
        r@.len() == params_of(command@).len(),
        forall|i: int| 0 <= i < r@.len() ==> (#[trigger] r@[i])@ == params_of(command@)[i],
{
    assert(row_view(r@).len() == r@.len());
    assert forall|i: int| 0 <= i < r@.len() implies (#[trigger] r@[i])@ == params_of(
        command@,
    )[i] by {
        assert(row_view(r@)[i] == r@[i]@);
    }
}

/// A command is carried out in its shape.
pub proof fn law_shape_given(command: &Command, r: Shape)
    requires
        call_ensures(Command::shape, (command,), r),
    ensures
        r == shape_of(command@),
{
}

/// A text is its characters.
pub proof fn law_chars_given(s: &str, r: Vec<char>)
    requires
        call_ensures(to_chars, (s,), r),
    ensures
        r@ == s@,
{
}

/// Characters make a text.
pub proof fn law_chars_taken(chars: &Vec<char>, from: usize, to: usize, r: String)
    requires
        call_ensures(from_chars, (chars, from, to), r),
    ensures
        r@ == chars@.subrange(from as int, to as int),
{
}

/// Two texts are the same if their characters are.
pub proof fn law_same_text(a: &str, b: &str, r: bool)
    requires
        call_ensures(same_text, (a, b), r),
    ensures
        r <==> a@ == b@,
{
}

/// A text takes as many bytes as its encoding.
pub proof fn law_bytes_counted(s: &str, r: usize)
    requires
        call_ensures(byte_len, (s,), r),
    ensures
        r == encode_utf8(s@).len(),
{
}

/// A character is told to be white space if it is.
pub proof fn law_white_told(c: char, r: bool)
    requires
        call_ensures(is_whitespace, (c,), r),
    ensures
        r <==> is_white(c),
{
}

/// A text is trimmed at its end.
pub proof fn law_end_trimmed(s: &str, r: String)
    requires
        call_ensures(trim_end, (s,), r),
    ensures
        r@ == s@.take(r@.len() as int),
        is_blank(s@, r@.len() as int, s@.len() as int),
        r@.len() > 0 ==> !is_white(r@.last()),
{
    law_trimmed_end(s@);
}

/// A text is trimmed at both ends.
pub proof fn law_ends_trimmed(s: &str, r: String)
    requires
        call_ensures(trim, (s,), r),
    ensures
        exists|a: int, b: int| is_core(s@, r@, a, b),
{
    law_trimmed(s@);
}

/// Occurrences are replaced.
pub proof fn law_text_replaced(s: &str, from: &str, to: &str, r: String)
    requires
        call_ensures(replace, (s, from, to), r),
    ensures
        r@ == replaced(s@, from@, to@),
{
}

/// A number is written in decimal.
pub proof fn law_number_written(n: i64, r: String)
    requires
        call_ensures(to_decimal, (n,), r),
    ensures
        r@ == decimal(n as int),
        n >= 0 ==> number_of(r@) == n,
{
    law_decimal(n as int);
}

/// Comments are grouped by their posts.
pub proof fn law_comments_grouped(comments: Vec<Comment>, r: Vec<PostComments>)
    requires
        call_ensures(group_comments, (comments,), r),
    ensures
        views(r@) == grouped(views(comments@)),
{
}

/// The page of a thread begins with what it is asked for.
pub proof fn law_thread_begun(
    jar: CookieJar,
    csrf_token: String,
    thread_id: i64,
    page: Option<i64>,
    now: i64,
    r: Step<ThreadState>,
)
    requires
        call_ensures(thread_view_with, (jar, csrf_token, thread_id, page, now), r),
    ensures
        r@ == thread_begun(jar_view(jar), csrf_token@, thread_id, page, now),
{
}

/// The page of a thread begins with a token, fresh where the visitor has none.
pub proof fn law_thread_guarded(
    jar: CookieJar,
    thread_id: i64,
    page: Option<i64>,
    now: i64,
    r: Step<ThreadState>,
)
    requires
        call_ensures(thread_view, (jar, thread_id, page, now), r),
    ensures
        exists|after: JarView, token: Seq<char>| #[trigger]
            csrf_ensured(jar_view(jar), after, token) && r@ == thread_begun(
                after,
                token,
                thread_id,
                page,
                now,
            ),
{
}

/// The page of a thread goes on as its dialogue says.
pub proof fn law_thread_page_advanced(state: ThreadState, reply: &Reply, r: Step<ThreadState>)
    requires
        call_ensures(ThreadState::advance, (state, reply), r),
    ensures
        r@ == thread_next(state@, reply@),
{
}

/// A token is made of 32 bytes, in hexadecimal.
pub proof fn law_token_made(bytes: &[u8; 32], r: String)
    requires
        call_ensures(token_of, (bytes,), r),
    ensures
        r@ == hex(bytes@),
        r@.len() == 64,
{
}

/// A fresh token has 64 digits.
pub proof fn law_token_drawn(r: String)
    requires
        call_ensures(generate_session_token, (), r),
    ensures
        is_token(r@),
{
}

} // verus!
