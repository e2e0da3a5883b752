//! What contracts speak of is what values hold: each view shows each field as it is.
use vstd::prelude::*;
use axum_extra::extract::cookie::CookieJar;
use crate::admin::{AdminPageState, AdminStateOf, AdminTask, AdminTaskOf};
use crate::cookies::{jar_view, CookieOf};
use crate::dialogue::{commands_view, optional_jar, Next, ResponseOf, StepOf};
use crate::headers::HeaderOf;
use crate::index::IndexState;
use crate::login::{AuthForm, AuthFormOf, FreshOf, LoginRequest, LoginRequestOf, LoginStateOf};
use crate::pages::{
    optional_category, AdminPage, IndexPage, LoginError, LoginErrorOf, LoginPageOf, Page, PageView,
    PostCommentsOf, ThreadPage,
};
use crate::posting::{
    AnswerStateOf, CreateStateOf, CreateThreadForm, CreateThreadFormOf, Draft, DraftOf,
};
use crate::records::{
    optional, views, Category, CategoryOf, Comment, CommentOf, Credentials, CredentialsOf, MemberOf,
    PostOf, RecentPostOf, Thread, ThreadOf, User, UserOf,
};
use crate::schema::{InitOutcome, InitState};
use crate::session::LoginPageStateOf;
use crate::store::{row_view, rows_view, Cell, CellOf, Command, CommandOf, ReplyOf};
use crate::thread::{ThreadRequest, ThreadRequestOf, ThreadStateOf};

verus! {

/// Lists are seen item by item.
pub proof fn law_lists_seen<R: View>(records: Seq<R>, commands: Seq<Command>)
    ensures
        views(records).len() == records.len(),
        forall|i: int| 0 <= i < records.len() ==> #[trigger] views(records)[i] == records[i]@,
        commands_view(commands).len() == commands.len(),
        forall|i: int|
            0 <= i < commands.len() ==> #[trigger] commands_view(commands)[i] == commands[i]@,
{
}

/// Rows are seen cell by cell.
pub proof fn law_rows_seen(row: Seq<Cell>, rows: Seq<Vec<Cell>>)
    ensures
        row_view(row).len() == row.len(),
        forall|i: int| 0 <= i < row.len() ==> #[trigger] row_view(row)[i] == row[i]@,
        rows_view(rows).len() == rows.len(),
        forall|i: int| 0 <= i < rows.len() ==> #[trigger] rows_view(rows)[i] == row_view(rows[i]@),
{
}

/// What may be missing is seen just where it is there.
pub proof fn law_options_seen(t: Option<String>, jar: Option<CookieJar>, cat: Option<Category>)
    ensures
        t matches Some(s) ==> optional(t) == Some(s@),
        t is None ==> optional(t) is None,
        jar matches Some(j) ==> optional_jar(jar) == Some(jar_view(j)),
        jar is None ==> optional_jar(jar) is None,
        cat matches Some(c) ==> optional_category(cat) == Some(c@),
        cat is None ==> optional_category(cat) is None,
{
}

/// A step is seen with its commands and what follows them.
pub proof fn law_step_view<S: View, R: View>(step: StepOf<Vec<Command>, S, R>)
    ensures
        step@.commands == commands_view(step.commands@),
        step.next matches Next::Await(state) ==> step@.next == Next::<S::V, R::V>::Await(state@),
        step.next matches Next::Respond(response) ==> step@.next == Next::<S::V, R::V>::Respond(
            response@,
        ),
{
}

/// A `Cell` is seen as it is, part by part.
pub proof fn law_cell_view(x: CellOf<String>)
    ensures
        match x {
            CellOf::Null => x@ is Null,
            CellOf::Int(n) => x@ matches CellOf::Int(shown) && shown == n,
            CellOf::Text(t) => x@ matches CellOf::Text(shown) && shown == t@,
            CellOf::Other => x@ is Other,
        },
{
}

/// A `Reply` is seen as it is, part by part.
pub proof fn law_reply_view(x: ReplyOf<Vec<Vec<Cell>>>)
    ensures
        match x {
            ReplyOf::Failed => x@ is Failed,
            ReplyOf::Done { rowid } => {
                &&& x@ matches ReplyOf::Done { rowid: shown_rowid }
                &&& shown_rowid == rowid
            },
            ReplyOf::Rows(rows) => x@ matches ReplyOf::Rows(shown) && shown == rows_view(rows@),
        },
{
}

/// A `Command` is seen as it is, part by part.
pub proof fn law_command_view(x: CommandOf<String, Vec<i64>>)
    ensures
        match x {
            CommandOf::CreateTables => x@ is CreateTables,
            CommandOf::AddUserIsAdmin => x@ is AddUserIsAdmin,
            CommandOf::AddThreadUser => x@ is AddThreadUser,
            CommandOf::AddPostUser => x@ is AddPostUser,
            CommandOf::AddCommentUser => x@ is AddCommentUser,
            CommandOf::CountSessionExpiry => x@ is CountSessionExpiry,
            CommandOf::AddSessionExpiry => x@ is AddSessionExpiry,
            CommandOf::PurgeSessions { now } => {
                &&& x@ matches CommandOf::PurgeSessions { now: shown_now }
                &&& shown_now == now
            },
            CommandOf::CountCategories => x@ is CountCategories,
            CommandOf::InsertDefaultCategory { slug, name } => {
                &&& x@ matches CommandOf::InsertDefaultCategory { slug: shown_slug, name: shown_name }
                &&& shown_slug == slug@
                &&& shown_name == name@
            },
            CommandOf::FirstCategory => x@ is FirstCategory,
            CommandOf::AdoptThreads { category_id } => {
                &&& x@ matches CommandOf::AdoptThreads { category_id: shown_category_id }
                &&& shown_category_id == category_id
            },
            CommandOf::FindSessionUser { token, now } => {
                &&& x@ matches CommandOf::FindSessionUser { token: shown_token, now: shown_now }
                &&& shown_token == token@
                &&& shown_now == now
            },
            CommandOf::RegistrationSetting => x@ is RegistrationSetting,
            CommandOf::ListCategories => x@ is ListCategories,
            CommandOf::FindCategory { slug } => {
                &&& x@ matches CommandOf::FindCategory { slug: shown_slug }
                &&& shown_slug == slug@
            },
            CommandOf::CountThreadsIn { category_id } => {
                &&& x@ matches CommandOf::CountThreadsIn { category_id: shown_category_id }
                &&& shown_category_id == category_id
            },
            CommandOf::CountThreads => x@ is CountThreads,
            CommandOf::ListThreadsIn { category_id, limit, offset } => {
                &&& x@ matches CommandOf::ListThreadsIn {
                    category_id: shown_category_id,
                    limit: shown_limit,
                    offset: shown_offset,
                }
                &&& shown_category_id == category_id
                &&& shown_limit == limit
                &&& shown_offset == offset
            },
            CommandOf::ListThreads { limit, offset } => {
                &&& x@ matches CommandOf::ListThreads { limit: shown_limit, offset: shown_offset }
                &&& shown_limit == limit
                &&& shown_offset == offset
            },
            CommandOf::RecentPosts => x@ is RecentPosts,
            CommandOf::ListMembers => x@ is ListMembers,
            CommandOf::FindThread { thread_id } => {
                &&& x@ matches CommandOf::FindThread { thread_id: shown_thread_id }
                &&& shown_thread_id == thread_id
            },
            CommandOf::CountPosts { thread_id } => {
                &&& x@ matches CommandOf::CountPosts { thread_id: shown_thread_id }
                &&& shown_thread_id == thread_id
            },
            CommandOf::ListPosts { thread_id, limit, offset } => {
                &&& x@ matches CommandOf::ListPosts {
                    thread_id: shown_thread_id,
                    limit: shown_limit,
                    offset: shown_offset,
                }
                &&& shown_thread_id == thread_id
                &&& shown_limit == limit
                &&& shown_offset == offset
            },
            CommandOf::ListComments { post_ids } => {
                &&& x@ matches CommandOf::ListComments { post_ids: shown_post_ids }
                &&& shown_post_ids == post_ids@
            },
            CommandOf::InsertThread { title, created_at, category_id, user_id } => {
                &&& x@ matches CommandOf::InsertThread {
                    title: shown_title,
                    created_at: shown_created_at,
                    category_id: shown_category_id,
                    user_id: shown_user_id,
                }
                &&& shown_title == title@
                &&& shown_created_at == created_at
                &&& shown_category_id == category_id
                &&& shown_user_id == user_id
            },
            CommandOf::InsertPost { thread_id, author, content, created_at, user_id } => {
                &&& x@ matches CommandOf::InsertPost {
                    thread_id: shown_thread_id,
                    author: shown_author,
                    content: shown_content,
                    created_at: shown_created_at,
                    user_id: shown_user_id,
                }
                &&& shown_thread_id == thread_id
                &&& shown_author == author@
                &&& shown_content == content@
                &&& shown_created_at == created_at
                &&& shown_user_id == user_id
            },
            CommandOf::CountNewPost { now, thread_id } => {
                &&& x@ matches CommandOf::CountNewPost { now: shown_now, thread_id: shown_thread_id }
                &&& shown_now == now
                &&& shown_thread_id == thread_id
            },
            CommandOf::ThreadExists { thread_id } => {
                &&& x@ matches CommandOf::ThreadExists { thread_id: shown_thread_id }
                &&& shown_thread_id == thread_id
            },
            CommandOf::ThreadOfPost { post_id } => {
                &&& x@ matches CommandOf::ThreadOfPost { post_id: shown_post_id }
                &&& shown_post_id == post_id
            },
            CommandOf::InsertComment { post_id, author, content, created_at, user_id } => {
                &&& x@ matches CommandOf::InsertComment {
                    post_id: shown_post_id,
                    author: shown_author,
                    content: shown_content,
                    created_at: shown_created_at,
                    user_id: shown_user_id,
                }
                &&& shown_post_id == post_id
                &&& shown_author == author@
                &&& shown_content == content@
                &&& shown_created_at == created_at
                &&& shown_user_id == user_id
            },
            CommandOf::TouchThread { now, thread_id } => {
                &&& x@ matches CommandOf::TouchThread { now: shown_now, thread_id: shown_thread_id }
                &&& shown_now == now
                &&& shown_thread_id == thread_id
            },
            CommandOf::CountAttempts { username, since } => {
                &&& x@ matches CommandOf::CountAttempts { username: shown_username, since: shown_since }
                &&& shown_username == username@
                &&& shown_since == since
            },
            CommandOf::FindCaptcha { id, now } => {
                &&& x@ matches CommandOf::FindCaptcha { id: shown_id, now: shown_now }
                &&& shown_id == id@
                &&& shown_now == now
            },
            CommandOf::DeleteCaptcha { id } => {
                &&& x@ matches CommandOf::DeleteCaptcha { id: shown_id }
                &&& shown_id == id@
            },
            CommandOf::InsertAttempt { username, now } => {
                &&& x@ matches CommandOf::InsertAttempt { username: shown_username, now: shown_now }
                &&& shown_username == username@
                &&& shown_now == now
            },
            CommandOf::CountUsers => x@ is CountUsers,
            CommandOf::InsertUser { username, password_hash, created_at, is_admin } => {
                &&& x@ matches CommandOf::InsertUser {
                    username: shown_username,
                    password_hash: shown_password_hash,
                    created_at: shown_created_at,
                    is_admin: shown_is_admin,
                }
                &&& shown_username == username@
                &&& shown_password_hash == password_hash@
                &&& shown_created_at == created_at
                &&& shown_is_admin == is_admin
            },
            CommandOf::InsertSession { token, user_id, created_at, expires_at } => {
                &&& x@ matches CommandOf::InsertSession {
                    token: shown_token,
                    user_id: shown_user_id,
                    created_at: shown_created_at,
                    expires_at: shown_expires_at,
                }
                &&& shown_token == token@
                &&& shown_user_id == user_id
                &&& shown_created_at == created_at
                &&& shown_expires_at == expires_at
            },
            CommandOf::ClearAttempts { username } => {
                &&& x@ matches CommandOf::ClearAttempts { username: shown_username }
                &&& shown_username == username@
            },
            CommandOf::FindCredentials { username } => {
                &&& x@ matches CommandOf::FindCredentials { username: shown_username }
                &&& shown_username == username@
            },
            CommandOf::DeleteSession { token } => {
                &&& x@ matches CommandOf::DeleteSession { token: shown_token }
                &&& shown_token == token@
            },
            CommandOf::DeleteUserThreads { user_id } => {
                &&& x@ matches CommandOf::DeleteUserThreads { user_id: shown_user_id }
                &&& shown_user_id == user_id
            },
            CommandOf::DeleteUserPosts { user_id } => {
                &&& x@ matches CommandOf::DeleteUserPosts { user_id: shown_user_id }
                &&& shown_user_id == user_id
            },
            CommandOf::DeleteUserComments { user_id } => {
                &&& x@ matches CommandOf::DeleteUserComments { user_id: shown_user_id }
                &&& shown_user_id == user_id
            },
            CommandOf::DeleteUser { user_id } => {
                &&& x@ matches CommandOf::DeleteUser { user_id: shown_user_id }
                &&& shown_user_id == user_id
            },
            CommandOf::DeleteThread { thread_id } => {
                &&& x@ matches CommandOf::DeleteThread { thread_id: shown_thread_id }
                &&& shown_thread_id == thread_id
            },
            CommandOf::InsertCategory { slug, name } => {
                &&& x@ matches CommandOf::InsertCategory { slug: shown_slug, name: shown_name }
                &&& shown_slug == slug@
                &&& shown_name == name@
            },
            CommandOf::FallbackCategory { category_id } => {
                &&& x@ matches CommandOf::FallbackCategory { category_id: shown_category_id }
                &&& shown_category_id == category_id
            },
            CommandOf::MoveThreads { to, from } => {
                &&& x@ matches CommandOf::MoveThreads { to: shown_to, from: shown_from }
                &&& shown_to == to
                &&& shown_from == from
            },
            CommandOf::DeleteCategory { category_id } => {
                &&& x@ matches CommandOf::DeleteCategory { category_id: shown_category_id }
                &&& shown_category_id == category_id
            },
            CommandOf::SetRegistration { value } => {
                &&& x@ matches CommandOf::SetRegistration { value: shown_value }
                &&& shown_value == value@
            },
            CommandOf::StoreCaptcha { id, solution, expires_at } => {
                &&& x@ matches CommandOf::StoreCaptcha {
                    id: shown_id,
                    solution: shown_solution,
                    expires_at: shown_expires_at,
                }
                &&& shown_id == id@
                &&& shown_solution == solution@
                &&& shown_expires_at == expires_at
            },
            CommandOf::PurgeCaptchas { now } => {
                &&& x@ matches CommandOf::PurgeCaptchas { now: shown_now }
                &&& shown_now == now
            },
        },
{
}

/// A `User` is seen as it is, part by part.
pub proof fn law_user_view(x: UserOf<String>)
    ensures
        x@.id == x.id,
        x@.name == x.name@,
        x@.is_admin == x.is_admin,
{
}

/// A `Category` is seen as it is, part by part.
pub proof fn law_category_view(x: CategoryOf<String>)
    ensures
        x@.id == x.id,
        x@.slug == x.slug@,
        x@.name == x.name@,
{
}

/// A `Thread` is seen as it is, part by part.
pub proof fn law_thread_view(x: ThreadOf<String>)
    ensures
        x@.id == x.id,
        x@.title == x.title@,
        x@.posts_count == x.posts_count,
        x@.created_at == x.created_at,
        x@.last_activity_at == x.last_activity_at,
        x@.category_name == optional(x.category_name),
        x@.category_slug == optional(x.category_slug),
        x@.author == optional(x.author),
{
}

/// A `RecentPost` is seen as it is, part by part.
pub proof fn law_recent_post_view(x: RecentPostOf<String>)
    ensures
        x@.post_id == x.post_id,
        x@.created_at == x.created_at,
        x@.author == optional(x.author),
        x@.content == x.content@,
        x@.thread_id == x.thread_id,
        x@.thread_title == x.thread_title@,
        x@.category_name == optional(x.category_name),
        x@.category_slug == optional(x.category_slug),
{
}

/// A `Member` is seen as it is, part by part.
pub proof fn law_member_view(x: MemberOf<String>)
    ensures
        x@.id == x.id,
        x@.username == x.username@,
        x@.created_at == x.created_at,
{
}

/// A `Post` is seen as it is, part by part.
pub proof fn law_post_view(x: PostOf<String>)
    ensures
        x@.id == x.id,
        x@.author == optional(x.author),
        x@.content == x.content@,
        x@.created_at == x.created_at,
{
}

/// A `Comment` is seen as it is, part by part.
pub proof fn law_comment_view(x: CommentOf<String>)
    ensures
        x@.id == x.id,
        x@.post_id == x.post_id,
        x@.author == optional(x.author),
        x@.content == x.content@,
        x@.created_at == x.created_at,
{
}

/// A `Credentials` is seen as it is, part by part.
pub proof fn law_credentials_view(x: CredentialsOf<String>)
    ensures
        x@.user_id == x.user_id,
        x@.password_hash == x.password_hash@,
{
}

/// A `Cookie` is seen as it is, part by part.
pub proof fn law_cookie_view(x: CookieOf<String>)
    ensures
        x@.name == x.name@,
        x@.value == x.value@,
        x@.path == x.path@,
        x@.http_only == x.http_only,
        x@.same_site == x.same_site,
        x@.max_age == x.max_age,
{
}

/// A `Header` is seen as it is, part by part.
pub proof fn law_header_view(x: HeaderOf<&'static str>)
    ensures
        x@.name == x.name@,
        x@.value == x.value@,
{
}

/// A `IndexPage` is seen as it is, part by part.
pub proof fn law_index_page_view(x: IndexPage)
    ensures
        x@.current_user == optional(x.current_user),
        x@.is_admin == x.is_admin,
        x@.all_users == views(x.all_users@),
        x@.threads == views(x.threads@),
        x@.categories == views(x.categories@),
        x@.cat == optional_category(x.cat),
        x@.recent_posts == views(x.recent_posts@),
        x@.page == x.page,
        x@.total_pages == x.total_pages,
        x@.csrf_token == x.csrf_token@,
{
}

/// A `PostComments` is seen as it is, part by part.
pub proof fn law_post_comments_view(x: PostCommentsOf<Vec<Comment>>)
    ensures
        x@.post_id == x.post_id,
        x@.comments == views(x.comments@),
{
}

/// A `ThreadPage` is seen as it is, part by part.
pub proof fn law_thread_page_view(x: ThreadPage)
    ensures
        x@.current_user == optional(x.current_user),
        x@.is_admin == x.is_admin,
        x@.thread == x.thread@,
        x@.posts == views(x.posts@),
        x@.comments_map == views(x.comments_map@),
        x@.page == x.page,
        x@.total_pages == x.total_pages,
        x@.csrf_token == x.csrf_token@,
{
}

/// A `LoginPage` is seen as it is, part by part.
pub proof fn law_login_page_view(x: LoginPageOf<String>)
    ensures
        x@.current_user == optional(x.current_user),
        x@.mode == x.mode@,
        x@.captcha_id == x.captcha_id@,
        x@.csrf_token == x.csrf_token@,
        x@.registration_disabled == x.registration_disabled,
{
}

/// A `LoginError` is seen as it is, part by part.
pub proof fn law_login_error_view(x: LoginErrorOf<String>)
    ensures
        x@.error == x.error@,
        x@.mode == x.mode@,
        x@.captcha_id == optional(x.captcha_id),
        x@.csrf_token == x.csrf_token@,
        x@.registration_disabled == x.registration_disabled,
{
}

/// A `AdminPage` is seen as it is, part by part.
pub proof fn law_admin_page_view(x: AdminPage)
    ensures
        x@.current_user == optional(x.current_user),
        x@.is_admin == x.is_admin,
        x@.categories == views(x.categories@),
        x@.all_users == views(x.all_users@),
        x@.csrf_token == x.csrf_token@,
        x@.registration_enabled == x.registration_enabled,
{
}

/// A `Page` is seen as it is, part by part.
pub proof fn law_page_view(x: Page)
    ensures
        match x {
            Page::Index(page) => x@ matches PageView::Index(shown) && shown == page@,
            Page::Thread(page) => x@ matches PageView::Thread(shown) && shown == page@,
            Page::Login(page) => x@ matches PageView::Login(shown) && shown == page@,
            Page::LoginError(page) => x@ matches PageView::LoginError(shown) && shown == page@,
            Page::Admin(page) => x@ matches PageView::Admin(shown) && shown == page@,
        },
{
}

/// A `Response` is seen as it is, part by part.
pub proof fn law_response_view(x: ResponseOf<String, CookieJar, Page>)
    ensures
        match x {
            ResponseOf::Text { status, body } => {
                &&& x@ matches ResponseOf::Text { status: shown_status, body: shown_body }
                &&& shown_status == status
                &&& shown_body == body@
            },
            ResponseOf::Redirect { jar, to } => {
                &&& x@ matches ResponseOf::Redirect { jar: shown_jar, to: shown_to }
                &&& shown_jar == optional_jar(jar)
                &&& shown_to == to@
            },
            ResponseOf::Html { jar, body } => {
                &&& x@ matches ResponseOf::Html { jar: shown_jar, body: shown_body }
                &&& shown_jar == jar_view(jar)
                &&& shown_body == body@
            },
            ResponseOf::Page { jar, page } => {
                &&& x@ matches ResponseOf::Page { jar: shown_jar, page: shown_page }
                &&& shown_jar == jar_view(jar)
                &&& shown_page == page@
            },
            ResponseOf::Image { content_type } => {
                &&& x@ matches ResponseOf::Image { content_type: shown_content_type }
                &&& shown_content_type == content_type@
            },
        },
{
}

/// A `CreateThreadForm` is seen as it is, part by part.
pub proof fn law_create_thread_form_view(x: CreateThreadFormOf<String>)
    ensures
        x@.title == x.title@,
        x@.content == x.content@,
        x@.category_id == x.category_id,
        x@.csrf_token == x.csrf_token@,
{
}

/// A `Draft` is seen as it is, part by part.
pub proof fn law_draft_view(x: DraftOf<String>)
    ensures
        x@.title == x.title@,
        x@.author == x.author@,
        x@.content == x.content@,
        x@.user_id == x.user_id,
{
}

/// A `CreateState` is seen as it is, part by part.
pub proof fn law_create_state_view(x: CreateStateOf<CreateThreadForm, Draft>)
    ensures
        match x {
            CreateStateOf::User(form) => x@ matches CreateStateOf::User(shown) && shown == form@,
            CreateStateOf::Category(draft) => x@ matches CreateStateOf::Category(shown) && shown == draft@,
            CreateStateOf::Insert { draft, created_at } => {
                &&& x@ matches CreateStateOf::Insert {
                    draft: shown_draft,
                    created_at: shown_created_at,
                }
                &&& shown_draft == draft@
                &&& shown_created_at == created_at
            },
        },
{
}

/// A `AnswerState` is seen as it is, part by part.
pub proof fn law_answer_state_view(x: AnswerStateOf<String>)
    ensures
        match x {
            AnswerStateOf::User { target, content } => {
                &&& x@ matches AnswerStateOf::User { target: shown_target, content: shown_content }
                &&& shown_target == target
                &&& shown_content == content@
            },
            AnswerStateOf::Thread { target, content, author, user_id } => {
                &&& x@ matches AnswerStateOf::Thread {
                    target: shown_target,
                    content: shown_content,
                    author: shown_author,
                    user_id: shown_user_id,
                }
                &&& shown_target == target
                &&& shown_content == content@
                &&& shown_author == author@
                &&& shown_user_id == user_id
            },
        },
{
}

/// A `Fresh` is seen as it is, part by part.
pub proof fn law_fresh_view(x: FreshOf<String>)
    ensures
        x@.token == x.token@,
        x@.captcha_id == x.captcha_id@,
        x@.salt == x.salt@,
{
}

/// A `AuthForm` is seen as it is, part by part.
pub proof fn law_auth_form_view(x: AuthFormOf<String>)
    ensures
        x@.username == x.username@,
        x@.password == x.password@,
        x@.action == x.action@,
        x@.captcha_id == x.captcha_id@,
        x@.captcha_solution == x.captcha_solution@,
        x@.csrf_token == x.csrf_token@,
{
}

/// A `LoginRequest` is seen as it is, part by part.
pub proof fn law_login_request_view(x: LoginRequestOf<CookieJar, AuthForm, String>)
    ensures
        x@.jar == jar_view(x.jar),
        x@.form == x.form@,
        x@.username == x.username@,
        x@.solution == x.solution@,
{
}

/// A `LoginState` is seen as it is, part by part.
pub proof fn law_login_state_view(x: LoginStateOf<LoginRequest, String>)
    ensures
        match x {
            LoginStateOf::Attempts(request) => x@ matches LoginStateOf::Attempts(shown) && shown == request@,
            LoginStateOf::Captcha(request) => x@ matches LoginStateOf::Captcha(shown) && shown == request@,
            LoginStateOf::Setting(request) => x@ matches LoginStateOf::Setting(shown) && shown == request@,
            LoginStateOf::Users { request, password_hash } => {
                &&& x@ matches LoginStateOf::Users {
                    request: shown_request,
                    password_hash: shown_password_hash,
                }
                &&& shown_request == request@
                &&& shown_password_hash == password_hash@
            },
            LoginStateOf::Insert { request, created_at, expires_at } => {
                &&& x@ matches LoginStateOf::Insert {
                    request: shown_request,
                    created_at: shown_created_at,
                    expires_at: shown_expires_at,
                }
                &&& shown_request == request@
                &&& shown_created_at == created_at
                &&& shown_expires_at == expires_at
            },
            LoginStateOf::Credentials(request) => x@ matches LoginStateOf::Credentials(shown) && shown == request@,
        },
{
}

/// A `LoginPageState` is seen as it is, part by part.
pub proof fn law_login_page_state_view(x: LoginPageStateOf<CookieJar, String>)
    ensures
        match x {
            LoginPageStateOf::User { jar, csrf_token, mode } => {
                &&& x@ matches LoginPageStateOf::User {
                    jar: shown_jar,
                    csrf_token: shown_csrf_token,
                    mode: shown_mode,
                }
                &&& shown_jar == jar_view(jar)
                &&& shown_csrf_token == csrf_token@
                &&& shown_mode == mode@
            },
            LoginPageStateOf::Setting { jar, csrf_token, mode, current_user } => {
                &&& x@ matches LoginPageStateOf::Setting {
                    jar: shown_jar,
                    csrf_token: shown_csrf_token,
                    mode: shown_mode,
                    current_user: shown_current_user,
                }
                &&& shown_jar == jar_view(jar)
                &&& shown_csrf_token == csrf_token@
                &&& shown_mode == mode@
                &&& shown_current_user == optional(current_user)
            },
        },
{
}

/// A `AdminTask` is seen as it is, part by part.
pub proof fn law_admin_task_view(x: AdminTaskOf<String>)
    ensures
        match x {
            AdminTaskOf::DeleteUser { user_id } => {
                &&& x@ matches AdminTaskOf::DeleteUser { user_id: shown_user_id }
                &&& shown_user_id == user_id
            },
            AdminTaskOf::DeleteThread { thread_id } => {
                &&& x@ matches AdminTaskOf::DeleteThread { thread_id: shown_thread_id }
                &&& shown_thread_id == thread_id
            },
            AdminTaskOf::CreateCategory { name } => {
                &&& x@ matches AdminTaskOf::CreateCategory { name: shown_name }
                &&& shown_name == name@
            },
            AdminTaskOf::DeleteCategory { category_id } => {
                &&& x@ matches AdminTaskOf::DeleteCategory { category_id: shown_category_id }
                &&& shown_category_id == category_id
            },
            AdminTaskOf::SetRegistration { enabled } => {
                &&& x@ matches AdminTaskOf::SetRegistration { enabled: shown_enabled }
                &&& shown_enabled == enabled@
            },
        },
{
}

/// A `AdminState` is seen as it is, part by part.
pub proof fn law_admin_state_view(x: AdminStateOf<AdminTask>)
    ensures
        match x {
            AdminStateOf::User(task) => x@ matches AdminStateOf::User(shown) && shown == task@,
            AdminStateOf::Count { category_id } => {
                &&& x@ matches AdminStateOf::Count { category_id: shown_category_id }
                &&& shown_category_id == category_id
            },
            AdminStateOf::Fallback { category_id } => {
                &&& x@ matches AdminStateOf::Fallback { category_id: shown_category_id }
                &&& shown_category_id == category_id
            },
        },
{
}

/// A `AdminPageState` is seen as it is, part by part.
pub proof fn law_admin_page_state_view(x: AdminPageState)
    ensures
        x@.jar == jar_view(x.jar),
        x@.page == x.page@,
        x@.stage == x.stage,
{
}

/// A `IndexState` is seen as it is, part by part.
pub proof fn law_index_state_view(x: IndexState)
    ensures
        x@.jar == jar_view(x.jar),
        x@.cat == optional(x.cat),
        x@.offset == x.offset,
        x@.page == x.page@,
        x@.stage == x.stage,
{
}

/// A `ThreadRequest` is seen as it is, part by part.
pub proof fn law_thread_request_view(x: ThreadRequestOf<String, CookieJar>)
    ensures
        x@.jar == jar_view(x.jar),
        x@.thread_id == x.thread_id,
        x@.page == x.page,
        x@.offset == x.offset,
        x@.csrf_token == x.csrf_token@,
        x@.current_user == optional(x.current_user),
        x@.is_admin == x.is_admin,
{
}

/// A `ThreadState` is seen as it is, part by part.
pub proof fn law_thread_state_view(x: ThreadStateOf<ThreadRequest, CookieJar, ThreadPage>)
    ensures
        match x {
            ThreadStateOf::User(request) => x@ matches ThreadStateOf::User(shown) && shown == request@,
            ThreadStateOf::Thread(request) => x@ matches ThreadStateOf::Thread(shown) && shown == request@,
            ThreadStateOf::Count { jar, thread_id, offset, page } => {
                &&& x@ matches ThreadStateOf::Count {
                    jar: shown_jar,
                    thread_id: shown_thread_id,
                    offset: shown_offset,
                    page: shown_page,
                }
                &&& shown_jar == jar_view(jar)
                &&& shown_thread_id == thread_id
                &&& shown_offset == offset
                &&& shown_page == page@
            },
            ThreadStateOf::Posts { jar, page } => {
                &&& x@ matches ThreadStateOf::Posts { jar: shown_jar, page: shown_page }
                &&& shown_jar == jar_view(jar)
                &&& shown_page == page@
            },
            ThreadStateOf::Comments { jar, page } => {
                &&& x@ matches ThreadStateOf::Comments { jar: shown_jar, page: shown_page }
                &&& shown_jar == jar_view(jar)
                &&& shown_page == page@
            },
        },
{
}

/// A `InitState` is seen as it is, part by part.
pub proof fn law_init_state_view(x: InitState)
    ensures
        x@ == x,
{
}

/// A `InitOutcome` is seen as it is, part by part.
pub proof fn law_init_outcome_view(x: InitOutcome)
    ensures
        x@ == x,
{
}

} // verus!
