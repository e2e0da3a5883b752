//! What the forum asks of its database: commands, the SQL that states them, and replies.
use vstd::prelude::*;

verus! {

/// A value in a row of the database. `T` is the type of text.
#[derive(Debug, PartialEq)]
pub enum CellOf<T> {
    Null,
    Int(i64),
    Text(T),
    /// A value of a kind that no column of the forum holds.
    Other,
}

/// A value that is read from the database, or bound to a parameter of a statement.
pub type Cell = CellOf<String>;

impl View for CellOf<String> {
    type V = CellOf<Seq<char>>;

    open spec fn view(&self) -> CellOf<Seq<char>> {
        match self {
            CellOf::Null => CellOf::Null,
            CellOf::Int(n) => CellOf::Int(*n),
            CellOf::Text(t) => CellOf::Text(t@),
            CellOf::Other => CellOf::Other,
        }
    }
}

/// The values of a row.
pub open spec fn row_view(row: Seq<Cell>) -> Seq<CellOf<Seq<char>>> {
    Seq::new(row.len(), |i: int| row[i]@)
}

/// The values of some rows.
pub open spec fn rows_view(rows: Seq<Vec<Cell>>) -> Seq<Seq<CellOf<Seq<char>>>> {
    Seq::new(rows.len(), |i: int| row_view(rows[i]@))
}

/// What came of a command. `R` is the type of the rows.
#[derive(Debug, PartialEq)]
pub enum ReplyOf<R> {
    /// The command could not be carried out.
    Failed,
    /// A statement without rows was carried out; `rowid` is the row that was inserted last.
    Done { rowid: i64 },
    /// The rows that a query found.
    Rows(R),
}

/// What came of a command.
pub type Reply = ReplyOf<Vec<Vec<Cell>>>;

impl View for ReplyOf<Vec<Vec<Cell>>> {
    type V = ReplyOf<Seq<Seq<CellOf<Seq<char>>>>>;

    open spec fn view(&self) -> ReplyOf<Seq<Seq<CellOf<Seq<char>>>>> {
        match self {
            ReplyOf::Failed => ReplyOf::Failed,
            ReplyOf::Done { rowid } => ReplyOf::Done { rowid: *rowid },
            ReplyOf::Rows(rows) => ReplyOf::Rows(rows_view(rows@)),
        }
    }
}

/// How a command is carried out.
#[derive(Debug, Clone, Copy, PartialEq, Eq, Structural)]
pub enum Shape {
    /// Several statements, without parameters or rows.
    Batch,
    /// One statement without rows.
    Execute,
    /// A query of which the first row counts.
    First,
    /// A query of which every row counts.
    All,
}

/// A command to the database. `T` is the type of text, `I` that of lists of row numbers.
#[derive(Debug, PartialEq)]
pub enum CommandOf<T, I> {
    CreateTables,
    AddUserIsAdmin,
    AddThreadUser,
    AddPostUser,
    AddCommentUser,
    CountSessionExpiry,
    AddSessionExpiry,
    PurgeSessions { now: i64 },
    CountCategories,
    InsertDefaultCategory { slug: T, name: T },
    FirstCategory,
    AdoptThreads { category_id: i64 },
    FindSessionUser { token: T, now: i64 },
    RegistrationSetting,
    ListCategories,
    FindCategory { slug: T },
    CountThreadsIn { category_id: i64 },
    CountThreads,
    ListThreadsIn { category_id: i64, limit: i64, offset: i64 },
    ListThreads { limit: i64, offset: i64 },
    RecentPosts,
    ListMembers,
    FindThread { thread_id: i64 },
    CountPosts { thread_id: i64 },
    ListPosts { thread_id: i64, limit: i64, offset: i64 },
    ListComments { post_ids: I },
    InsertThread { title: T, created_at: i64, category_id: i64, user_id: i64 },
    InsertPost { thread_id: i64, author: T, content: T, created_at: i64, user_id: i64 },
    CountNewPost { now: i64, thread_id: i64 },
    ThreadExists { thread_id: i64 },
    ThreadOfPost { post_id: i64 },
    InsertComment { post_id: i64, author: T, content: T, created_at: i64, user_id: i64 },
    TouchThread { now: i64, thread_id: i64 },
    CountAttempts { username: T, since: i64 },
    FindCaptcha { id: T, now: i64 },
    DeleteCaptcha { id: T },
    InsertAttempt { username: T, now: i64 },
    CountUsers,
    InsertUser { username: T, password_hash: T, created_at: i64, is_admin: i64 },
    InsertSession { token: T, user_id: i64, created_at: i64, expires_at: i64 },
    ClearAttempts { username: T },
    FindCredentials { username: T },
    DeleteSession { token: T },
    DeleteUserThreads { user_id: i64 },
    DeleteUserPosts { user_id: i64 },
    DeleteUserComments { user_id: i64 },
    DeleteUser { user_id: i64 },
    DeleteThread { thread_id: i64 },
    InsertCategory { slug: T, name: T },
    FallbackCategory { category_id: i64 },
    MoveThreads { to: i64, from: i64 },
    DeleteCategory { category_id: i64 },
    SetRegistration { value: T },
    StoreCaptcha { id: T, solution: T, expires_at: i64 },
    PurgeCaptchas { now: i64 },
}

/// A command to the database.
pub type Command = CommandOf<String, Vec<i64>>;

/// A command as contracts speak of it.
pub type CommandView = CommandOf<Seq<char>, Seq<i64>>;

impl View for CommandOf<String, Vec<i64>> {
    type V = CommandView;

    open spec fn view(&self) -> CommandView {
        match self {
            CommandOf::CreateTables => CommandOf::CreateTables,
            CommandOf::AddUserIsAdmin => CommandOf::AddUserIsAdmin,
            CommandOf::AddThreadUser => CommandOf::AddThreadUser,
            CommandOf::AddPostUser => CommandOf::AddPostUser,
            CommandOf::AddCommentUser => CommandOf::AddCommentUser,
            CommandOf::CountSessionExpiry => CommandOf::CountSessionExpiry,
            CommandOf::AddSessionExpiry => CommandOf::AddSessionExpiry,
            CommandOf::PurgeSessions { now } => CommandOf::PurgeSessions { now: *now },
            CommandOf::CountCategories => CommandOf::CountCategories,
            CommandOf::InsertDefaultCategory { slug, name } => CommandOf::InsertDefaultCategory {
                slug: slug@,
                name: name@,
            },
            CommandOf::FirstCategory => CommandOf::FirstCategory,
            CommandOf::AdoptThreads { category_id } => CommandOf::AdoptThreads {
                category_id: *category_id,
            },
            CommandOf::FindSessionUser { token, now } => CommandOf::FindSessionUser {
                token: token@,
                now: *now,
            },
            CommandOf::RegistrationSetting => CommandOf::RegistrationSetting,
            CommandOf::ListCategories => CommandOf::ListCategories,
            CommandOf::FindCategory { slug } => CommandOf::FindCategory { slug: slug@ },
            CommandOf::CountThreadsIn { category_id } => CommandOf::CountThreadsIn {
                category_id: *category_id,
            },
            CommandOf::CountThreads => CommandOf::CountThreads,
            CommandOf::ListThreadsIn { category_id, limit, offset } => CommandOf::ListThreadsIn {
                category_id: *category_id,
                limit: *limit,
                offset: *offset,
            },
            CommandOf::ListThreads { limit, offset } => CommandOf::ListThreads {
                limit: *limit,
                offset: *offset,
            },
            CommandOf::RecentPosts => CommandOf::RecentPosts,
            CommandOf::ListMembers => CommandOf::ListMembers,
            CommandOf::FindThread { thread_id } => CommandOf::FindThread { thread_id: *thread_id },
            CommandOf::CountPosts { thread_id } => CommandOf::CountPosts { thread_id: *thread_id },
            CommandOf::ListPosts { thread_id, limit, offset } => CommandOf::ListPosts {
                thread_id: *thread_id,
                limit: *limit,
                offset: *offset,
            },
            CommandOf::ListComments { post_ids } => CommandOf::ListComments { post_ids: post_ids@ },
            CommandOf::InsertThread { title, created_at, category_id, user_id } => CommandOf::InsertThread {
                title: title@,
                created_at: *created_at,
                category_id: *category_id,
                user_id: *user_id,
            },
            CommandOf::InsertPost { thread_id, author, content, created_at, user_id } => CommandOf::InsertPost {
                thread_id: *thread_id,
                author: author@,
                content: content@,
                created_at: *created_at,
                user_id: *user_id,
            },
            CommandOf::CountNewPost { now, thread_id } => CommandOf::CountNewPost {
                now: *now,
                thread_id: *thread_id,
            },
            CommandOf::ThreadExists { thread_id } => CommandOf::ThreadExists {
                thread_id: *thread_id,
            },
            CommandOf::ThreadOfPost { post_id } => CommandOf::ThreadOfPost { post_id: *post_id },
            CommandOf::InsertComment { post_id, author, content, created_at, user_id } => CommandOf::InsertComment {
                post_id: *post_id,
                author: author@,
                content: content@,
                created_at: *created_at,
                user_id: *user_id,
            },
            CommandOf::TouchThread { now, thread_id } => CommandOf::TouchThread {
                now: *now,
                thread_id: *thread_id,
            },
            CommandOf::CountAttempts { username, since } => CommandOf::CountAttempts {
                username: username@,
                since: *since,
            },
            CommandOf::FindCaptcha { id, now } => CommandOf::FindCaptcha { id: id@, now: *now },
            CommandOf::DeleteCaptcha { id } => CommandOf::DeleteCaptcha { id: id@ },
            CommandOf::InsertAttempt { username, now } => CommandOf::InsertAttempt {
                username: username@,
                now: *now,
            },
            CommandOf::CountUsers => CommandOf::CountUsers,
            CommandOf::InsertUser { username, password_hash, created_at, is_admin } => CommandOf::InsertUser {
                username: username@,
                password_hash: password_hash@,
                created_at: *created_at,
                is_admin: *is_admin,
            },
            CommandOf::InsertSession { token, user_id, created_at, expires_at } => CommandOf::InsertSession {
                token: token@,
                user_id: *user_id,
                created_at: *created_at,
                expires_at: *expires_at,
            },
            CommandOf::ClearAttempts { username } => CommandOf::ClearAttempts {
                username: username@,
            },
            CommandOf::FindCredentials { username } => CommandOf::FindCredentials {
                username: username@,
            },
            CommandOf::DeleteSession { token } => CommandOf::DeleteSession { token: token@ },
            CommandOf::DeleteUserThreads { user_id } => CommandOf::DeleteUserThreads {
                user_id: *user_id,
            },
            CommandOf::DeleteUserPosts { user_id } => CommandOf::DeleteUserPosts {
                user_id: *user_id,
            },
            CommandOf::DeleteUserComments { user_id } => CommandOf::DeleteUserComments {
                user_id: *user_id,
            },
            CommandOf::DeleteUser { user_id } => CommandOf::DeleteUser { user_id: *user_id },
            CommandOf::DeleteThread { thread_id } => CommandOf::DeleteThread {
                thread_id: *thread_id,
            },
            CommandOf::InsertCategory { slug, name } => CommandOf::InsertCategory {
                slug: slug@,
                name: name@,
            },
            CommandOf::FallbackCategory { category_id } => CommandOf::FallbackCategory {
                category_id: *category_id,
            },
            CommandOf::MoveThreads { to, from } => CommandOf::MoveThreads { to: *to, from: *from },
            CommandOf::DeleteCategory { category_id } => CommandOf::DeleteCategory {
                category_id: *category_id,
            },
            CommandOf::SetRegistration { value } => CommandOf::SetRegistration { value: value@ },
            CommandOf::StoreCaptcha { id, solution, expires_at } => CommandOf::StoreCaptcha {
                id: id@,
                solution: solution@,
                expires_at: *expires_at,
            },
            CommandOf::PurgeCaptchas { now } => CommandOf::PurgeCaptchas { now: *now },
        }
    }
}

} // verus!
