//! The SQL that states each command, and the values bound to its parameters.
use vstd::prelude::*;
use crate::store::{row_view, Cell, CellOf, CommandOf, CommandView, Shape};

verus! {

pub const CREATE_TABLES: &'static str = "
PRAGMA journal_mode=WAL;
PRAGMA synchronous=NORMAL;
PRAGMA foreign_keys=ON;
PRAGMA cache_size=-2000;
PRAGMA temp_store=MEMORY;
PRAGMA wal_autocheckpoint=500;

CREATE TABLE IF NOT EXISTS users (
    id            INTEGER PRIMARY KEY AUTOINCREMENT,
    username      TEXT UNIQUE NOT NULL,
    password_hash TEXT NOT NULL,
    created_at    INTEGER NOT NULL,
    is_admin      INTEGER NOT NULL DEFAULT 0
);

CREATE TABLE IF NOT EXISTS sessions (
    token      TEXT PRIMARY KEY,
    user_id    INTEGER NOT NULL,
    created_at INTEGER NOT NULL,
    expires_at INTEGER NOT NULL,
    FOREIGN KEY(user_id) REFERENCES users(id) ON DELETE CASCADE
);

CREATE TABLE IF NOT EXISTS captchas (
    id         TEXT PRIMARY KEY,
    solution   TEXT NOT NULL,
    expires_at INTEGER NOT NULL
);

CREATE TABLE IF NOT EXISTS login_attempts (
    username     TEXT NOT NULL,
    attempt_time INTEGER NOT NULL
);
CREATE INDEX IF NOT EXISTS idx_login_attempts ON login_attempts(username, attempt_time);

CREATE TABLE IF NOT EXISTS categories (
    id      INTEGER PRIMARY KEY AUTOINCREMENT,
    slug    TEXT UNIQUE NOT NULL,
    name    TEXT NOT NULL
);

CREATE TABLE IF NOT EXISTS threads (
    id              INTEGER PRIMARY KEY AUTOINCREMENT,
    title           TEXT NOT NULL,
    posts_count     INTEGER NOT NULL DEFAULT 0,
    created_at      INTEGER NOT NULL,
    last_activity_at INTEGER NOT NULL,
    category_id     INTEGER,
    user_id         INTEGER REFERENCES users(id) ON DELETE SET NULL
);

CREATE TABLE IF NOT EXISTS posts (
    id          INTEGER PRIMARY KEY AUTOINCREMENT,
    thread_id   INTEGER NOT NULL,
    author      TEXT,
    content     TEXT NOT NULL,
    created_at  INTEGER NOT NULL,
    user_id     INTEGER REFERENCES users(id) ON DELETE SET NULL,
    FOREIGN KEY(thread_id) REFERENCES threads(id) ON DELETE CASCADE
);

CREATE INDEX IF NOT EXISTS idx_threads_last_activity ON threads(last_activity_at DESC);
CREATE INDEX IF NOT EXISTS idx_posts_thread_id ON posts(thread_id);

CREATE TABLE IF NOT EXISTS comments (
    id          INTEGER PRIMARY KEY AUTOINCREMENT,
    post_id     INTEGER NOT NULL,
    author      TEXT,
    content     TEXT NOT NULL,
    created_at  INTEGER NOT NULL,
    user_id     INTEGER REFERENCES users(id) ON DELETE SET NULL,
    FOREIGN KEY(post_id) REFERENCES posts(id) ON DELETE CASCADE
);
CREATE INDEX IF NOT EXISTS idx_comments_post_id ON comments(post_id);
CREATE INDEX IF NOT EXISTS idx_threads_category ON threads(category_id);

CREATE TABLE IF NOT EXISTS app_settings (
    key   TEXT PRIMARY KEY,
    value TEXT NOT NULL
);
INSERT OR IGNORE INTO app_settings (key, value) VALUES ('registration_enabled', '1');
";

pub const ADD_USER_IS_ADMIN: &'static str = "ALTER TABLE users ADD COLUMN is_admin INTEGER NOT NULL DEFAULT 0";

pub const ADD_THREAD_USER: &'static str = "ALTER TABLE threads ADD COLUMN user_id INTEGER REFERENCES users(id) ON DELETE SET NULL";

pub const ADD_POST_USER: &'static str = "ALTER TABLE posts ADD COLUMN user_id INTEGER REFERENCES users(id) ON DELETE SET NULL";

pub const ADD_COMMENT_USER: &'static str = "ALTER TABLE comments ADD COLUMN user_id INTEGER REFERENCES users(id) ON DELETE SET NULL";

pub const COUNT_SESSION_EXPIRY: &'static str = "SELECT COUNT(*) FROM pragma_table_info('sessions') WHERE name = 'expires_at'";

pub const ADD_SESSION_EXPIRY: &'static str = "ALTER TABLE sessions ADD COLUMN expires_at INTEGER NOT NULL DEFAULT 0";

pub const PURGE_SESSIONS: &'static str = "DELETE FROM sessions WHERE expires_at <= ?";

pub const COUNT_CATEGORIES: &'static str = "SELECT COUNT(*) FROM categories";

pub const INSERT_DEFAULT_CATEGORY: &'static str = "INSERT INTO categories (slug, name) VALUES (?, ?)";

pub const FIRST_CATEGORY: &'static str = "SELECT id FROM categories ORDER BY id ASC LIMIT 1";

pub const ADOPT_THREADS: &'static str = "UPDATE threads SET category_id = COALESCE(category_id, ?) WHERE category_id IS NULL";

pub const FIND_SESSION_USER: &'static str = "SELECT u.id, u.username, u.is_admin FROM users u JOIN sessions s ON s.user_id = u.id WHERE s.token = ? AND s.expires_at > ?";

pub const REGISTRATION_SETTING: &'static str = "SELECT value FROM app_settings WHERE key = 'registration_enabled'";

pub const LIST_CATEGORIES: &'static str = "SELECT id, slug, name FROM categories ORDER BY name ASC";

pub const FIND_CATEGORY: &'static str = "SELECT id, slug, name FROM categories WHERE slug = ?";

pub const COUNT_THREADS_IN: &'static str = "SELECT COUNT(*) FROM threads WHERE category_id = ?";

pub const COUNT_THREADS: &'static str = "SELECT COUNT(*) FROM threads";

pub const LIST_THREADS_IN: &'static str = "SELECT t.id, t.title, t.posts_count, t.created_at, t.last_activity_at, c.name, c.slug, u.username FROM threads t LEFT JOIN categories c ON c.id = t.category_id LEFT JOIN users u ON u.id = t.user_id WHERE t.category_id = ? ORDER BY t.last_activity_at DESC, t.id DESC LIMIT ? OFFSET ?";

pub const LIST_THREADS: &'static str = "SELECT t.id, t.title, t.posts_count, t.created_at, t.last_activity_at, c.name, c.slug, u.username FROM threads t LEFT JOIN categories c ON c.id = t.category_id LEFT JOIN users u ON u.id = t.user_id ORDER BY t.last_activity_at DESC, t.id DESC LIMIT ? OFFSET ?";

pub const RECENT_POSTS: &'static str = "SELECT p.id, p.created_at, COALESCE(u.username, p.author) as author, p.content, t.id, t.title, c.name, c.slug FROM posts p JOIN threads t ON t.id = p.thread_id LEFT JOIN categories c ON c.id = t.category_id LEFT JOIN users u ON u.id = p.user_id ORDER BY p.id DESC LIMIT 10";

pub const LIST_MEMBERS: &'static str = "SELECT id, username, created_at FROM users WHERE is_admin = 0 ORDER BY created_at DESC";

pub const FIND_THREAD: &'static str = "SELECT t.id, t.title, t.posts_count, t.created_at, t.last_activity_at, c.name, c.slug, u.username FROM threads t LEFT JOIN categories c ON c.id = t.category_id LEFT JOIN users u ON u.id = t.user_id WHERE t.id = ?";

pub const COUNT_POSTS: &'static str = "SELECT COUNT(*) FROM posts WHERE thread_id = ?";

pub const LIST_POSTS: &'static str = "SELECT p.id, COALESCE(u.username, p.author), p.content, p.created_at FROM posts p LEFT JOIN users u ON u.id = p.user_id WHERE p.thread_id = ? ORDER BY p.id ASC LIMIT ? OFFSET ?";

pub const INSERT_THREAD: &'static str = "INSERT INTO threads (title, posts_count, created_at, last_activity_at, category_id, user_id) VALUES (?, 0, ?, ?, ?, ?)";

pub const INSERT_POST: &'static str = "INSERT INTO posts (thread_id, author, content, created_at, user_id) VALUES (?, ?, ?, ?, ?)";

pub const COUNT_NEW_POST: &'static str = "UPDATE threads SET posts_count = posts_count + 1, last_activity_at=? WHERE id=?";

pub const THREAD_EXISTS: &'static str = "SELECT 1 FROM threads WHERE id=?";

pub const THREAD_OF_POST: &'static str = "SELECT thread_id FROM posts WHERE id=?";

pub const INSERT_COMMENT: &'static str = "INSERT INTO comments (post_id, author, content, created_at, user_id) VALUES (?, ?, ?, ?, ?)";

pub const TOUCH_THREAD: &'static str = "UPDATE threads SET last_activity_at=? WHERE id=?";

pub const COUNT_ATTEMPTS: &'static str = "SELECT COUNT(*) FROM login_attempts WHERE username = ? AND attempt_time > ?";

pub const FIND_CAPTCHA: &'static str = "SELECT solution FROM captchas WHERE id = ? AND expires_at > ?";

pub const DELETE_CAPTCHA: &'static str = "DELETE FROM captchas WHERE id = ?";

pub const INSERT_ATTEMPT: &'static str = "INSERT INTO login_attempts (username, attempt_time) VALUES (?, ?)";

pub const COUNT_USERS: &'static str = "SELECT COUNT(*) FROM users";

pub const INSERT_USER: &'static str = "INSERT INTO users (username, password_hash, created_at, is_admin) VALUES (?, ?, ?, ?)";

pub const INSERT_SESSION: &'static str = "INSERT INTO sessions (token, user_id, created_at, expires_at) VALUES (?, ?, ?, ?)";

pub const CLEAR_ATTEMPTS: &'static str = "DELETE FROM login_attempts WHERE username = ?";

pub const FIND_CREDENTIALS: &'static str = "SELECT id, password_hash FROM users WHERE username = ?";

pub const DELETE_SESSION: &'static str = "DELETE FROM sessions WHERE token = ?";

pub const DELETE_USER_THREADS: &'static str = "DELETE FROM threads WHERE user_id = ?";

pub const DELETE_USER_POSTS: &'static str = "DELETE FROM posts WHERE user_id = ?";

pub const DELETE_USER_COMMENTS: &'static str = "DELETE FROM comments WHERE user_id = ?";

pub const DELETE_USER: &'static str = "DELETE FROM users WHERE id = ?";

pub const DELETE_THREAD: &'static str = "DELETE FROM threads WHERE id = ?";

pub const INSERT_CATEGORY: &'static str = "INSERT OR IGNORE INTO categories (slug, name) VALUES (?, ?)";

pub const FALLBACK_CATEGORY: &'static str = "SELECT id FROM categories WHERE id != ? ORDER BY id ASC LIMIT 1";

pub const MOVE_THREADS: &'static str = "UPDATE threads SET category_id = ? WHERE category_id = ?";

pub const DELETE_CATEGORY: &'static str = "DELETE FROM categories WHERE id = ?";

pub const SET_REGISTRATION: &'static str = "INSERT INTO app_settings (key, value) VALUES ('registration_enabled', ?) ON CONFLICT(key) DO UPDATE SET value = excluded.value";

pub const STORE_CAPTCHA: &'static str = "INSERT OR REPLACE INTO captchas (id, solution, expires_at) VALUES (?, ?, ?)";

pub const PURGE_CAPTCHAS: &'static str = "DELETE FROM captchas WHERE expires_at < ?";

pub const LIST_COMMENTS_HEAD: &'static str = "SELECT c.id, c.post_id, COALESCE(u.username, c.author), c.content, c.created_at FROM comments c LEFT JOIN users u ON u.id = c.user_id WHERE c.post_id IN (";

pub const LIST_COMMENTS_TAIL: &'static str = ") ORDER BY c.id ASC";

/// `n` parameter marks, with a comma between each two.
pub open spec fn marks(n: nat) -> Seq<char>
    decreases n,
{
    if n == 0 {
        Seq::empty()
    } else if n == 1 {
        seq!['?']
    } else {
        marks((n - 1) as nat) + seq![',', '?']
    }
}

/// The statement of a command.
pub open spec fn sql_of(command: CommandView) -> Seq<char> {
    match command {
        CommandOf::CreateTables => CREATE_TABLES@,
        CommandOf::AddUserIsAdmin => ADD_USER_IS_ADMIN@,
        CommandOf::AddThreadUser => ADD_THREAD_USER@,
        CommandOf::AddPostUser => ADD_POST_USER@,
        CommandOf::AddCommentUser => ADD_COMMENT_USER@,
        CommandOf::CountSessionExpiry => COUNT_SESSION_EXPIRY@,
        CommandOf::AddSessionExpiry => ADD_SESSION_EXPIRY@,
        CommandOf::PurgeSessions { .. } => PURGE_SESSIONS@,
        CommandOf::CountCategories => COUNT_CATEGORIES@,
        CommandOf::InsertDefaultCategory { .. } => INSERT_DEFAULT_CATEGORY@,
        CommandOf::FirstCategory => FIRST_CATEGORY@,
        CommandOf::AdoptThreads { .. } => ADOPT_THREADS@,
        CommandOf::FindSessionUser { .. } => FIND_SESSION_USER@,
        CommandOf::RegistrationSetting => REGISTRATION_SETTING@,
        CommandOf::ListCategories => LIST_CATEGORIES@,
        CommandOf::FindCategory { .. } => FIND_CATEGORY@,
        CommandOf::CountThreadsIn { .. } => COUNT_THREADS_IN@,
        CommandOf::CountThreads => COUNT_THREADS@,
        CommandOf::ListThreadsIn { .. } => LIST_THREADS_IN@,
        CommandOf::ListThreads { .. } => LIST_THREADS@,
        CommandOf::RecentPosts => RECENT_POSTS@,
        CommandOf::ListMembers => LIST_MEMBERS@,
        CommandOf::FindThread { .. } => FIND_THREAD@,
        CommandOf::CountPosts { .. } => COUNT_POSTS@,
        CommandOf::ListPosts { .. } => LIST_POSTS@,
        CommandOf::ListComments { post_ids } => LIST_COMMENTS_HEAD@ + marks(post_ids.len())
            + LIST_COMMENTS_TAIL@,
        CommandOf::InsertThread { .. } => INSERT_THREAD@,
        CommandOf::InsertPost { .. } => INSERT_POST@,
        CommandOf::CountNewPost { .. } => COUNT_NEW_POST@,
        CommandOf::ThreadExists { .. } => THREAD_EXISTS@,
        CommandOf::ThreadOfPost { .. } => THREAD_OF_POST@,
        CommandOf::InsertComment { .. } => INSERT_COMMENT@,
        CommandOf::TouchThread { .. } => TOUCH_THREAD@,
        CommandOf::CountAttempts { .. } => COUNT_ATTEMPTS@,
        CommandOf::FindCaptcha { .. } => FIND_CAPTCHA@,
        CommandOf::DeleteCaptcha { .. } => DELETE_CAPTCHA@,
        CommandOf::InsertAttempt { .. } => INSERT_ATTEMPT@,
        CommandOf::CountUsers => COUNT_USERS@,
        CommandOf::InsertUser { .. } => INSERT_USER@,
        CommandOf::InsertSession { .. } => INSERT_SESSION@,
        CommandOf::ClearAttempts { .. } => CLEAR_ATTEMPTS@,
        CommandOf::FindCredentials { .. } => FIND_CREDENTIALS@,
        CommandOf::DeleteSession { .. } => DELETE_SESSION@,
        CommandOf::DeleteUserThreads { .. } => DELETE_USER_THREADS@,
        CommandOf::DeleteUserPosts { .. } => DELETE_USER_POSTS@,
        CommandOf::DeleteUserComments { .. } => DELETE_USER_COMMENTS@,
        CommandOf::DeleteUser { .. } => DELETE_USER@,
        CommandOf::DeleteThread { .. } => DELETE_THREAD@,
        CommandOf::InsertCategory { .. } => INSERT_CATEGORY@,
        CommandOf::FallbackCategory { .. } => FALLBACK_CATEGORY@,
        CommandOf::MoveThreads { .. } => MOVE_THREADS@,
        CommandOf::DeleteCategory { .. } => DELETE_CATEGORY@,
        CommandOf::SetRegistration { .. } => SET_REGISTRATION@,
        CommandOf::StoreCaptcha { .. } => STORE_CAPTCHA@,
        CommandOf::PurgeCaptchas { .. } => PURGE_CAPTCHAS@,
    }
}

/// The values of a command, in the order of its parameter marks.
pub open spec fn params_of(command: CommandView) -> Seq<CellOf<Seq<char>>> {
    match command {
        CommandOf::CreateTables => Seq::empty(),
        CommandOf::AddUserIsAdmin => Seq::empty(),
        CommandOf::AddThreadUser => Seq::empty(),
        CommandOf::AddPostUser => Seq::empty(),
        CommandOf::AddCommentUser => Seq::empty(),
        CommandOf::CountSessionExpiry => Seq::empty(),
        CommandOf::AddSessionExpiry => Seq::empty(),
        CommandOf::PurgeSessions { now } => seq![CellOf::Int(now)],
        CommandOf::CountCategories => Seq::empty(),
        CommandOf::InsertDefaultCategory { slug, name } => seq![
            CellOf::Text(slug),
            CellOf::Text(name),
        ],
        CommandOf::FirstCategory => Seq::empty(),
        CommandOf::AdoptThreads { category_id } => seq![CellOf::Int(category_id)],
        CommandOf::FindSessionUser { token, now } => seq![CellOf::Text(token), CellOf::Int(now)],
        CommandOf::RegistrationSetting => Seq::empty(),
        CommandOf::ListCategories => Seq::empty(),
        CommandOf::FindCategory { slug } => seq![CellOf::Text(slug)],
        CommandOf::CountThreadsIn { category_id } => seq![CellOf::Int(category_id)],
        CommandOf::CountThreads => Seq::empty(),
        CommandOf::ListThreadsIn { category_id, limit, offset } => seq![
            CellOf::Int(category_id),
            CellOf::Int(limit),
            CellOf::Int(offset),
        ],
        CommandOf::ListThreads { limit, offset } => seq![CellOf::Int(limit), CellOf::Int(offset)],
        CommandOf::RecentPosts => Seq::empty(),
        CommandOf::ListMembers => Seq::empty(),
        CommandOf::FindThread { thread_id } => seq![CellOf::Int(thread_id)],
        CommandOf::CountPosts { thread_id } => seq![CellOf::Int(thread_id)],
        CommandOf::ListPosts { thread_id, limit, offset } => seq![
            CellOf::Int(thread_id),
            CellOf::Int(limit),
            CellOf::Int(offset),
        ],
        CommandOf::ListComments { post_ids } => Seq::new(
            post_ids.len(),
            |i: int| CellOf::Int(post_ids[i]),
        ),
        CommandOf::InsertThread { title, created_at, category_id, user_id } => seq![
            CellOf::Text(title),
            CellOf::Int(created_at),
            CellOf::Int(created_at),
            CellOf::Int(category_id),
            CellOf::Int(user_id),
        ],
        CommandOf::InsertPost { thread_id, author, content, created_at, user_id } => seq![
            CellOf::Int(thread_id),
            CellOf::Text(author),
            CellOf::Text(content),
            CellOf::Int(created_at),
            CellOf::Int(user_id),
        ],
        CommandOf::CountNewPost { now, thread_id } => seq![
            CellOf::Int(now),
            CellOf::Int(thread_id),
        ],
        CommandOf::ThreadExists { thread_id } => seq![CellOf::Int(thread_id)],
        CommandOf::ThreadOfPost { post_id } => seq![CellOf::Int(post_id)],
        CommandOf::InsertComment { post_id, author, content, created_at, user_id } => seq![
            CellOf::Int(post_id),
            CellOf::Text(author),
            CellOf::Text(content),
            CellOf::Int(created_at),
            CellOf::Int(user_id),
        ],
        CommandOf::TouchThread { now, thread_id } => seq![CellOf::Int(now), CellOf::Int(thread_id)],
        CommandOf::CountAttempts { username, since } => seq![
            CellOf::Text(username),
            CellOf::Int(since),
        ],
        CommandOf::FindCaptcha { id, now } => seq![CellOf::Text(id), CellOf::Int(now)],
        CommandOf::DeleteCaptcha { id } => seq![CellOf::Text(id)],
        CommandOf::InsertAttempt { username, now } => seq![
            CellOf::Text(username),
            CellOf::Int(now),
        ],
        CommandOf::CountUsers => Seq::empty(),
        CommandOf::InsertUser { username, password_hash, created_at, is_admin } => seq![
            CellOf::Text(username),
            CellOf::Text(password_hash),
            CellOf::Int(created_at),
            CellOf::Int(is_admin),
        ],
        CommandOf::InsertSession { token, user_id, created_at, expires_at } => seq![
            CellOf::Text(token),
            CellOf::Int(user_id),
            CellOf::Int(created_at),
            CellOf::Int(expires_at),
        ],
        CommandOf::ClearAttempts { username } => seq![CellOf::Text(username)],
        CommandOf::FindCredentials { username } => seq![CellOf::Text(username)],
        CommandOf::DeleteSession { token } => seq![CellOf::Text(token)],
        CommandOf::DeleteUserThreads { user_id } => seq![CellOf::Int(user_id)],
        CommandOf::DeleteUserPosts { user_id } => seq![CellOf::Int(user_id)],
        CommandOf::DeleteUserComments { user_id } => seq![CellOf::Int(user_id)],
        CommandOf::DeleteUser { user_id } => seq![CellOf::Int(user_id)],
        CommandOf::DeleteThread { thread_id } => seq![CellOf::Int(thread_id)],
        CommandOf::InsertCategory { slug, name } => seq![CellOf::Text(slug), CellOf::Text(name)],
        CommandOf::FallbackCategory { category_id } => seq![CellOf::Int(category_id)],
        CommandOf::MoveThreads { to, from } => seq![CellOf::Int(to), CellOf::Int(from)],
        CommandOf::DeleteCategory { category_id } => seq![CellOf::Int(category_id)],
        CommandOf::SetRegistration { value } => seq![CellOf::Text(value)],
        CommandOf::StoreCaptcha { id, solution, expires_at } => seq![
            CellOf::Text(id),
            CellOf::Text(solution),
            CellOf::Int(expires_at),
        ],
        CommandOf::PurgeCaptchas { now } => seq![CellOf::Int(now)],
    }
}

/// How a command is carried out.
pub open spec fn shape_of(command: CommandView) -> Shape {
    match command {
        CommandOf::CreateTables => Shape::Batch,
        CommandOf::CountSessionExpiry
        | CommandOf::CountCategories
        | CommandOf::FirstCategory
        | CommandOf::FindSessionUser { .. }
        | CommandOf::RegistrationSetting
        | CommandOf::FindCategory { .. }
        | CommandOf::CountThreadsIn { .. }
        | CommandOf::CountThreads
        | CommandOf::FindThread { .. }
        | CommandOf::CountPosts { .. }
        | CommandOf::ThreadExists { .. }
        | CommandOf::ThreadOfPost { .. }
        | CommandOf::CountAttempts { .. }
        | CommandOf::FindCaptcha { .. }
        | CommandOf::CountUsers
        | CommandOf::FindCredentials { .. }
        | CommandOf::FallbackCategory { .. } => Shape::First,
        CommandOf::ListCategories
        | CommandOf::ListThreadsIn { .. }
        | CommandOf::ListThreads { .. }
        | CommandOf::RecentPosts
        | CommandOf::ListMembers
        | CommandOf::ListPosts { .. }
        | CommandOf::ListComments { .. } => Shape::All,
        _ => Shape::Execute,
    }
}

/// The statement that asks for the comments on `n` posts.
fn comments_sql(n: usize) -> (r: String)
    ensures
        r@ == LIST_COMMENTS_HEAD@ + marks(n as nat) + LIST_COMMENTS_TAIL@,
{
    let mut sql = String::new();
    sql.append(LIST_COMMENTS_HEAD);
    proof {
        assert(sql@ =~= LIST_COMMENTS_HEAD@ + marks(0));
    }
    for i in 0..n
        invariant
            sql@ == LIST_COMMENTS_HEAD@ + marks(i as nat),
    {
        if i > 0 {
            sql.push(',');
        }
        sql.push('?');
        proof {
            assert(sql@ =~= LIST_COMMENTS_HEAD@ + marks((i + 1) as nat));
        }
    }
    sql.append(LIST_COMMENTS_TAIL);
    sql
}

impl CommandOf<String, Vec<i64>> {
    /// The statement of the command.
    pub fn sql(&self) -> (r: String)
        ensures
            r@ == sql_of(self@),
    {
        match self {
            CommandOf::ListComments { post_ids } => comments_sql(post_ids.len()),
            CommandOf::CreateTables => CREATE_TABLES.to_owned(),
            CommandOf::AddUserIsAdmin => ADD_USER_IS_ADMIN.to_owned(),
            CommandOf::AddThreadUser => ADD_THREAD_USER.to_owned(),
            CommandOf::AddPostUser => ADD_POST_USER.to_owned(),
            CommandOf::AddCommentUser => ADD_COMMENT_USER.to_owned(),
            CommandOf::CountSessionExpiry => COUNT_SESSION_EXPIRY.to_owned(),
            CommandOf::AddSessionExpiry => ADD_SESSION_EXPIRY.to_owned(),
            CommandOf::PurgeSessions { .. } => PURGE_SESSIONS.to_owned(),
            CommandOf::CountCategories => COUNT_CATEGORIES.to_owned(),
            CommandOf::InsertDefaultCategory { .. } => INSERT_DEFAULT_CATEGORY.to_owned(),
            CommandOf::FirstCategory => FIRST_CATEGORY.to_owned(),
            CommandOf::AdoptThreads { .. } => ADOPT_THREADS.to_owned(),
            CommandOf::FindSessionUser { .. } => FIND_SESSION_USER.to_owned(),
            CommandOf::RegistrationSetting => REGISTRATION_SETTING.to_owned(),
            CommandOf::ListCategories => LIST_CATEGORIES.to_owned(),
            CommandOf::FindCategory { .. } => FIND_CATEGORY.to_owned(),
            CommandOf::CountThreadsIn { .. } => COUNT_THREADS_IN.to_owned(),
            CommandOf::CountThreads => COUNT_THREADS.to_owned(),
            CommandOf::ListThreadsIn { .. } => LIST_THREADS_IN.to_owned(),
            CommandOf::ListThreads { .. } => LIST_THREADS.to_owned(),
            CommandOf::RecentPosts => RECENT_POSTS.to_owned(),
            CommandOf::ListMembers => LIST_MEMBERS.to_owned(),
            CommandOf::FindThread { .. } => FIND_THREAD.to_owned(),
            CommandOf::CountPosts { .. } => COUNT_POSTS.to_owned(),
            CommandOf::ListPosts { .. } => LIST_POSTS.to_owned(),
            CommandOf::InsertThread { .. } => INSERT_THREAD.to_owned(),
            CommandOf::InsertPost { .. } => INSERT_POST.to_owned(),
            CommandOf::CountNewPost { .. } => COUNT_NEW_POST.to_owned(),
            CommandOf::ThreadExists { .. } => THREAD_EXISTS.to_owned(),
            CommandOf::ThreadOfPost { .. } => THREAD_OF_POST.to_owned(),
            CommandOf::InsertComment { .. } => INSERT_COMMENT.to_owned(),
            CommandOf::TouchThread { .. } => TOUCH_THREAD.to_owned(),
            CommandOf::CountAttempts { .. } => COUNT_ATTEMPTS.to_owned(),
            CommandOf::FindCaptcha { .. } => FIND_CAPTCHA.to_owned(),
            CommandOf::DeleteCaptcha { .. } => DELETE_CAPTCHA.to_owned(),
            CommandOf::InsertAttempt { .. } => INSERT_ATTEMPT.to_owned(),
            CommandOf::CountUsers => COUNT_USERS.to_owned(),
            CommandOf::InsertUser { .. } => INSERT_USER.to_owned(),
            CommandOf::InsertSession { .. } => INSERT_SESSION.to_owned(),
            CommandOf::ClearAttempts { .. } => CLEAR_ATTEMPTS.to_owned(),
            CommandOf::FindCredentials { .. } => FIND_CREDENTIALS.to_owned(),
            CommandOf::DeleteSession { .. } => DELETE_SESSION.to_owned(),
            CommandOf::DeleteUserThreads { .. } => DELETE_USER_THREADS.to_owned(),
            CommandOf::DeleteUserPosts { .. } => DELETE_USER_POSTS.to_owned(),
            CommandOf::DeleteUserComments { .. } => DELETE_USER_COMMENTS.to_owned(),
            CommandOf::DeleteUser { .. } => DELETE_USER.to_owned(),
            CommandOf::DeleteThread { .. } => DELETE_THREAD.to_owned(),
            CommandOf::InsertCategory { .. } => INSERT_CATEGORY.to_owned(),
            CommandOf::FallbackCategory { .. } => FALLBACK_CATEGORY.to_owned(),
            CommandOf::MoveThreads { .. } => MOVE_THREADS.to_owned(),
            CommandOf::DeleteCategory { .. } => DELETE_CATEGORY.to_owned(),
            CommandOf::SetRegistration { .. } => SET_REGISTRATION.to_owned(),
            CommandOf::StoreCaptcha { .. } => STORE_CAPTCHA.to_owned(),
            CommandOf::PurgeCaptchas { .. } => PURGE_CAPTCHAS.to_owned(),
        }
    }

    /// The values that are bound to the parameters of the statement, in order.
    pub fn params(&self) -> (r: Vec<Cell>)
        ensures
            row_view(r@) == params_of(self@),
    {
        let r: Vec<Cell> = match self {
            CommandOf::ListComments { post_ids } => id_cells(post_ids),
            CommandOf::CreateTables => Vec::new(),
            CommandOf::AddUserIsAdmin => Vec::new(),
            CommandOf::AddThreadUser => Vec::new(),
            CommandOf::AddPostUser => Vec::new(),
            CommandOf::AddCommentUser => Vec::new(),
            CommandOf::CountSessionExpiry => Vec::new(),
            CommandOf::AddSessionExpiry => Vec::new(),
            CommandOf::PurgeSessions { now } => vec![Cell::Int(*now)],
            CommandOf::CountCategories => Vec::new(),
            CommandOf::InsertDefaultCategory { slug, name } => vec![
                Cell::Text(slug.clone()),
                Cell::Text(name.clone()),
            ],
            CommandOf::FirstCategory => Vec::new(),
            CommandOf::AdoptThreads { category_id } => vec![Cell::Int(*category_id)],
            CommandOf::FindSessionUser { token, now } => vec![
                Cell::Text(token.clone()),
                Cell::Int(*now),
            ],
            CommandOf::RegistrationSetting => Vec::new(),
            CommandOf::ListCategories => Vec::new(),
            CommandOf::FindCategory { slug } => vec![Cell::Text(slug.clone())],
            CommandOf::CountThreadsIn { category_id } => vec![Cell::Int(*category_id)],
            CommandOf::CountThreads => Vec::new(),
            CommandOf::ListThreadsIn { category_id, limit, offset } => vec![
                Cell::Int(*category_id),
                Cell::Int(*limit),
                Cell::Int(*offset),
            ],
            CommandOf::ListThreads { limit, offset } => vec![Cell::Int(*limit), Cell::Int(*offset)],
            CommandOf::RecentPosts => Vec::new(),
            CommandOf::ListMembers => Vec::new(),
            CommandOf::FindThread { thread_id } => vec![Cell::Int(*thread_id)],
            CommandOf::CountPosts { thread_id } => vec![Cell::Int(*thread_id)],
            CommandOf::ListPosts { thread_id, limit, offset } => vec![
                Cell::Int(*thread_id),
                Cell::Int(*limit),
                Cell::Int(*offset),
            ],
            CommandOf::InsertThread { title, created_at, category_id, user_id } => vec![
                Cell::Text(title.clone()),
                Cell::Int(*created_at),
                Cell::Int(*created_at),
                Cell::Int(*category_id),
                Cell::Int(*user_id),
            ],
            CommandOf::InsertPost { thread_id, author, content, created_at, user_id } => vec![
                Cell::Int(*thread_id),
                Cell::Text(author.clone()),
                Cell::Text(content.clone()),
                Cell::Int(*created_at),
                Cell::Int(*user_id),
            ],
            CommandOf::CountNewPost { now, thread_id } => vec![
                Cell::Int(*now),
                Cell::Int(*thread_id),
            ],
            CommandOf::ThreadExists { thread_id } => vec![Cell::Int(*thread_id)],
            CommandOf::ThreadOfPost { post_id } => vec![Cell::Int(*post_id)],
            CommandOf::InsertComment { post_id, author, content, created_at, user_id } => vec![
                Cell::Int(*post_id),
                Cell::Text(author.clone()),
                Cell::Text(content.clone()),
                Cell::Int(*created_at),
                Cell::Int(*user_id),
            ],
            CommandOf::TouchThread { now, thread_id } => vec![
                Cell::Int(*now),
                Cell::Int(*thread_id),
            ],
            CommandOf::CountAttempts { username, since } => vec![
                Cell::Text(username.clone()),
                Cell::Int(*since),
            ],
            CommandOf::FindCaptcha { id, now } => vec![Cell::Text(id.clone()), Cell::Int(*now)],
            CommandOf::DeleteCaptcha { id } => vec![Cell::Text(id.clone())],
            CommandOf::InsertAttempt { username, now } => vec![
                Cell::Text(username.clone()),
                Cell::Int(*now),
            ],
            CommandOf::CountUsers => Vec::new(),
            CommandOf::InsertUser { username, password_hash, created_at, is_admin } => vec![
                Cell::Text(username.clone()),
                Cell::Text(password_hash.clone()),
                Cell::Int(*created_at),
                Cell::Int(*is_admin),
            ],
            CommandOf::InsertSession { token, user_id, created_at, expires_at } => vec![
                Cell::Text(token.clone()),
                Cell::Int(*user_id),
                Cell::Int(*created_at),
                Cell::Int(*expires_at),
            ],
            CommandOf::ClearAttempts { username } => vec![Cell::Text(username.clone())],
            CommandOf::FindCredentials { username } => vec![Cell::Text(username.clone())],
            CommandOf::DeleteSession { token } => vec![Cell::Text(token.clone())],
            CommandOf::DeleteUserThreads { user_id } => vec![Cell::Int(*user_id)],
            CommandOf::DeleteUserPosts { user_id } => vec![Cell::Int(*user_id)],
            CommandOf::DeleteUserComments { user_id } => vec![Cell::Int(*user_id)],
            CommandOf::DeleteUser { user_id } => vec![Cell::Int(*user_id)],
            CommandOf::DeleteThread { thread_id } => vec![Cell::Int(*thread_id)],
            CommandOf::InsertCategory { slug, name } => vec![
                Cell::Text(slug.clone()),
                Cell::Text(name.clone()),
            ],
            CommandOf::FallbackCategory { category_id } => vec![Cell::Int(*category_id)],
            CommandOf::MoveThreads { to, from } => vec![Cell::Int(*to), Cell::Int(*from)],
            CommandOf::DeleteCategory { category_id } => vec![Cell::Int(*category_id)],
            CommandOf::SetRegistration { value } => vec![Cell::Text(value.clone())],
            CommandOf::StoreCaptcha { id, solution, expires_at } => vec![
                Cell::Text(id.clone()),
                Cell::Text(solution.clone()),
                Cell::Int(*expires_at),
            ],
            CommandOf::PurgeCaptchas { now } => vec![Cell::Int(*now)],
        };
        proof {
            assert(row_view(r@) =~= params_of(self@));
        }
        r
    }

    /// How the command is carried out.
    pub fn shape(&self) -> (r: Shape)
        ensures
            r == shape_of(self@),
    {
        match self {
            CommandOf::CreateTables => Shape::Batch,
            CommandOf::CountSessionExpiry
            | CommandOf::CountCategories
            | CommandOf::FirstCategory
            | CommandOf::FindSessionUser { .. }
            | CommandOf::RegistrationSetting
            | CommandOf::FindCategory { .. }
            | CommandOf::CountThreadsIn { .. }
            | CommandOf::CountThreads
            | CommandOf::FindThread { .. }
            | CommandOf::CountPosts { .. }
            | CommandOf::ThreadExists { .. }
            | CommandOf::ThreadOfPost { .. }
            | CommandOf::CountAttempts { .. }
            | CommandOf::FindCaptcha { .. }
            | CommandOf::CountUsers
            | CommandOf::FindCredentials { .. }
            | CommandOf::FallbackCategory { .. } => Shape::First,
            CommandOf::ListCategories
            | CommandOf::ListThreadsIn { .. }
            | CommandOf::ListThreads { .. }
            | CommandOf::RecentPosts
            | CommandOf::ListMembers
            | CommandOf::ListPosts { .. }
            | CommandOf::ListComments { .. } => Shape::All,
            _ => Shape::Execute,
        }
    }
}

/// The row numbers `ids` as values.
fn id_cells(ids: &Vec<i64>) -> (r: Vec<Cell>)
    ensures
        row_view(r@) == Seq::new(ids@.len(), |i: int| CellOf::<Seq<char>>::Int(ids@[i])),
{
    let mut r: Vec<Cell> = Vec::new();
    for i in 0..ids.len()
        invariant
            r@.len() == i,
            forall|j: int| 0 <= j < i ==> #[trigger] r@[j] == Cell::Int(ids@[j]),
    {
        r.push(Cell::Int(ids[i]));
    }
    proof {
        assert(row_view(r@) =~= Seq::new(
            ids@.len(),
            |i: int| CellOf::<Seq<char>>::Int(ids@[i]),
        ));
    }
    r
}

} // verus!
