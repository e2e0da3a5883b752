//! What is said to the database: each statement word for word, and the values in their places.
use vstd::prelude::*;
use crate::sql::{marks, params_of, shape_of, sql_of};
use crate::store::{CellOf, CommandView, Shape};

verus! {

/// The statements that make the database ready.
pub proof fn law_statements_of_tables(command: CommandView)
    ensures
        command is CreateTables ==> sql_of(command)
            == "
PRAGMA journal_mode=WAL;
PRAGMA synchronous=NORMAL;
PRAGMA foreign_keys=ON;
PRAGMA cache_size=-2000;
PRAGMA temp_store=MEMORY;
PRAGMA wal_autocheckpoint=500;

CREATE TABLE IF NOT EXISTS users (
    id            INTEGER PRIMARY KEY AUTOINCREMENT,
    username      TEXT UNIQUE NOT NULL,
    password_hash TEXT NOT NULL,
    created_at    INTEGER NOT NULL,
    is_admin      INTEGER NOT NULL DEFAULT 0
);

CREATE TABLE IF NOT EXISTS sessions (
    token      TEXT PRIMARY KEY,
    user_id    INTEGER NOT NULL,
    created_at INTEGER NOT NULL,
    expires_at INTEGER NOT NULL,
    FOREIGN KEY(user_id) REFERENCES users(id) ON DELETE CASCADE
);

CREATE TABLE IF NOT EXISTS captchas (
    id         TEXT PRIMARY KEY,
    solution   TEXT NOT NULL,
    expires_at INTEGER NOT NULL
);

CREATE TABLE IF NOT EXISTS login_attempts (
    username     TEXT NOT NULL,
    attempt_time INTEGER NOT NULL
);
CREATE INDEX IF NOT EXISTS idx_login_attempts ON login_attempts(username, attempt_time);

CREATE TABLE IF NOT EXISTS categories (
    id      INTEGER PRIMARY KEY AUTOINCREMENT,
    slug    TEXT UNIQUE NOT NULL,
    name    TEXT NOT NULL
);

CREATE TABLE IF NOT EXISTS threads (
    id              INTEGER PRIMARY KEY AUTOINCREMENT,
    title           TEXT NOT NULL,
    posts_count     INTEGER NOT NULL DEFAULT 0,
    created_at      INTEGER NOT NULL,
    last_activity_at INTEGER NOT NULL,
    category_id     INTEGER,
    user_id         INTEGER REFERENCES users(id) ON DELETE SET NULL
);

CREATE TABLE IF NOT EXISTS posts (
    id          INTEGER PRIMARY KEY AUTOINCREMENT,
    thread_id   INTEGER NOT NULL,
    author      TEXT,
    content     TEXT NOT NULL,
    created_at  INTEGER NOT NULL,
    user_id     INTEGER REFERENCES users(id) ON DELETE SET NULL,
    FOREIGN KEY(thread_id) REFERENCES threads(id) ON DELETE CASCADE
);

CREATE INDEX IF NOT EXISTS idx_threads_last_activity ON threads(last_activity_at DESC);
CREATE INDEX IF NOT EXISTS idx_posts_thread_id ON posts(thread_id);

CREATE TABLE IF NOT EXISTS comments (
    id          INTEGER PRIMARY KEY AUTOINCREMENT,
    post_id     INTEGER NOT NULL,
    author      TEXT,
    content     TEXT NOT NULL,
    created_at  INTEGER NOT NULL,
    user_id     INTEGER REFERENCES users(id) ON DELETE SET NULL,
    FOREIGN KEY(post_id) REFERENCES posts(id) ON DELETE CASCADE
);
CREATE INDEX IF NOT EXISTS idx_comments_post_id ON comments(post_id);
CREATE INDEX IF NOT EXISTS idx_threads_category ON threads(category_id);

CREATE TABLE IF NOT EXISTS app_settings (
    key   TEXT PRIMARY KEY,
    value TEXT NOT NULL
);
INSERT OR IGNORE INTO app_settings (key, value) VALUES ('registration_enabled', '1');
"@,
        command is AddUserIsAdmin ==> sql_of(command)
            == "ALTER TABLE users ADD COLUMN is_admin INTEGER NOT NULL DEFAULT 0"@,
        command is AddThreadUser ==> sql_of(command)
            == "ALTER TABLE threads ADD COLUMN user_id INTEGER REFERENCES users(id) ON DELETE SET NULL"@,
        command is AddPostUser ==> sql_of(command)
            == "ALTER TABLE posts ADD COLUMN user_id INTEGER REFERENCES users(id) ON DELETE SET NULL"@,
        command is AddCommentUser ==> sql_of(command)
            == "ALTER TABLE comments ADD COLUMN user_id INTEGER REFERENCES users(id) ON DELETE SET NULL"@,
        command is CountSessionExpiry ==> sql_of(command)
            == "SELECT COUNT(*) FROM pragma_table_info('sessions') WHERE name = 'expires_at'"@,
        command is AddSessionExpiry ==> sql_of(command)
            == "ALTER TABLE sessions ADD COLUMN expires_at INTEGER NOT NULL DEFAULT 0"@,
        command is PurgeSessions ==> sql_of(command)
            == "DELETE FROM sessions WHERE expires_at <= ?"@,
        command is InsertDefaultCategory ==> sql_of(command)
            == "INSERT INTO categories (slug, name) VALUES (?, ?)"@,
        command is FirstCategory ==> sql_of(command)
            == "SELECT id FROM categories ORDER BY id ASC LIMIT 1"@,
        command is AdoptThreads ==> sql_of(command)
            == "UPDATE threads SET category_id = COALESCE(category_id, ?) WHERE category_id IS NULL"@,
{
}

/// The statements about visitors, sessions and CAPTCHAs.
pub proof fn law_statements_of_visitors(command: CommandView)
    ensures
        command is FindSessionUser ==> sql_of(command)
            == "SELECT u.id, u.username, u.is_admin FROM users u JOIN sessions s ON s.user_id = u.id WHERE s.token = ? AND s.expires_at > ?"@,
        command is RegistrationSetting ==> sql_of(command)
            == "SELECT value FROM app_settings WHERE key = 'registration_enabled'"@,
        command is CountAttempts ==> sql_of(command)
            == "SELECT COUNT(*) FROM login_attempts WHERE username = ? AND attempt_time > ?"@,
        command is FindCaptcha ==> sql_of(command)
            == "SELECT solution FROM captchas WHERE id = ? AND expires_at > ?"@,
        command is DeleteCaptcha ==> sql_of(command)
            == "DELETE FROM captchas WHERE id = ?"@,
        command is InsertAttempt ==> sql_of(command)
            == "INSERT INTO login_attempts (username, attempt_time) VALUES (?, ?)"@,
        command is CountUsers ==> sql_of(command)
            == "SELECT COUNT(*) FROM users"@,
        command is InsertUser ==> sql_of(command)
            == "INSERT INTO users (username, password_hash, created_at, is_admin) VALUES (?, ?, ?, ?)"@,
        command is InsertSession ==> sql_of(command)
            == "INSERT INTO sessions (token, user_id, created_at, expires_at) VALUES (?, ?, ?, ?)"@,
        command is ClearAttempts ==> sql_of(command)
            == "DELETE FROM login_attempts WHERE username = ?"@,
        command is FindCredentials ==> sql_of(command)
            == "SELECT id, password_hash FROM users WHERE username = ?"@,
        command is DeleteSession ==> sql_of(command)
            == "DELETE FROM sessions WHERE token = ?"@,
        command is StoreCaptcha ==> sql_of(command)
            == "INSERT OR REPLACE INTO captchas (id, solution, expires_at) VALUES (?, ?, ?)"@,
        command is PurgeCaptchas ==> sql_of(command)
            == "DELETE FROM captchas WHERE expires_at < ?"@,
{
}

/// The statements that pages are made of.
pub proof fn law_statements_of_lists(command: CommandView)
    ensures
        command is ListCategories ==> sql_of(command)
            == "SELECT id, slug, name FROM categories ORDER BY name ASC"@,
        command is FindCategory ==> sql_of(command)
            == "SELECT id, slug, name FROM categories WHERE slug = ?"@,
        command is CountThreadsIn ==> sql_of(command)
            == "SELECT COUNT(*) FROM threads WHERE category_id = ?"@,
        command is CountThreads ==> sql_of(command)
            == "SELECT COUNT(*) FROM threads"@,
        command is ListThreadsIn ==> sql_of(command)
            == "SELECT t.id, t.title, t.posts_count, t.created_at, t.last_activity_at, c.name, c.slug, u.username FROM threads t LEFT JOIN categories c ON c.id = t.category_id LEFT JOIN users u ON u.id = t.user_id WHERE t.category_id = ? ORDER BY t.last_activity_at DESC, t.id DESC LIMIT ? OFFSET ?"@,
        command is ListThreads ==> sql_of(command)
            == "SELECT t.id, t.title, t.posts_count, t.created_at, t.last_activity_at, c.name, c.slug, u.username FROM threads t LEFT JOIN categories c ON c.id = t.category_id LEFT JOIN users u ON u.id = t.user_id ORDER BY t.last_activity_at DESC, t.id DESC LIMIT ? OFFSET ?"@,
        command is RecentPosts ==> sql_of(command)
            == "SELECT p.id, p.created_at, COALESCE(u.username, p.author) as author, p.content, t.id, t.title, c.name, c.slug FROM posts p JOIN threads t ON t.id = p.thread_id LEFT JOIN categories c ON c.id = t.category_id LEFT JOIN users u ON u.id = p.user_id ORDER BY p.id DESC LIMIT 10"@,
        command is ListMembers ==> sql_of(command)
            == "SELECT id, username, created_at FROM users WHERE is_admin = 0 ORDER BY created_at DESC"@,
        command is FindThread ==> sql_of(command)
            == "SELECT t.id, t.title, t.posts_count, t.created_at, t.last_activity_at, c.name, c.slug, u.username FROM threads t LEFT JOIN categories c ON c.id = t.category_id LEFT JOIN users u ON u.id = t.user_id WHERE t.id = ?"@,
        command is CountPosts ==> sql_of(command)
            == "SELECT COUNT(*) FROM posts WHERE thread_id = ?"@,
        command is ListPosts ==> sql_of(command)
            == "SELECT p.id, COALESCE(u.username, p.author), p.content, p.created_at FROM posts p LEFT JOIN users u ON u.id = p.user_id WHERE p.thread_id = ? ORDER BY p.id ASC LIMIT ? OFFSET ?"@,
        command matches CommandView::ListComments { post_ids } ==> sql_of(command) == "SELECT c.id, c.post_id, COALESCE(u.username, c.author), c.content, c.created_at FROM comments c LEFT JOIN users u ON u.id = c.user_id WHERE c.post_id IN ("@ + marks(
            post_ids.len(),
        ) + ") ORDER BY c.id ASC"@,
{
}

/// The statements that threads, posts and comments are written with.
pub proof fn law_statements_of_posts(command: CommandView)
    ensures
        command is InsertThread ==> sql_of(command)
            == "INSERT INTO threads (title, posts_count, created_at, last_activity_at, category_id, user_id) VALUES (?, 0, ?, ?, ?, ?)"@,
        command is InsertPost ==> sql_of(command)
            == "INSERT INTO posts (thread_id, author, content, created_at, user_id) VALUES (?, ?, ?, ?, ?)"@,
        command is CountNewPost ==> sql_of(command)
            == "UPDATE threads SET posts_count = posts_count + 1, last_activity_at=? WHERE id=?"@,
        command is ThreadExists ==> sql_of(command)
            == "SELECT 1 FROM threads WHERE id=?"@,
        command is ThreadOfPost ==> sql_of(command)
            == "SELECT thread_id FROM posts WHERE id=?"@,
        command is InsertComment ==> sql_of(command)
            == "INSERT INTO comments (post_id, author, content, created_at, user_id) VALUES (?, ?, ?, ?, ?)"@,
        command is TouchThread ==> sql_of(command)
            == "UPDATE threads SET last_activity_at=? WHERE id=?"@,
{
}

/// The statements of administrators.
pub proof fn law_statements_of_administration(command: CommandView)
    ensures
        command is CountCategories ==> sql_of(command)
            == "SELECT COUNT(*) FROM categories"@,
        command is DeleteUserThreads ==> sql_of(command)
            == "DELETE FROM threads WHERE user_id = ?"@,
        command is DeleteUserPosts ==> sql_of(command)
            == "DELETE FROM posts WHERE user_id = ?"@,
        command is DeleteUserComments ==> sql_of(command)
            == "DELETE FROM comments WHERE user_id = ?"@,
        command is DeleteUser ==> sql_of(command)
            == "DELETE FROM users WHERE id = ?"@,
        command is DeleteThread ==> sql_of(command)
            == "DELETE FROM threads WHERE id = ?"@,
        command is InsertCategory ==> sql_of(command)
            == "INSERT OR IGNORE INTO categories (slug, name) VALUES (?, ?)"@,
        command is FallbackCategory ==> sql_of(command)
            == "SELECT id FROM categories WHERE id != ? ORDER BY id ASC LIMIT 1"@,
        command is MoveThreads ==> sql_of(command)
            == "UPDATE threads SET category_id = ? WHERE category_id = ?"@,
        command is DeleteCategory ==> sql_of(command)
            == "DELETE FROM categories WHERE id = ?"@,
        command is SetRegistration ==> sql_of(command)
            == "INSERT INTO app_settings (key, value) VALUES ('registration_enabled', ?) ON CONFLICT(key) DO UPDATE SET value = excluded.value"@,
{
}

/// The values of the commands that make the database ready, in the order of the marks in their
/// statements.
pub proof fn law_values_of_tables(command: CommandView)
    ensures
        command matches CommandView::PurgeSessions { now } ==> params_of(command) == seq![
            CellOf::<Seq<char>>::Int(now),
        ],
        command matches CommandView::InsertDefaultCategory { slug, name } ==> params_of(command) == seq![
            CellOf::<Seq<char>>::Text(slug),
            CellOf::<Seq<char>>::Text(name),
        ],
        command matches CommandView::AdoptThreads { category_id } ==> params_of(command) == seq![
            CellOf::<Seq<char>>::Int(category_id),
        ],
{
}

/// The values of the commands about visitors, sessions and CAPTCHAs, in the order of the marks in
/// their statements.
pub proof fn law_values_of_visitors(command: CommandView)
    ensures
        command matches CommandView::FindSessionUser { token, now } ==> params_of(command) == seq![
            CellOf::<Seq<char>>::Text(token),
            CellOf::<Seq<char>>::Int(now),
        ],
        command matches CommandView::CountAttempts { username, since } ==> params_of(command) == seq![
            CellOf::<Seq<char>>::Text(username),
            CellOf::<Seq<char>>::Int(since),
        ],
        command matches CommandView::FindCaptcha { id, now } ==> params_of(command) == seq![
            CellOf::<Seq<char>>::Text(id),
            CellOf::<Seq<char>>::Int(now),
        ],
        command matches CommandView::DeleteCaptcha { id } ==> params_of(command) == seq![
            CellOf::<Seq<char>>::Text(id),
        ],
        command matches CommandView::InsertAttempt { username, now } ==> params_of(command) == seq![
            CellOf::<Seq<char>>::Text(username),
            CellOf::<Seq<char>>::Int(now),
        ],
        command matches CommandView::InsertUser {
            username,
            password_hash,
            created_at,
            is_admin,
        } ==> params_of(command) == seq![
            CellOf::<Seq<char>>::Text(username),
            CellOf::<Seq<char>>::Text(password_hash),
            CellOf::<Seq<char>>::Int(created_at),
            CellOf::<Seq<char>>::Int(is_admin),
        ],
        command matches CommandView::InsertSession {
            token,
            user_id,
            created_at,
            expires_at,
        } ==> params_of(command) == seq![
            CellOf::<Seq<char>>::Text(token),
            CellOf::<Seq<char>>::Int(user_id),
            CellOf::<Seq<char>>::Int(created_at),
            CellOf::<Seq<char>>::Int(expires_at),
        ],
        command matches CommandView::ClearAttempts { username } ==> params_of(command) == seq![
            CellOf::<Seq<char>>::Text(username),
        ],
        command matches CommandView::FindCredentials { username } ==> params_of(command) == seq![
            CellOf::<Seq<char>>::Text(username),
        ],
        command matches CommandView::DeleteSession { token } ==> params_of(command) == seq![
            CellOf::<Seq<char>>::Text(token),
        ],
        command matches CommandView::StoreCaptcha {
            id,
            solution,
            expires_at,
        } ==> params_of(command) == seq![
            CellOf::<Seq<char>>::Text(id),
            CellOf::<Seq<char>>::Text(solution),
            CellOf::<Seq<char>>::Int(expires_at),
        ],
        command matches CommandView::PurgeCaptchas { now } ==> params_of(command) == seq![
            CellOf::<Seq<char>>::Int(now),
        ],
{
}

/// The values of the commands that pages are made of, in the order of the marks in their
/// statements.
pub proof fn law_values_of_lists(command: CommandView)
    ensures
        command matches CommandView::FindCategory { slug } ==> params_of(command) == seq![
            CellOf::<Seq<char>>::Text(slug),
        ],
        command matches CommandView::CountThreadsIn { category_id } ==> params_of(command) == seq![
            CellOf::<Seq<char>>::Int(category_id),
        ],
        command matches CommandView::ListThreadsIn {
            category_id,
            limit,
            offset,
        } ==> params_of(command) == seq![
            CellOf::<Seq<char>>::Int(category_id),
            CellOf::<Seq<char>>::Int(limit),
            CellOf::<Seq<char>>::Int(offset),
        ],
        command matches CommandView::ListThreads { limit, offset } ==> params_of(command) == seq![
            CellOf::<Seq<char>>::Int(limit),
            CellOf::<Seq<char>>::Int(offset),
        ],
        command matches CommandView::FindThread { thread_id } ==> params_of(command) == seq![
            CellOf::<Seq<char>>::Int(thread_id),
        ],
        command matches CommandView::CountPosts { thread_id } ==> params_of(command) == seq![
            CellOf::<Seq<char>>::Int(thread_id),
        ],
        command matches CommandView::ListPosts {
            thread_id,
            limit,
            offset,
        } ==> params_of(command) == seq![
            CellOf::<Seq<char>>::Int(thread_id),
            CellOf::<Seq<char>>::Int(limit),
            CellOf::<Seq<char>>::Int(offset),
        ],
        command matches CommandView::ListComments { post_ids } ==> params_of(command).len()
            == post_ids.len() && forall|i: int|
            0 <= i < post_ids.len() ==> #[trigger] params_of(command)[i] == CellOf::<Seq<char>>::Int(
                post_ids[i],
            ),
{
}

/// The values of the commands that threads, posts and comments are written with, in the order of
/// the marks in their statements.
pub proof fn law_values_of_posts(command: CommandView)
    ensures
        command matches CommandView::InsertThread {
            title,
            created_at,
            category_id,
            user_id,
        } ==> params_of(command) == seq![
            CellOf::<Seq<char>>::Text(title),
            CellOf::<Seq<char>>::Int(created_at),
            CellOf::<Seq<char>>::Int(created_at),
            CellOf::<Seq<char>>::Int(category_id),
            CellOf::<Seq<char>>::Int(user_id),
        ],
        command matches CommandView::InsertPost {
            thread_id,
            author,
            content,
            created_at,
            user_id,
        } ==> params_of(command) == seq![
            CellOf::<Seq<char>>::Int(thread_id),
            CellOf::<Seq<char>>::Text(author),
            CellOf::<Seq<char>>::Text(content),
            CellOf::<Seq<char>>::Int(created_at),
            CellOf::<Seq<char>>::Int(user_id),
        ],
        command matches CommandView::CountNewPost { now, thread_id } ==> params_of(command) == seq![
            CellOf::<Seq<char>>::Int(now),
            CellOf::<Seq<char>>::Int(thread_id),
        ],
        command matches CommandView::ThreadExists { thread_id } ==> params_of(command) == seq![
            CellOf::<Seq<char>>::Int(thread_id),
        ],
        command matches CommandView::ThreadOfPost { post_id } ==> params_of(command) == seq![
            CellOf::<Seq<char>>::Int(post_id),
        ],
        command matches CommandView::InsertComment {
            post_id,
            author,
            content,
            created_at,
            user_id,
        } ==> params_of(command) == seq![
            CellOf::<Seq<char>>::Int(post_id),
            CellOf::<Seq<char>>::Text(author),
            CellOf::<Seq<char>>::Text(content),
            CellOf::<Seq<char>>::Int(created_at),
            CellOf::<Seq<char>>::Int(user_id),
        ],
        command matches CommandView::TouchThread { now, thread_id } ==> params_of(command) == seq![
            CellOf::<Seq<char>>::Int(now),
            CellOf::<Seq<char>>::Int(thread_id),
        ],
{
}

/// The values of the commands of administrators, in the order of the marks in their statements.
pub proof fn law_values_of_administration(command: CommandView)
    ensures
        command matches CommandView::DeleteUserThreads { user_id } ==> params_of(command) == seq![
            CellOf::<Seq<char>>::Int(user_id),
        ],
        command matches CommandView::DeleteUserPosts { user_id } ==> params_of(command) == seq![
            CellOf::<Seq<char>>::Int(user_id),
        ],
        command matches CommandView::DeleteUserComments { user_id } ==> params_of(command) == seq![
            CellOf::<Seq<char>>::Int(user_id),
        ],
        command matches CommandView::DeleteUser { user_id } ==> params_of(command) == seq![
            CellOf::<Seq<char>>::Int(user_id),
        ],
        command matches CommandView::DeleteThread { thread_id } ==> params_of(command) == seq![
            CellOf::<Seq<char>>::Int(thread_id),
        ],
        command matches CommandView::InsertCategory { slug, name } ==> params_of(command) == seq![
            CellOf::<Seq<char>>::Text(slug),
            CellOf::<Seq<char>>::Text(name),
        ],
        command matches CommandView::FallbackCategory { category_id } ==> params_of(command) == seq![
            CellOf::<Seq<char>>::Int(category_id),
        ],
        command matches CommandView::MoveThreads { to, from } ==> params_of(command) == seq![
            CellOf::<Seq<char>>::Int(to),
            CellOf::<Seq<char>>::Int(from),
        ],
        command matches CommandView::DeleteCategory { category_id } ==> params_of(command) == seq![
            CellOf::<Seq<char>>::Int(category_id),
        ],
        command matches CommandView::SetRegistration { value } ==> params_of(command) == seq![
            CellOf::<Seq<char>>::Text(value),
        ],
{
}

/// Commands that say all in their statement have no values.
pub proof fn law_no_values(command: CommandView)
    ensures
        command is CreateTables ==> params_of(command).len() == 0,
        command is AddUserIsAdmin ==> params_of(command).len() == 0,
        command is AddThreadUser ==> params_of(command).len() == 0,
        command is AddPostUser ==> params_of(command).len() == 0,
        command is AddCommentUser ==> params_of(command).len() == 0,
        command is CountSessionExpiry ==> params_of(command).len() == 0,
        command is AddSessionExpiry ==> params_of(command).len() == 0,
        command is CountCategories ==> params_of(command).len() == 0,
        command is FirstCategory ==> params_of(command).len() == 0,
        command is RegistrationSetting ==> params_of(command).len() == 0,
        command is ListCategories ==> params_of(command).len() == 0,
        command is CountThreads ==> params_of(command).len() == 0,
        command is RecentPosts ==> params_of(command).len() == 0,
        command is ListMembers ==> params_of(command).len() == 0,
        command is CountUsers ==> params_of(command).len() == 0,
{
}

/// How each command is carried out: which are queries, for one row or for all, and which write.
pub proof fn law_shapes(command: CommandView)
    ensures
        shape_of(command) == Shape::Batch <==> command is CreateTables,
        shape_of(command) == Shape::First <==> {
            ||| command is CountSessionExpiry
            ||| command is CountCategories
            ||| command is FirstCategory
            ||| command is FindSessionUser
            ||| command is RegistrationSetting
            ||| command is FindCategory
            ||| command is CountThreadsIn
            ||| command is CountThreads
            ||| command is FindThread
            ||| command is CountPosts
            ||| command is ThreadExists
            ||| command is ThreadOfPost
            ||| command is CountAttempts
            ||| command is FindCaptcha
            ||| command is CountUsers
            ||| command is FindCredentials
            ||| command is FallbackCategory
        },
        shape_of(command) == Shape::All <==> {
            ||| command is ListCategories
            ||| command is ListThreadsIn
            ||| command is ListThreads
            ||| command is RecentPosts
            ||| command is ListMembers
            ||| command is ListPosts
            ||| command is ListComments
        },
{
}

/// There are as many marks as there are values for them, with a comma between each two.
pub proof fn law_marks(n: nat)
    requires
        n > 0,
    ensures
        marks(n).len() == 2 * n - 1,
        forall|i: int|
            0 <= i < marks(n).len() ==> #[trigger] marks(n)[i] == if i % 2 == 0 {
                '?'
            } else {
                ','
            },
    decreases n,
{
    if n > 1 {
        law_marks((n - 1) as nat);
        let before = marks((n - 1) as nat);
        assert forall|i: int| 0 <= i < marks(n).len() implies #[trigger] marks(n)[i] == if i % 2
            == 0 {
            '?'
        } else {
            ','
        } by {
            if i < before.len() {
                assert(marks(n)[i] == before[i]);
            }
        }
    }
}

} // verus!
