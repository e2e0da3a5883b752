//! What the forum reads out of rows.
use vstd::prelude::*;
use crate::store::{row_view, rows_view, Cell, CellOf, Reply, ReplyOf};

verus! {

/// The values of a row, as contracts speak of them.
pub type RowView = Seq<CellOf<Seq<char>>>;

/// A reply, as contracts speak of it.
pub type ReplyView = ReplyOf<Seq<Seq<CellOf<Seq<char>>>>>;

/// A text that may be missing.
pub open spec fn optional(t: Option<String>) -> Option<Seq<char>> {
    match t {
        Some(s) => Some(s@),
        None => None,
    }
}

/// The integer in column `i`, if there is one.
pub open spec fn int_in(row: RowView, i: int) -> Option<i64> {
    if 0 <= i < row.len() {
        match row[i] {
            CellOf::Int(n) => Some(n),
            _ => None,
        }
    } else {
        None
    }
}

/// The text in column `i`, if there is one.
pub open spec fn text_in(row: RowView, i: int) -> Option<Seq<char>> {
    if 0 <= i < row.len() {
        match row[i] {
            CellOf::Text(t) => Some(t),
            _ => None,
        }
    } else {
        None
    }
}

/// What column `i` holds, if that is a text or nothing.
pub open spec fn optional_text_in(row: RowView, i: int) -> Option<Option<Seq<char>>> {
    if 0 <= i < row.len() {
        match row[i] {
            CellOf::Text(t) => Some(Some(t)),
            CellOf::Null => Some(None),
            _ => None,
        }
    } else {
        None
    }
}

fn int_at(row: &Vec<Cell>, i: usize) -> (r: Option<i64>)
    ensures
        r == int_in(row_view(row@), i as int),
{
    if i < row.len() {
        match &row[i] {
            Cell::Int(n) => Some(*n),
            _ => None,
        }
    } else {
        None
    }
}

fn text_at(row: &Vec<Cell>, i: usize) -> (r: Option<String>)
    ensures
        optional(r) == text_in(row_view(row@), i as int),
{
    if i < row.len() {
        match &row[i] {
            Cell::Text(t) => Some(t.clone()),
            _ => None,
        }
    } else {
        None
    }
}

fn optional_text_at(row: &Vec<Cell>, i: usize) -> (r: Option<Option<String>>)
    ensures
        r is Some <==> optional_text_in(row_view(row@), i as int) is Some,
        r is Some ==> optional(r->0) == optional_text_in(row_view(row@), i as int)->0,
{
    if i < row.len() {
        match &row[i] {
            Cell::Text(t) => Some(Some(t.clone())),
            Cell::Null => Some(None),
            _ => None,
        }
    } else {
        None
    }
}

/// What can be read out of a row.
pub trait FromRow: Sized + View {
    /// What a row says, if each column that counts is of the right kind.
    spec fn read(row: RowView) -> Option<Self::V>;

    /// Reads a row.
    fn from_row(row: &Vec<Cell>) -> (r: Option<Self>)
        ensures
            match r {
                Some(record) => Self::read(row_view(row@)) == Some(record@),
                None => Self::read(row_view(row@)) is None,
            },
    ;
}

/// What the rows say, in order; rows that cannot be read are passed over.
pub open spec fn read_all<R: FromRow>(rows: Seq<RowView>) -> Seq<R::V>
    decreases rows.len(),
{
    if rows.len() == 0 {
        Seq::empty()
    } else {
        let before = read_all::<R>(rows.drop_last());
        match R::read(rows.last()) {
            Some(record) => before.push(record),
            None => before,
        }
    }
}

/// What a reply lists; nothing where the query failed.
pub open spec fn listed<R: FromRow>(reply: ReplyView) -> Seq<R::V> {
    match reply {
        ReplyOf::Rows(rows) => read_all::<R>(rows),
        _ => Seq::empty(),
    }
}

/// What the first row of a reply says, if there is one and it can be read.
pub open spec fn found<R: FromRow>(reply: ReplyView) -> Option<R::V> {
    match reply {
        ReplyOf::Rows(rows) => if rows.len() > 0 {
            R::read(rows[0])
        } else {
            None
        },
        _ => None,
    }
}

/// Some records as contracts speak of them.
pub open spec fn views<R: View>(records: Seq<R>) -> Seq<R::V> {
    Seq::new(records.len(), |i: int| records[i]@)
}

/// What a reply lists; nothing where the query failed.
pub fn list<R: FromRow>(reply: &Reply) -> (r: Vec<R>)
    ensures
        views(r@) == listed::<R>(reply@),
{
    let mut records: Vec<R> = Vec::new();
    match reply {
        ReplyOf::Rows(rows) => {
            let ghost all = rows_view(rows@);
            proof {
                assert(all.take(0) =~= Seq::<RowView>::empty());
                assert(views(records@) =~= Seq::<R::V>::empty());
            }
            for i in 0..rows.len()
                invariant
                    all == rows_view(rows@),
                    views(records@) == read_all::<R>(all.take(i as int)),
            {
                proof {
                    assert(all.take(i + 1).drop_last() =~= all.take(i as int));
                    assert(all.take(i + 1).last() == row_view(rows@[i as int]@));
                }
                let ghost before = records@;
                match R::from_row(&rows[i]) {
                    Some(record) => {
                        records.push(record);
                        proof {
                            assert(views(records@) =~= views(before).push(record@));
                        }
                    },
                    None => {},
                }
            }
            proof {
                assert(all.take(rows@.len() as int) =~= all);
            }
        },
        _ => {
            proof {
                assert(views(records@) =~= Seq::<R::V>::empty());
            }
        },
    }
    records
}

/// What the first row of a reply says, if there is one and it can be read.
pub fn find<R: FromRow>(reply: &Reply) -> (r: Option<R>)
    ensures
        match r {
            Some(record) => found::<R>(reply@) == Some(record@),
            None => found::<R>(reply@) is None,
        },
{
    match reply {
        ReplyOf::Rows(rows) => {
            if rows.len() > 0 {
                R::from_row(&rows[0])
            } else {
                None
            }
        },
        _ => None,
    }
}

/// The integer that a reply consists of, if it is one.
pub open spec fn found_int(reply: ReplyView) -> Option<i64> {
    match reply {
        ReplyOf::Rows(rows) => if rows.len() > 0 {
            int_in(rows[0], 0)
        } else {
            None
        },
        _ => None,
    }
}

/// The integer that a reply consists of, if it is one.
pub fn find_int(reply: &Reply) -> (r: Option<i64>)
    ensures
        r == found_int(reply@),
{
    match reply {
        ReplyOf::Rows(rows) => {
            if rows.len() > 0 {
                int_at(&rows[0], 0)
            } else {
                None
            }
        },
        _ => None,
    }
}

/// The count that a reply consists of; zero where the query failed.
pub open spec fn counted(reply: ReplyView) -> i64 {
    match found_int(reply) {
        Some(n) => n,
        None => 0,
    }
}

/// The count that a reply consists of; zero where the query failed.
pub fn count(reply: &Reply) -> (r: i64)
    ensures
        r == counted(reply@),
{
    match find_int(reply) {
        Some(n) => n,
        None => 0,
    }
}

/// The text that a reply consists of, if it is one.
pub open spec fn found_text(reply: ReplyView) -> Option<Seq<char>> {
    match reply {
        ReplyOf::Rows(rows) => if rows.len() > 0 {
            text_in(rows[0], 0)
        } else {
            None
        },
        _ => None,
    }
}

/// The text that a reply consists of, if it is one.
pub fn find_text(reply: &Reply) -> (r: Option<String>)
    ensures
        optional(r) == found_text(reply@),
{
    match reply {
        ReplyOf::Rows(rows) => {
            if rows.len() > 0 {
                text_at(&rows[0], 0)
            } else {
                None
            }
        },
        _ => None,
    }
}

/// The member that a session belongs to. `T` is the type of text.
#[derive(Debug, PartialEq)]
pub struct UserOf<T> {
    pub id: i64,
    pub name: T,
    pub is_admin: bool,
}

/// The member that a session belongs to.
pub type User = UserOf<String>;

impl View for UserOf<String> {
    type V = UserOf<Seq<char>>;

    open spec fn view(&self) -> UserOf<Seq<char>> {
        UserOf {
            id: self.id,
            name: self.name@,
            is_admin: self.is_admin,
        }
    }
}

impl FromRow for UserOf<String> {
    open spec fn read(row: RowView) -> Option<UserOf<Seq<char>>> {
        match (
            int_in(row, 0),
            text_in(row, 1),
            int_in(row, 2),
        ) {
            (Some(id), Some(name), Some(is_admin)) => Some(
                UserOf { id, name, is_admin: is_admin == 1 },
            ),
            _ => None,
        }
    }

    fn from_row(row: &Vec<Cell>) -> (r: Option<Self>) {
        match (
            int_at(row, 0),
            text_at(row, 1),
            int_at(row, 2),
        ) {
            (Some(id), Some(name), Some(is_admin)) => Some(
                UserOf { id, name, is_admin: is_admin == 1 },
            ),
            _ => None,
        }
    }
}

/// A category of threads. `T` is the type of text.
#[derive(Debug, PartialEq)]
pub struct CategoryOf<T> {
    pub id: i64,
    pub slug: T,
    pub name: T,
}

/// A category of threads.
pub type Category = CategoryOf<String>;

impl View for CategoryOf<String> {
    type V = CategoryOf<Seq<char>>;

    open spec fn view(&self) -> CategoryOf<Seq<char>> {
        CategoryOf {
            id: self.id,
            slug: self.slug@,
            name: self.name@,
        }
    }
}

impl FromRow for CategoryOf<String> {
    open spec fn read(row: RowView) -> Option<CategoryOf<Seq<char>>> {
        match (
            int_in(row, 0),
            text_in(row, 1),
            text_in(row, 2),
        ) {
            (Some(id), Some(slug), Some(name)) => Some(
                CategoryOf { id, slug, name },
            ),
            _ => None,
        }
    }

    fn from_row(row: &Vec<Cell>) -> (r: Option<Self>) {
        match (
            int_at(row, 0),
            text_at(row, 1),
            text_at(row, 2),
        ) {
            (Some(id), Some(slug), Some(name)) => Some(
                CategoryOf { id, slug, name },
            ),
            _ => None,
        }
    }
}

/// A thread as lists and its own page show it. `T` is the type of text.
#[derive(Debug, PartialEq)]
pub struct ThreadOf<T> {
    pub id: i64,
    pub title: T,
    pub posts_count: i64,
    pub created_at: i64,
    pub last_activity_at: i64,
    pub category_name: Option<T>,
    pub category_slug: Option<T>,
    pub author: Option<T>,
}

/// A thread as lists and its own page show it.
pub type Thread = ThreadOf<String>;

impl View for ThreadOf<String> {
    type V = ThreadOf<Seq<char>>;

    open spec fn view(&self) -> ThreadOf<Seq<char>> {
        ThreadOf {
            id: self.id,
            title: self.title@,
            posts_count: self.posts_count,
            created_at: self.created_at,
            last_activity_at: self.last_activity_at,
            category_name: optional(self.category_name),
            category_slug: optional(self.category_slug),
            author: optional(self.author),
        }
    }
}

impl FromRow for ThreadOf<String> {
    open spec fn read(row: RowView) -> Option<ThreadOf<Seq<char>>> {
        match (
            int_in(row, 0),
            text_in(row, 1),
            int_in(row, 2),
            int_in(row, 3),
            int_in(row, 4),
            optional_text_in(row, 5),
            optional_text_in(row, 6),
            optional_text_in(row, 7),
        ) {
            (
                Some(id),
                Some(title),
                Some(posts_count),
                Some(created_at),
                Some(last_activity_at),
                Some(category_name),
                Some(category_slug),
                Some(author),
            ) => Some(
                ThreadOf {
                    id,
                    title,
                    posts_count,
                    created_at,
                    last_activity_at,
                    category_name,
                    category_slug,
                    author,
                },
            ),
            _ => None,
        }
    }

    fn from_row(row: &Vec<Cell>) -> (r: Option<Self>) {
        match (
            int_at(row, 0),
            text_at(row, 1),
            int_at(row, 2),
            int_at(row, 3),
            int_at(row, 4),
            optional_text_at(row, 5),
            optional_text_at(row, 6),
            optional_text_at(row, 7),
        ) {
            (
                Some(id),
                Some(title),
                Some(posts_count),
                Some(created_at),
                Some(last_activity_at),
                Some(category_name),
                Some(category_slug),
                Some(author),
            ) => Some(
                ThreadOf {
                    id,
                    title,
                    posts_count,
                    created_at,
                    last_activity_at,
                    category_name,
                    category_slug,
                    author,
                },
            ),
            _ => None,
        }
    }
}

/// A post as the list of recent posts shows it. `T` is the type of text.
#[derive(Debug, PartialEq)]
pub struct RecentPostOf<T> {
    pub post_id: i64,
    pub created_at: i64,
    pub author: Option<T>,
    pub content: T,
    pub thread_id: i64,
    pub thread_title: T,
    pub category_name: Option<T>,
    pub category_slug: Option<T>,
}

/// A post as the list of recent posts shows it.
pub type RecentPost = RecentPostOf<String>;

impl View for RecentPostOf<String> {
    type V = RecentPostOf<Seq<char>>;

    open spec fn view(&self) -> RecentPostOf<Seq<char>> {
        RecentPostOf {
            post_id: self.post_id,
            created_at: self.created_at,
            author: optional(self.author),
            content: self.content@,
            thread_id: self.thread_id,
            thread_title: self.thread_title@,
            category_name: optional(self.category_name),
            category_slug: optional(self.category_slug),
        }
    }
}

impl FromRow for RecentPostOf<String> {
    open spec fn read(row: RowView) -> Option<RecentPostOf<Seq<char>>> {
        match (
            int_in(row, 0),
            int_in(row, 1),
            optional_text_in(row, 2),
            text_in(row, 3),
            int_in(row, 4),
            text_in(row, 5),
            optional_text_in(row, 6),
            optional_text_in(row, 7),
        ) {
            (
                Some(post_id),
                Some(created_at),
                Some(author),
                Some(content),
                Some(thread_id),
                Some(thread_title),
                Some(category_name),
                Some(category_slug),
            ) => Some(
                RecentPostOf {
                    post_id,
                    created_at,
                    author,
                    content,
                    thread_id,
                    thread_title,
                    category_name,
                    category_slug,
                },
            ),
            _ => None,
        }
    }

    fn from_row(row: &Vec<Cell>) -> (r: Option<Self>) {
        match (
            int_at(row, 0),
            int_at(row, 1),
            optional_text_at(row, 2),
            text_at(row, 3),
            int_at(row, 4),
            text_at(row, 5),
            optional_text_at(row, 6),
            optional_text_at(row, 7),
        ) {
            (
                Some(post_id),
                Some(created_at),
                Some(author),
                Some(content),
                Some(thread_id),
                Some(thread_title),
                Some(category_name),
                Some(category_slug),
            ) => Some(
                RecentPostOf {
                    post_id,
                    created_at,
                    author,
                    content,
                    thread_id,
                    thread_title,
                    category_name,
                    category_slug,
                },
            ),
            _ => None,
        }
    }
}

/// A member as administrators see the list of them. `T` is the type of text.
#[derive(Debug, PartialEq)]
pub struct MemberOf<T> {
    pub id: i64,
    pub username: T,
    pub created_at: i64,
}

/// A member as administrators see the list of them.
pub type Member = MemberOf<String>;

impl View for MemberOf<String> {
    type V = MemberOf<Seq<char>>;

    open spec fn view(&self) -> MemberOf<Seq<char>> {
        MemberOf {
            id: self.id,
            username: self.username@,
            created_at: self.created_at,
        }
    }
}

impl FromRow for MemberOf<String> {
    open spec fn read(row: RowView) -> Option<MemberOf<Seq<char>>> {
        match (
            int_in(row, 0),
            text_in(row, 1),
            int_in(row, 2),
        ) {
            (Some(id), Some(username), Some(created_at)) => Some(
                MemberOf { id, username, created_at },
            ),
            _ => None,
        }
    }

    fn from_row(row: &Vec<Cell>) -> (r: Option<Self>) {
        match (
            int_at(row, 0),
            text_at(row, 1),
            int_at(row, 2),
        ) {
            (Some(id), Some(username), Some(created_at)) => Some(
                MemberOf { id, username, created_at },
            ),
            _ => None,
        }
    }
}

/// A post of a thread. `T` is the type of text.
#[derive(Debug, PartialEq)]
pub struct PostOf<T> {
    pub id: i64,
    pub author: Option<T>,
    pub content: T,
    pub created_at: i64,
}

/// A post of a thread.
pub type Post = PostOf<String>;

impl View for PostOf<String> {
    type V = PostOf<Seq<char>>;

    open spec fn view(&self) -> PostOf<Seq<char>> {
        PostOf {
            id: self.id,
            author: optional(self.author),
            content: self.content@,
            created_at: self.created_at,
        }
    }
}

impl FromRow for PostOf<String> {
    open spec fn read(row: RowView) -> Option<PostOf<Seq<char>>> {
        match (
            int_in(row, 0),
            optional_text_in(row, 1),
            text_in(row, 2),
            int_in(row, 3),
        ) {
            (Some(id), Some(author), Some(content), Some(created_at)) => Some(
                PostOf { id, author, content, created_at },
            ),
            _ => None,
        }
    }

    fn from_row(row: &Vec<Cell>) -> (r: Option<Self>) {
        match (
            int_at(row, 0),
            optional_text_at(row, 1),
            text_at(row, 2),
            int_at(row, 3),
        ) {
            (Some(id), Some(author), Some(content), Some(created_at)) => Some(
                PostOf { id, author, content, created_at },
            ),
            _ => None,
        }
    }
}

/// A comment on a post. `T` is the type of text.
#[derive(Debug, PartialEq)]
pub struct CommentOf<T> {
    pub id: i64,
    pub post_id: i64,
    pub author: Option<T>,
    pub content: T,
    pub created_at: i64,
}

/// A comment on a post.
pub type Comment = CommentOf<String>;

impl View for CommentOf<String> {
    type V = CommentOf<Seq<char>>;

    open spec fn view(&self) -> CommentOf<Seq<char>> {
        CommentOf {
            id: self.id,
            post_id: self.post_id,
            author: optional(self.author),
            content: self.content@,
            created_at: self.created_at,
        }
    }
}

impl FromRow for CommentOf<String> {
    open spec fn read(row: RowView) -> Option<CommentOf<Seq<char>>> {
        match (
            int_in(row, 0),
            int_in(row, 1),
            optional_text_in(row, 2),
            text_in(row, 3),
            int_in(row, 4),
        ) {
            (Some(id), Some(post_id), Some(author), Some(content), Some(created_at)) => Some(
                CommentOf { id, post_id, author, content, created_at },
            ),
            _ => None,
        }
    }

    fn from_row(row: &Vec<Cell>) -> (r: Option<Self>) {
        match (
            int_at(row, 0),
            int_at(row, 1),
            optional_text_at(row, 2),
            text_at(row, 3),
            int_at(row, 4),
        ) {
            (Some(id), Some(post_id), Some(author), Some(content), Some(created_at)) => Some(
                CommentOf { id, post_id, author, content, created_at },
            ),
            _ => None,
        }
    }
}

/// What a password is held against. `T` is the type of text.
#[derive(Debug, PartialEq)]
pub struct CredentialsOf<T> {
    pub user_id: i64,
    pub password_hash: T,
}

/// What a password is held against.
pub type Credentials = CredentialsOf<String>;

impl View for CredentialsOf<String> {
    type V = CredentialsOf<Seq<char>>;

    open spec fn view(&self) -> CredentialsOf<Seq<char>> {
        CredentialsOf {
            user_id: self.user_id,
            password_hash: self.password_hash@,
        }
    }
}

impl FromRow for CredentialsOf<String> {
    open spec fn read(row: RowView) -> Option<CredentialsOf<Seq<char>>> {
        match (
            int_in(row, 0),
            text_in(row, 1),
        ) {
            (Some(user_id), Some(password_hash)) => Some(
                CredentialsOf { user_id, password_hash },
            ),
            _ => None,
        }
    }

    fn from_row(row: &Vec<Cell>) -> (r: Option<Self>) {
        match (
            int_at(row, 0),
            text_at(row, 1),
        ) {
            (Some(user_id), Some(password_hash)) => Some(
                CredentialsOf { user_id, password_hash },
            ),
            _ => None,
        }
    }
}

} // verus!
