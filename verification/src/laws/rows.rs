//! What rows say: each column in its own field.
use vstd::prelude::*;
use crate::records::{
    counted, found, found_int, found_text, listed, Category, CategoryOf, Comment, CommentOf,
    Credentials, CredentialsOf, FromRow, Member, MemberOf, Post, PostOf, RecentPost, RecentPostOf,
    ReplyView, RowView, Thread, ThreadOf, User, UserOf,
};
use crate::store::{CellOf, ReplyOf};

verus! {

/// Whether a cell holds a text, or is empty where there is none.
pub open spec fn holds(cell: CellOf<Seq<char>>, text: Option<Seq<char>>) -> bool {
    match text {
        Some(t) => cell == CellOf::Text(t),
        None => cell is Null,
    }
}

/// The row of a member that a session belongs to is read just where each column is of its kind,
/// and each field holds its own column.
pub proof fn law_user_row(row: RowView)
    ensures
        match <User as FromRow>::read(row) {
            Some(record) => {
                &&& row.len() >= 3
                &&& row[0] == CellOf::<Seq<char>>::Int(record.id)
                &&& row[1] == CellOf::Text(record.name)
                &&& (row[2] matches CellOf::Int(n) && record.is_admin == (n == 1))
            },
            None => !{
                &&& row.len() >= 3
                &&& row[0] is Int
                &&& row[1] is Text
                &&& row[2] is Int
            },
        },
{
}

/// Reading the columns of a member that a session belongs to gives them back.
pub proof fn law_user_columns(
    id: i64,
    name: Seq<char>,
    flag: i64,
)
    ensures
        <User as FromRow>::read(
            seq![
                CellOf::Int(id),
                CellOf::Text(name),
                CellOf::Int(flag),
            ],
        ) == Some(
            (UserOf {
                id,
                name,
                is_admin: flag == 1,
            }),
        ),
{
}

/// The row of a category is read just where each column is of its kind, and each field holds its
/// own column.
pub proof fn law_category_row(row: RowView)
    ensures
        match <Category as FromRow>::read(row) {
            Some(record) => {
                &&& row.len() >= 3
                &&& row[0] == CellOf::<Seq<char>>::Int(record.id)
                &&& row[1] == CellOf::Text(record.slug)
                &&& row[2] == CellOf::Text(record.name)
            },
            None => !{
                &&& row.len() >= 3
                &&& row[0] is Int
                &&& row[1] is Text
                &&& row[2] is Text
            },
        },
{
}

/// Reading the columns of a category gives them back.
pub proof fn law_category_columns(
    id: i64,
    slug: Seq<char>,
    name: Seq<char>,
)
    ensures
        <Category as FromRow>::read(
            seq![
                CellOf::Int(id),
                CellOf::Text(slug),
                CellOf::Text(name),
            ],
        ) == Some(
            (CategoryOf {
                id,
                slug,
                name,
            }),
        ),
{
}

/// The row of a thread is read just where each column is of its kind, and each field holds its
/// own column.
pub proof fn law_thread_row(row: RowView)
    ensures
        match <Thread as FromRow>::read(row) {
            Some(record) => {
                &&& row.len() >= 8
                &&& row[0] == CellOf::<Seq<char>>::Int(record.id)
                &&& row[1] == CellOf::Text(record.title)
                &&& row[2] == CellOf::<Seq<char>>::Int(record.posts_count)
                &&& row[3] == CellOf::<Seq<char>>::Int(record.created_at)
                &&& row[4] == CellOf::<Seq<char>>::Int(record.last_activity_at)
                &&& holds(row[5], record.category_name)
                &&& holds(row[6], record.category_slug)
                &&& holds(row[7], record.author)
            },
            None => !{
                &&& row.len() >= 8
                &&& row[0] is Int
                &&& row[1] is Text
                &&& row[2] is Int
                &&& row[3] is Int
                &&& row[4] is Int
                &&& (row[5] is Text || row[5] is Null)
                &&& (row[6] is Text || row[6] is Null)
                &&& (row[7] is Text || row[7] is Null)
            },
        },
{
}

/// Reading the columns of a thread gives them back.
pub proof fn law_thread_columns(
    id: i64,
    title: Seq<char>,
    posts_count: i64,
    created_at: i64,
    last_activity_at: i64,
    category_name: Seq<char>,
    category_slug: Seq<char>,
    author: Seq<char>,
)
    ensures
        <Thread as FromRow>::read(
            seq![
                CellOf::Int(id),
                CellOf::Text(title),
                CellOf::Int(posts_count),
                CellOf::Int(created_at),
                CellOf::Int(last_activity_at),
                CellOf::Text(category_name),
                CellOf::Text(category_slug),
                CellOf::Text(author),
            ],
        ) == Some(
            (ThreadOf {
                id,
                title,
                posts_count,
                created_at,
                last_activity_at,
                category_name: Some(category_name),
                category_slug: Some(category_slug),
                author: Some(author),
            }),
        ),
{
}

/// The row of a recent post is read just where each column is of its kind, and each field holds
/// its own column.
pub proof fn law_recent_post_row(row: RowView)
    ensures
        match <RecentPost as FromRow>::read(row) {
            Some(record) => {
                &&& row.len() >= 8
                &&& row[0] == CellOf::<Seq<char>>::Int(record.post_id)
                &&& row[1] == CellOf::<Seq<char>>::Int(record.created_at)
                &&& holds(row[2], record.author)
                &&& row[3] == CellOf::Text(record.content)
                &&& row[4] == CellOf::<Seq<char>>::Int(record.thread_id)
                &&& row[5] == CellOf::Text(record.thread_title)
                &&& holds(row[6], record.category_name)
                &&& holds(row[7], record.category_slug)
            },
            None => !{
                &&& row.len() >= 8
                &&& row[0] is Int
                &&& row[1] is Int
                &&& (row[2] is Text || row[2] is Null)
                &&& row[3] is Text
                &&& row[4] is Int
                &&& row[5] is Text
                &&& (row[6] is Text || row[6] is Null)
                &&& (row[7] is Text || row[7] is Null)
            },
        },
{
}

/// Reading the columns of a recent post gives them back.
pub proof fn law_recent_post_columns(
    post_id: i64,
    created_at: i64,
    author: Seq<char>,
    content: Seq<char>,
    thread_id: i64,
    thread_title: Seq<char>,
    category_name: Seq<char>,
    category_slug: Seq<char>,
)
    ensures
        <RecentPost as FromRow>::read(
            seq![
                CellOf::Int(post_id),
                CellOf::Int(created_at),
                CellOf::Text(author),
                CellOf::Text(content),
                CellOf::Int(thread_id),
                CellOf::Text(thread_title),
                CellOf::Text(category_name),
                CellOf::Text(category_slug),
            ],
        ) == Some(
            (RecentPostOf {
                post_id,
                created_at,
                author: Some(author),
                content,
                thread_id,
                thread_title,
                category_name: Some(category_name),
                category_slug: Some(category_slug),
            }),
        ),
{
}

/// The row of a member is read just where each column is of its kind, and each field holds its
/// own column.
pub proof fn law_member_row(row: RowView)
    ensures
        match <Member as FromRow>::read(row) {
            Some(record) => {
                &&& row.len() >= 3
                &&& row[0] == CellOf::<Seq<char>>::Int(record.id)
                &&& row[1] == CellOf::Text(record.username)
                &&& row[2] == CellOf::<Seq<char>>::Int(record.created_at)
            },
            None => !{
                &&& row.len() >= 3
                &&& row[0] is Int
                &&& row[1] is Text
                &&& row[2] is Int
            },
        },
{
}

/// Reading the columns of a member gives them back.
pub proof fn law_member_columns(
    id: i64,
    username: Seq<char>,
    created_at: i64,
)
    ensures
        <Member as FromRow>::read(
            seq![
                CellOf::Int(id),
                CellOf::Text(username),
                CellOf::Int(created_at),
            ],
        ) == Some(
            (MemberOf {
                id,
                username,
                created_at,
            }),
        ),
{
}

/// The row of a post is read just where each column is of its kind, and each field holds its own
/// column.
pub proof fn law_post_row(row: RowView)
    ensures
        match <Post as FromRow>::read(row) {
            Some(record) => {
                &&& row.len() >= 4
                &&& row[0] == CellOf::<Seq<char>>::Int(record.id)
                &&& holds(row[1], record.author)
                &&& row[2] == CellOf::Text(record.content)
                &&& row[3] == CellOf::<Seq<char>>::Int(record.created_at)
            },
            None => !{
                &&& row.len() >= 4
                &&& row[0] is Int
                &&& (row[1] is Text || row[1] is Null)
                &&& row[2] is Text
                &&& row[3] is Int
            },
        },
{
}

/// Reading the columns of a post gives them back.
pub proof fn law_post_columns(
    id: i64,
    author: Seq<char>,
    content: Seq<char>,
    created_at: i64,
)
    ensures
        <Post as FromRow>::read(
            seq![
                CellOf::Int(id),
                CellOf::Text(author),
                CellOf::Text(content),
                CellOf::Int(created_at),
            ],
        ) == Some(
            (PostOf {
                id,
                author: Some(author),
                content,
                created_at,
            }),
        ),
{
}

/// The row of a comment is read just where each column is of its kind, and each field holds its
/// own column.
pub proof fn law_comment_row(row: RowView)
    ensures
        match <Comment as FromRow>::read(row) {
            Some(record) => {
                &&& row.len() >= 5
                &&& row[0] == CellOf::<Seq<char>>::Int(record.id)
                &&& row[1] == CellOf::<Seq<char>>::Int(record.post_id)
                &&& holds(row[2], record.author)
                &&& row[3] == CellOf::Text(record.content)
                &&& row[4] == CellOf::<Seq<char>>::Int(record.created_at)
            },
            None => !{
                &&& row.len() >= 5
                &&& row[0] is Int
                &&& row[1] is Int
                &&& (row[2] is Text || row[2] is Null)
                &&& row[3] is Text
                &&& row[4] is Int
            },
        },
{
}

/// Reading the columns of a comment gives them back.
pub proof fn law_comment_columns(
    id: i64,
    post_id: i64,
    author: Seq<char>,
    content: Seq<char>,
    created_at: i64,
)
    ensures
        <Comment as FromRow>::read(
            seq![
                CellOf::Int(id),
                CellOf::Int(post_id),
                CellOf::Text(author),
                CellOf::Text(content),
                CellOf::Int(created_at),
            ],
        ) == Some(
            (CommentOf {
                id,
                post_id,
                author: Some(author),
                content,
                created_at,
            }),
        ),
{
}

/// The row of the credentials of a member is read just where each column is of its kind, and each
/// field holds its own column.
pub proof fn law_credentials_row(row: RowView)
    ensures
        match <Credentials as FromRow>::read(row) {
            Some(record) => {
                &&& row.len() >= 2
                &&& row[0] == CellOf::<Seq<char>>::Int(record.user_id)
                &&& row[1] == CellOf::Text(record.password_hash)
            },
            None => !{
                &&& row.len() >= 2
                &&& row[0] is Int
                &&& row[1] is Text
            },
        },
{
}

/// Reading the columns of the credentials of a member gives them back.
pub proof fn law_credentials_columns(
    user_id: i64,
    password_hash: Seq<char>,
)
    ensures
        <Credentials as FromRow>::read(
            seq![
                CellOf::Int(user_id),
                CellOf::Text(password_hash),
            ],
        ) == Some(
            (CredentialsOf {
                user_id,
                password_hash,
            }),
        ),
{
}

/// The first row of a reply is the one that counts; without rows there is nothing.
pub proof fn law_first_row<R: FromRow>(rows: Seq<RowView>, rowid: i64)
    ensures
        rows.len() > 0 ==> found::<R>(ReplyOf::Rows(rows)) == R::read(rows[0]),
        rows.len() == 0 ==> found::<R>(ReplyOf::Rows(rows)) is None,
        found::<R>(ReplyOf::Failed) is None,
        found::<R>(ReplyOf::Done { rowid }) is None,
{
}

/// A reply lists its rows in their order, one record for each row that can be read.
pub proof fn law_rows_listed<R: FromRow>(rows: Seq<RowView>, row: RowView, rowid: i64)
    ensures
        listed::<R>(ReplyOf::Rows(Seq::empty())) == Seq::<R::V>::empty(),
        R::read(row) matches Some(record) ==> listed::<R>(ReplyOf::Rows(rows.push(row))) == listed::<
            R,
        >(ReplyOf::Rows(rows)).push(record),
        R::read(row) is None ==> listed::<R>(ReplyOf::Rows(rows.push(row))) == listed::<R>(
            ReplyOf::Rows(rows),
        ),
        listed::<R>(ReplyOf::Failed) == Seq::<R::V>::empty(),
        listed::<R>(ReplyOf::Done { rowid }) == Seq::<R::V>::empty(),
{
    assert(rows.push(row).drop_last() =~= rows);
}

/// Where every row can be read, each is listed at its place.
pub proof fn law_rows_kept<R: FromRow>(rows: Seq<RowView>)
    requires
        forall|i: int| 0 <= i < rows.len() ==> R::read(#[trigger] rows[i]) is Some,
    ensures
        listed::<R>(ReplyOf::Rows(rows)).len() == rows.len(),
        forall|i: int|
            0 <= i < rows.len() ==> R::read(#[trigger] rows[i]) == Some(
                listed::<R>(ReplyOf::Rows(rows))[i],
            ),
    decreases rows.len(),
{
    if rows.len() > 0 {
        let front = rows.drop_last();
        assert forall|i: int| 0 <= i < front.len() implies R::read(#[trigger] front[i]) is Some by {
            assert(front[i] == rows[i]);
        }
        law_rows_kept::<R>(front);
        assert(R::read(rows[rows.len() - 1]) is Some);
        assert forall|i: int| 0 <= i < rows.len() implies R::read(#[trigger] rows[i]) == Some(
            listed::<R>(ReplyOf::Rows(rows))[i],
        ) by {
            if i < front.len() {
                assert(front[i] == rows[i]);
            }
        }
    }
}

/// A reply is a number, or a text, just where its first row begins with one.
pub proof fn law_single_values(reply: ReplyView, n: i64, t: Seq<char>)
    ensures
        found_int(reply) == Some(n) <==> (reply matches ReplyOf::Rows(rows) && rows.len() > 0
            && rows[0].len() > 0 && rows[0][0] == CellOf::<Seq<char>>::Int(n)),
        found_text(reply) == Some(t) <==> (reply matches ReplyOf::Rows(rows) && rows.len() > 0
            && rows[0].len() > 0 && rows[0][0] == CellOf::Text(t)),
        found_int(reply) == Some(n) ==> counted(reply) == n,
        found_int(reply) is None ==> counted(reply) == 0,
{
}

} // verus!
