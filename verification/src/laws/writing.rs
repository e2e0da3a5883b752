//! What members write: threads, replies and comments, told command by command.
use vstd::prelude::*;
use vstd::utf8::encode_utf8;
use crate::cookies::JarView;
use crate::dialogue::{run, ResponseView};
use crate::laws::premises::{
    carries_token, gives_no_number, gives_number, has_session, is_visited_by, tells_of_nobody, who,
};
use crate::markup::clamped;
use crate::posting::{
    comment_next, create_next, member_form_begun, reply_next, AnswerStateView, CreateStateView,
    CreateThreadFormOf, ReplyFormOf,
};
use crate::records::{ReplyView, UserOf};
use crate::store::CommandView;
use crate::text::{decimal, trimmed};

verus! {

/// What a form for a reply comes to that is sent at `now` and written at `later`.
pub open spec fn reply_run(
    jar: JarView,
    thread_id: i64,
    form: ReplyFormOf<Seq<char>>,
    now: i64,
    later: i64,
    answers: spec_fn(CommandView) -> ReplyView,
) -> Option<(Seq<CommandView>, ResponseView)> {
    run(
        member_form_begun(
            jar,
            form.csrf_token,
            now,
            AnswerStateView::User { target: thread_id, content: form.content },
        ),
        |s: AnswerStateView, r: ReplyView| reply_next(s, r, later),
        answers,
        2,
    )
}

/// What a form for a comment comes to that is sent at `now` and written at `later`.
pub open spec fn comment_run(
    jar: JarView,
    post_id: i64,
    form: ReplyFormOf<Seq<char>>,
    now: i64,
    later: i64,
    answers: spec_fn(CommandView) -> ReplyView,
) -> Option<(Seq<CommandView>, ResponseView)> {
    run(
        member_form_begun(
            jar,
            form.csrf_token,
            now,
            AnswerStateView::User { target: post_id, content: form.content },
        ),
        |s: AnswerStateView, r: ReplyView| comment_next(s, r, later),
        answers,
        2,
    )
}

/// What a form for a new thread comes to that is sent at `now` and written at `later`.
pub open spec fn create_run(
    jar: JarView,
    form: CreateThreadFormOf<Seq<char>>,
    now: i64,
    later: i64,
    answers: spec_fn(CommandView) -> ReplyView,
) -> Option<(Seq<CommandView>, ResponseView)> {
    run(
        member_form_begun(jar, form.csrf_token, now, CreateStateView::User(form)),
        |s: CreateStateView, r: ReplyView| create_next(s, r, later),
        answers,
        3,
    )
}

/// A text is cut down just where it takes more bytes than it may.
pub proof fn law_fitting_text(text: Seq<char>, bytes: int)
    requires
        encode_utf8(text).len() <= bytes,
    ensures
        clamped(text, bytes) == text,
{
}

/// A reply by a member to a thread that exists is written as one post in that thread, with the
/// trimmed text, which stays whole up to 5000 bytes, under the number and name of the member and
/// at the time of writing, at which the thread also counts it; and it leads back to the thread.
pub proof fn law_reply_written(
    jar: JarView,
    thread_id: i64,
    form: ReplyFormOf<Seq<char>>,
    now: i64,
    later: i64,
    answers: spec_fn(CommandView) -> ReplyView,
    user: UserOf<Seq<char>>,
    n: i64,
)
    requires
        carries_token(jar, form.csrf_token),
        is_visited_by(jar, now, answers, user),
        gives_number(answers(CommandView::ThreadExists { thread_id }), n),
        trimmed(form.content).len() > 0,
    ensures
        reply_run(jar, thread_id, form, now, later, answers) == Some(
            (
                seq![
                    who(jar, now),
                    CommandView::ThreadExists { thread_id },
                    CommandView::InsertPost {
                        thread_id,
                        author: clamped(user.name, 32),
                        content: clamped(trimmed(form.content), 5000),
                        created_at: later,
                        user_id: user.id,
                    },
                    CommandView::CountNewPost { now: later, thread_id },
                ],
                ResponseView::Redirect {
                    jar: None,
                    to: "/thread/"@ + decimal(thread_id as int),
                },
            ),
        ),
{
    reveal_with_fuel(run, 3);
}

/// A reply by a member whose trimmed text takes 5000 bytes at most is kept to the letter, and so
/// is a name of 32 bytes at most.
pub proof fn law_reply_kept(
    jar: JarView,
    thread_id: i64,
    form: ReplyFormOf<Seq<char>>,
    now: i64,
    later: i64,
    answers: spec_fn(CommandView) -> ReplyView,
    user: UserOf<Seq<char>>,
    n: i64,
)
    requires
        carries_token(jar, form.csrf_token),
        is_visited_by(jar, now, answers, user),
        gives_number(answers(CommandView::ThreadExists { thread_id }), n),
        trimmed(form.content).len() > 0,
        encode_utf8(trimmed(form.content)).len() <= 5000,
    ensures
        reply_run(jar, thread_id, form, now, later, answers) matches Some((commands, response))
            && commands.len() == 4 && (commands[2] matches CommandView::InsertPost {
            thread_id: place,
            author,
            content,
            created_at,
            user_id,
        } && place == thread_id && content == trimmed(form.content) && created_at == later
            && user_id == user.id && (encode_utf8(user.name).len() <= 32 ==> author == user.name)),
{
    law_reply_written(jar, thread_id, form, now, later, answers, user, n);
}

/// A reply is not written without the token, by a stranger, to a thread that does not exist, or
/// without a text; and where it leads says which of these it was.
pub proof fn law_reply_refused(
    jar: JarView,
    thread_id: i64,
    form: ReplyFormOf<Seq<char>>,
    now: i64,
    later: i64,
    answers: spec_fn(CommandView) -> ReplyView,
    user: UserOf<Seq<char>>,
    n: i64,
)
    ensures
        ({
            let ran = reply_run(jar, thread_id, form, now, later, answers);
            let exists = answers(CommandView::ThreadExists { thread_id });
            &&& !carries_token(jar, form.csrf_token) ==> ran == Some(
                (
                    Seq::<CommandView>::empty(),
                    ResponseView::Text { status: 403, body: "Invalid or missing CSRF token."@ },
                ),
            )
            &&& carries_token(jar, form.csrf_token) && !has_session(jar) ==> ran == Some(
                (
                    Seq::<CommandView>::empty(),
                    ResponseView::Redirect { jar: None, to: "/login"@ },
                ),
            )
            &&& carries_token(jar, form.csrf_token) && has_session(jar) && tells_of_nobody(
                answers(who(jar, now)),
            ) ==> ran == Some(
                (
                    seq![who(jar, now)],
                    ResponseView::Redirect { jar: None, to: "/login"@ },
                ),
            )
            &&& carries_token(jar, form.csrf_token) && is_visited_by(jar, now, answers, user)
                && gives_no_number(exists) ==> ran == Some(
                (
                    seq![who(jar, now), CommandView::ThreadExists { thread_id }],
                    ResponseView::Redirect { jar: None, to: "/"@ },
                ),
            )
            &&& carries_token(jar, form.csrf_token) && is_visited_by(jar, now, answers, user)
                && gives_number(exists, n) && trimmed(form.content).len() == 0 ==> ran == Some(
                (
                    seq![who(jar, now), CommandView::ThreadExists { thread_id }],
                    ResponseView::Redirect {
                        jar: None,
                        to: "/thread/"@ + decimal(thread_id as int),
                    },
                ),
            )
        }),
{
    reveal_with_fuel(run, 3);
    let who = who(jar, now);
    assert(seq![who] + Seq::<CommandView>::empty() =~= seq![who]);
    let found = CommandView::ThreadExists { thread_id };
    assert(seq![who] + (seq![found] + Seq::<CommandView>::empty()) =~= seq![who, found]);
}

/// A comment by a member on a post that exists is written as one comment on that post, with the
/// trimmed text, which stays whole up to 2000 bytes, under the number and name of the member. It
/// is created at the time of writing, the same at which its thread is marked as active; and it
/// leads back to the post.
pub proof fn law_comment_written(
    jar: JarView,
    post_id: i64,
    form: ReplyFormOf<Seq<char>>,
    now: i64,
    later: i64,
    answers: spec_fn(CommandView) -> ReplyView,
    user: UserOf<Seq<char>>,
    thread_id: i64,
)
    requires
        carries_token(jar, form.csrf_token),
        is_visited_by(jar, now, answers, user),
        gives_number(answers(CommandView::ThreadOfPost { post_id }), thread_id),
        trimmed(form.content).len() > 0,
    ensures
        comment_run(jar, post_id, form, now, later, answers) == Some(
            (
                seq![
                    who(jar, now),
                    CommandView::ThreadOfPost { post_id },
                    CommandView::InsertComment {
                        post_id,
                        author: clamped(user.name, 32),
                        content: clamped(trimmed(form.content), 2000),
                        created_at: later,
                        user_id: user.id,
                    },
                    CommandView::TouchThread { now: later, thread_id },
                ],
                ResponseView::Redirect {
                    jar: None,
                    to: "/thread/"@ + decimal(thread_id as int) + "#p"@ + decimal(post_id as int),
                },
            ),
        ),
{
    reveal_with_fuel(run, 3);
}

/// A comment by a member whose trimmed text takes 2000 bytes at most is kept to the letter, and
/// so is a name of 32 bytes at most.
pub proof fn law_comment_kept(
    jar: JarView,
    post_id: i64,
    form: ReplyFormOf<Seq<char>>,
    now: i64,
    later: i64,
    answers: spec_fn(CommandView) -> ReplyView,
    user: UserOf<Seq<char>>,
    thread_id: i64,
)
    requires
        carries_token(jar, form.csrf_token),
        is_visited_by(jar, now, answers, user),
        gives_number(answers(CommandView::ThreadOfPost { post_id }), thread_id),
        trimmed(form.content).len() > 0,
        encode_utf8(trimmed(form.content)).len() <= 2000,
    ensures
        comment_run(jar, post_id, form, now, later, answers) matches Some((commands, response))
            && commands.len() == 4 && (commands[2] matches CommandView::InsertComment {
            post_id: place,
            author,
            content,
            created_at,
            user_id,
        } && place == post_id && content == trimmed(form.content) && created_at == later
            && user_id == user.id && (encode_utf8(user.name).len() <= 32 ==> author == user.name)),
{
    law_comment_written(jar, post_id, form, now, later, answers, user, thread_id);
}

/// A comment is not written without the token, by a stranger, on a post that does not exist, or
/// without a text; and where it leads says which of these it was.
pub proof fn law_comment_refused(
    jar: JarView,
    post_id: i64,
    form: ReplyFormOf<Seq<char>>,
    now: i64,
    later: i64,
    answers: spec_fn(CommandView) -> ReplyView,
    user: UserOf<Seq<char>>,
    thread_id: i64,
)
    ensures
        ({
            let ran = comment_run(jar, post_id, form, now, later, answers);
            let place = answers(CommandView::ThreadOfPost { post_id });
            &&& !carries_token(jar, form.csrf_token) ==> ran == Some(
                (
                    Seq::<CommandView>::empty(),
                    ResponseView::Text { status: 403, body: "Invalid or missing CSRF token."@ },
                ),
            )
            &&& carries_token(jar, form.csrf_token) && !has_session(jar) ==> ran == Some(
                (
                    Seq::<CommandView>::empty(),
                    ResponseView::Redirect { jar: None, to: "/login"@ },
                ),
            )
            &&& carries_token(jar, form.csrf_token) && has_session(jar) && tells_of_nobody(
                answers(who(jar, now)),
            ) ==> ran == Some(
                (
                    seq![who(jar, now)],
                    ResponseView::Redirect { jar: None, to: "/login"@ },
                ),
            )
            &&& carries_token(jar, form.csrf_token) && is_visited_by(jar, now, answers, user)
                && gives_no_number(place) ==> ran == Some(
                (
                    seq![who(jar, now), CommandView::ThreadOfPost { post_id }],
                    ResponseView::Redirect { jar: None, to: "/"@ },
                ),
            )
            &&& carries_token(jar, form.csrf_token) && is_visited_by(jar, now, answers, user)
                && gives_number(place, thread_id) && trimmed(form.content).len() == 0 ==> ran
                == Some(
                (
                    seq![who(jar, now), CommandView::ThreadOfPost { post_id }],
                    ResponseView::Redirect {
                        jar: None,
                        to: "/thread/"@ + decimal(thread_id as int),
                    },
                ),
            )
        }),
{
    reveal_with_fuel(run, 3);
    let who = who(jar, now);
    assert(seq![who] + Seq::<CommandView>::empty() =~= seq![who]);
    let found = CommandView::ThreadOfPost { post_id };
    assert(seq![who] + (seq![found] + Seq::<CommandView>::empty()) =~= seq![who, found]);
}

/// Whether a form for a new thread is complete: it carries the token, a member sent it, and it
/// has a title and a text.
pub open spec fn is_complete(
    jar: JarView,
    form: CreateThreadFormOf<Seq<char>>,
    now: i64,
    answers: spec_fn(CommandView) -> ReplyView,
    user: UserOf<Seq<char>>,
) -> bool {
    &&& carries_token(jar, form.csrf_token)
    &&& is_visited_by(jar, now, answers, user)
    &&& trimmed(form.title).len() > 0
    &&& trimmed(form.content).len() > 0
}

/// The command that opens a thread with the title of a form, which stays whole up to 140 bytes,
/// in the name of a member.
pub open spec fn opening(
    form: CreateThreadFormOf<Seq<char>>,
    user: UserOf<Seq<char>>,
    category_id: i64,
    later: i64,
) -> CommandView {
    CommandView::InsertThread {
        title: clamped(trimmed(form.title), 140),
        created_at: later,
        category_id,
        user_id: user.id,
    }
}

/// The command that puts the text of a form into a thread, whole up to 5000 bytes, in the name of
/// a member.
pub open spec fn opening_post(
    form: CreateThreadFormOf<Seq<char>>,
    user: UserOf<Seq<char>>,
    thread_id: i64,
    later: i64,
) -> CommandView {
    CommandView::InsertPost {
        thread_id,
        author: clamped(user.name, 32),
        content: clamped(trimmed(form.content), 5000),
        created_at: later,
        user_id: user.id,
    }
}

/// A new thread goes into the category that was chosen for it. Once it is there, its text becomes
/// its first post, which the thread counts, all at one time; and the form leads to the thread.
/// Where it cannot be opened, nothing follows.
pub proof fn law_thread_written(
    jar: JarView,
    form: CreateThreadFormOf<Seq<char>>,
    now: i64,
    later: i64,
    answers: spec_fn(CommandView) -> ReplyView,
    user: UserOf<Seq<char>>,
    category_id: i64,
    rowid: i64,
)
    requires
        is_complete(jar, form, now, answers, user),
        form.category_id == Some(category_id),
    ensures
        ({
            let ran = create_run(jar, form, now, later, answers);
            let opening = opening(form, user, category_id, later);
            &&& answers(opening) == (ReplyView::Done { rowid }) ==> ran == Some(
                (
                    seq![
                        who(jar, now),
                        opening,
                        opening_post(form, user, rowid, later),
                        CommandView::CountNewPost { now: later, thread_id: rowid },
                    ],
                    ResponseView::Redirect {
                        jar: None,
                        to: "/thread/"@ + decimal(rowid as int),
                    },
                ),
            )
            &&& !(answers(opening) is Done) ==> ran == Some(
                (seq![who(jar, now), opening], ResponseView::Redirect { jar: None, to: "/"@ }),
            )
        }),
{
    reveal_with_fuel(run, 4);
    let who = who(jar, now);
    let a = opening(form, user, category_id, later);
    assert(seq![who] + (seq![a] + Seq::<CommandView>::empty()) =~= seq![who, a]);
    let b = opening_post(form, user, rowid, later);
    let c = CommandView::CountNewPost { now: later, thread_id: rowid };
    assert(seq![who] + (seq![a] + seq![b, c]) =~= seq![who, a, b, c]);
}

/// A new thread for which no category was chosen goes into the first one, or into the one with
/// the number 1 where none is found.
pub proof fn law_thread_placed(
    jar: JarView,
    form: CreateThreadFormOf<Seq<char>>,
    now: i64,
    later: i64,
    answers: spec_fn(CommandView) -> ReplyView,
    user: UserOf<Seq<char>>,
    category_id: i64,
    rowid: i64,
)
    requires
        is_complete(jar, form, now, answers, user),
        form.category_id is None,
        gives_number(answers(CommandView::FirstCategory), category_id) || (gives_no_number(
            answers(CommandView::FirstCategory),
        ) && category_id == 1),
    ensures
        ({
            let ran = create_run(jar, form, now, later, answers);
            let opening = opening(form, user, category_id, later);
            &&& answers(opening) == (ReplyView::Done { rowid }) ==> ran == Some(
                (
                    seq![
                        who(jar, now),
                        CommandView::FirstCategory,
                        opening,
                        opening_post(form, user, rowid, later),
                        CommandView::CountNewPost { now: later, thread_id: rowid },
                    ],
                    ResponseView::Redirect {
                        jar: None,
                        to: "/thread/"@ + decimal(rowid as int),
                    },
                ),
            )
            &&& !(answers(opening) is Done) ==> ran == Some(
                (
                    seq![who(jar, now), CommandView::FirstCategory, opening],
                    ResponseView::Redirect { jar: None, to: "/"@ },
                ),
            )
        }),
{
    reveal_with_fuel(run, 4);
    let who = who(jar, now);
    let first = CommandView::FirstCategory;
    let a = opening(form, user, category_id, later);
    assert(seq![who] + (seq![first] + (seq![a] + Seq::<CommandView>::empty())) =~= seq![
        who,
        first,
        a,
    ]);
    let b = opening_post(form, user, rowid, later);
    let c = CommandView::CountNewPost { now: later, thread_id: rowid };
    assert(seq![who] + (seq![first] + (seq![a] + seq![b, c])) =~= seq![who, first, a, b, c]);
}

/// A title of 140 bytes at most and a text of 5000 bytes at most are kept to the letter.
pub proof fn law_thread_kept(
    form: CreateThreadFormOf<Seq<char>>,
    user: UserOf<Seq<char>>,
    category_id: i64,
    thread_id: i64,
    later: i64,
)
    ensures
        encode_utf8(trimmed(form.title)).len() <= 140 ==> opening(form, user, category_id, later)
            == (CommandView::InsertThread {
            title: trimmed(form.title),
            created_at: later,
            category_id,
            user_id: user.id,
        }),
        encode_utf8(trimmed(form.content)).len() <= 5000 && encode_utf8(user.name).len() <= 32
            ==> opening_post(form, user, thread_id, later) == (CommandView::InsertPost {
            thread_id,
            author: user.name,
            content: trimmed(form.content),
            created_at: later,
            user_id: user.id,
        }),
{
}

/// A thread is not opened without the token, by a stranger, or without a title and a text; and
/// where the form leads says which of these it was.
pub proof fn law_thread_refused(
    jar: JarView,
    form: CreateThreadFormOf<Seq<char>>,
    now: i64,
    later: i64,
    answers: spec_fn(CommandView) -> ReplyView,
    user: UserOf<Seq<char>>,
)
    ensures
        ({
            let ran = create_run(jar, form, now, later, answers);
            &&& !carries_token(jar, form.csrf_token) ==> ran == Some(
                (
                    Seq::<CommandView>::empty(),
                    ResponseView::Text { status: 403, body: "Invalid or missing CSRF token."@ },
                ),
            )
            &&& carries_token(jar, form.csrf_token) && !has_session(jar) ==> ran == Some(
                (
                    Seq::<CommandView>::empty(),
                    ResponseView::Redirect { jar: None, to: "/login"@ },
                ),
            )
            &&& carries_token(jar, form.csrf_token) && has_session(jar) && tells_of_nobody(
                answers(who(jar, now)),
            ) ==> ran == Some(
                (
                    seq![who(jar, now)],
                    ResponseView::Redirect { jar: None, to: "/login"@ },
                ),
            )
            &&& carries_token(jar, form.csrf_token) && is_visited_by(jar, now, answers, user) && (
            trimmed(form.title).len() == 0 || trimmed(form.content).len() == 0) ==> ran == Some(
                (seq![who(jar, now)], ResponseView::Redirect { jar: None, to: "/"@ }),
            )
        }),
{
    reveal_with_fuel(run, 3);
    let who = who(jar, now);
    assert(seq![who] + Seq::<CommandView>::empty() =~= seq![who]);
}

} // verus!
