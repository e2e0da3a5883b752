//! What laws start from: who a visitor is, and what the database answers.
use vstd::prelude::*;
use vstd::utf8::encode_utf8;
use crate::cookies::{csrf_ok, JarView};
use crate::dialogue::{current_visitor, registration_open, session_question};
use crate::records::{found_int, found_text, ReplyView, UserOf};
use crate::store::{CellOf, CommandView, ReplyOf};

verus! {

/// Whether a form carries the token of 64 bytes that the jar holds.
pub open spec fn carries_token(jar: JarView, token: Seq<char>) -> bool {
    &&& encode_utf8(token).len() == 64
    &&& jar.values.contains_key("csrf_token"@)
    &&& jar.values["csrf_token"@] == token
}

/// The question who the visitor is, where the jar holds a session.
pub open spec fn who(jar: JarView, now: i64) -> CommandView {
    CommandView::FindSessionUser { token: jar.values["session_id"@], now }
}

/// Whether a visitor brings a session.
pub open spec fn has_session(jar: JarView) -> bool {
    jar.values.contains_key("session_id"@)
}

/// Whether the first row that was found tells of a member: a number, a name, and whether they
/// administer the forum.
pub open spec fn tells_of(reply: ReplyView, user: UserOf<Seq<char>>) -> bool {
    &&& reply matches ReplyOf::Rows(rows)
    &&& rows.len() > 0
    &&& rows[0].len() >= 3
    &&& rows[0][0] == CellOf::<Seq<char>>::Int(user.id)
    &&& rows[0][1] == CellOf::Text(user.name)
    &&& rows[0][2] matches CellOf::Int(n)
    &&& user.is_admin == (n == 1)
}

/// Whether no member can be made out in a reply.
pub open spec fn tells_of_nobody(reply: ReplyView) -> bool {
    !{
        &&& reply matches ReplyOf::Rows(rows)
        &&& rows.len() > 0
        &&& rows[0].len() >= 3
        &&& rows[0][0] is Int
        &&& rows[0][1] is Text
        &&& rows[0][2] is Int
    }
}

/// Whether the first value that was found is this number.
pub open spec fn gives_number(reply: ReplyView, n: i64) -> bool {
    &&& reply matches ReplyOf::Rows(rows)
    &&& rows.len() > 0
    &&& rows[0].len() > 0
    &&& rows[0][0] == CellOf::<Seq<char>>::Int(n)
}

/// Whether no number was found.
pub open spec fn gives_no_number(reply: ReplyView) -> bool {
    !{
        &&& reply matches ReplyOf::Rows(rows)
        &&& rows.len() > 0
        &&& rows[0].len() > 0
        &&& rows[0][0] is Int
    }
}

/// Whether the first value that was found is this text.
pub open spec fn gives_text(reply: ReplyView, t: Seq<char>) -> bool {
    &&& reply matches ReplyOf::Rows(rows)
    &&& rows.len() > 0
    &&& rows[0].len() > 0
    &&& rows[0][0] == CellOf::Text(t)
}

/// Whether no text was found.
pub open spec fn gives_no_text(reply: ReplyView) -> bool {
    !{
        &&& reply matches ReplyOf::Rows(rows)
        &&& rows.len() > 0
        &&& rows[0].len() > 0
        &&& rows[0][0] is Text
    }
}

/// Whether a visitor turns out to be this member.
pub open spec fn is_visited_by(
    jar: JarView,
    now: i64,
    answers: spec_fn(CommandView) -> ReplyView,
    user: UserOf<Seq<char>>,
) -> bool {
    has_session(jar) && tells_of(answers(who(jar, now)), user)
}

/// A form is let through if it carries the token that the jar holds, and no other form is.
pub proof fn law_token_carried(jar: JarView, token: Seq<char>)
    ensures
        csrf_ok(jar, token) <==> carries_token(jar, token),
{
}

/// A visitor is who the answer to their session tells of, and nobody without one.
pub proof fn law_who_visits(
    jar: JarView,
    now: i64,
    answers: spec_fn(CommandView) -> ReplyView,
    user: UserOf<Seq<char>>,
)
    ensures
        has_session(jar) ==> session_question(jar, now) == Some(who(jar, now)),
        !has_session(jar) ==> session_question(jar, now) is None,
        current_visitor(jar, now, answers) == Some(user) <==> is_visited_by(
            jar,
            now,
            answers,
            user,
        ),
        current_visitor(jar, now, answers) is None <==> !has_session(jar) || tells_of_nobody(
            answers(who(jar, now)),
        ),
{
}

/// The registration is open where the setting is `1` or cannot be made out, and not otherwise.
pub proof fn law_registration_open(reply: ReplyView, value: Seq<char>)
    ensures
        gives_text(reply, value) ==> (registration_open(reply) <==> value == "1"@),
        gives_no_text(reply) ==> registration_open(reply),
{
}

/// A single value is found where the first row begins with it.
pub proof fn law_single_found(reply: ReplyView, n: i64, t: Seq<char>)
    ensures
        found_int(reply) == Some(n) <==> gives_number(reply, n),
        found_int(reply) is None <==> gives_no_number(reply),
        found_text(reply) == Some(t) <==> gives_text(reply, t),
        found_text(reply) is None <==> gives_no_text(reply),
{
}

} // verus!
