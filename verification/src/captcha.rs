//! CAPTCHAs: their numbers, and what is kept of those that were drawn.
use vstd::prelude::*;
use crate::clock::is_now;
use crate::dialogue::{commands_view, end, ended, respond, ResponseOf, ResponseView, Step, StepView};
use crate::store::{Command, CommandOf};
use crate::text::lowercase;

verus! {

/// How long a CAPTCHA can be solved, in seconds.
pub const CAPTCHA_TTL_SECONDS: i64 = 300;

/// A hexadecimal digit.
pub open spec fn is_hex_digit(c: char) -> bool {
    '0' <= c <= '9' || 'a' <= c <= 'f' || 'A' <= c <= 'F'
}

/// Where the hyphens of a UUID stand.
pub open spec fn is_hyphen_place(i: int) -> bool {
    i == 8 || i == 13 || i == 18 || i == 23
}

/// A UUID in five groups of hexadecimal digits.
pub open spec fn is_hyphenated(s: Seq<char>) -> bool {
    &&& s.len() == 36
    &&& forall|i: int|
        0 <= i < 36 ==> if is_hyphen_place(i) {
            #[trigger] s[i] == '-'
        } else {
            is_hex_digit(s[i])
        }
}

/// The mark of a UUID that is written as a URN, in letters of either case.
pub open spec fn is_urn_mark(s: Seq<char>) -> bool {
    &&& s.len() == 9
    &&& s[0] == 'u' || s[0] == 'U'
    &&& s[1] == 'r' || s[1] == 'R'
    &&& s[2] == 'n' || s[2] == 'N'
    &&& s[3] == ':'
    &&& s[4] == 'u' || s[4] == 'U'
    &&& s[5] == 'u' || s[5] == 'U'
    &&& s[6] == 'i' || s[6] == 'I'
    &&& s[7] == 'd' || s[7] == 'D'
    &&& s[8] == ':'
}

/// A UUID in any of its forms: 32 digits, five groups of them, those in braces, or those as a
/// URN.
pub open spec fn is_uuid(s: Seq<char>) -> bool {
    ||| s.len() == 32 && forall|i: int| 0 <= i < 32 ==> is_hex_digit(#[trigger] s[i])
    ||| is_hyphenated(s)
    ||| s.len() == 38 && s[0] == '{' && s[37] == '}' && is_hyphenated(s.subrange(1, 37))
    ||| s.len() == 45 && is_urn_mark(s.take(9)) && is_hyphenated(s.skip(9))
}

/// A random UUID as it is written: in five groups of lowercase digits that name its version
/// and variant.
pub open spec fn is_random_uuid(s: Seq<char>) -> bool {
    &&& is_hyphenated(s)
    &&& forall|i: int| 0 <= i < 36 ==> !('A' <= #[trigger] s[i] <= 'F')
    &&& s[14] == '4'
    &&& s[19] == '8' || s[19] == '9' || s[19] == 'a' || s[19] == 'b'
}

/// `Uuid::parse_str`: it reads UUIDs in all four forms, and nothing else.
#[verifier::external_body]
fn parses_as_uuid(s: &str) -> (r: bool)
    ensures
        r == is_uuid(s@),
{
    uuid::Uuid::parse_str(s).is_ok()
}

/// `Uuid::new_v4`, written out by its `Display`. Which UUID it is, is left to chance. It panics
/// where the random source of the operating system fails.
#[verifier::external_body]
pub(crate) fn new_captcha_id() -> (r: String)
    ensures
        is_random_uuid(r@),
{
    uuid::Uuid::new_v4().to_string()
}

/// Every number under which a visitor is told to find a CAPTCHA is one under which a CAPTCHA
/// is drawn.
pub proof fn law_captcha_id(id: Seq<char>, drawn: Seq<char>, now: i64)
    requires
        is_random_uuid(id),
    ensures
        captcha_ended(id, drawn, now) == captcha_stored(id, lowercase(drawn), now),
{
}

/// The answer to a request for a CAPTCHA under a number that cannot be one.
pub open spec fn bad_captcha_id() -> ResponseView {
    ResponseOf::Text { status: 400, body: "Invalid CAPTCHA id."@ }
}

/// Whether a CAPTCHA may be drawn under a number.
pub fn is_captcha_id(id: &str) -> (r: bool)
    ensures
        r == is_uuid(id@),
{
    parses_as_uuid(id)
}

/// What is kept of a CAPTCHA: its solution, until it expires. Those that have expired go.
pub open spec fn captcha_stored(id: Seq<char>, solution: Seq<char>, now: i64) -> StepView<()> {
    ended(
        seq![
            CommandOf::StoreCaptcha {
                id,
                solution,
                expires_at: (now + CAPTCHA_TTL_SECONDS) as i64,
            },
            CommandOf::PurgeCaptchas { now },
        ],
        ResponseOf::Image { content_type: "image/png"@ },
    )
}

/// What comes of a request for a CAPTCHA on which the characters `drawn` are seen: its solution
/// are those characters in lowercase.
pub open spec fn captcha_ended(id: Seq<char>, drawn: Seq<char>, now: i64) -> StepView<()> {
    if is_uuid(id) {
        captcha_stored(id, lowercase(drawn), now)
    } else {
        ended(Seq::empty(), bad_captcha_id())
    }
}

/// Keeps the solution of a CAPTCHA.
pub fn keep_captcha(id: String, solution: String, now: i64) -> (r: Step<()>)
    requires
        is_now(now),
    ensures
        r@ == captcha_stored(id@, solution@, now),
{
    let commands: Vec<Command> = vec![
        CommandOf::StoreCaptcha { id, solution, expires_at: now + CAPTCHA_TTL_SECONDS },
        CommandOf::PurgeCaptchas { now },
    ];
    proof {
        assert(commands_view(commands@) =~= captcha_stored(id@, solution@, now).commands);
    }
    end(commands, ResponseOf::Image { content_type: "image/png".to_owned() })
}

/// Answers a request for the CAPTCHA of a number with an image on which the characters `drawn`
/// are seen.
pub fn get_captcha(id: String, drawn: &str, now: i64) -> (r: Step<()>)
    requires
        is_now(now),
    ensures
        r@ == captcha_ended(id@, drawn@, now),
{
    if is_captcha_id(id.as_str()) {
        keep_captcha(id, drawn.to_lowercase(), now)
    } else {
        respond(ResponseOf::Text { status: 400, body: "Invalid CAPTCHA id.".to_owned() })
    }
}

} // verus!
