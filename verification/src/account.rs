//! Accounts: names, passwords and their hashes.
use vstd::prelude::*;
use vstd::utf8::encode_utf8;
use crate::records::{optional, views};
use crate::text::{byte_len, to_chars};

verus! {

/// A character that names may hold.
pub open spec fn username_char(c: char) -> bool {
    'a' <= c <= 'z' || '0' <= c <= '9' || c == '_' || c == '-'
}

/// A name that a member may have.
pub open spec fn username_ok(username: Seq<char>) -> bool {
    &&& 3 <= username.len() <= 20
    &&& forall|i: int| 0 <= i < username.len() ==> username_char(#[trigger] username[i])
}

/// Whether a member may have this name: three to twenty lowercase letters, digits,
/// underscores or dashes.
pub fn valid_username(username: &str) -> (r: bool)
    ensures
        r == username_ok(username@),
{
    let chars = to_chars(username);
    if chars.len() < 3 || chars.len() > 20 {
        return false;
    }
    for i in 0..chars.len()
        invariant
            chars@ == username@,
            forall|j: int| 0 <= j < i ==> username_char(#[trigger] username@[j]),
    {
        let c = chars[i];
        if !(('a' <= c && c <= 'z') || ('0' <= c && c <= '9') || c == '_' || c == '-') {
            proof {
                assert(!username_char(username@[i as int]));
            }
            return false;
        }
    }
    true
}

/// A name that a member may have takes one byte a character.
pub proof fn law_username_bytes(username: Seq<char>)
    requires
        username_ok(username),
    ensures
        encode_utf8(username).len() == username.len(),
{
    assert(vstd::utf8::is_ascii_chars(username)) by {
        assert forall|i: int| 0 <= i < username.len() implies '\0' <= #[trigger] username[i]
            <= '\u{7f}' by {
            assert(username_char(username[i]));
        }
    }
    vstd::utf8::is_ascii_chars_encode_utf8(username);
}

/// A name and a password with which an account may be opened: the password takes between 10
/// and 128 bytes.
pub open spec fn registration_ok(username: Seq<char>, password: Seq<char>) -> bool {
    username_ok(username) && 10 <= encode_utf8(password).len() <= 128
}

/// Whether an account may be opened with this name and password.
pub fn valid_registration(username: &str, password: &str) -> (r: bool)
    ensures
        r == registration_ok(username@, password@),
{
    let n = byte_len(password);
    valid_username(username) && n >= 10 && n <= 128
}

/// The memory that hashing a password takes, in KiB.
pub const MEMORY_COST: u32 = 8192;

/// How often hashing a password goes over that memory.
pub const TIME_COST: u32 = 2;

/// How many lanes hashing a password has.
pub const LANES: u32 = 1;

/// A digit of base 64.
pub open spec fn is_base64(c: char) -> bool {
    'A' <= c <= 'Z' || 'a' <= c <= 'z' || '0' <= c <= '9' || c == '+' || c == '/'
}

/// A salt: sixteen bytes in base 64, without padding. The last digit holds two bits of them.
pub open spec fn is_salt(salt: Seq<char>) -> bool {
    &&& salt.len() == 22
    &&& forall|i: int| 0 <= i < salt.len() ==> is_base64(#[trigger] salt[i])
    &&& salt[21] == 'A' || salt[21] == 'Q' || salt[21] == 'g' || salt[21] == 'w'
}

/// `SaltString::generate` on the random source of the operating system. Which salt it is, is
/// left to chance. It panics where that source fails.
#[verifier::external_body]
pub(crate) fn generate_salt() -> (salt: String)
    ensures
        is_salt(salt@),
{
    argon2::password_hash::SaltString::generate(
        &mut argon2::password_hash::rand_core::OsRng,
    ).as_str().to_owned()
}

/// The text in which `argon2` keeps the Argon2id hash of a password, by its salt and costs;
/// `None` where it refuses them.
pub uninterp spec fn argon2id_text(
    password: Seq<u8>,
    salt: Seq<char>,
    memory: u32,
    time: u32,
    lanes: u32,
) -> Option<Seq<char>>;

/// Whether `argon2` finds that a password is the one of which a text keeps the hash.
pub uninterp spec fn argon2_matches(password: Seq<u8>, hash: Seq<char>) -> bool;

/// `Argon2::hash_password` for Argon2id in its version 0x13, with the costs that `Params::new`
/// makes of the three numbers. Its result depends on the arguments alone. A hash that it
/// returns is found to match that password, because verifying hashes the password anew with
/// the salt and the costs that the text names; those are the ones it was made with. It refuses
/// no salt of sixteen bytes, and no password but an enormous one. The bounds keep within what
/// can be computed.
#[verifier::external_body]
fn argon2id(password: &[u8], salt: &str, memory: u32, time: u32, lanes: u32) -> (r: Option<String>)
    requires
        memory <= 65536,
        time <= 16,
        lanes <= 16,
    ensures
        optional(r) == argon2id_text(password@, salt@, memory, time, lanes),
        r is Some ==> argon2_matches(password@, r->0@),
        r is Some ==> has_few_lanes(cost_text(r->0@)),
        is_salt(salt@) && password@.len() <= u32::MAX ==> r is Some,
{
    let salt = argon2::password_hash::SaltString::from_b64(salt).ok()?;
    let params = argon2::Params::new(memory, time, lanes, None).unwrap_or_default();
    let hasher = argon2::Argon2::new(
        argon2::Algorithm::Argon2id,
        argon2::Version::V0x13,
        params,
    );
    let hash = argon2::PasswordHasher::hash_password(&hasher, password, &salt).ok()?;
    Some(hash.to_string())
}

/// What is kept of a password.
pub open spec fn hashed(password: Seq<char>, salt: Seq<char>) -> Option<Seq<char>> {
    argon2id_text(encode_utf8(password), salt, MEMORY_COST, TIME_COST, LANES)
}

/// What is kept of a password; `None` where it cannot be hashed, which a proper salt prevents.
/// Whatever is kept of a password, that password is then found to match.
pub fn hash_password(password: &str, salt: &str) -> (r: Option<String>)
    ensures
        optional(r) == hashed(password@, salt@),
        r is Some ==> verifies(password@, r->0@),
        is_salt(salt@) && encode_utf8(password@).len() <= u32::MAX ==> r is Some,
{
    argon2id(password.as_bytes(), salt, MEMORY_COST, TIME_COST, LANES)
}

/// The part of `s` before its last `$`; nothing where it holds none.
pub open spec fn before_dollar(s: Seq<char>) -> Seq<char>
    decreases s.len(),
{
    if s.len() == 0 {
        s
    } else if s.last() == '$' {
        s.drop_last()
    } else {
        before_dollar(s.drop_last())
    }
}

/// The part of the text of a hash that names the algorithm and its costs: what comes before
/// the salt and the hash itself.
pub open spec fn cost_text(hash: Seq<char>) -> Seq<char> {
    before_dollar(before_dollar(hash))
}

/// How many characters make a number of lanes too long: a number that long is refused.
pub const LONG_NUMBER: usize = 9;

/// The pieces of `s` between its dollar signs and commas, in order.
pub open spec fn pieces(s: Seq<char>) -> Seq<Seq<char>>
    decreases s.len(),
{
    if s.len() == 0 {
        seq![Seq::empty()]
    } else {
        let before = pieces(s.drop_last());
        if s.last() == '$' || s.last() == ',' {
            before.push(Seq::empty())
        } else {
            before.drop_last().push(before.last().push(s.last()))
        }
    }
}

/// Whether a piece gives a value to the cost `name`.
pub open spec fn gives(piece: Seq<char>, name: char) -> bool {
    piece.len() >= 2 && piece[0] == name && piece[1] == '='
}

/// The value that the pieces give to the cost `name`: that of the last which gives one.
pub open spec fn cost_value(pieces: Seq<Seq<char>>, name: char) -> Option<Seq<char>>
    decreases pieces.len(),
{
    if pieces.len() == 0 {
        None
    } else if gives(pieces.last(), name) {
        Some(pieces.last().skip(2))
    } else {
        cost_value(pieces.drop_last(), name)
    }
}

/// Whether a text that names costs gives no number of lanes that is too long.
pub open spec fn has_few_lanes(s: Seq<char>) -> bool {
    cost_value(pieces(s), 'p') matches Some(value) ==> value.len() < LONG_NUMBER
}

/// The number of characters before the last `$` among the first `to`.
fn find_dollar(chars: &Vec<char>, to: usize) -> (end: usize)
    requires
        to <= chars@.len(),
    ensures
        end <= to,
        chars@.take(end as int) == before_dollar(chars@.take(to as int)),
{
    let mut end: usize = to;
    while end > 0
        invariant
            end <= to <= chars@.len(),
            before_dollar(chars@.take(end as int)) == before_dollar(chars@.take(to as int)),
        decreases end,
    {
        proof {
            assert(chars@.take(end as int).drop_last() =~= chars@.take(end - 1));
        }
        end = end - 1;
        if chars[end] == '$' {
            return end;
        }
    }
    end
}

/// The pieces of the first `end` characters.
fn split_pieces(chars: &Vec<char>, end: usize) -> (r: Vec<Vec<char>>)
    requires
        end <= chars@.len(),
    ensures
        views(r@) == pieces(chars@.take(end as int)),
{
    let mut done: Vec<Vec<char>> = Vec::new();
    let mut current: Vec<char> = Vec::new();
    proof {
        assert(chars@.take(0) =~= Seq::<char>::empty());
        assert(views(done@).push(current@) =~= seq![Seq::<char>::empty()]);
    }
    for i in 0..end
        invariant
            end <= chars@.len(),
            views(done@).push(current@) == pieces(chars@.take(i as int)),
    {
        let c = chars[i];
        let ghost before = views(done@).push(current@);
        let ghost finished = current@;
        let ghost earlier = views(done@);
        proof {
            assert(chars@.take(i + 1).drop_last() =~= chars@.take(i as int));
            assert(before.drop_last() =~= earlier);
        }
        if c == '$' || c == ',' {
            done.push(current);
            current = Vec::new();
            proof {
                assert(views(done@) =~= earlier.push(finished));
                assert(current@ =~= Seq::<char>::empty());
            }
        } else {
            current.push(c);
        }
    }
    let ghost earlier = views(done@);
    let ghost finished = current@;
    done.push(current);
    proof {
        assert(views(done@) =~= earlier.push(finished));
    }
    done
}

/// How many characters the value has that the pieces give to the cost `name`.
fn cost_len(parts: &Vec<Vec<char>>, name: char) -> (r: Option<usize>)
    ensures
        match r {
            Some(n) => cost_value(views(parts@), name) matches Some(value) && value.len() == n,
            None => cost_value(views(parts@), name) is None,
        },
{
    let ghost all = views(parts@);
    let mut i: usize = parts.len();
    proof {
        assert(all.take(i as int) =~= all);
    }
    while i > 0
        invariant
            i <= parts@.len(),
            all == views(parts@),
            cost_value(all, name) == cost_value(all.take(i as int), name),
        decreases i,
    {
        proof {
            assert(all.take(i as int).drop_last() =~= all.take(i - 1));
            assert(all.take(i as int).last() == parts@[i - 1]@);
        }
        i = i - 1;
        let n = parts[i].len();
        if n >= 2 && parts[i][0] == name && parts[i][1] == '=' {
            return Some(n - 2);
        }
    }
    None
}

/// Whether the text of a hash gives no number of lanes that is too long.
fn check_lanes(hash: &str) -> (r: bool)
    ensures
        r == has_few_lanes(cost_text(hash@)),
{
    let chars = to_chars(hash);
    let n = chars.len();
    let end = find_dollar(&chars, n);
    let end = find_dollar(&chars, end);
    proof {
        assert(chars@.take(n as int) =~= hash@);
    }
    let parts = split_pieces(&chars, end);
    match cost_len(&parts, 'p') {
        Some(length) => length < LONG_NUMBER,
        None => true,
    }
}

/// `Argon2::verify_password` on the hash that `PasswordHash::new` reads from the text; a text
/// that is no hash matches nothing. A number of lanes of nine digits or more is left out: it is
/// refused, but reckoning with it can overflow before. A memory that the machine does not have
/// is not left out.
#[verifier::external_body]
fn argon2_verify(password: &[u8], hash: &str) -> (r: bool)
    requires
        has_few_lanes(cost_text(hash@)),
    ensures
        r == argon2_matches(password@, hash@),
{
    match argon2::password_hash::PasswordHash::new(hash) {
        Ok(parsed) => argon2::PasswordVerifier::verify_password(
            &argon2::Argon2::default(),
            password,
            &parsed,
        ).is_ok(),
        Err(_) => false,
    }
}

/// Whether a password is the one of which `hash` was kept.
pub open spec fn verifies(password: Seq<char>, hash: Seq<char>) -> bool {
    has_few_lanes(cost_text(hash)) && argon2_matches(encode_utf8(password), hash)
}

/// Whether a password is the one of which `hash` was kept.
pub fn verify_password(password: &str, hash: &str) -> (r: bool)
    ensures
        r == verifies(password@, hash@),
{
    check_lanes(hash) && argon2_verify(password.as_bytes(), hash)
}

} // verus!
