//! Secret tokens: random bytes, written in hexadecimal.
use vstd::prelude::*;
use vstd::utf8::{encode_utf8, is_ascii_chars, is_ascii_chars_encode_utf8};

verus! {

/// The number of characters in a token.
pub const TOKEN_CHARS: usize = 64;

/// The hexadecimal digit of value `d`.
pub open spec fn hex_digit(d: int) -> char {
    if d < 10 {
        (('0' as u8) + d) as char
    } else {
        (('a' as u8) + (d - 10)) as char
    }
}

/// `bytes` in hexadecimal, two digits a byte.
pub open spec fn hex(bytes: Seq<u8>) -> Seq<char> {
    Seq::new(
        2 * bytes.len(),
        |i: int|
            if i % 2 == 0 {
                hex_digit(bytes[i / 2] as int / 16)
            } else {
                hex_digit(bytes[i / 2] as int % 16)
            },
    )
}

/// A token: so many lowercase hexadecimal digits.
pub open spec fn is_token(t: Seq<char>) -> bool {
    &&& t.len() == TOKEN_CHARS
    &&& forall|i: int| 0 <= i < t.len() ==> '0' <= #[trigger] t[i] <= '9' || 'a' <= t[i] <= 'f'
}

fn digit_of(d: u8) -> (c: char)
    requires
        d < 16,
    ensures
        c == hex_digit(d as int),
{
    if d < 10 {
        (48u8 + d) as char
    } else {
        (97u8 + (d - 10)) as char
    }
}

/// `OsRng.fill_bytes`, which fills a buffer from the random source of the operating system.
/// Nothing is claimed of the bytes. It panics where that source fails.
#[verifier::external_body]
fn random_bytes() -> (bytes: [u8; 32]) {
    let mut bytes = [0u8; 32];
    argon2::password_hash::rand_core::RngCore::fill_bytes(
        &mut argon2::password_hash::rand_core::OsRng,
        &mut bytes,
    );
    bytes
}

/// The token that some random bytes make.
pub fn token_of(bytes: &[u8; 32]) -> (r: String)
    ensures
        r@ == hex(bytes@),
        is_token(r@),
{
    let mut s = String::new();
    for i in 0..32usize
        invariant
            s@ == hex(bytes@.take(i as int)),
    {
        let b = bytes[i];
        s.push(digit_of(b / 16));
        s.push(digit_of(b % 16));
        proof {
            assert(s@ =~= hex(bytes@.take(i + 1)));
        }
    }
    proof {
        assert(bytes@.take(32) =~= bytes@);
    }
    s
}

/// A fresh token.
pub fn generate_session_token() -> (r: String)
    ensures
        is_token(r@),
{
    let bytes = random_bytes();
    token_of(&bytes)
}

proof fn lemma_hex_digit_injective(d: int, e: int)
    requires
        0 <= d < 16,
        0 <= e < 16,
        hex_digit(d) == hex_digit(e),
    ensures
        d == e,
{
}

/// Different bytes make different tokens.
pub proof fn law_hex_injective(a: Seq<u8>, b: Seq<u8>)
    requires
        hex(a) == hex(b),
    ensures
        a == b,
{
    assert(hex(a).len() == 2 * a.len() && hex(b).len() == 2 * b.len());
    assert forall|i: int| 0 <= i < a.len() implies a[i] == b[i] by {
        let x = 2 * i;
        let y = 2 * i + 1;
        assert(x % 2 == 0 && x / 2 == i && y % 2 == 1 && y / 2 == i);
        assert(hex(a)[x] == hex_digit(a[i] as int / 16) && hex(a)[y] == hex_digit(a[i] as int % 16));
        assert(hex(b)[x] == hex_digit(b[i] as int / 16) && hex(b)[y] == hex_digit(b[i] as int % 16));
        lemma_hex_digit_injective(a[i] as int / 16, b[i] as int / 16);
        lemma_hex_digit_injective(a[i] as int % 16, b[i] as int % 16);
    }
    assert(a =~= b);
}

/// A token takes one byte a character.
pub proof fn law_token_bytes(t: Seq<char>)
    requires
        is_token(t),
    ensures
        encode_utf8(t).len() == TOKEN_CHARS,
{
    assert(is_ascii_chars(t));
    is_ascii_chars_encode_utf8(t);
}

} // verus!
