//! The measures of the forum: pages, tokens, passwords, times and headers.
use vstd::prelude::*;
use vstd::utf8::encode_utf8;
use crate::account::{
    argon2_matches, argon2id_text, before_dollar, cost_text, cost_value, has_few_lanes, hashed,
    pieces, verifies,
};
use crate::calendar::{date_text, DATETIME_FORMAT, FIRST_SECOND, LAST_SECOND};
use crate::captcha::{is_hyphenated, is_uuid};
use crate::clock::{is_now, timestamp};
use crate::headers::{guarding_headers, HeaderOf};
use crate::laws::texts::number_of;
use crate::laws::visiting::{is_asked_for, is_enough};
use crate::paging::{capped_offset, page_count, page_fits, page_number, page_offset};
use crate::token::{hex, is_token};

verus! {

/// The page that a request asks for, and how many entries come before it.
pub proof fn law_page_asked(page: Option<i64>, per_page: i64, n: i64)
    requires
        is_asked_for(page, n),
    ensures
        page_number(page) == n,
        page_offset(page, per_page) == (n - 1) * per_page,
        page_fits(page, per_page) <==> (n - 1) * per_page <= i64::MAX,
        per_page > 0 && (n - 1) * per_page <= i64::MAX ==> capped_offset(page, per_page) == (n - 1)
            * per_page,
        (n - 1) * per_page > i64::MAX ==> capped_offset(page, per_page) == i64::MAX,
{
    if per_page > 0 {
        assert((n - 1) * per_page >= 0) by (nonlinear_arith)
            requires
                n >= 1,
                per_page > 0,
        ;
    }
}

/// The pages are just enough for what they hold, and there is always one.
pub proof fn law_pages_enough(total: int, per_page: int)
    requires
        per_page > 0,
    ensures
        is_enough(page_count(total, per_page), per_page, total),
{
    if total > 0 {
        crate::paging::law_pages_cover(total, per_page, 0);
        let last = page_count(total, per_page);
        assert(last >= 1) by (nonlinear_arith)
            requires
                total <= last * per_page,
                total > 0,
                per_page > 0,
        ;
    }
}

/// The value of a hexadecimal digit.
pub open spec fn hex_value(c: char) -> int {
    if '0' <= c <= '9' {
        c as int - '0' as int
    } else if 'a' <= c <= 'f' {
        c as int - 'a' as int + 10
    } else {
        -1
    }
}

/// Each byte is written in two lowercase digits that stand for it, the higher one first.
pub proof fn law_hex_read(bytes: Seq<u8>, i: int)
    requires
        0 <= i < bytes.len(),
    ensures
        hex(bytes).len() == 2 * bytes.len(),
        0 <= hex_value(hex(bytes)[2 * i]) < 16,
        0 <= hex_value(hex(bytes)[2 * i + 1]) < 16,
        16 * hex_value(hex(bytes)[2 * i]) + hex_value(hex(bytes)[2 * i + 1]) == bytes[i],
{
    let x = 2 * i;
    let y = 2 * i + 1;
    assert(x % 2 == 0 && x / 2 == i && y % 2 == 1 && y / 2 == i);
}

/// A token is made of 64 lowercase hexadecimal digits.
pub proof fn law_token_shape(t: Seq<char>)
    ensures
        is_token(t) <==> t.len() == 64 && forall|i: int|
            0 <= i < t.len() ==> hex_value(#[trigger] t[i]) >= 0,
{
    if t.len() == 64 && forall|i: int| 0 <= i < t.len() ==> hex_value(#[trigger] t[i]) >= 0 {
        assert forall|i: int| 0 <= i < t.len() implies '0' <= #[trigger] t[i] <= '9' || 'a' <= t[i]
            <= 'f' by {
            assert(hex_value(t[i]) >= 0);
        }
    }
    if is_token(t) {
        assert forall|i: int| 0 <= i < t.len() implies hex_value(#[trigger] t[i]) >= 0 by {
            assert('0' <= t[i] <= '9' || 'a' <= t[i] <= 'f');
        }
    }
}

/// A password is hashed over its bytes, with 8192 KiB, two passes and one lane; and it is held
/// against a hash over its bytes too.
pub proof fn law_password_costs(password: Seq<char>, salt: Seq<char>, hash: Seq<char>)
    ensures
        hashed(password, salt) == argon2id_text(encode_utf8(password), salt, 8192, 2, 1),
        has_few_lanes(cost_text(hash)) ==> (verifies(password, hash) <==> argon2_matches(
            encode_utf8(password),
            hash,
        )),
        !has_few_lanes(cost_text(hash)) ==> !verifies(password, hash),
{
}

proof fn lemma_before_dollar(a: Seq<char>, b: Seq<char>)
    requires
        forall|i: int| 0 <= i < b.len() ==> #[trigger] b[i] != '$',
    ensures
        before_dollar(a + seq!['$'] + b) == a,
    decreases b.len(),
{
    let s = a + seq!['$'] + b;
    if b.len() == 0 {
        assert(s.drop_last() =~= a);
    } else {
        assert(s.last() == b.last());
        assert(b[b.len() - 1] != '$');
        assert(s.drop_last() =~= a + seq!['$'] + b.drop_last());
        assert forall|i: int| 0 <= i < b.drop_last().len() implies #[trigger] b.drop_last()[i]
            != '$' by {
            assert(b.drop_last()[i] == b[i]);
        }
        lemma_before_dollar(a, b.drop_last());
    }
}

/// The costs that the text of a hash names stand before its salt and the hash itself.
pub proof fn law_costs_named(costs: Seq<char>, salt: Seq<char>, hash: Seq<char>)
    requires
        forall|i: int| 0 <= i < salt.len() ==> #[trigger] salt[i] != '$',
        forall|i: int| 0 <= i < hash.len() ==> #[trigger] hash[i] != '$',
    ensures
        cost_text(costs + seq!['$'] + salt + seq!['$'] + hash) == costs,
{
    lemma_before_dollar(costs + seq!['$'] + salt, hash);
    lemma_before_dollar(costs, salt);
}

/// Whether a text is a single piece: it holds no dollar sign and no comma.
pub open spec fn is_piece(s: Seq<char>) -> bool {
    forall|i: int| 0 <= i < s.len() ==> #[trigger] s[i] != '$' && s[i] != ','
}

proof fn lemma_pieces_grow(s: Seq<char>, mark: char, piece: Seq<char>)
    requires
        mark == '$' || mark == ',',
        is_piece(piece),
    ensures
        pieces(s).len() > 0,
        pieces(s + seq![mark] + piece) == pieces(s).push(piece),
    decreases s.len() + piece.len(),
{
    lemma_pieces_some(s);
    let t = s + seq![mark] + piece;
    if piece.len() == 0 {
        assert(t.drop_last() =~= s);
        assert(piece =~= Seq::<char>::empty());
    } else {
        let front = piece.drop_last();
        assert forall|i: int| 0 <= i < front.len() implies #[trigger] front[i] != '$' && front[i]
            != ',' by {
            assert(front[i] == piece[i]);
        }
        lemma_pieces_grow(s, mark, front);
        assert(t.drop_last() =~= s + seq![mark] + front);
        assert(t.last() == piece[piece.len() - 1]);
        assert(pieces(s).push(front).drop_last() =~= pieces(s));
        assert(front.push(piece.last()) =~= piece);
    }
}

proof fn lemma_pieces_some(s: Seq<char>)
    ensures
        pieces(s).len() > 0,
    decreases s.len(),
{
    if s.len() > 0 {
        lemma_pieces_some(s.drop_last());
    }
}

proof fn lemma_pieces_one(piece: Seq<char>)
    requires
        is_piece(piece),
    ensures
        pieces(piece) == seq![piece],
    decreases piece.len(),
{
    if piece.len() > 0 {
        let front = piece.drop_last();
        assert forall|i: int| 0 <= i < front.len() implies #[trigger] front[i] != '$' && front[i]
            != ',' by {
            assert(front[i] == piece[i]);
        }
        lemma_pieces_one(front);
        assert(piece[piece.len() - 1] != '$');
        assert(front.push(piece.last()) =~= piece);
        assert(pieces(piece) =~= seq![piece]);
    } else {
        assert(piece =~= Seq::<char>::empty());
    }
}

/// A number of lanes is too long from nine characters on. What follows it says nothing of that,
/// unless it names the lanes again; and where nothing names them, there is nothing too long.
pub proof fn law_lanes(s: Seq<char>, mark: char, value: Seq<char>, piece: Seq<char>)
    requires
        mark == '$' || mark == ',',
        is_piece(value),
        is_piece(piece),
        !(piece.len() >= 2 && piece[0] == 'p' && piece[1] == '='),
    ensures
        has_few_lanes(s + seq![mark] + (seq!['p', '='] + value)) <==> value.len() < 9,
        has_few_lanes(seq!['p', '='] + value) <==> value.len() < 9,
        has_few_lanes(s + seq![mark] + piece) <==> has_few_lanes(s),
        has_few_lanes(piece),
{
    let lanes = seq!['p', '='] + value;
    assert forall|i: int| 0 <= i < lanes.len() implies #[trigger] lanes[i] != '$' && lanes[i]
        != ',' by {
        if i >= 2 {
            assert(lanes[i] == value[i - 2]);
        }
    }
    assert(lanes.skip(2) =~= value);
    lemma_pieces_grow(s, mark, lanes);
    lemma_pieces_grow(s, mark, piece);
    lemma_pieces_one(lanes);
    lemma_pieces_one(piece);
    reveal_with_fuel(cost_value, 2);
    assert(pieces(s).push(piece).drop_last() =~= pieces(s));
    assert(seq![piece].drop_last() =~= Seq::<Seq<char>>::empty());
}

/// A timestamp counts the seconds since the start of 1970, and is of use where a session of
/// 604800 seconds can begin then.
pub proof fn law_timestamps(seconds: u64, now: i64)
    ensures
        seconds <= i64::MAX ==> timestamp(Some(seconds)) == Some(seconds as i64),
        timestamp(None) is None,
        is_now(now) <==> 0 <= now && now + 604800 <= i64::MAX,
{
}

/// A date is shown in twenty characters, each number in its place.
pub proof fn law_date_places(year: int, month: int, day: int, second: int)
    requires
        0 <= year <= 9999,
        1 <= month <= 12,
        1 <= day <= 31,
        0 <= second < 86400,
    ensures
        ({
            let t = date_text(year, month, day, second);
            &&& t.len() == 20
            &&& number_of(t.subrange(0, 4)) == year
            &&& t[4] == '-'
            &&& number_of(t.subrange(5, 7)) == month
            &&& t[7] == '-'
            &&& number_of(t.subrange(8, 10)) == day
            &&& t[10] == ' '
            &&& number_of(t.subrange(11, 13)) == second / 3600
            &&& t[13] == ':'
            &&& number_of(t.subrange(14, 16)) == second % 3600 / 60
            &&& t.subrange(16, 20) == seq![' ', 'U', 'T', 'C']
        }),
{
    let t = date_text(year, month, day, second);
    reveal_with_fuel(number_of, 5);
    let y = t.subrange(0, 4);
    assert(y.drop_last().drop_last().drop_last().drop_last() =~= Seq::<char>::empty());
    assert(t.subrange(5, 7).drop_last().drop_last() =~= Seq::<char>::empty());
    assert(t.subrange(8, 10).drop_last().drop_last() =~= Seq::<char>::empty());
    assert(t.subrange(11, 13).drop_last().drop_last() =~= Seq::<char>::empty());
    assert(t.subrange(14, 16).drop_last().drop_last() =~= Seq::<char>::empty());
    assert(t.subrange(16, 20) =~= seq![' ', 'U', 'T', 'C']);
}

/// How dates are written out, and which can be.
pub proof fn law_date_format()
    ensures
        DATETIME_FORMAT@ == "[year]-[month]-[day] [hour]:[minute] UTC"@,
        FIRST_SECOND == -377705116800,
        LAST_SECOND == 253402300799,
{
}

/// A UUID is read in each of its four forms.
pub proof fn law_uuid_forms(s: Seq<char>)
    requires
        is_hyphenated(s),
    ensures
        is_uuid(s),
        is_uuid(seq!['{'] + s + seq!['}']),
        is_uuid(seq!['u', 'r', 'n', ':', 'u', 'u', 'i', 'd', ':'] + s),
{
    let braced = seq!['{'] + s + seq!['}'];
    assert(braced.subrange(1, 37) =~= s);
    let mark = seq!['u', 'r', 'n', ':', 'u', 'u', 'i', 'd', ':'];
    let urn = mark + s;
    assert(urn.take(9) =~= mark);
    assert(urn.skip(9) =~= s);
}

/// The headers that go with every response, word for word.
pub proof fn law_headers()
    ensures
        guarding_headers() == seq![
            HeaderOf {
                name: "content-security-policy"@,
                value: "default-src 'self'; base-uri 'none'; frame-ancestors 'none'; form-action 'self'; script-src 'none'; object-src 'none'; connect-src 'none'; img-src 'self'; style-src 'self' 'unsafe-inline'"@,
            },
            HeaderOf { name: "x-content-type-options"@, value: "nosniff"@ },
            HeaderOf { name: "x-frame-options"@, value: "DENY"@ },
            HeaderOf { name: "referrer-policy"@, value: "no-referrer"@ },
            HeaderOf {
                name: "permissions-policy"@,
                value: "camera=(), geolocation=(), microphone=(), payment=(), usb=()"@,
            },
            HeaderOf { name: "cross-origin-resource-policy"@, value: "same-origin"@ },
            HeaderOf { name: "cache-control"@, value: "no-store"@ },
            HeaderOf { name: "x-dns-prefetch-control"@, value: "off"@ },
        ],
{
}

} // verus!
