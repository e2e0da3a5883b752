//! The text that members write: how it is shortened, named in addresses and shown.
use vstd::prelude::*;
use vstd::utf8::encode_utf8;
use crate::text::{
    alphanumeric, byte_len, from_chars, is_white, lowercase, replace, replaced, to_chars, trim_end,
    trimmed_end,
};

verus! {

/// The number of bytes of `c` in UTF-8.
pub open spec fn utf8_width(c: char) -> nat {
    vstd::utf8::encode_scalar(c as u32).len()
}

/// The number of bytes of `c` in UTF-8.
fn width_of(c: char) -> (n: usize)
    ensures
        n == utf8_width(c),
        1 <= n <= 4,
{
    if c <= '\u{7f}' {
        1
    } else if c <= '\u{7ff}' {
        2
    } else if c <= '\u{ffff}' {
        3
    } else {
        4
    }
}

/// How many characters of `s` begin before the byte `limit`.
pub open spec fn starts_before(s: Seq<char>, limit: int) -> nat
    decreases s.len(),
{
    if s.len() == 0 || limit <= 0 {
        0
    } else {
        1 + starts_before(s.drop_first(), limit - utf8_width(s[0]))
    }
}

/// `s` cut down to about `max_len` bytes: a text that fits is kept; of a longer one, the
/// characters that begin before the byte `max_len - 1` stay, without the white space at
/// their end, and an ellipsis follows.
pub open spec fn clamped(s: Seq<char>, max_len: int) -> Seq<char> {
    if encode_utf8(s).len() <= max_len {
        s
    } else {
        trimmed_end(s.take(starts_before(s, max_len - 1) as int)).push('…')
    }
}

proof fn lemma_starts_before_bound(s: Seq<char>, limit: int)
    ensures
        starts_before(s, limit) <= s.len(),
    decreases s.len(),
{
    if s.len() > 0 && limit > 0 {
        lemma_starts_before_bound(s.drop_first(), limit - utf8_width(s[0]));
    }
}

/// Cuts `s` down to about `max_len` bytes.
pub fn clamp_text(s: &str, max_len: usize) -> (r: String)
    requires
        max_len > 0 || s@.len() == 0,
    ensures
        r@ == clamped(s@, max_len as int),
{
    if byte_len(s) <= max_len {
        return s.to_owned();
    }
    let chars = to_chars(s);
    let n = chars.len();
    let limit = max_len - 1;
    let mut left: usize = limit;
    let mut k: usize = 0;
    proof {
        assert(s@.skip(0) =~= s@);
    }
    while k < n && left > 0
        invariant
            chars@ == s@,
            n == s@.len(),
            k <= n,
            starts_before(s@, limit as int) == k + starts_before(s@.skip(k as int), left as int),
        decreases n - k,
    {
        let w = width_of(chars[k]);
        proof {
            let rest = s@.skip(k as int);
            assert(rest.drop_first() =~= s@.skip(k + 1));
            assert(starts_before(s@.skip(k + 1), left - w) == starts_before(
                s@.skip(k + 1),
                if left < w { 0 } else { left - w },
            ));
        }
        left = if left < w { 0 } else { left - w };
        k = k + 1;
    }
    proof {
        assert(starts_before(s@.skip(k as int), left as int) == 0);
        assert(chars@.subrange(0, k as int) =~= s@.take(k as int));
    }
    let kept = from_chars(&chars, 0, k);
    let mut r = trim_end(kept.as_str());
    r.push('…');
    r
}

/// The bytes of a text are those of its first part, then those of the rest.
proof fn lemma_encode_concat(a: Seq<char>, b: Seq<char>)
    ensures
        encode_utf8(a + b) == encode_utf8(a) + encode_utf8(b),
    decreases a.len(),
{
    if a.len() == 0 {
        assert(a + b =~= b);
        assert(encode_utf8(a) + encode_utf8(b) =~= encode_utf8(b));
    } else {
        lemma_encode_concat(a.drop_first(), b);
        assert((a + b).drop_first() =~= a.drop_first() + b);
        assert(vstd::utf8::encode_scalar(a[0] as u32) + (encode_utf8(a.drop_first())
            + encode_utf8(b)) =~= encode_utf8(a) + encode_utf8(b));
    }
}

/// One more character takes between one and four more bytes.
proof fn lemma_encode_push(s: Seq<char>, c: char)
    ensures
        encode_utf8(s.push(c)).len() == encode_utf8(s).len() + utf8_width(c),
        1 <= utf8_width(c) <= 4,
{
    lemma_encode_concat(s, seq![c]);
    assert(s + seq![c] =~= s.push(c));
    assert(seq![c].drop_first() =~= Seq::<char>::empty());
    assert(encode_utf8(Seq::<char>::empty()) =~= Seq::<u8>::empty());
    assert(encode_utf8(seq![c]) =~= vstd::utf8::encode_scalar(c as u32));
}

/// The characters counted by `starts_before` are those whose first byte lies before the
/// limit, and no others.
pub proof fn law_starts_before(s: Seq<char>, limit: int)
    ensures
        starts_before(s, limit) <= s.len(),
        forall|j: int|
            0 <= j < s.len() ==> (j < starts_before(s, limit) <==> #[trigger] encode_utf8(
                s.take(j),
            ).len() < limit),
    decreases s.len(),
{
    lemma_starts_before_bound(s, limit);
    assert forall|j: int| 0 <= j < s.len() implies (j < starts_before(s, limit)
        <==> #[trigger] encode_utf8(s.take(j)).len() < limit) by {
        if limit > 0 && j > 0 {
            let rest = s.drop_first();
            law_starts_before(rest, limit - utf8_width(s[0]));
            assert(s.take(j)[0] == s[0]);
            assert(s.take(j).drop_first() =~= rest.take(j - 1));
            assert(encode_utf8(rest.take(j - 1)).len() < limit - utf8_width(s[0]) <==> j - 1
                < starts_before(rest, limit - utf8_width(s[0])));
        } else if j == 0 {
            assert(s.take(0) =~= Seq::<char>::empty());
        }
    }
}

proof fn lemma_trimmed_end(s: Seq<char>)
    ensures
        trimmed_end(s).is_prefix_of(s),
        encode_utf8(trimmed_end(s)).len() <= encode_utf8(s).len(),
        trimmed_end(s).len() > 0 ==> !is_white(trimmed_end(s).last()),
    decreases s.len(),
{
    if s.len() > 0 && is_white(s.last()) {
        let d = s.drop_last();
        lemma_trimmed_end(d);
        lemma_encode_push(d, s.last());
        assert(d.push(s.last()) =~= s);
        assert(trimmed_end(s) =~= s.subrange(0, trimmed_end(s).len() as int));
    } else {
        assert(s =~= s.subrange(0, s.len() as int));
    }
}

/// Every character takes at least one byte.
proof fn lemma_encode_len(s: Seq<char>)
    ensures
        s.len() <= encode_utf8(s).len(),
    decreases s.len(),
{
    if s.len() > 0 {
        lemma_encode_len(s.drop_last());
        lemma_encode_push(s.drop_last(), s.last());
        assert(s.drop_last().push(s.last()) =~= s);
    }
}

/// A clamped text is the text itself where that fits. Otherwise it is a part of its
/// beginning that does not end in white space, followed by an ellipsis; it then has at most
/// `max_len` characters and at most five bytes more than `max_len`.
pub proof fn law_clamp(s: Seq<char>, max_len: int)
    requires
        max_len > 0,
    ensures
        encode_utf8(s).len() <= max_len ==> clamped(s, max_len) == s,
        encode_utf8(s).len() > max_len ==> {
            let r = clamped(s, max_len);
            &&& r.len() > 0
            &&& r.last() == '…'
            &&& r.drop_last().is_prefix_of(s)
            &&& r.len() > 1 ==> !is_white(r.drop_last().last())
        },
        clamped(s, max_len).len() <= max_len,
        encode_utf8(clamped(s, max_len)).len() <= max_len + 5,
{
    lemma_encode_len(s);
    if encode_utf8(s).len() > max_len {
        let k = starts_before(s, max_len - 1) as int;
        let cut = s.take(k);
        let kept = trimmed_end(cut);
        law_starts_before(s, max_len - 1);
        lemma_trimmed_end(cut);
        lemma_encode_push(kept, '…');
        assert(kept.push('…').drop_last() =~= kept);
        assert(kept =~= s.subrange(0, kept.len() as int));
        if k > 0 {
            let before = s.take(k - 1);
            lemma_encode_push(before, s[k - 1]);
            assert(before.push(s[k - 1]) =~= cut);
            assert(encode_utf8(before).len() < max_len - 1);
            lemma_encode_len(before);
        } else {
            assert(cut =~= Seq::<char>::empty());
        }
    }
}

/// Clamping a text without white space twice is clamping it once.
pub proof fn law_clamp_twice(s: Seq<char>, max_len: int)
    requires
        max_len > 0,
        forall|i: int| 0 <= i < s.len() ==> !is_white(#[trigger] s[i]),
    ensures
        clamped(clamped(s, max_len), max_len) == clamped(s, max_len),
{
    if encode_utf8(s).len() > max_len {
        let k = starts_before(s, max_len - 1) as int;
        let cut = s.take(k);
        let r = cut.push('…');
        law_starts_before(s, max_len - 1);
        assert(trimmed_end(cut) == cut) by {
            if k > 0 {
                assert(!is_white(s[k - 1]));
                assert(cut.last() == s[k - 1]);
            }
        }
        assert(clamped(s, max_len) == r);
        if encode_utf8(r).len() > max_len {
            law_starts_before(r, max_len - 1);
            assert(r.take(k) =~= cut);
            if k == s.len() {
                assert(cut =~= s);
            } else {
                assert(encode_utf8(s.take(k)).len() >= max_len - 1);
            }
            assert(starts_before(r, max_len - 1) <= k) by {
                assert(encode_utf8(r.take(k)).len() >= max_len - 1);
            }
            if k > 0 {
                assert(r.take(k - 1) =~= s.take(k - 1));
                assert(encode_utf8(s.take(k - 1)).len() < max_len - 1);
                assert(encode_utf8(r.take(k - 1)).len() < max_len - 1);
            }
        }
    }
}

/// What `nl2br` makes of a text: line ends of any kind become `\n`, escaped break tags
/// become real ones, and then each `\n` becomes a break tag.
pub open spec fn line_breaks(value: Seq<char>) -> Seq<char> {
    let s = replaced(replaced(value, "\r\n"@, "\n"@), "\r"@, "\n"@);
    let s = replaced(s, "&lt;br&gt;"@, "<br>"@);
    let s = replaced(s, "&lt;br/&gt;"@, "<br>"@);
    let s = replaced(s, "&lt;br /&gt;"@, "<br>"@);
    replaced(s, "\n"@, "<br>"@)
}

/// Shows line ends as break tags.
pub fn nl2br(value: String) -> (r: String)
    ensures
        r@ == line_breaks(value@),
{
    proof {
        reveal_strlit("\r\n");
        reveal_strlit("\r");
        reveal_strlit("\n");
        reveal_strlit("&lt;br&gt;");
        reveal_strlit("&lt;br/&gt;");
        reveal_strlit("&lt;br /&gt;");
    }
    let s = replace(value.as_str(), "\r\n", "\n");
    let s = replace(s.as_str(), "\r", "\n");
    let s = replace(s.as_str(), "&lt;br&gt;", "<br>");
    let s = replace(s.as_str(), "&lt;br/&gt;", "<br>");
    let s = replace(s.as_str(), "&lt;br /&gt;", "<br>");
    replace(s.as_str(), "\n", "<br>")
}

/// A replacement brings in no character that neither the text nor the substitute holds.
proof fn lemma_replaced_brings_none(s: Seq<char>, from: Seq<char>, to: Seq<char>, c: char)
    requires
        !s.contains(c),
        !to.contains(c),
    ensures
        !replaced(s, from, to).contains(c),
    decreases s.len(),
{
    if s.len() > 0 && from.len() > 0 {
        let r = replaced(s, from, to);
        if from.is_prefix_of(s) {
            let rest = s.skip(from.len() as int);
            assert forall|i: int| 0 <= i < rest.len() implies rest[i] != c by {
                assert(rest[i] == s[i + from.len()]);
            }
            lemma_replaced_brings_none(rest, from, to, c);
            assert forall|i: int| 0 <= i < r.len() implies r[i] != c by {
                if i < to.len() {
                    assert(r[i] == to[i]);
                } else {
                    assert(r[i] == replaced(rest, from, to)[i - to.len()]);
                }
            }
        } else {
            let rest = s.drop_first();
            assert forall|i: int| 0 <= i < rest.len() implies rest[i] != c by {
                assert(rest[i] == s[i + 1]);
            }
            lemma_replaced_brings_none(rest, from, to, c);
            assert forall|i: int| 0 <= i < r.len() implies r[i] != c by {
                if i == 0 {
                    assert(r[0] == s[0]);
                } else {
                    assert(r[i] == replaced(rest, from, to)[i - 1]);
                }
            }
        }
    }
}

/// Replacing a single character leaves none of it.
proof fn lemma_replaced_leaves_none(s: Seq<char>, to: Seq<char>, c: char)
    requires
        !to.contains(c),
    ensures
        !replaced(s, seq![c], to).contains(c),
    decreases s.len(),
{
    let from = seq![c];
    if s.len() > 0 {
        let r = replaced(s, from, to);
        if from.is_prefix_of(s) {
            let rest = s.skip(1);
            lemma_replaced_leaves_none(rest, to, c);
            assert forall|i: int| 0 <= i < r.len() implies r[i] != c by {
                if i < to.len() {
                    assert(r[i] == to[i]);
                } else {
                    assert(r[i] == replaced(rest, from, to)[i - to.len()]);
                }
            }
        } else {
            let rest = s.drop_first();
            assert(s[0] != c) by {
                if s[0] == c {
                    assert(from =~= s.subrange(0, 1));
                }
            }
            lemma_replaced_leaves_none(rest, to, c);
            assert forall|i: int| 0 <= i < r.len() implies r[i] != c by {
                if i == 0 {
                    assert(r[0] == s[0]);
                } else {
                    assert(r[i] == replaced(rest, from, to)[i - 1]);
                }
            }
        }
    }
}

/// No line end of any kind is left in what `nl2br` returns.
pub proof fn law_no_line_ends(value: Seq<char>)
    ensures
        !line_breaks(value).contains('\r'),
        !line_breaks(value).contains('\n'),
{
    reveal_strlit("\r\n");
    reveal_strlit("\r");
    reveal_strlit("\n");
    reveal_strlit("<br>");
    assert("\r"@ =~= seq!['\r']);
    assert("\n"@ =~= seq!['\n']);
    let s1 = replaced(replaced(value, "\r\n"@, "\n"@), "\r"@, "\n"@);
    lemma_replaced_leaves_none(replaced(value, "\r\n"@, "\n"@), "\n"@, '\r');
    let s2 = replaced(s1, "&lt;br&gt;"@, "<br>"@);
    lemma_replaced_brings_none(s1, "&lt;br&gt;"@, "<br>"@, '\r');
    let s3 = replaced(s2, "&lt;br/&gt;"@, "<br>"@);
    lemma_replaced_brings_none(s2, "&lt;br/&gt;"@, "<br>"@, '\r');
    let s4 = replaced(s3, "&lt;br /&gt;"@, "<br>"@);
    lemma_replaced_brings_none(s3, "&lt;br /&gt;"@, "<br>"@, '\r');
    lemma_replaced_brings_none(s4, "\n"@, "<br>"@, '\r');
    lemma_replaced_leaves_none(s4, "<br>"@, '\n');
}

/// Whether `pattern` stands in `s` at `at`.
pub open spec fn stands_at(s: Seq<char>, pattern: Seq<char>, at: int) -> bool {
    0 <= at <= s.len() && pattern.is_prefix_of(s.skip(at))
}

/// What a replacement leaves before the first substitute is what the text begins with.
pub proof fn lemma_kept_start(s: Seq<char>, from: Seq<char>, to: Seq<char>, m: int)
    requires
        from.len() > 0,
        to.len() > 0,
        0 <= m <= replaced(s, from, to).len(),
        forall|i: int| 0 <= i < m ==> #[trigger] replaced(s, from, to)[i] != to[0],
    ensures
        m <= s.len(),
        s.take(m) == replaced(s, from, to).take(m),
    decreases s.len(),
{
    let r = replaced(s, from, to);
    if m > 0 && s.len() > 0 {
        if from.is_prefix_of(s) {
            assert(r[0] == to[0]);
        } else {
            let rest = s.drop_first();
            let after = replaced(rest, from, to);
            assert(r =~= seq![s[0]] + after);
            assert forall|i: int| 0 <= i < m - 1 implies #[trigger] after[i] != to[0] by {
                assert(after[i] == r[i + 1]);
            }
            lemma_kept_start(rest, from, to, m - 1);
            assert forall|i: int| 0 <= i < m implies s.take(m)[i] == r.take(m)[i] by {
                if i > 0 {
                    assert(rest.take(m - 1)[i - 1] == after.take(m - 1)[i - 1]);
                }
            }
            assert(s.take(m) =~= r.take(m));
        }
    } else {
        assert(s.take(m) =~= r.take(m));
    }
}

/// A replacement brings in no pattern that the text did not hold, and leaves none of the one
/// that it replaces, where pattern and substitute do not begin within one another.
proof fn lemma_no_pattern(
    s: Seq<char>,
    from: Seq<char>,
    to: Seq<char>,
    pattern: Seq<char>,
    at: int,
)
    requires
        from.len() > 0,
        to.len() > 0,
        pattern.len() > 0,
        !pattern.contains(to[0]),
        !to.contains(pattern[0]),
        pattern == from || forall|i: int| !stands_at(s, pattern, i),
    ensures
        !stands_at(replaced(s, from, to), pattern, at),
    decreases s.len(),
{
    let r = replaced(s, from, to);
    if stands_at(r, pattern, at) {
        let n = pattern.len() as int;
        assert(r.skip(at).len() >= n);
        assert forall|j: int| 0 <= j < n implies #[trigger] r[at + j] == pattern[j] by {
            assert(r.skip(at)[j] == pattern[j]);
        }
        assert(r[at + 0] == pattern[0]);
        if s.len() > 0 && from.is_prefix_of(s) {
            let rest = s.skip(from.len() as int);
            let after = replaced(rest, from, to);
            if at < to.len() {
                assert(r[at] == to[at]);
            } else {
                assert(r.skip(at) =~= after.skip(at - to.len()));
                if pattern != from {
                    assert forall|i: int| !stands_at(rest, pattern, i) by {
                        if stands_at(rest, pattern, i) {
                            assert(s.skip(i + from.len()) =~= rest.skip(i));
                            assert(stands_at(s, pattern, i + from.len()));
                        }
                    }
                }
                lemma_no_pattern(rest, from, to, pattern, at - to.len());
            }
        } else if s.len() > 0 && at > 0 {
            let rest = s.drop_first();
            let after = replaced(rest, from, to);
            assert(r.skip(at) =~= after.skip(at - 1));
            if pattern != from {
                assert forall|i: int| !stands_at(rest, pattern, i) by {
                    if stands_at(rest, pattern, i) {
                        assert(s.skip(i + 1) =~= rest.skip(i));
                        assert(stands_at(s, pattern, i + 1));
                    }
                }
            }
            lemma_no_pattern(rest, from, to, pattern, at - 1);
        } else {
            assert forall|j: int| 0 <= j < n implies #[trigger] r[j] != to[0] by {
                assert(r[at + j] == pattern[j]);
                assert(pattern.contains(pattern[j]));
            }
            lemma_kept_start(s, from, to, n);
            assert(pattern =~= s.skip(0).subrange(0, n)) by {
                assert forall|j: int| 0 <= j < n implies pattern[j] == s.skip(0)[j] by {
                    assert(s.take(n)[j] == r.take(n)[j]);
                    assert(r[at + j] == pattern[j]);
                }
            }
            assert(stands_at(s, pattern, 0));
            assert(s.skip(0) =~= s);
        }
    }
}

/// A pattern that does not occur is not replaced.
proof fn lemma_replaced_absent(s: Seq<char>, from: Seq<char>, to: Seq<char>)
    requires
        from.len() > 0,
        forall|i: int| !stands_at(s, from, i),
    ensures
        replaced(s, from, to) == s,
    decreases s.len(),
{
    if s.len() > 0 {
        assert(s.skip(0) =~= s);
        assert(!stands_at(s, from, 0));
        let rest = s.drop_first();
        assert forall|i: int| !stands_at(rest, from, i) by {
            if stands_at(rest, from, i) {
                assert(s.skip(i + 1) =~= rest.skip(i));
                assert(stands_at(s, from, i + 1));
            }
        }
        lemma_replaced_absent(rest, from, to);
        assert(seq![s[0]] + rest =~= s);
    }
}

/// A text without the first character of a pattern does not hold the pattern.
proof fn lemma_absent_char(s: Seq<char>, pattern: Seq<char>)
    requires
        pattern.len() > 0,
        !s.contains(pattern[0]),
    ensures
        forall|i: int| !stands_at(s, pattern, i),
{
    assert forall|i: int| !stands_at(s, pattern, i) by {
        if stands_at(s, pattern, i) {
            assert(s.skip(i)[0] == pattern[0]);
            assert(s[i] == pattern[0]);
        }
    }
}

/// An escaped break tag is not there after it was replaced, nor after what follows.
proof fn lemma_break_gone(s: Seq<char>, from: Seq<char>, pattern: Seq<char>)
    requires
        from.len() > 0,
        pattern.len() > 0,
        pattern[0] == '&',
        !pattern.contains('<'),
        pattern == from || forall|i: int| !stands_at(s, pattern, i),
    ensures
        forall|i: int| !stands_at(replaced(s, from, "<br>"@), pattern, i),
{
    reveal_strlit("<br>");
    assert forall|i: int| !stands_at(replaced(s, from, "<br>"@), pattern, i) by {
        lemma_no_pattern(s, from, "<br>"@, pattern, i);
    }
}

/// Showing line ends as break tags twice is doing it once.
pub proof fn law_line_breaks_twice(value: Seq<char>)
    ensures
        line_breaks(line_breaks(value)) == line_breaks(value),
{
    reveal_strlit("\r\n");
    reveal_strlit("\r");
    reveal_strlit("\n");
    reveal_strlit("&lt;br&gt;");
    reveal_strlit("&lt;br/&gt;");
    reveal_strlit("&lt;br /&gt;");
    let (a, b, c) = ("&lt;br&gt;"@, "&lt;br/&gt;"@, "&lt;br /&gt;"@);
    let s1 = replaced(replaced(value, "\r\n"@, "\n"@), "\r"@, "\n"@);
    let s2 = replaced(s1, a, "<br>"@);
    let s3 = replaced(s2, b, "<br>"@);
    let s4 = replaced(s3, c, "<br>"@);
    let s5 = replaced(s4, "\n"@, "<br>"@);
    lemma_break_gone(s1, a, a);
    lemma_break_gone(s2, b, a);
    lemma_break_gone(s2, b, b);
    lemma_break_gone(s3, c, a);
    lemma_break_gone(s3, c, b);
    lemma_break_gone(s3, c, c);
    lemma_break_gone(s4, "\n"@, a);
    lemma_break_gone(s4, "\n"@, b);
    lemma_break_gone(s4, "\n"@, c);
    law_no_line_ends(value);
    lemma_absent_char(s5, "\r\n"@);
    lemma_absent_char(s5, "\r"@);
    lemma_absent_char(s5, "\n"@);
    lemma_replaced_absent(s5, "\r\n"@, "\n"@);
    lemma_replaced_absent(s5, "\r"@, "\n"@);
    lemma_replaced_absent(s5, a, "<br>"@);
    lemma_replaced_absent(s5, b, "<br>"@);
    lemma_replaced_absent(s5, c, "<br>"@);
    lemma_replaced_absent(s5, "\n"@, "<br>"@);
}

/// Whether `c` parts two words of an address.
pub open spec fn parts_words(c: char) -> bool {
    c == '-' || !alphanumeric(c)
}

/// The characters of `s` that belong to words; nothing in place of those that part them.
pub open spec fn marked(s: Seq<char>) -> Seq<Option<char>> {
    Seq::new(
        s.len(),
        |i: int|
            if parts_words(s[i]) {
                None
            } else {
                Some(s[i])
            },
    )
}

/// The stretches between the places that part words, in order; some are empty.
pub open spec fn stretches(marks: Seq<Option<char>>) -> Seq<Seq<char>>
    decreases marks.len(),
{
    if marks.len() == 0 {
        seq![Seq::empty()]
    } else {
        let before = stretches(marks.drop_last());
        match marks.last() {
            None => before.push(Seq::empty()),
            Some(c) => before.drop_last().push(before.last().push(c)),
        }
    }
}

/// The stretches that are not empty.
pub open spec fn nonempty(words: Seq<Seq<char>>) -> Seq<Seq<char>>
    decreases words.len(),
{
    if words.len() == 0 {
        words
    } else if words.last().len() == 0 {
        nonempty(words.drop_last())
    } else {
        nonempty(words.drop_last()).push(words.last())
    }
}

/// The words, with a dash between each two.
pub open spec fn joined(words: Seq<Seq<char>>) -> Seq<char>
    decreases words.len(),
{
    if words.len() == 0 {
        Seq::empty()
    } else if words.len() == 1 {
        words[0]
    } else {
        joined(words.drop_last()) + seq!['-'] + words.last()
    }
}

/// The words, joined by single dashes.
pub open spec fn words_joined(marks: Seq<Option<char>>) -> Seq<char> {
    joined(nonempty(stretches(marks)))
}

/// `s` with its words joined by single dashes.
pub open spec fn dashed(s: Seq<char>) -> Seq<char> {
    words_joined(marked(s))
}

/// The part of an address that stands for a category called `name`.
pub open spec fn slug_of(name: Seq<char>) -> Seq<char> {
    dashed(lowercase(name))
}

proof fn lemma_joined_push(words: Seq<Seq<char>>, word: Seq<char>)
    ensures
        words.len() == 0 ==> joined(words.push(word)) == word,
        words.len() > 0 ==> joined(words.push(word)) == joined(words) + seq!['-'] + word,
{
    assert(words.push(word).drop_last() =~= words);
}

/// How `words_joined` grows by one place.
proof fn lemma_words_push(marks: Seq<Option<char>>, mark: Option<char>)
    ensures
        stretches(marks).len() > 0,
        mark is None ==> words_joined(marks.push(mark)) == words_joined(marks) && stretches(
            marks.push(mark),
        ).last().len() == 0,
        mark matches Some(c) ==> {
            let before = words_joined(marks);
            let after = words_joined(marks.push(mark));
            &&& stretches(marks.push(mark)).last().len() > 0
            &&& if stretches(marks).last().len() > 0 {
                after == before.push(c) && before.len() > 0
            } else if before.len() == 0 {
                after == seq![c]
            } else {
                after == before.push('-').push(c)
            }
        },
{
    lemma_stretches_nonempty(marks);
    let before = stretches(marks);
    let after = stretches(marks.push(mark));
    assert(marks.push(mark).drop_last() =~= marks);
    match mark {
        None => {
            assert(after.drop_last() =~= before);
        },
        Some(c) => {
            let front = before.drop_last();
            let word = before.last().push(c);
            assert(after.drop_last() =~= front);
            lemma_joined_push(nonempty(front), word);
            lemma_joined_push(nonempty(front), before.last());
            lemma_nonempty_has_no_empty(front);
            lemma_joined_empty(nonempty(front));
            if before.last().len() > 0 {
                lemma_nonempty_has_no_empty(before);
                lemma_joined_empty(nonempty(before));
                if nonempty(front).len() > 0 {
                    assert(joined(nonempty(front)) + seq!['-'] + before.last().push(c) =~= (joined(
                        nonempty(front),
                    ) + seq!['-'] + before.last()).push(c));
                }
            } else {
                assert(word =~= seq![c]);
                if nonempty(front).len() > 0 {
                    assert(joined(nonempty(front)) + seq!['-'] + seq![c] =~= joined(
                        nonempty(front),
                    ).push('-').push(c));
                }
            }
        },
    }
}

/// How the joined words grow by one place: a gap ends a word and adds nothing by itself, and a
/// letter goes on with its word, or begins one, behind a dash where others came before.
pub proof fn law_words_grow(marks: Seq<Option<char>>, mark: Option<char>)
    ensures
        stretches(marks).len() > 0,
        mark is None ==> words_joined(marks.push(mark)) == words_joined(marks) && stretches(
            marks.push(mark),
        ).last().len() == 0,
        mark matches Some(c) ==> {
            let before = words_joined(marks);
            let after = words_joined(marks.push(mark));
            &&& stretches(marks.push(mark)).last().len() > 0
            &&& if stretches(marks).last().len() > 0 {
                after == before.push(c) && before.len() > 0
            } else if before.len() == 0 {
                after == seq![c]
            } else {
                after == before.push('-').push(c)
            }
        },
{
    lemma_words_push(marks, mark);
}

/// Without words there is nothing to join.
pub proof fn law_no_words()
    ensures
        words_joined(Seq::empty()) == Seq::<char>::empty(),
        stretches(Seq::empty()).last().len() == 0,
{
    reveal_with_fuel(nonempty, 2);
    assert(stretches(Seq::<Option<char>>::empty()) =~= seq![Seq::<char>::empty()]);
    assert(nonempty(seq![Seq::<char>::empty()]) =~= Seq::<Seq<char>>::empty());
}

/// How `dashed` grows by one character.
proof fn lemma_dashed_push(s: Seq<char>, c: char)
    ensures
        stretches(marked(s)).len() > 0,
        parts_words(c) ==> dashed(s.push(c)) == dashed(s) && stretches(
            marked(s.push(c)),
        ).last().len() == 0,
        !parts_words(c) ==> {
            &&& stretches(marked(s.push(c))).last().len() > 0
            &&& if stretches(marked(s)).last().len() > 0 {
                dashed(s.push(c)) == dashed(s).push(c) && dashed(s).len() > 0
            } else if dashed(s).len() == 0 {
                dashed(s.push(c)) == seq![c]
            } else {
                dashed(s.push(c)) == dashed(s).push('-').push(c)
            }
        },
{
    let mark = if parts_words(c) {
        None
    } else {
        Some(c)
    };
    lemma_words_push(marked(s), mark);
    assert(marked(s.push(c)) =~= marked(s).push(mark));
}

proof fn lemma_stretches_nonempty(marks: Seq<Option<char>>)
    ensures
        stretches(marks).len() > 0,
    decreases marks.len(),
{
    if marks.len() > 0 {
        lemma_stretches_nonempty(marks.drop_last());
    }
}

proof fn lemma_nonempty_has_no_empty(words: Seq<Seq<char>>)
    ensures
        forall|i: int| 0 <= i < nonempty(words).len() ==> (#[trigger] nonempty(words)[i]).len() > 0,
    decreases words.len(),
{
    if words.len() > 0 {
        let front = nonempty(words.drop_last());
        lemma_nonempty_has_no_empty(words.drop_last());
        assert forall|i: int| 0 <= i < nonempty(words).len() implies (#[trigger] nonempty(
            words,
        )[i]).len() > 0 by {
            if i < front.len() {
                assert(nonempty(words)[i] == front[i]);
            }
        }
    }
}

/// Words that are not empty join to an empty text only where there are none.
proof fn lemma_joined_empty(words: Seq<Seq<char>>)
    requires
        forall|i: int| 0 <= i < words.len() ==> (#[trigger] words[i]).len() > 0,
    ensures
        joined(words).len() == 0 <==> words.len() == 0,
{
}

/// Joins words by single dashes.
pub fn join_words(marks: &Vec<Option<char>>) -> (r: String)
    ensures
        r@ == words_joined(marks@),
{
    let n = marks.len();
    let mut out = String::new();
    let mut empty: bool = true;
    let mut within: bool = false;
    proof {
        assert(nonempty(seq![Seq::<char>::empty()]) =~= Seq::<Seq<char>>::empty()) by {
            reveal_with_fuel(nonempty, 2);
        }
        assert(marks@.take(0) =~= Seq::<Option<char>>::empty());
    }
    for i in 0..n
        invariant
            n == marks@.len(),
            out@ == words_joined(marks@.take(i as int)),
            empty == (out@.len() == 0),
            within == (stretches(marks@.take(i as int)).last().len() > 0),
    {
        let mark = marks[i];
        proof {
            lemma_words_push(marks@.take(i as int), mark);
            assert(marks@.take(i as int).push(mark) =~= marks@.take(i + 1));
        }
        match mark {
            None => {
                within = false;
            },
            Some(c) => {
                if !within && !empty {
                    out.push('-');
                }
                out.push(c);
                within = true;
                empty = false;
            },
        }
    }
    proof {
        assert(marks@.take(n as int) =~= marks@);
    }
    out
}

/// The characters of `s` that belong to words.
fn mark_words(s: &str) -> (r: Vec<Option<char>>)
    ensures
        r@ == marked(s@),
{
    let chars = to_chars(s);
    let n = chars.len();
    let mut marks: Vec<Option<char>> = Vec::new();
    for i in 0..n
        invariant
            chars@ == s@,
            n == chars@.len(),
            marks@ == marked(s@).take(i as int),
    {
        let c = chars[i];
        if c == '-' || !c.is_alphanumeric() {
            marks.push(None);
        } else {
            marks.push(Some(c));
        }
        proof {
            assert(marks@ =~= marked(s@).take(i + 1));
        }
    }
    proof {
        assert(marked(s@).take(n as int) =~= marked(s@));
    }
    marks
}

/// The part of an address that stands for a category called `name`.
pub fn slug(name: &str) -> (r: String)
    ensures
        r@ == slug_of(name@),
{
    let lower = name.to_lowercase();
    let marks = mark_words(lower.as_str());
    join_words(&marks)
}

/// A text that `dashed` leaves as it is: words, with a single dash between each two.
pub open spec fn is_dashed(t: Seq<char>) -> bool {
    &&& forall|i: int| 0 <= i < t.len() ==> t[i] == '-' || !parts_words(#[trigger] t[i])
    &&& forall|i: int, j: int|
        0 <= i < t.len() && j == i + 1 && j < t.len() ==> !(#[trigger] t[i] == '-' && #[trigger] t[j]
            == '-')
    &&& t.len() > 0 ==> t[0] != '-' && t.last() != '-'
}

proof fn lemma_dashed_shape(s: Seq<char>)
    ensures
        is_dashed(dashed(s)),
        stretches(marked(s)).last().len() > 0 ==> dashed(s).len() > 0,
        dashed(s).len() > 0 <==> exists|i: int| 0 <= i < s.len() && !parts_words(#[trigger] s[i]),
    decreases s.len(),
{
    if s.len() == 0 {
        reveal_with_fuel(nonempty, 2);
        assert(dashed(s) =~= Seq::<char>::empty());
    } else {
        let front = s.drop_last();
        let c = s.last();
        lemma_dashed_shape(front);
        lemma_dashed_push(front, c);
        assert(front.push(c) =~= s);
        if parts_words(c) {
            if dashed(s).len() > 0 {
                let i = choose|i: int| 0 <= i < front.len() && !parts_words(#[trigger] front[i]);
                assert(!parts_words(s[i]));
            }
            if exists|i: int| 0 <= i < s.len() && !parts_words(#[trigger] s[i]) {
                let i = choose|i: int| 0 <= i < s.len() && !parts_words(#[trigger] s[i]);
                assert(!parts_words(front[i]));
            }
        } else {
            assert(!parts_words(s[s.len() - 1]));
        }
    }
}

proof fn lemma_dashed_fixpoint(t: Seq<char>)
    requires
        forall|i: int| 0 <= i < t.len() ==> t[i] == '-' || !parts_words(#[trigger] t[i]),
        forall|i: int, j: int|
            0 <= i < t.len() && j == i + 1 && j < t.len() ==> !(#[trigger] t[i] == '-'
                && #[trigger] t[j] == '-'),
        t.len() > 0 ==> t[0] != '-',
    ensures
        t.len() > 0 && t.last() == '-' ==> dashed(t) == t.drop_last() && stretches(marked(t)).last().len()
            == 0,
        t.len() > 0 && t.last() != '-' ==> dashed(t) == t && stretches(marked(t)).last().len() > 0,
        t.len() == 0 ==> dashed(t) == t && stretches(marked(t)).last().len() == 0,
    decreases t.len(),
{
    if t.len() == 0 {
        reveal_with_fuel(nonempty, 2);
        assert(dashed(t) =~= t);
    } else {
        let front = t.drop_last();
        let c = t.last();
        assert forall|i: int| 0 <= i < front.len() implies front[i] == '-' || !parts_words(
            #[trigger] front[i],
        ) by {
            assert(front[i] == t[i]);
        }
        assert forall|i: int, j: int| 0 <= i < front.len() && j == i + 1 && j < front.len() implies !(
        #[trigger] front[i] == '-' && #[trigger] front[j] == '-') by {
            assert(front[i] == t[i] && front[j] == t[j]);
        }
        lemma_dashed_fixpoint(front);
        lemma_dashed_push(front, c);
        assert(front.push(c) =~= t);
        if front.len() > 0 {
            assert(front.last() == t[t.len() - 2]);
            if front.last() == '-' {
                assert(t[t.len() - 2] == '-' && t[t.len() - 1] != '-');
                assert(front.len() > 1);
                assert(front.drop_last().push('-') =~= front);
            }
        } else {
            assert(t =~= seq![c]);
        }
    }
}

/// A slug is made of words that are joined by single dashes: no dash stands at its ends or
/// beside another. It is empty just where the lowercase name holds no letter or digit.
pub proof fn law_slug_shape(name: Seq<char>)
    ensures
        is_dashed(slug_of(name)),
        slug_of(name).len() > 0 <==> exists|i: int|
            0 <= i < lowercase(name).len() && !parts_words(#[trigger] lowercase(name)[i]),
{
    lemma_dashed_shape(lowercase(name));
}

/// Joining words by dashes a second time changes nothing.
pub proof fn law_dashed_idempotent(s: Seq<char>)
    ensures
        dashed(dashed(s)) == dashed(s),
{
    lemma_dashed_shape(s);
    lemma_dashed_fixpoint(dashed(s));
}

proof fn lemma_filter_push(s: Seq<char>, c: char, p: spec_fn(char) -> bool)
    ensures
        s.push(c).filter(p) == if p(c) {
            s.filter(p).push(c)
        } else {
            s.filter(p)
        },
{
    reveal(Seq::filter);
    assert(s.push(c).drop_last() =~= s);
}

/// Joining words by dashes keeps their letters and digits, in their order.
pub proof fn law_dashed_letters(s: Seq<char>)
    ensures
        dashed(s).filter(|c: char| c != '-') == s.filter(|c: char| !parts_words(c)),
    decreases s.len(),
{
    let letter = |c: char| c != '-';
    let word = |c: char| !parts_words(c);
    if s.len() == 0 {
        reveal_with_fuel(nonempty, 2);
        reveal(Seq::filter);
        assert(dashed(s) =~= Seq::<char>::empty());
    } else {
        let front = s.drop_last();
        let c = s.last();
        law_dashed_letters(front);
        lemma_dashed_push(front, c);
        assert(front.push(c) =~= s);
        lemma_filter_push(front, c, word);
        lemma_filter_push(dashed(front), '-', letter);
        lemma_filter_push(dashed(front).push('-'), c, letter);
        lemma_filter_push(dashed(front), c, letter);
        if dashed(front).len() == 0 {
            assert(dashed(front).push(c) =~= seq![c]);
        }
    }
}

/// The HTML that `pulldown_cmark` writes for a Markdown text, with or without its
/// strikethrough extension.
pub uninterp spec fn markdown_html(text: Seq<char>, strikethrough: bool) -> Seq<char>;

/// `pulldown_cmark::html::push_html` on a `Parser` over `text`: it appends to an empty buffer
/// the HTML of the Markdown text, which depends on the text and the extension alone.
#[verifier::external_body]
fn render_markdown(text: &str, strikethrough: bool) -> (html: String)
    ensures
        html@ == markdown_html(text@, strikethrough),
{
    let mut options = pulldown_cmark::Options::empty();
    options.set(pulldown_cmark::Options::ENABLE_STRIKETHROUGH, strikethrough);
    let parser = pulldown_cmark::Parser::new_ext(text, options);
    let mut html = String::new();
    pulldown_cmark::html::push_html(&mut html, parser);
    html
}

/// The HTML that `ammonia::clean` leaves of an HTML text.
pub uninterp spec fn sanitized(html: Seq<char>) -> Seq<char>;

/// `ammonia::clean` with its default settings: what it keeps depends on the HTML alone.
#[verifier::external_body]
fn sanitize(html: &str) -> (clean: String)
    ensures
        clean@ == sanitized(html@),
{
    ammonia::clean(html)
}

/// Shows Markdown as HTML that is safe to embed.
pub fn markdown_to_html(text: String) -> (r: String)
    ensures
        r@ == sanitized(markdown_html(text@, true)),
{
    let html = render_markdown(text.as_str(), true);
    sanitize(html.as_str())
}

} // verus!
