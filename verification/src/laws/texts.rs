//! What is done to texts, told by what comes out.
use vstd::prelude::*;
use vstd::utf8::encode_utf8;
use crate::markup::{
    clamped, law_starts_before, slug_of, stands_at, starts_before, words_joined,
};
use crate::text::{
    alphanumeric, decimal, digits, is_white, lowercase, replaced, trimmed, trimmed_end,
    trimmed_start,
};

verus! {

/// White space is what Unicode calls so.
pub proof fn law_white_space(c: char)
    ensures
        is_white(c) <==> {
            let n = c as u32;
            ||| 9 <= n <= 13
            ||| n == 0x20
            ||| n == 0x85
            ||| n == 0xa0
            ||| n == 0x1680
            ||| 0x2000 <= n <= 0x200a
            ||| n == 0x2028
            ||| n == 0x2029
            ||| n == 0x202f
            ||| n == 0x205f
            ||| n == 0x3000
        },
{
}

/// Whether each character from `a` to `b` is white space.
pub open spec fn is_blank(s: Seq<char>, a: int, b: int) -> bool {
    forall|i: int| a <= i < b ==> is_white(#[trigger] s[i])
}

/// Whether `t` is what stands in `s` from `a` to `b`, between white space, and neither begins nor
/// ends with any.
pub open spec fn is_core(s: Seq<char>, t: Seq<char>, a: int, b: int) -> bool {
    &&& 0 <= a <= b <= s.len()
    &&& t == s.subrange(a, b)
    &&& is_blank(s, 0, a)
    &&& is_blank(s, b, s.len() as int)
    &&& a < b ==> !is_white(s[a]) && !is_white(s[b - 1])
}

/// Trimming at the end takes off all the white space there, and nothing else.
pub proof fn law_trimmed_end(s: Seq<char>)
    ensures
        trimmed_end(s).len() <= s.len(),
        trimmed_end(s) == s.take(trimmed_end(s).len() as int),
        is_blank(s, trimmed_end(s).len() as int, s.len() as int),
        trimmed_end(s).len() > 0 ==> !is_white(trimmed_end(s).last()),
    decreases s.len(),
{
    if s.len() > 0 && is_white(s.last()) {
        let front = s.drop_last();
        law_trimmed_end(front);
        let n = trimmed_end(s).len() as int;
        assert(s.take(n) =~= front.take(n));
        assert forall|i: int| n <= i < s.len() implies is_white(#[trigger] s[i]) by {
            if i < front.len() {
                assert(front[i] == s[i]);
            }
        }
    } else {
        assert(s.take(s.len() as int) =~= s);
    }
}

proof fn lemma_trimmed_start(s: Seq<char>)
    ensures
        trimmed_start(s).len() <= s.len(),
        trimmed_start(s) == s.skip(s.len() - trimmed_start(s).len()),
        is_blank(s, 0, s.len() - trimmed_start(s).len()),
        trimmed_start(s).len() > 0 ==> !is_white(trimmed_start(s)[0]),
    decreases s.len(),
{
    if s.len() > 0 && is_white(s[0]) {
        let rest = s.drop_first();
        lemma_trimmed_start(rest);
        let n = s.len() - trimmed_start(s).len();
        assert(s.skip(n) =~= rest.skip(n - 1));
        assert forall|i: int| 0 <= i < n implies is_white(#[trigger] s[i]) by {
            if i > 0 {
                assert(rest[i - 1] == s[i]);
            }
        }
    } else {
        assert(s.skip(0) =~= s);
    }
}

/// Trimming takes off all the white space at both ends, and nothing else.
pub proof fn law_trimmed(s: Seq<char>)
    ensures
        exists|a: int, b: int| is_core(s, trimmed(s), a, b),
{
    let t = trimmed_start(s);
    lemma_trimmed_start(s);
    law_trimmed_end(t);
    let a = s.len() - t.len();
    let b = a + trimmed(s).len();
    assert(trimmed(s) =~= s.subrange(a, b));
    assert forall|i: int| b <= i < s.len() implies is_white(#[trigger] s[i]) by {
        assert(t[i - a] == s[i]);
    }
    if a < b {
        assert(t[0] == s[a]);
        assert(trimmed(s)[0] == t[0]);
    }
    assert(is_core(s, trimmed(s), a, b));
}

/// There is but one way to trim a text.
pub proof fn law_trimmed_once(s: Seq<char>, t: Seq<char>, a: int, b: int)
    requires
        is_core(s, t, a, b),
    ensures
        trimmed(s) == t,
{
    law_trimmed(s);
    let (c, d) = choose|c: int, d: int| is_core(s, trimmed(s), c, d);
    if a < b {
        assert(c < d) by {
            if c == d {
                assert(a < c || a >= d);
            }
        }
        assert(a == c);
        assert(b == d);
    } else if c < d {
        assert(c < a || c >= b);
    }
    assert(trimmed(s) =~= t);
}

/// How a text is cut down that takes more bytes than it may: the characters stay that begin
/// before the byte `max_len - 1`, then white space at their end goes and an ellipsis comes. One
/// that does not take more stays whole.
pub proof fn law_clamped_to(s: Seq<char>, max_len: int, k: int)
    requires
        max_len > 0,
        0 <= k <= s.len(),
        forall|j: int|
            0 <= j < s.len() ==> (j < k <==> #[trigger] encode_utf8(s.take(j)).len() < max_len - 1),
    ensures
        encode_utf8(s).len() <= max_len ==> clamped(s, max_len) == s,
        encode_utf8(s).len() > max_len ==> clamped(s, max_len) == trimmed_end(s.take(k)).push('…'),
{
    law_starts_before(s, max_len - 1);
    let n = starts_before(s, max_len - 1) as int;
    if n < k {
        assert(encode_utf8(s.take(n)).len() < max_len - 1);
    } else if k < n {
        assert(encode_utf8(s.take(k)).len() < max_len - 1);
    }
}

/// The number that decimal digits stand for.
pub open spec fn number_of(s: Seq<char>) -> int
    decreases s.len(),
{
    if s.len() == 0 {
        0
    } else {
        10 * number_of(s.drop_last()) + (s.last() as int - '0' as int)
    }
}

proof fn lemma_digits(n: nat)
    ensures
        number_of(digits(n)) == n,
        digits(n).len() > 0,
        digits(n).len() > 1 ==> digits(n)[0] != '0',
        n > 0 ==> digits(n)[0] != '0',
        forall|i: int| 0 <= i < digits(n).len() ==> '0' <= #[trigger] digits(n)[i] <= '9',
    decreases n,
{
    reveal_with_fuel(number_of, 2);
    if n < 10 {
        assert(digits(n).drop_last() =~= Seq::<char>::empty());
    } else {
        lemma_digits(n / 10);
        let front = digits(n / 10);
        assert(digits(n).drop_last() =~= front);
        assert(digits(n)[0] == front[0]);
        assert forall|i: int| 0 <= i < digits(n).len() implies '0' <= #[trigger] digits(n)[i]
            <= '9' by {
            if i < front.len() {
                assert(digits(n)[i] == front[i]);
            }
        }
    }
}

/// A number is written in digits that stand for it, without idle zeros, after a sign where it is
/// negative.
pub proof fn law_decimal(n: int)
    ensures
        n >= 0 ==> number_of(decimal(n)) == n,
        n < 0 ==> decimal(n)[0] == '-' && number_of(decimal(n).skip(1)) == -n,
        ({
            let plain = if n < 0 {
                decimal(n).skip(1)
            } else {
                decimal(n)
            };
            &&& plain.len() > 0
            &&& plain.len() > 1 ==> plain[0] != '0'
            &&& forall|i: int| 0 <= i < plain.len() ==> '0' <= #[trigger] plain[i] <= '9'
        }),
{
    if n < 0 {
        lemma_digits((-n) as nat);
        assert(decimal(n).skip(1) =~= digits((-n) as nat));
    } else {
        lemma_digits(n as nat);
    }
}

/// A replacement puts the substitute in place of the first occurrence, and goes on behind it.
pub proof fn law_first_replaced(a: Seq<char>, from: Seq<char>, to: Seq<char>, b: Seq<char>)
    requires
        from.len() > 0,
        forall|i: int| 0 <= i < a.len() ==> !#[trigger] stands_at(a + from + b, from, i),
    ensures
        replaced(a + from + b, from, to) == a + to + replaced(b, from, to),
    decreases a.len(),
{
    let s = a + from + b;
    if a.len() == 0 {
        assert(s =~= from + b);
        assert(from =~= s.subrange(0, from.len() as int));
        assert(s.skip(from.len() as int) =~= b);
        assert(a + to + replaced(b, from, to) =~= to + replaced(b, from, to));
    } else {
        let rest = a.drop_first();
        assert(s.skip(0) =~= s);
        assert(!stands_at(s, from, 0));
        assert(s.drop_first() =~= rest + from + b);
        assert forall|i: int| 0 <= i < rest.len() implies !#[trigger] stands_at(
            rest + from + b,
            from,
            i,
        ) by {
            assert(s.skip(i + 1) =~= (rest + from + b).skip(i));
            assert(!stands_at(s, from, i + 1));
        }
        law_first_replaced(rest, from, to, b);
        assert(seq![s[0]] + (rest + to + replaced(b, from, to)) =~= a + to + replaced(b, from, to));
    }
}

/// The letters of a word, each at its place.
pub open spec fn word_marks(word: Seq<char>) -> Seq<Option<char>> {
    Seq::new(word.len(), |i: int| Some(word[i]))
}

/// A word alone stands for itself.
pub proof fn law_word_alone(word: Seq<char>)
    ensures
        words_joined(word_marks(word)) == word,
    decreases word.len(),
{
    crate::markup::law_no_words();
    if word.len() == 0 {
        assert(word_marks(word) =~= Seq::<Option<char>>::empty());
    } else {
        let front = word.drop_last();
        let c = word.last();
        law_word_alone(front);
        assert(word_marks(word) =~= word_marks(front).push(Some(c)));
        crate::markup::law_words_grow(word_marks(front), Some(c));
        if front.len() > 0 {
            let before = word_marks(front.drop_last());
            assert(word_marks(front) =~= before.push(Some(front.last())));
            crate::markup::law_words_grow(before, Some(front.last()));
            assert(front.push(c) =~= word);
        } else {
            assert(word_marks(front) =~= Seq::<Option<char>>::empty());
            assert(word =~= seq![c]);
        }
    }
}

/// A word that follows others is put behind them with a dash; a gap alone adds nothing; without
/// words there is nothing.
pub proof fn law_word_added(marks: Seq<Option<char>>, word: Seq<char>)
    requires
        word.len() > 0,
    ensures
        words_joined(Seq::empty()) == Seq::<char>::empty(),
        words_joined(marks.push(None)) == words_joined(marks),
        words_joined(marks.push(None) + word_marks(word)) == if words_joined(marks).len() == 0 {
            word
        } else {
            words_joined(marks) + seq!['-'] + word
        },
    decreases word.len(),
{
    crate::markup::law_words_grow(marks, None);
    crate::markup::law_no_words();
    let gap = marks.push(None);
    let front = word.drop_last();
    let c = word.last();
    let before = gap + word_marks(front);
    assert(gap + word_marks(word) =~= before.push(Some(c)));
    crate::markup::law_words_grow(before, Some(c));
    if front.len() > 0 {
        law_word_added(marks, front);
        crate::markup::law_words_grow(
            (gap + word_marks(front)).drop_last(),
            Some(front.last()),
        );
        assert((gap + word_marks(front)).drop_last().push(Some(front.last())) =~= before);
        assert(front.push(c) =~= word);
        if words_joined(marks).len() > 0 {
            assert((words_joined(marks) + seq!['-'] + front).push(c) =~= words_joined(marks) + seq![
                '-',
            ] + word);
        }
    } else {
        assert(before =~= gap);
        assert(word =~= seq![c]);
        if words_joined(marks).len() > 0 {
            assert(words_joined(marks).push('-').push(c) =~= words_joined(marks) + seq!['-'] + word);
        }
    }
}

/// What stands for a name in addresses: its lowercase words, which are the runs of letters and
/// digits, joined by dashes.
pub proof fn law_slug_words(name: Seq<char>, marks: Seq<Option<char>>)
    requires
        marks.len() == lowercase(name).len(),
        forall|i: int|
            0 <= i < marks.len() ==> #[trigger] marks[i] == if lowercase(name)[i] != '-'
                && alphanumeric(lowercase(name)[i]) {
                Some(lowercase(name)[i])
            } else {
                None::<char>
            },
    ensures
        slug_of(name) == words_joined(marks),
{
    assert(crate::markup::marked(lowercase(name)) =~= marks);
}

} // verus!
