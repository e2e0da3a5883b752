//! How line ends and escaped break tags are shown, told from the front of a text.
use vstd::prelude::*;
use crate::markup::{lemma_kept_start, line_breaks, stands_at};
use crate::text::replaced;

verus! {

/// A replacement leaves alone what it does not replace.
proof fn lemma_passes(p: Seq<char>, y: Seq<char>, from: Seq<char>, to: Seq<char>)
    requires
        from.len() > 0,
        forall|i: int| 0 <= i < p.len() ==> !#[trigger] stands_at(p + y, from, i),
    ensures
        replaced(p + y, from, to) == p + replaced(y, from, to),
    decreases p.len(),
{
    let s = p + y;
    if p.len() == 0 {
        assert(s =~= y);
        assert(p + replaced(y, from, to) =~= replaced(y, from, to));
    } else {
        let rest = p.drop_first();
        assert(s.skip(0) =~= s);
        assert(!stands_at(s, from, 0));
        assert(s.drop_first() =~= rest + y);
        assert forall|i: int| 0 <= i < rest.len() implies !#[trigger] stands_at(
            rest + y,
            from,
            i,
        ) by {
            assert(s.skip(i + 1) =~= (rest + y).skip(i));
            assert(!stands_at(s, from, i + 1));
        }
        lemma_passes(rest, y, from, to);
        assert(seq![s[0]] + (rest + replaced(y, from, to)) =~= p + replaced(y, from, to));
    }
}

/// A pattern does not stand where its first character does not.
proof fn lemma_elsewhere(p: Seq<char>, y: Seq<char>, from: Seq<char>, to: Seq<char>)
    requires
        from.len() > 0,
        forall|i: int| 0 <= i < p.len() ==> #[trigger] p[i] != from[0],
    ensures
        replaced(p + y, from, to) == p + replaced(y, from, to),
{
    assert forall|i: int| 0 <= i < p.len() implies !#[trigger] stands_at(p + y, from, i) by {
        if stands_at(p + y, from, i) {
            assert((p + y).skip(i)[0] == from[0]);
            assert(p[i] == from[0]);
        }
    }
    lemma_passes(p, y, from, to);
}

/// A pattern at the front is replaced.
proof fn lemma_replaced_front(y: Seq<char>, from: Seq<char>, to: Seq<char>)
    requires
        from.len() > 0,
    ensures
        replaced(from + y, from, to) == to + replaced(y, from, to),
{
    assert(from =~= (from + y).subrange(0, from.len() as int));
    assert((from + y).skip(from.len() as int) =~= y);
}

/// A replacement behind a character brings no pattern to the front.
proof fn lemma_front_kept(
    c: char,
    y: Seq<char>,
    from: Seq<char>,
    to: Seq<char>,
    pattern: Seq<char>,
)
    requires
        from.len() > 0,
        to.len() > 0,
        pattern.len() > 0,
        !pattern.contains(to[0]),
        !stands_at(seq![c] + y, pattern, 0),
    ensures
        !stands_at(seq![c] + replaced(y, from, to), pattern, 0),
{
    let r = replaced(y, from, to);
    let s = seq![c] + r;
    if stands_at(s, pattern, 0) {
        let m = pattern.len() - 1;
        assert(s.skip(0) =~= s);
        assert forall|i: int| 0 <= i < pattern.len() implies s[i] == pattern[i] by {
            assert(s.subrange(0, pattern.len() as int)[i] == s[i]);
        }
        assert forall|i: int| 0 <= i < m implies #[trigger] r[i] != to[0] by {
            assert(r[i] == s[i + 1]);
            assert(pattern.contains(pattern[i + 1]));
        }
        lemma_kept_start(y, from, to, m);
        let t = seq![c] + y;
        assert(t.skip(0) =~= t);
        assert forall|i: int| 0 <= i < pattern.len() implies t[i] == pattern[i] by {
            if i > 0 {
                assert(y.take(m)[i - 1] == r.take(m)[i - 1]);
            }
        }
        assert(pattern =~= t.subrange(0, pattern.len() as int));
    }
}

/// What is left to do once all line ends are one.
spec fn later_breaks(s: Seq<char>) -> Seq<char> {
    let s = replaced(s, "&lt;br&gt;"@, "<br>"@);
    let s = replaced(s, "&lt;br/&gt;"@, "<br>"@);
    let s = replaced(s, "&lt;br /&gt;"@, "<br>"@);
    replaced(s, "\n"@, "<br>"@)
}

/// All line ends made one.
spec fn plain_ends(s: Seq<char>) -> Seq<char> {
    replaced(replaced(s, "\r\n"@, "\n"@), "\r"@, "\n"@)
}

proof fn lemma_end_shown(y: Seq<char>)
    ensures
        later_breaks("\n"@ + y) == "<br>"@ + later_breaks(y),
{
    reveal_strlit("\n");
    reveal_strlit("&lt;br&gt;");
    reveal_strlit("&lt;br/&gt;");
    reveal_strlit("&lt;br /&gt;");
    let a = replaced(y, "&lt;br&gt;"@, "<br>"@);
    let b = replaced(a, "&lt;br/&gt;"@, "<br>"@);
    let c = replaced(b, "&lt;br /&gt;"@, "<br>"@);
    lemma_elsewhere("\n"@, y, "&lt;br&gt;"@, "<br>"@);
    lemma_elsewhere("\n"@, a, "&lt;br/&gt;"@, "<br>"@);
    lemma_elsewhere("\n"@, b, "&lt;br /&gt;"@, "<br>"@);
    lemma_replaced_front(c, "\n"@, "<br>"@);
}

/// Of nothing, nothing is shown.
pub proof fn law_nothing_broken()
    ensures
        line_breaks(Seq::empty()) == Seq::<char>::empty(),
{
    reveal_strlit("\r\n");
    reveal_strlit("\r");
    reveal_strlit("\n");
    reveal_strlit("&lt;br&gt;");
    reveal_strlit("&lt;br/&gt;");
    reveal_strlit("&lt;br /&gt;");
}

/// Each line end at the front of a text, of whichever kind, is shown as one break tag, and what
/// follows it as it would be by itself.
pub proof fn law_end_broken(rest: Seq<char>)
    ensures
        line_breaks("\n"@ + rest) == "<br>"@ + line_breaks(rest),
        line_breaks("\r\n"@ + rest) == "<br>"@ + line_breaks(rest),
        rest.len() == 0 || rest[0] != '\n' ==> line_breaks("\r"@ + rest) == "<br>"@ + line_breaks(
            rest,
        ),
{
    reveal_strlit("\r\n");
    reveal_strlit("\r");
    reveal_strlit("\n");
    let one = replaced(rest, "\r\n"@, "\n"@);
    lemma_elsewhere("\n"@, rest, "\r\n"@, "\n"@);
    lemma_elsewhere("\n"@, one, "\r"@, "\n"@);
    lemma_end_shown(plain_ends(rest));
    lemma_replaced_front(rest, "\r\n"@, "\n"@);
    if rest.len() == 0 || rest[0] != '\n' {
        let s = "\r"@ + rest;
        assert(!stands_at(s, "\r\n"@, 0)) by {
            if stands_at(s, "\r\n"@, 0) {
                assert(s.skip(0) =~= s);
                assert(s.subrange(0, 2)[1] == s[1]);
                assert(s[1] == rest[0]);
            }
        }
        lemma_passes("\r"@, rest, "\r\n"@, "\n"@);
        lemma_replaced_front(one, "\r"@, "\n"@);
    }
}

proof fn lemma_other_tag(y: Seq<char>, tag: Seq<char>, from: Seq<char>, second: int)
    requires
        tag.len() > second + 1,
        second > 6,
        from.len() > 6,
        tag[6] != from[6],
        from[0] == '&',
        from[1] == 'l',
        tag[second + 1] == 'g',
        forall|i: int| 0 < i < tag.len() && i != second ==> #[trigger] tag[i] != '&',
    ensures
        replaced(tag + y, from, "<br>"@) == tag + replaced(y, from, "<br>"@),
{
    let s = tag + y;
    assert forall|i: int| 0 <= i < tag.len() implies !#[trigger] stands_at(s, from, i) by {
        if stands_at(s, from, i) {
            assert forall|j: int| 0 <= j < from.len() implies from[j] == s[i + j] by {
                assert(s.skip(i).subrange(0, from.len() as int)[j] == s.skip(i)[j]);
            }
            assert(from[0] == s[i + 0]);
            assert(from[1] == s[i + 1]);
            assert(from[6] == s[i + 6]);
        }
    }
    lemma_passes(tag, y, from, "<br>"@);
}

/// An escaped break tag at the front of a text, in each of the three ways to write it, is shown
/// as a real one, and what follows it as it would be by itself.
pub proof fn law_tag_broken(rest: Seq<char>)
    ensures
        line_breaks("&lt;br&gt;"@ + rest) == "<br>"@ + line_breaks(rest),
        line_breaks("&lt;br/&gt;"@ + rest) == "<br>"@ + line_breaks(rest),
        line_breaks("&lt;br /&gt;"@ + rest) == "<br>"@ + line_breaks(rest),
{
    reveal_strlit("\r\n");
    reveal_strlit("\r");
    reveal_strlit("\n");
    reveal_strlit("<br>");
    reveal_strlit("&lt;br&gt;");
    reveal_strlit("&lt;br/&gt;");
    reveal_strlit("&lt;br /&gt;");
    let one = replaced(rest, "\r\n"@, "\n"@);
    let y = plain_ends(rest);
    let a = replaced(y, "&lt;br&gt;"@, "<br>"@);
    let b = replaced(a, "&lt;br/&gt;"@, "<br>"@);
    let c = replaced(b, "&lt;br /&gt;"@, "<br>"@);
    lemma_elsewhere("&lt;br&gt;"@, rest, "\r\n"@, "\n"@);
    lemma_elsewhere("&lt;br&gt;"@, one, "\r"@, "\n"@);
    lemma_elsewhere("&lt;br/&gt;"@, rest, "\r\n"@, "\n"@);
    lemma_elsewhere("&lt;br/&gt;"@, one, "\r"@, "\n"@);
    lemma_elsewhere("&lt;br /&gt;"@, rest, "\r\n"@, "\n"@);
    lemma_elsewhere("&lt;br /&gt;"@, one, "\r"@, "\n"@);
    lemma_replaced_front(y, "&lt;br&gt;"@, "<br>"@);
    lemma_elsewhere("<br>"@, a, "&lt;br/&gt;"@, "<br>"@);
    lemma_elsewhere("<br>"@, b, "&lt;br /&gt;"@, "<br>"@);
    lemma_elsewhere("<br>"@, c, "\n"@, "<br>"@);
    lemma_other_tag(y, "&lt;br/&gt;"@, "&lt;br&gt;"@, 7);
    lemma_replaced_front(a, "&lt;br/&gt;"@, "<br>"@);
    lemma_other_tag(y, "&lt;br /&gt;"@, "&lt;br&gt;"@, 8);
    lemma_other_tag(a, "&lt;br /&gt;"@, "&lt;br/&gt;"@, 8);
    lemma_replaced_front(b, "&lt;br /&gt;"@, "<br>"@);
}

/// Any other character at the front of a text is shown as it is, and what follows it as it would
/// be by itself.
pub proof fn law_letter_kept(c: char, rest: Seq<char>)
    requires
        c != '\r',
        c != '\n',
        !stands_at(seq![c] + rest, "&lt;br&gt;"@, 0),
        !stands_at(seq![c] + rest, "&lt;br/&gt;"@, 0),
        !stands_at(seq![c] + rest, "&lt;br /&gt;"@, 0),
    ensures
        line_breaks(seq![c] + rest) == seq![c] + line_breaks(rest),
{
    reveal_strlit("\r\n");
    reveal_strlit("\r");
    reveal_strlit("\n");
    reveal_strlit("<br>");
    reveal_strlit("&lt;br&gt;");
    reveal_strlit("&lt;br/&gt;");
    reveal_strlit("&lt;br /&gt;");
    let one = replaced(rest, "\r\n"@, "\n"@);
    let y = plain_ends(rest);
    let a = replaced(y, "&lt;br&gt;"@, "<br>"@);
    let b = replaced(a, "&lt;br/&gt;"@, "<br>"@);
    let d = replaced(b, "&lt;br /&gt;"@, "<br>"@);
    lemma_elsewhere(seq![c], rest, "\r\n"@, "\n"@);
    lemma_elsewhere(seq![c], one, "\r"@, "\n"@);
    lemma_front_kept(c, rest, "\r\n"@, "\n"@, "&lt;br&gt;"@);
    lemma_front_kept(c, one, "\r"@, "\n"@, "&lt;br&gt;"@);
    lemma_front_kept(c, rest, "\r\n"@, "\n"@, "&lt;br/&gt;"@);
    lemma_front_kept(c, one, "\r"@, "\n"@, "&lt;br/&gt;"@);
    lemma_front_kept(c, rest, "\r\n"@, "\n"@, "&lt;br /&gt;"@);
    lemma_front_kept(c, one, "\r"@, "\n"@, "&lt;br /&gt;"@);
    lemma_front_kept(c, y, "&lt;br&gt;"@, "<br>"@, "&lt;br/&gt;"@);
    lemma_front_kept(c, y, "&lt;br&gt;"@, "<br>"@, "&lt;br /&gt;"@);
    lemma_front_kept(c, a, "&lt;br/&gt;"@, "<br>"@, "&lt;br /&gt;"@);
    lemma_passes(seq![c], y, "&lt;br&gt;"@, "<br>"@);
    lemma_passes(seq![c], a, "&lt;br/&gt;"@, "<br>"@);
    lemma_passes(seq![c], b, "&lt;br /&gt;"@, "<br>"@);
    lemma_elsewhere(seq![c], d, "\n"@, "<br>"@);
}

} // verus!
