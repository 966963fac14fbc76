//! What holds of the functions on text: what trimming leaves, and what the
//! splitting at line feeds gives.

use vstd::prelude::*;
use crate::text::{
    count, is_space, is_trimmed, lemma_pieces_len, lemma_trim_start_at, lines, padded_block,
    pieces, spaces, strip_cr, trim, trim_end, trim_start,
};

verus! {

/// `s` holds no line feed.
pub open spec fn one_line(s: Seq<char>) -> bool {
    forall|i: int| 0 <= i < s.len() ==> s[i] != '\n'
}

/// Every character of `s` is white space.
pub open spec fn blank(s: Seq<char>) -> bool {
    forall|i: int| 0 <= i < s.len() ==> is_space(#[trigger] s[i])
}

/// What `trim_start` gives is the end of the text, and does not begin with
/// white space.
pub proof fn lemma_trim_start_shape(s: Seq<char>)
    ensures
        trim_start(s).len() <= s.len(),
        trim_start(s) == s.skip(s.len() - trim_start(s).len()),
        trim_start(s).len() > 0 ==> !is_space(trim_start(s).first()),
    decreases s.len(),
{
    if s.len() > 0 && is_space(s.first()) {
        let rest = s.drop_first();
        lemma_trim_start_shape(rest);
        assert(rest.skip(rest.len() - trim_start(rest).len()) == s.skip(
            s.len() - trim_start(rest).len(),
        ));
    } else {
        assert(s.skip(0) == s);
    }
}

/// What `trim_end` gives is the beginning of the text, and does not end with
/// white space.
pub proof fn lemma_trim_end_shape(s: Seq<char>)
    ensures
        trim_end(s).len() <= s.len(),
        trim_end(s) == s.take(trim_end(s).len() as int),
        trim_end(s).len() > 0 ==> !is_space(trim_end(s).last()),
    decreases s.len(),
{
    if s.len() > 0 && is_space(s.last()) {
        let rest = s.drop_last();
        lemma_trim_end_shape(rest);
        assert(rest.take(trim_end(rest).len() as int) == s.take(trim_end(rest).len() as int));
    } else {
        assert(s.take(s.len() as int) == s);
    }
}

/// Trimming gives a trimmed text, and brings no line feed into a text without one.
pub proof fn lemma_trim_clean(s: Seq<char>)
    ensures
        is_trimmed(trim(s)),
        one_line(s) ==> one_line(trim(s)),
{
    lemma_trim_start_shape(s);
    lemma_trim_end_shape(trim_start(s));
    let a = trim_start(s);
    let b = trim(s);
    assert(b == a.take(b.len() as int));
    if b.len() > 0 {
        assert(b.first() == a.first());
    }
    if one_line(s) {
        assert forall|i: int| 0 <= i < b.len() implies b[i] != '\n' by {
            assert(b[i] == a[i]);
            assert(a[i] == s[i + s.len() - a.len()]);
        }
    }
}

/// Trimming takes the indentation off a laid-out line.
pub proof fn lemma_trim_of_padded(n: nat, t: Seq<char>)
    requires
        is_trimmed(t),
        t.len() > 0,
    ensures
        trim(spaces(n) + t) == t,
{
    let s = spaces(n) + t;
    assert(s[n as int] == t[0]);
    lemma_trim_start_at(s, n as int);
    assert(s.skip(n as int) == t);
}

/// Where a text without line feed follows, the last piece grows by it.
pub proof fn lemma_pieces_append_plain(a: Seq<char>, r: Seq<char>)
    requires
        one_line(r),
    ensures
        pieces(a + r) == pieces(a).drop_last().push(pieces(a).last() + r),
    decreases r.len(),
{
    lemma_pieces_len(a);
    let p = pieces(a);
    if r.len() == 0 {
        assert(a + r == a);
        assert(p.last() + r == p.last());
        assert(p.drop_last().push(p.last()) == p);
    } else {
        let shorter = r.drop_last();
        lemma_pieces_append_plain(a, shorter);
        assert((a + r).drop_last() == a + shorter);
        assert((a + r).last() == r.last());
        let before = pieces(a + shorter);
        assert(before.drop_last() == p.drop_last());
        assert(before.last().push(r.last()) == p.last() + r);
    }
}

/// No piece of a text holds a line feed.
pub proof fn lemma_pieces_one_line(s: Seq<char>)
    ensures
        forall|i: int| 0 <= i < pieces(s).len() ==> one_line(#[trigger] pieces(s)[i]),
    decreases s.len(),
{
    if s.len() > 0 {
        lemma_pieces_one_line(s.drop_last());
        lemma_pieces_len(s.drop_last());
    }
}

/// Trimming takes white space, and nothing else, from both ends of a text:
/// the text is white space, then what trimming gives, then white space; and
/// what trimming gives neither begins nor ends with white space.
pub proof fn lemma_trim_is_middle(s: Seq<char>)
    ensures
        is_trimmed(trim(s)),
        exists|before: Seq<char>, after: Seq<char>|
            blank(before) && blank(after) && s == before + trim(s) + after,
{
    lemma_trim_clean(s);
    lemma_trim_start_shape(s);
    lemma_trim_end_shape(trim_start(s));
    lemma_trim_start_blank(s);
    lemma_trim_end_blank(trim_start(s));
    let rest = trim_start(s);
    let before = s.take(s.len() - rest.len());
    let after = rest.skip(trim(s).len() as int);
    assert(s =~= before + trim(s) + after);
    assert(blank(before) && blank(after) && s == before + trim(s) + after);
}

/// What `trim_start` takes away is white space.
pub proof fn lemma_trim_start_blank(s: Seq<char>)
    ensures
        trim_start(s).len() <= s.len(),
        blank(s.take(s.len() - trim_start(s).len())),
    decreases s.len(),
{
    if s.len() > 0 && is_space(s.first()) {
        let rest = s.drop_first();
        lemma_trim_start_blank(rest);
        let cut = s.len() - trim_start(s).len();
        assert forall|i: int| 0 <= i < cut implies is_space(#[trigger] s.take(cut)[i]) by {
            if i > 0 {
                assert(s.take(cut)[i] == rest.take(cut - 1)[i - 1]);
            }
        }
    }
}

/// What `trim_end` takes away is white space.
pub proof fn lemma_trim_end_blank(s: Seq<char>)
    ensures
        trim_end(s).len() <= s.len(),
        blank(s.skip(trim_end(s).len() as int)),
    decreases s.len(),
{
    if s.len() > 0 && is_space(s.last()) {
        let rest = s.drop_last();
        lemma_trim_end_blank(rest);
        let kept = trim_end(s).len() as int;
        assert forall|i: int| 0 <= i < s.len() - kept implies is_space(
            #[trigger] s.skip(kept)[i],
        ) by {
            if i < s.len() - kept - 1 {
                assert(s.skip(kept)[i] == rest.skip(kept)[i]);
            }
        }
    }
}

/// The pieces of a text, with a line feed between each two, are the text;
/// there is one piece more than the text has line feeds.
pub proof fn lemma_pieces_rejoin(s: Seq<char>)
    ensures
        padded_block(pieces(s), Seq::empty()) == s,
        pieces(s).len() == count(s, '\n') + 1,
    decreases s.len(),
{
    let none = Seq::<char>::empty();
    if s.len() == 0 {
        assert(none + pieces(s)[0] =~= s);
    } else {
        let head = s.drop_last();
        let before = pieces(head);
        lemma_pieces_rejoin(head);
        lemma_pieces_len(head);
        if s.last() == '\n' {
            let now = before.push(none);
            assert(now.drop_last() == before);
            assert(padded_block(now, none) =~= s);
        } else {
            let grown = before.last().push(s.last());
            let now = before.drop_last().push(grown);
            assert(now.drop_last() == before.drop_last());
            if before.len() == 1 {
                assert(before[0] == before.last());
                assert(padded_block(before, none) == none + before[0]);
                assert(padded_block(now, none) =~= s);
            } else {
                assert(padded_block(before, none) == padded_block(before.drop_last(), none)
                    + seq!['\n'] + none + before.last());
                assert(padded_block(now, none) == padded_block(before.drop_last(), none)
                    + seq!['\n'] + none + grown);
                assert(s =~= head.push(s.last()));
                assert(padded_block(now, none) =~= s);
            }
        }
    }
}

/// The characters of `s` that are not white space, in their order.
pub open spec fn ink(s: Seq<char>) -> Seq<char>
    decreases s.len(),
{
    if s.len() == 0 {
        s
    } else if is_space(s.last()) {
        ink(s.drop_last())
    } else {
        ink(s.drop_last()).push(s.last())
    }
}

/// The ink of the texts `ts`, one behind the other.
pub open spec fn ink_of_all(ts: Seq<Seq<char>>) -> Seq<char>
    decreases ts.len(),
{
    if ts.len() == 0 {
        Seq::empty()
    } else {
        ink_of_all(ts.drop_last()) + ink(ts.last())
    }
}

/// The ink of two texts, one behind the other, is the ink of the one behind
/// the ink of the other.
pub proof fn lemma_ink_add(a: Seq<char>, b: Seq<char>)
    ensures
        ink(a + b) == ink(a) + ink(b),
    decreases b.len(),
{
    if b.len() == 0 {
        assert(a + b == a);
        assert(ink(a) + ink(b) == ink(a));
    } else {
        lemma_ink_add(a, b.drop_last());
        assert((a + b).drop_last() == a + b.drop_last());
        assert((a + b).last() == b.last());
        if !is_space(b.last()) {
            assert((ink(a) + ink(b.drop_last())).push(b.last()) == ink(a) + ink(b));
        }
    }
}

/// A text of white space has no ink.
pub proof fn lemma_ink_of_blank(s: Seq<char>)
    requires
        blank(s),
    ensures
        ink(s).len() == 0,
    decreases s.len(),
{
    if s.len() > 0 {
        assert(is_space(s[s.len() - 1]));
        assert forall|i: int| 0 <= i < s.len() - 1 implies is_space(
            #[trigger] s.drop_last()[i],
        ) by {
            assert(s.drop_last()[i] == s[i]);
        }
        lemma_ink_of_blank(s.drop_last());
    }
}

/// Trimming takes no ink away, at either end or both.
pub proof fn lemma_ink_of_trim(s: Seq<char>)
    ensures
        ink(trim(s)) == ink(s),
        ink(trim_end(s)) == ink(s),
{
    lemma_trim_start_shape(s);
    lemma_trim_start_blank(s);
    lemma_trim_end_blank(trim_start(s));
    lemma_trim_end_shape(trim_start(s));
    let rest = trim_start(s);
    let before = s.take(s.len() - rest.len());
    let after = rest.skip(trim(s).len() as int);
    assert(s =~= before + rest);
    assert(rest =~= trim(s) + after);
    lemma_ink_of_blank(before);
    lemma_ink_of_blank(after);
    lemma_ink_add(before, rest);
    lemma_ink_add(trim(s), after);
    assert(ink(s) =~= ink(trim(s)));
    lemma_trim_end_blank(s);
    lemma_trim_end_shape(s);
    let tail = s.skip(trim_end(s).len() as int);
    assert(s =~= trim_end(s) + tail);
    lemma_ink_of_blank(tail);
    lemma_ink_add(trim_end(s), tail);
    assert(ink(s) =~= ink(trim_end(s)));
}

/// The ink of a text is the ink of its pieces, and of its lines.
pub proof fn lemma_ink_of_pieces(s: Seq<char>)
    ensures
        ink_of_all(pieces(s)) == ink(s),
        ink_of_all(lines(s)) == ink(s),
{
    lemma_ink_of_pieces_only(s);
    lemma_pieces_len(s);
    let parts = pieces(s);
    let ended = parts.drop_last().map_values(|l: Seq<char>| strip_cr(l));
    lemma_ink_of_stripped(parts.drop_last());
    assert(ink_of_all(parts) == ink_of_all(parts.drop_last()) + ink(parts.last()));
    if parts.last().len() == 0 {
        assert(ink_of_all(parts.drop_last()) + ink(parts.last()) == ink_of_all(
            parts.drop_last(),
        ));
    } else {
        assert(ended.push(parts.last()).drop_last() == ended);
    }
}

proof fn lemma_ink_of_pieces_only(s: Seq<char>)
    ensures
        ink_of_all(pieces(s)) == ink(s),
    decreases s.len(),
{
    let none = Seq::<char>::empty();
    if s.len() == 0 {
        assert(pieces(s).drop_last() == Seq::<Seq<char>>::empty());
        assert(ink_of_all(pieces(s)) == ink_of_all(pieces(s).drop_last()) + ink(none));
    } else {
        let head = s.drop_last();
        let before = pieces(head);
        lemma_ink_of_pieces_only(head);
        lemma_pieces_len(head);
        assert(ink_of_all(before) == ink_of_all(before.drop_last()) + ink(before.last()));
        if s.last() == '\n' {
            let now = before.push(none);
            assert(now.drop_last() == before);
            assert(ink_of_all(now) == ink_of_all(before) + ink(none));
            assert(ink_of_all(before) + ink(none) == ink_of_all(before));
        } else {
            let grown = before.last().push(s.last());
            let now = before.drop_last().push(grown);
            assert(now.drop_last() == before.drop_last());
            assert(now.last() == grown);
            assert(grown.drop_last() == before.last());
            assert(ink_of_all(now) == ink_of_all(before.drop_last()) + ink(grown));
            if is_space(s.last()) {
            } else {
                assert(ink_of_all(before.drop_last()) + ink(before.last()).push(s.last()) == (
                ink_of_all(before.drop_last()) + ink(before.last())).push(s.last()));
            }
        }
    }
}

/// A carriage return is no ink.
proof fn lemma_ink_of_stripped(ps: Seq<Seq<char>>)
    ensures
        ink_of_all(ps.map_values(|l: Seq<char>| strip_cr(l))) == ink_of_all(ps),
    decreases ps.len(),
{
    let strip = |l: Seq<char>| strip_cr(l);
    if ps.len() > 0 {
        lemma_ink_of_stripped(ps.drop_last());
        assert(ps.map_values(strip).drop_last() == ps.drop_last().map_values(strip));
        assert(ps.map_values(strip).last() == strip_cr(ps.last()));
    } else {
        assert(ps.map_values(strip) == Seq::<Seq<char>>::empty());
    }
}

/// How often a character that is not white space occurs in a text is how
/// often it occurs in the ink of the text.
pub proof fn lemma_count_in_ink(s: Seq<char>, c: char)
    requires
        !is_space(c),
    ensures
        count(ink(s), c) == count(s, c),
    decreases s.len(),
{
    if s.len() > 0 {
        lemma_count_in_ink(s.drop_last(), c);
        if !is_space(s.last()) {
            assert(ink(s).drop_last() == ink(s.drop_last()));
        }
    }
}

} // verus!
