//! What holds of every text that is laid out and checked: laying it out again
//! changes nothing, and the check fails exactly on unbalanced braces and on
//! statements without their end.

use vstd::prelude::*;
use crate::nginx::config::{
    brace_message, depth_after, first_unterminated, format_text, lacks_terminator, laid_out,
    laid_out_line, line_level, terminator_message, trimmed_lines, validate_text,
};
use crate::text::{
    count, is_trimmed, lemma_pieces_len, lines, pieces, spaces, strip_cr, trim, trim_end,
};
use crate::text_laws::{
    blank, ink, ink_of_all, lemma_count_in_ink, lemma_ink_add, lemma_ink_of_blank,
    lemma_ink_of_pieces, lemma_ink_of_trim, lemma_pieces_append_plain, lemma_pieces_one_line,
    lemma_trim_clean, lemma_trim_of_padded, one_line,
};

verus! {

/// Every line of `ts` is trimmed and holds no line feed.
spec fn clean_lines(ts: Seq<Seq<char>>) -> bool {
    forall|i: int| 0 <= i < ts.len() ==> is_trimmed(#[trigger] ts[i]) && one_line(ts[i])
}

/// The number of lines of `ts` up to its last line that is not blank.
spec fn visible_len(ts: Seq<Seq<char>>) -> nat
    decreases ts.len(),
{
    if ts.len() == 0 {
        0
    } else if ts.last().len() == 0 {
        visible_len(ts.drop_last())
    } else {
        ts.len()
    }
}

/// The laid-out form of each of the trimmed lines `ts`.
spec fn laid_out_rows(ts: Seq<Seq<char>>) -> Seq<Seq<char>> {
    Seq::new(ts.len(), |i: int| laid_out_line(depth_after(ts.take(i)), ts[i]))
}

/// The trimmed lines of any text are trimmed and hold no line feed.
proof fn lemma_trimmed_lines_clean(s: Seq<char>)
    ensures
        clean_lines(trimmed_lines(s)),
{
    let ts = trimmed_lines(s);
    let ls = lines(s);
    lemma_pieces_len(s);
    lemma_pieces_one_line(s);
    assert forall|i: int| 0 <= i < ts.len() implies is_trimmed(#[trigger] ts[i]) && one_line(
        ts[i],
    ) by {
        assert(ts[i] == trim(ls[i]));
        let parts = pieces(s);
        if i < parts.len() - 1 {
            assert(ls[i] == strip_cr(parts[i]));
            assert(one_line(parts[i]));
            assert(one_line(ls[i]));
        } else {
            assert(ls[i] == parts.last());
            assert(one_line(parts[parts.len() - 1]));
        }
        lemma_trim_clean(ls[i]);
    }
}

/// The pieces of a laid-out text are its laid-out lines, and an empty piece
/// behind the last line feed.
proof fn lemma_pieces_of_laid_out(ts: Seq<Seq<char>>)
    requires
        clean_lines(ts),
    ensures
        pieces(laid_out(ts)) == laid_out_rows(ts).push(Seq::empty()),
    decreases ts.len(),
{
    if ts.len() == 0 {
        assert(laid_out_rows(ts).push(Seq::empty()) == seq![Seq::<char>::empty()]);
    } else {
        let head = ts.drop_last();
        assert(clean_lines(head)) by {
            assert forall|i: int| 0 <= i < head.len() implies is_trimmed(#[trigger] head[i])
                && one_line(head[i]) by {
                assert(head[i] == ts[i]);
            }
        }
        lemma_pieces_of_laid_out(head);
        let row = laid_out_line(depth_after(head), ts.last());
        assert(one_line(ts[ts.len() - 1]));
        assert(one_line(row));
        let a = laid_out(head);
        lemma_pieces_append_plain(a, row);
        assert(pieces(a).drop_last() == laid_out_rows(head));
        assert(pieces(a).last() + row == row);
        assert((a + row + seq!['\n']).drop_last() == a + row);
        assert(laid_out_rows(ts) == laid_out_rows(head).push(row)) by {
            assert forall|i: int| 0 <= i < ts.len() implies laid_out_rows(ts)[i]
                == laid_out_rows(head).push(row)[i] by {
                if i < head.len() {
                    assert(head.take(i) == ts.take(i));
                    assert(head[i] == ts[i]);
                } else {
                    assert(ts.take(i) == head);
                }
            }
        }
    }
}

/// Without its trailing white space, a laid-out text ends with its last line
/// that is not blank.
proof fn lemma_trim_end_of_laid_out(ts: Seq<Seq<char>>)
    requires
        clean_lines(ts),
    ensures
        visible_len(ts) <= ts.len(),
        visible_len(ts) == 0 ==> trim_end(laid_out(ts)).len() == 0,
        visible_len(ts) > 0 ==> ts[visible_len(ts) - 1].len() > 0 && trim_end(laid_out(ts))
            == laid_out(ts.take(visible_len(ts) as int)).drop_last(),
    decreases ts.len(),
{
    if ts.len() == 0 {
    } else {
        let head = ts.drop_last();
        let a = laid_out(head);
        let t = ts.last();
        let row = laid_out_line(depth_after(head), t);
        assert(is_trimmed(ts[ts.len() - 1]));
        if t.len() == 0 {
            assert(clean_lines(head)) by {
                assert forall|i: int| 0 <= i < head.len() implies is_trimmed(#[trigger] head[i])
                    && one_line(head[i]) by {
                    assert(head[i] == ts[i]);
                }
            }
            lemma_trim_end_of_laid_out(head);
            assert(laid_out(ts) == a.push('\n'));
            assert(a.push('\n').drop_last() == a);
            assert(trim_end(laid_out(ts)) == trim_end(a));
            let k = visible_len(ts);
            if k > 0 {
                assert(head.take(k as int) == ts.take(k as int));
                assert(head[k - 1] == ts[k - 1]);
            }
        } else {
            let full = laid_out(ts);
            assert(full == (a + row).push('\n'));
            assert(full.drop_last() == a + row);
            assert((a + row).last() == t.last());
            assert(trim_end(a + row) == a + row);
            assert(trim_end(full) == trim_end(a + row));
            assert(ts.take(ts.len() as int) == ts);
        }
    }
}

/// Laying out a laid-out text changes nothing.
pub proof fn lemma_format_idempotent(x: Seq<char>)
    ensures
        format_text(format_text(x)) == format_text(x),
{
    let all = trimmed_lines(x);
    lemma_trimmed_lines_clean(x);
    lemma_trim_end_of_laid_out(all);
    let f = format_text(x);
    let k = visible_len(all);
    if k == 0 {
        assert(f == Seq::<char>::empty());
        assert(pieces(f) == seq![Seq::<char>::empty()]);
        assert(lines(f) == Seq::<Seq<char>>::empty());
        assert(trimmed_lines(f) == Seq::<Seq<char>>::empty());
    } else {
        let ts = all.take(k as int);
        assert(clean_lines(ts)) by {
            assert forall|i: int| 0 <= i < ts.len() implies is_trimmed(#[trigger] ts[i])
                && one_line(ts[i]) by {
                assert(ts[i] == all[i]);
            }
        }
        let whole = laid_out(ts);
        let rows = laid_out_rows(ts);
        // The laid-out text of the visible lines is `f` and one line feed.
        assert(whole.len() > 0 && whole.last() == '\n' && whole.drop_last() == f) by {
            let head = ts.drop_last();
            let row = laid_out_line(depth_after(head), ts.last());
            assert(whole == (laid_out(head) + row).push('\n'));
        }
        lemma_pieces_of_laid_out(ts);
        lemma_pieces_len(f);
        assert(pieces(whole) == pieces(f).push(Seq::empty()));
        assert(pieces(f) == rows) by {
            assert(pieces(f).push(Seq::empty()).drop_last() == pieces(f));
            assert(rows.push(Seq::empty()).drop_last() == rows);
        }
        // Every row is its line behind spaces, so neither a carriage return
        // at its end nor trimming takes anything of the line away.
        assert forall|i: int| 0 <= i < k implies strip_cr(#[trigger] rows[i]) == rows[i] && trim(
            rows[i],
        ) == ts[i] by {
            let t = ts[i];
            let d = depth_after(ts.take(i));
            assert(is_trimmed(t));
            if t.len() > 0 {
                let row = spaces(4 * line_level(d, t)) + t;
                assert(rows[i] == row);
                assert(row.last() == t.last());
                lemma_trim_of_padded(4 * line_level(d, t), t);
            } else {
                assert(rows[i] == t);
            }
        }
        assert(ts[k - 1] == all[k - 1]);
        assert(rows.last().len() > 0) by {
            let t = ts[k - 1];
            let d = depth_after(ts.take(k - 1));
            assert(rows[k - 1] == spaces(4 * line_level(d, t)) + t);
        }
        assert(lines(f) == rows) by {
            let ended = rows.drop_last().map_values(|l: Seq<char>| strip_cr(l));
            assert(ended.push(rows.last()) == rows) by {
                assert forall|i: int| 0 <= i < k implies ended.push(rows.last())[i]
                    == rows[i] by {
                    if i < k - 1 {
                        assert(rows.drop_last()[i] == rows[i]);
                        assert(strip_cr(rows[i]) == rows[i]);
                    }
                }
            }
        }
        assert(trimmed_lines(f) == ts) by {
            assert forall|i: int| 0 <= i < k implies trimmed_lines(f)[i] == ts[i] by {
                assert(trim(rows[i]) == ts[i]);
            }
        }
        lemma_trim_end_of_laid_out(ts);
        assert(visible_len(ts) == k);
        assert(ts.take(k as int) == ts);
    }
}

/// `first_unterminated` finds the first line that lacks its terminator, and
/// finds none exactly where no line does.
pub proof fn lemma_first_unterminated(ts: Seq<Seq<char>>)
    ensures
        match first_unterminated(ts) {
            Some(i) => 0 <= i < ts.len() && lacks_terminator(ts[i]) && forall|j: int|
                0 <= j < i ==> !lacks_terminator(#[trigger] ts[j]),
            None => forall|j: int| 0 <= j < ts.len() ==> !lacks_terminator(#[trigger] ts[j]),
        },
    decreases ts.len(),
{
    if ts.len() > 0 {
        let head = ts.drop_last();
        lemma_first_unterminated(head);
        assert forall|j: int| 0 <= j < head.len() implies head[j] == ts[j] by {}
        match first_unterminated(head) {
            Some(i) => {
                assert(head[i] == ts[i]);
                assert forall|j: int| 0 <= j < i implies !lacks_terminator(#[trigger] ts[j]) by {
                    assert(head[j] == ts[j]);
                }
            },
            None => {
                assert forall|j: int| 0 <= j < ts.len() - 1 implies !lacks_terminator(
                    #[trigger] ts[j],
                ) by {
                    assert(head[j] == ts[j]);
                }
            },
        }
    }
}

/// The check refuses a fragment exactly when the braces of its laid-out text
/// do not balance or one of its lines lacks its terminator; unbalanced braces
/// are reported before anything else, with both counts.
pub proof fn lemma_validate_fails(x: Seq<char>)
    ensures
        validate_text(x) is Err <==> count(format_text(x), '{') != count(format_text(x), '}')
            || exists|i: int|
            0 <= i < trimmed_lines(format_text(x)).len() && lacks_terminator(
                #[trigger] trimmed_lines(format_text(x))[i],
            ),
        validate_text(x) is Ok ==> validate_text(x) == Ok::<Seq<char>, Seq<char>>(format_text(x)),
        count(format_text(x), '{') != count(format_text(x), '}') ==> validate_text(x) == Err::<
            Seq<char>,
            Seq<char>,
        >(brace_message(count(format_text(x), '{'), count(format_text(x), '}'))),
{
    lemma_first_unterminated(trimmed_lines(format_text(x)));
}

/// Among the fragments none of whose lines lacks its terminator, and among
/// those whose braces do not balance, the check fails if and only if the
/// numbers of opening and closing braces differ, in the laid-out text or,
/// which is the same, in the fragment.
pub proof fn lemma_brace_balance(x: Seq<char>)
    requires
        count(format_text(x), '{') != count(format_text(x), '}') || forall|i: int|
            0 <= i < trimmed_lines(format_text(x)).len() ==> !lacks_terminator(
                #[trigger] trimmed_lines(format_text(x))[i],
            ),
    ensures
        validate_text(x) is Err <==> count(format_text(x), '{') != count(format_text(x), '}'),
        validate_text(x) is Err <==> count(x, '{') != count(x, '}'),
{
    lemma_validate_fails(x);
    lemma_format_keeps_ink(x);
}

/// Where the braces balance, the check reports the first line of the
/// laid-out text that lacks its terminator, by its number counted from one
/// and its trimmed text; lines before it, and lines that end a statement or
/// open a block, are not reported.
pub proof fn lemma_terminator_rule(x: Seq<char>, i: int)
    requires
        count(format_text(x), '{') == count(format_text(x), '}'),
        0 <= i < trimmed_lines(format_text(x)).len(),
        lacks_terminator(trimmed_lines(format_text(x))[i]),
        forall|j: int| 0 <= j < i ==> !lacks_terminator(#[trigger] trimmed_lines(format_text(x))[j]),
    ensures
        validate_text(x) == Err::<Seq<char>, Seq<char>>(
            terminator_message((i + 1) as nat, trimmed_lines(format_text(x))[i]),
        ),
{
    lemma_first_unterminated(trimmed_lines(format_text(x)));
}

/// The check says of a laid-out fragment what it says of the fragment: a
/// text that has passed passes again, unchanged.
pub proof fn lemma_validate_stable(x: Seq<char>)
    ensures
        validate_text(format_text(x)) == validate_text(x),
{
    lemma_format_idempotent(x);
}

proof fn lemma_ink_of_laid_out(ts: Seq<Seq<char>>)
    ensures
        ink(laid_out(ts)) == ink_of_all(ts),
    decreases ts.len(),
{
    if ts.len() > 0 {
        let head = ts.drop_last();
        let t = ts.last();
        let d = depth_after(head);
        let row = laid_out_line(d, t);
        lemma_ink_of_laid_out(head);
        lemma_ink_add(laid_out(head), row);
        lemma_ink_add(laid_out(head) + row, seq!['\n']);
        assert(ink(seq!['\n']).len() == 0) by {
            assert(blank(seq!['\n']));
            lemma_ink_of_blank(seq!['\n']);
        }
        assert(ink(row) == ink(t)) by {
            if t.len() > 0 {
                let pad = spaces(4 * line_level(d, t));
                assert(blank(pad));
                lemma_ink_of_blank(pad);
                lemma_ink_add(pad, t);
                assert(ink(pad) + ink(t) == ink(t));
            }
        }
        assert(ink(laid_out(head)) + ink(row) + ink(seq!['\n']) == ink(laid_out(head)) + ink(
            row,
        ));
    }
}

proof fn lemma_ink_of_trimmed(ls: Seq<Seq<char>>)
    ensures
        ink_of_all(ls.map_values(|l: Seq<char>| trim(l))) == ink_of_all(ls),
    decreases ls.len(),
{
    let cut = |l: Seq<char>| trim(l);
    if ls.len() > 0 {
        lemma_ink_of_trimmed(ls.drop_last());
        lemma_ink_of_trim(ls.last());
        assert(ls.map_values(cut).drop_last() == ls.drop_last().map_values(cut));
        assert(ls.map_values(cut).last() == trim(ls.last()));
    } else {
        assert(ls.map_values(cut) == Seq::<Seq<char>>::empty());
    }
}

/// Laying out touches nothing but white space: the characters of the
/// laid-out text that are not white space are those of the text, in their
/// order. So the laid-out text has the braces of the text, and as many of
/// each kind.
pub proof fn lemma_format_keeps_ink(x: Seq<char>)
    ensures
        ink(format_text(x)) == ink(x),
        count(format_text(x), '{') == count(x, '{'),
        count(format_text(x), '}') == count(x, '}'),
{
    let ts = trimmed_lines(x);
    lemma_ink_of_trim(laid_out(ts));
    lemma_ink_of_laid_out(ts);
    lemma_ink_of_trimmed(lines(x));
    lemma_ink_of_pieces(x);
    lemma_count_in_ink(x, '{');
    lemma_count_in_ink(x, '}');
    lemma_count_in_ink(format_text(x), '{');
    lemma_count_in_ink(format_text(x), '}');
}

} // verus!
