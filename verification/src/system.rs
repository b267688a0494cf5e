//! The system module's reading of the service manager's unit listing:
//! which units a status table reports as failed.
//!
//! The table arrives as text: a heading line, one line per unit, and a
//! blank line before trailing chatter.  A unit counts as failed when the
//! fourth column of its line says so; its name stands in the second
//! column.

use vstd::prelude::*;

use crate::text::str_eq;

verus! {

/// Whether `c` separates columns: the ASCII whitespace characters.
pub open spec fn is_ascii_ws(c: char) -> bool {
    c == ' ' || c == '\t' || c == '\n' || c == '\r' || c == '\u{c}'
}

/// The position of the first line break in `s`, or `s.len()`.
pub open spec fn nl_index(s: Seq<char>) -> int
    decreases s.len(),
{
    if s.len() == 0 {
        0
    } else if s[0] == '\n' {
        0
    } else {
        1 + nl_index(s.drop_first())
    }
}

/// The length of the leading run of non-whitespace characters of `s`.
pub open spec fn nonws_end(s: Seq<char>) -> int
    decreases s.len(),
{
    if s.len() == 0 {
        0
    } else if is_ascii_ws(s[0]) {
        0
    } else {
        1 + nonws_end(s.drop_first())
    }
}

/// `s` split at line breaks; empty pieces stay, so there is always at
/// least one piece.
pub open spec fn split_lines(s: Seq<char>) -> Seq<Seq<char>>
    decreases s.len(),
{
    let k = nl_index(s);
    if 0 <= k < s.len() {
        seq![s.subrange(0, k)] + split_lines(s.subrange(k + 1, s.len() as int))
    } else {
        seq![s]
    }
}

proof fn lemma_nonws_end_bounds(s: Seq<char>)
    ensures
        0 <= nonws_end(s) <= s.len(),
    decreases s.len(),
{
    if s.len() > 0 && !is_ascii_ws(s[0]) {
        lemma_nonws_end_bounds(s.drop_first());
    }
}

/// The whitespace-separated words of `s`, in order, without empties.
pub open spec fn tokens(s: Seq<char>) -> Seq<Seq<char>>
    decreases s.len(),
    via tokens_decreases
{
    if s.len() == 0 {
        Seq::empty()
    } else if is_ascii_ws(s[0]) {
        tokens(s.drop_first())
    } else {
        let e = nonws_end(s);
        seq![s.subrange(0, e)] + if e < s.len() {
            tokens(s.subrange(e, s.len() as int))
        } else {
            Seq::empty()
        }
    }
}

#[via_fn]
proof fn tokens_decreases(s: Seq<char>) {
    lemma_nonws_end_bounds(s);
    if s.len() > 0 && !is_ascii_ws(s[0]) {
        lemma_nonws_end_bounds(s.drop_first());
    }
}

/// The leading stretch of non-blank lines.
pub open spec fn take_nonempty(ls: Seq<Seq<char>>) -> Seq<Seq<char>>
    decreases ls.len(),
{
    if ls.len() == 0 || ls[0].len() == 0 {
        Seq::empty()
    } else {
        seq![ls[0]] + take_nonempty(ls.drop_first())
    }
}

/// The unit name a table line contributes: its second word, when its
/// fourth word reads "failed".
pub open spec fn row_unit(row: Seq<char>) -> Option<Seq<char>> {
    let ts = tokens(row);
    if ts.len() >= 4 && ts[3] == "failed"@ {
        Some(ts[1])
    } else {
        None
    }
}

/// The unit names contributed by the lines of `ls`, in order.
pub open spec fn collect_units(ls: Seq<Seq<char>>) -> Seq<Seq<char>>
    decreases ls.len(),
{
    if ls.len() == 0 {
        Seq::empty()
    } else {
        collect_units(ls.drop_last()) + match row_unit(ls.last()) {
            Some(u) => seq![u],
            None => Seq::<Seq<char>>::empty(),
        }
    }
}

/// The failed units of a unit listing: what the table lines after the
/// heading and before the first blank line report as failed.
pub open spec fn spec_failed_units(s: Seq<char>) -> Seq<Seq<char>> {
    collect_units(take_nonempty(split_lines(s).drop_first()))
}

proof fn lemma_nl_index_at(s: Seq<char>, k: int)
    requires
        0 <= k <= s.len(),
        forall|j: int| 0 <= j < k ==> s[j] != '\n',
        k == s.len() || s[k] == '\n',
    ensures
        nl_index(s) == k,
    decreases s.len(),
{
    if k == 0 {
        if s.len() > 0 {
            assert(s[0] == '\n');
        }
    } else {
        let t = s.drop_first();
        assert(forall|j: int| 0 <= j < k - 1 ==> t[j] != '\n');
        assert(k - 1 == t.len() || t[k - 1] == '\n');
        lemma_nl_index_at(t, k - 1);
    }
}

proof fn lemma_nonws_end_at(s: Seq<char>, k: int)
    requires
        0 <= k <= s.len(),
        forall|j: int| 0 <= j < k ==> !is_ascii_ws(s[j]),
        k == s.len() || is_ascii_ws(s[k]),
    ensures
        nonws_end(s) == k,
    decreases s.len(),
{
    if k == 0 {
        if s.len() > 0 {
            assert(is_ascii_ws(s[0]));
        }
    } else {
        let t = s.drop_first();
        assert(forall|j: int| 0 <= j < k - 1 ==> !is_ascii_ws(t[j]));
        assert(k - 1 == t.len() || is_ascii_ws(t[k - 1]));
        lemma_nonws_end_at(t, k - 1);
    }
}

proof fn lemma_take_nonempty_prefix(ls: Seq<Seq<char>>, k: int)
    requires
        0 <= k <= ls.len(),
        forall|j: int| 0 <= j < k ==> (#[trigger] ls[j]).len() > 0,
        k == ls.len() || ls[k].len() == 0,
    ensures
        take_nonempty(ls) == ls.subrange(0, k),
    decreases ls.len(),
{
    if k == 0 {
        assert(take_nonempty(ls) =~= ls.subrange(0, 0));
    } else {
        let t = ls.drop_first();
        assert(forall|j: int| 0 <= j < k - 1 ==> (#[trigger] t[j]).len() > 0);
        assert(k - 1 == t.len() || t[k - 1].len() == 0);
        lemma_take_nonempty_prefix(t, k - 1);
        assert(seq![ls[0]] + t.subrange(0, k - 1) =~= ls.subrange(0, k));
    }
}

/// Whether `c` separates columns.
fn is_ws(c: char) -> (b: bool)
    ensures
        b == is_ascii_ws(c),
{
    c == ' ' || c == '\t' || c == '\n' || c == '\r' || c == '\u{c}'
}

/// `s` split at line breaks, empty pieces kept.
fn split_lines_exec(s: &str) -> (lines: Vec<String>)
    ensures
        lines.deep_view() == split_lines(s@),
{
    let n = s.unicode_len();
    let mut lines: Vec<String> = Vec::new();
    let mut seg_start: usize = 0;
    let mut pos: usize = 0;
    proof {
        assert(s@.subrange(0, n as int) =~= s@);
        assert(lines.deep_view() =~= Seq::<Seq<char>>::empty());
        assert(Seq::<Seq<char>>::empty() + split_lines(s@) =~= split_lines(s@));
    }
    while pos < n
        invariant
            seg_start <= pos <= n,
            n == s@.len(),
            forall|j: int| seg_start <= j < pos ==> s@[j] != '\n',
            split_lines(s@) == lines.deep_view() + split_lines(
                s@.subrange(seg_start as int, n as int),
            ),
        decreases n - pos,
    {
        if s.get_char(pos) == '\n' {
            let piece = s.substring_char(seg_start, pos);
            proof {
                let rest = s@.subrange(seg_start as int, n as int);
                assert(forall|j: int|
                    0 <= j < pos - seg_start ==> rest[j] != '\n' && rest[j] == s@[
                    seg_start + j]);
                lemma_nl_index_at(rest, pos - seg_start);
                assert(rest.subrange(0, pos - seg_start) =~= s@.subrange(
                    seg_start as int,
                    pos as int,
                ));
                assert(rest.subrange(pos - seg_start + 1, rest.len() as int) =~= s@.subrange(
                    pos as int + 1,
                    n as int,
                ));
            }
            lines.push(piece.to_owned());
            proof {
                assert(lines.deep_view() =~= lines.deep_view().drop_last().push(
                    s@.subrange(seg_start as int, pos as int),
                ));
                assert(lines.deep_view().drop_last() + (seq![
                    s@.subrange(seg_start as int, pos as int),
                ] + split_lines(s@.subrange(pos as int + 1, n as int))) =~= lines.deep_view()
                    + split_lines(s@.subrange(pos as int + 1, n as int)));
            }
            pos = pos + 1;
            seg_start = pos;
        } else {
            pos = pos + 1;
        }
    }
    let piece = s.substring_char(seg_start, n);
    proof {
        let rest = s@.subrange(seg_start as int, n as int);
        assert(forall|j: int| 0 <= j < rest.len() ==> rest[j] != '\n' && rest[j] == s@[
        seg_start + j]);
        lemma_nl_index_at(rest, rest.len() as int);
        assert(rest.subrange(0, rest.len() as int) =~= rest);
    }
    lines.push(piece.to_owned());
    proof {
        assert(lines.deep_view() =~= lines.deep_view().drop_last() + seq![
            s@.subrange(seg_start as int, n as int),
        ]);
    }
    lines
}

/// The whitespace-separated words of `s`.
fn tokens_exec(s: &str) -> (words: Vec<String>)
    ensures
        words.deep_view() == tokens(s@),
{
    let n = s.unicode_len();
    let mut words: Vec<String> = Vec::new();
    let mut pos: usize = 0;
    proof {
        assert(s@.subrange(0, n as int) =~= s@);
        assert(words.deep_view() =~= Seq::<Seq<char>>::empty());
        assert(Seq::<Seq<char>>::empty() + tokens(s@) =~= tokens(s@));
    }
    while pos < n
        invariant
            pos <= n,
            n == s@.len(),
            tokens(s@) == words.deep_view() + tokens(s@.subrange(pos as int, n as int)),
        decreases n - pos,
    {
        if is_ws(s.get_char(pos)) {
            proof {
                let rest = s@.subrange(pos as int, n as int);
                assert(rest.drop_first() =~= s@.subrange(pos as int + 1, n as int));
            }
            pos = pos + 1;
        } else {
            let word_start = pos;
            let mut word_end = pos + 1;
            while word_end < n && !is_ws(s.get_char(word_end))
                invariant
                    word_start < word_end <= n,
                    n == s@.len(),
                    forall|j: int| word_start <= j < word_end ==> !is_ascii_ws(s@[j]),
                decreases n - word_end,
            {
                word_end = word_end + 1;
            }
            let word = s.substring_char(word_start, word_end);
            proof {
                let rest = s@.subrange(word_start as int, n as int);
                assert(forall|j: int|
                    0 <= j < word_end - word_start ==> !is_ascii_ws(rest[j]) && rest[j] == s@[
                    word_start + j]);
                lemma_nonws_end_at(rest, word_end - word_start);
                assert(rest.subrange(0, word_end - word_start) =~= s@.subrange(
                    word_start as int,
                    word_end as int,
                ));
                assert(rest.subrange(word_end - word_start, rest.len() as int) =~= s@.subrange(
                    word_end as int,
                    n as int,
                ));
            }
            words.push(word.to_owned());
            proof {
                assert(words.deep_view() =~= words.deep_view().drop_last().push(
                    s@.subrange(word_start as int, word_end as int),
                ));
                let tail = if word_end < n {
                    tokens(s@.subrange(word_end as int, n as int))
                } else {
                    Seq::<Seq<char>>::empty()
                };
                assert(words.deep_view().drop_last() + (seq![
                    s@.subrange(word_start as int, word_end as int),
                ] + tail) =~= words.deep_view() + tail);
                if word_end == n {
                    assert(tokens(s@.subrange(word_end as int, n as int)) =~= Seq::<
                        Seq<char>,
                    >::empty());
                }
            }
            pos = word_end;
        }
    }
    proof {
        assert(tokens(s@.subrange(n as int, n as int)) =~= Seq::<Seq<char>>::empty());
    }
    words
}

/// The failed units of the service manager's unit listing: the table
/// lines after the heading line and before the first blank line whose
/// fourth column reads "failed", each contributing the unit name in its
/// second column.
pub fn failed_units(output: &str) -> (units: Vec<String>)
    ensures
        units.deep_view() == spec_failed_units(output@),
{
    let lines = split_lines_exec(output);
    let ghost rows = split_lines(output@).drop_first();
    let mut units: Vec<String> = Vec::new();
    let mut r: usize = 1;
    let total = lines.len();
    proof {
        assert(rows.subrange(0, 0) =~= Seq::<Seq<char>>::empty());
    }
    while r < total && !lines[r].as_str().is_empty()
        invariant
            1 <= r <= total,
            total == lines@.len(),
            lines.deep_view() == split_lines(output@),
            rows == split_lines(output@).drop_first(),
            rows.len() == total - 1,
            forall|j: int| 0 <= j < r - 1 ==> (#[trigger] rows[j]).len() > 0,
            units.deep_view() == collect_units(rows.subrange(0, r - 1)),
        decreases total - r,
    {
        let row = &lines[r];
        proof {
            assert(rows[r - 1] == lines.deep_view()[r as int]);
            assert(rows[r - 1].len() > 0);
        }
        let words = tokens_exec(row.as_str());
        if words.len() >= 4 && str_eq(words[3].as_str(), "failed") {
            units.push(words[1].clone());
            proof {
                assert(row_unit(rows[r - 1]) == Some(words.deep_view()[1]));
                assert(units.deep_view() =~= units.deep_view().drop_last().push(
                    words.deep_view()[1],
                ));
            }
        } else {
            proof {
                assert(row_unit(rows[r - 1]) is None);
            }
        }
        proof {
            assert(rows.subrange(0, r as int).drop_last() =~= rows.subrange(0, r - 1));
            assert(rows.subrange(0, r as int).last() == rows[r - 1]);
            assert(units.deep_view() =~= collect_units(rows.subrange(0, r as int)));
        }
        r = r + 1;
    }
    proof {
        if r < total {
            assert(rows[r - 1] == lines.deep_view()[r as int]);
            assert(rows[r - 1].len() == 0);
        }
        lemma_take_nonempty_prefix(rows, r - 1);
    }
    units
}

} // verus!
