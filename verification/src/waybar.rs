//! The status-bar line format, and the column layout used for tooltip
//! tables: rows of cells padded to shared column widths under a bold
//! heading line.

use vstd::prelude::*;
use vstd::string::StringExecFns;
use vstd::slice::slice_index_get;

use crate::text::{push_spaces, spaces};

verus! {

/// One status-bar line: the text shown, a tooltip, and styling classes.
/// The host bar consumes it serialized as a flat JSON object; the
/// serialization itself happens outside the library.
pub struct WaybarResponse {
    /// Text shown in the bar.
    pub text: String,
    /// Tooltip shown on hover.
    pub tooltip: String,
    /// Styling class names, usually severity labels.
    pub class: Vec<String>,
}

/// `w` widened to cell `i` of `row`, where the row has such a cell.
pub open spec fn bump(w: int, row: Seq<Seq<char>>, i: int) -> int {
    if 0 <= i < row.len() && row[i].len() > w {
        row[i].len() as int
    } else {
        w
    }
}

/// Width `w` widened across column `i` of every row in turn.
pub open spec fn col_width_from(w: int, rows: Seq<Seq<Seq<char>>>, i: int) -> int
    decreases rows.len(),
{
    if rows.len() == 0 {
        w
    } else {
        bump(col_width_from(w, rows.drop_last(), i), rows.last(), i)
    }
}

/// The width of column `i`: its heading's length widened by every row
/// that has a cell in that column.
pub open spec fn col_width(headings: Seq<Seq<char>>, rows: Seq<Seq<Seq<char>>>, i: int) -> int {
    col_width_from(headings[i].len() as int, rows, i)
}

/// `s` padded on the right with spaces to width `w`; a longer cell stays
/// as it is.
pub open spec fn spec_pad(s: Seq<char>, w: int) -> Seq<char> {
    if s.len() >= w {
        s
    } else {
        s + spaces((w - s.len()) as nat)
    }
}

/// A heading cell: padded like any cell, wrapped in bold markup.
pub open spec fn heading_cell(h: Seq<char>, w: int) -> Seq<char> {
    "<b>"@ + spec_pad(h, w) + "</b>"@
}

/// The pieces of `cells` joined with `sep` between them.
pub open spec fn join(cells: Seq<Seq<char>>, sep: Seq<char>) -> Seq<char>
    decreases cells.len(),
{
    if cells.len() == 0 {
        Seq::empty()
    } else if cells.len() == 1 {
        cells[0]
    } else {
        join(cells.drop_last(), sep) + sep + cells.last()
    }
}

/// One table row: its cells padded to the column widths and joined with
/// four spaces.
pub open spec fn row_line(row: Seq<Seq<char>>, widths: Seq<int>) -> Seq<char> {
    join(Seq::new(row.len(), |j: int| spec_pad(row[j], widths[j])), spaces(4))
}

/// The heading row: bold cells joined with four spaces.
pub open spec fn heading_line(headings: Seq<Seq<char>>, widths: Seq<int>) -> Seq<char> {
    join(Seq::new(headings.len(), |j: int| heading_cell(headings[j], widths[j])), spaces(4))
}

/// The whole table: the heading line, then one line per row, newline
/// separated, all cells padded to the width of the widest entry of their
/// column.
pub open spec fn spec_columnize(headings: Seq<Seq<char>>, rows: Seq<Seq<Seq<char>>>) -> Seq<char> {
    let widths = Seq::new(headings.len(), |i: int| col_width(headings, rows, i));
    let lines = Seq::new(
        rows.len() + 1,
        |k: int|
            if k == 0 {
                heading_line(headings, widths)
            } else {
                row_line(rows[k - 1], widths)
            },
    );
    join(lines, seq!['\n'])
}

/// The widths as stored in the executable vector, as mathematical
/// integers.
pub open spec fn widths_int(ws: Seq<usize>) -> Seq<int> {
    ws.map_values(|w: usize| w as int)
}

/// Column widths for `output` under `column_heading`.
fn compute_widths(output: &[Vec<String>], column_heading: &[String]) -> (widths: Vec<usize>)
    requires
        forall|k: int|
            0 <= k < output@.len() ==> (#[trigger] output@[k])@.len() <= column_heading@.len(),
    ensures
        widths@.len() == column_heading@.len(),
        forall|i: int|
            0 <= i < widths@.len() ==> widths@[i] as int == col_width(
                column_heading.deep_view(),
                output.deep_view(),
                i,
            ),
{
    let hn = column_heading.len();
    let mut widths: Vec<usize> = Vec::new();
    let mut j: usize = 0;
    while j < hn
        invariant
            j <= hn,
            hn == column_heading@.len(),
            widths@.len() == j,
            forall|t: int|
                0 <= t < j ==> widths@[t] as int == column_heading.deep_view()[t].len(),
        decreases hn - j,
    {
        widths.push(slice_index_get(column_heading, j).as_str().unicode_len());
        j = j + 1;
    }
    let rn = output.len();
    let mut r: usize = 0;
    while r < rn
        invariant
            r <= rn,
            rn == output@.len(),
            hn == column_heading@.len(),
            widths@.len() == hn,
            forall|k: int|
                0 <= k < output@.len() ==> (#[trigger] output@[k])@.len() <= column_heading@.len(),
            forall|i: int|
                0 <= i < hn ==> widths@[i] as int == col_width_from(
                    column_heading.deep_view()[i].len() as int,
                    output.deep_view().subrange(0, r as int),
                    i,
                ),
        decreases rn - r,
    {
        let row = slice_index_get(output, r);
        let ghost w0 = widths@;
        let ghost row_view = output.deep_view()[r as int];
        let m = row.len();
        proof {
            assert(output@[r as int]@.len() <= hn);
        }
        let mut i: usize = 0;
        while i < m
            invariant
                i <= m,
                m == row@.len(),
                row_view == row.deep_view(),
                row_view.len() == m,
                widths@.len() == w0.len(),
                m <= w0.len(),
                forall|t: int| 0 <= t < i ==> widths@[t] as int == bump(w0[t] as int, row_view, t),
                forall|t: int| i <= t < w0.len() ==> widths@[t] == w0[t],
            decreases m - i,
        {
            let cell_len = slice_index_get(row.as_slice(), i).as_str().unicode_len();
            if cell_len > widths[i] {
                widths.set(i, cell_len);
            }
            i = i + 1;
        }
        proof {
            let prefix1 = output.deep_view().subrange(0, r as int + 1);
            assert(prefix1.drop_last() =~= output.deep_view().subrange(0, r as int));
            assert(prefix1.last() == row_view);
            assert forall|t: int| 0 <= t < hn implies widths@[t] as int == col_width_from(
                column_heading.deep_view()[t].len() as int,
                prefix1,
                t,
            ) by {
                if t >= m {
                    assert(widths@[t] == w0[t]);
                }
            };
        }
        r = r + 1;
    }
    proof {
        assert(output.deep_view().subrange(0, rn as int) =~= output.deep_view());
    }
    widths
}

/// Append `cell` padded to width `w`.
fn append_padded(out: &mut String, cell: &String, w: usize)
    ensures
        final(out)@ == old(out)@ + spec_pad(cell@, w as int),
{
    out.append(cell.as_str());
    let len = cell.as_str().unicode_len();
    if len < w {
        push_spaces(out, w - len);
    }
    proof {
        assert(final(out)@ =~= old(out)@ + spec_pad(cell@, w as int));
    }
}

/// Append the four-space column separator.
fn append_sep(out: &mut String)
    ensures
        final(out)@ == old(out)@ + spaces(4),
{
    out.append("    ");
    proof {
        reveal_strlit("    ");
        assert(final(out)@ =~= old(out)@ + spaces(4));
    }
}

/// Append one table row, cells padded and joined with the separator.
fn append_row_line(out: &mut String, row: &Vec<String>, widths: &Vec<usize>)
    requires
        row@.len() <= widths@.len(),
    ensures
        final(out)@ == old(out)@ + row_line(row.deep_view(), widths_int(widths@)),
{
    let ghost cells = Seq::new(
        row.deep_view().len(),
        |j: int| spec_pad(row.deep_view()[j], widths_int(widths@)[j]),
    );
    let n = row.len();
    let mut j: usize = 0;
    while j < n
        invariant
            j <= n,
            n == row@.len(),
            n <= widths@.len(),
            cells == Seq::new(
                row.deep_view().len(),
                |t: int| spec_pad(row.deep_view()[t], widths_int(widths@)[t]),
            ),
            cells.len() == n,
            out@ == old(out)@ + join(cells.subrange(0, j as int), spaces(4)),
        decreases n - j,
    {
        if j > 0 {
            append_sep(out);
        }
        append_padded(out, slice_index_get(row.as_slice(), j), widths[j]);
        proof {
            assert(cells.subrange(0, j as int + 1).drop_last() =~= cells.subrange(0, j as int));
            assert(cells.subrange(0, j as int + 1).last() == cells[j as int]);
            assert(out@ =~= old(out)@ + join(cells.subrange(0, j as int + 1), spaces(4)));
        }
        j = j + 1;
    }
    proof {
        assert(cells.subrange(0, n as int) =~= cells);
    }
}

/// Append the heading row: each heading padded and wrapped in bold
/// markup, joined with the separator.
fn append_heading_line(out: &mut String, column_heading: &[String], widths: &Vec<usize>)
    requires
        column_heading@.len() == widths@.len(),
    ensures
        final(out)@ == old(out)@ + heading_line(column_heading.deep_view(), widths_int(widths@)),
{
    let ghost cells = Seq::new(
        column_heading.deep_view().len(),
        |j: int| heading_cell(column_heading.deep_view()[j], widths_int(widths@)[j]),
    );
    let n = column_heading.len();
    let mut j: usize = 0;
    while j < n
        invariant
            j <= n,
            n == column_heading@.len(),
            n == widths@.len(),
            cells == Seq::new(
                column_heading.deep_view().len(),
                |t: int| heading_cell(column_heading.deep_view()[t], widths_int(widths@)[t]),
            ),
            cells.len() == n,
            out@ == old(out)@ + join(cells.subrange(0, j as int), spaces(4)),
        decreases n - j,
    {
        if j > 0 {
            append_sep(out);
        }
        out.append("<b>");
        append_padded(out, slice_index_get(column_heading, j), widths[j]);
        out.append("</b>");
        proof {
            assert(cells.subrange(0, j as int + 1).drop_last() =~= cells.subrange(0, j as int));
            assert(cells.subrange(0, j as int + 1).last() == cells[j as int]);
            assert(out@ =~= old(out)@ + join(cells.subrange(0, j as int + 1), spaces(4)));
        }
        j = j + 1;
    }
    proof {
        assert(cells.subrange(0, n as int) =~= cells);
    }
}

/// Lay `output` out as a text table under `column_heading`: every cell
/// padded to its column's width, columns four spaces apart, the heading
/// in bold markup, lines newline separated.  Rows must not be wider than
/// the heading row.
pub fn columnize_output(output: &[Vec<String>], column_heading: &[String]) -> (r: String)
    requires
        forall|k: int|
            0 <= k < output@.len() ==> (#[trigger] output@[k])@.len() <= column_heading@.len(),
    ensures
        r@ == spec_columnize(column_heading.deep_view(), output.deep_view()),
{
    let widths = compute_widths(output, column_heading);
    let ghost spec_widths = Seq::new(
        column_heading.deep_view().len(),
        |i: int| col_width(column_heading.deep_view(), output.deep_view(), i),
    );
    proof {
        assert(widths_int(widths@) =~= spec_widths);
    }
    let ghost lines = Seq::new(
        output.deep_view().len() + 1,
        |k: int|
            if k == 0 {
                heading_line(column_heading.deep_view(), spec_widths)
            } else {
                row_line(output.deep_view()[k - 1], spec_widths)
            },
    );
    let mut out = String::new();
    append_heading_line(&mut out, column_heading, &widths);
    proof {
        assert(lines.subrange(0, 1) =~= seq![lines[0]]);
        assert(out@ =~= join(lines.subrange(0, 1), seq!['\n']));
    }
    let rn = output.len();
    let mut r: usize = 0;
    while r < rn
        invariant
            r <= rn,
            rn == output@.len(),
            widths@.len() == column_heading@.len(),
            forall|k: int|
                0 <= k < output@.len() ==> (#[trigger] output@[k])@.len() <= column_heading@.len(),
            widths_int(widths@) == spec_widths,
            lines == Seq::new(
                output.deep_view().len() + 1,
                |k: int|
                    if k == 0 {
                        heading_line(column_heading.deep_view(), spec_widths)
                    } else {
                        row_line(output.deep_view()[k - 1], spec_widths)
                    },
            ),
            lines.len() == rn + 1,
            out@ == join(lines.subrange(0, r as int + 1), seq!['\n']),
        decreases rn - r,
    {
        out.append("\n");
        append_row_line(&mut out, slice_index_get(output, r), &widths);
        proof {
            reveal_strlit("\n");
            assert(lines.subrange(0, r as int + 2).drop_last() =~= lines.subrange(0, r as int + 1));
            assert(lines.subrange(0, r as int + 2).last() == lines[r as int + 1]);
            assert(out@ =~= join(lines.subrange(0, r as int + 2), seq!['\n']));
        }
        r = r + 1;
    }
    proof {
        assert(lines.subrange(0, rn as int + 1) =~= lines);
    }
    out
}

} // verus!
