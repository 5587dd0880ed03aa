//! Table layout: rows of cell texts become aligned, padded lines with a
//! dashed separator under the header.

use vstd::prelude::*;
use crate::style::{lines_view, span, Color, LineModel, Modifiers, Style, StyledLine, StyledSpan};
use crate::text::{pad_right, push_repeat, repeat};

verus! {

/// A table row: the texts of its cells.
pub type RowModel = Seq<Seq<char>>;

/// The model of a row of cell strings.
pub open spec fn row_view(r: Seq<String>) -> RowModel {
    r.map_values(|s: String| s@)
}

/// The model of a sequence of rows.
pub open spec fn rows_view(rows: Seq<Vec<String>>) -> Seq<RowModel> {
    rows.map_values(|r: Vec<String>| row_view(r@))
}

/// The number of columns: the length of the longest row.
pub open spec fn column_count(rows: Seq<RowModel>) -> nat
    decreases rows.len(),
{
    if rows.len() == 0 {
        0
    } else {
        let m = column_count(rows.drop_last());
        if rows.last().len() > m { rows.last().len() } else { m }
    }
}

/// The text of column `c` in `row`; empty where the row is shorter.
pub open spec fn cell_at(row: RowModel, c: int) -> Seq<char> {
    if 0 <= c < row.len() { row[c] } else { Seq::<char>::empty() }
}

/// The width of column `c`: the longest cell text in it, in characters.
pub open spec fn column_width(rows: Seq<RowModel>, c: int) -> nat
    decreases rows.len(),
{
    if rows.len() == 0 {
        0
    } else {
        let m = column_width(rows.drop_last(), c);
        let l = cell_at(rows.last(), c).len();
        if l > m { l } else { m }
    }
}

pub open spec fn column_bar() -> Seq<char> {
    seq![' ', '|', ' ']
}

pub open spec fn separator_joint() -> Seq<char> {
    seq!['-', '+', '-']
}

/// The first `k` columns of `row`, each padded to its width, joined by `" | "`.
pub open spec fn row_text(row: RowModel, rows: Seq<RowModel>, k: nat) -> Seq<char>
    decreases k,
{
    if k == 0 {
        Seq::<char>::empty()
    } else {
        let c = k - 1;
        row_text(row, rows, c as nat) + (if k > 1 { column_bar() } else { Seq::<char>::empty() })
            + pad_right(cell_at(row, c), column_width(rows, c))
    }
}

/// The separator under the header for the first `k` columns: dashes as wide as
/// each column (at least one), joined by `"-+-"`.
pub open spec fn separator_text(rows: Seq<RowModel>, k: nat) -> Seq<char>
    decreases k,
{
    if k == 0 {
        Seq::<char>::empty()
    } else {
        let c = k - 1;
        let w = column_width(rows, c);
        separator_text(rows, c as nat) + (if k > 1 { separator_joint() } else { Seq::<char>::empty() })
            + repeat('-', if w > 1 { w } else { 1 })
    }
}

pub open spec fn header_style(base: Style) -> Style {
    base.with_fg_spec(Color::Cyan).with_bg_spec(Color::Black).add_spec(Modifiers::bold_spec())
}

pub open spec fn body_style(base: Style) -> Style {
    base.with_bg_spec(Color::Black)
}

pub open spec fn separator_style(base: Style) -> Style {
    base.with_fg_spec(Color::DarkGray).with_bg_spec(Color::Black)
}

/// The lines for the first `n` rows: one single-span line per row, header rows
/// in the header style, and the separator right after the last header row.
pub open spec fn table_prefix(rows: Seq<RowModel>, header_rows: nat, base: Style, n: nat) -> Seq<LineModel>
    decreases n,
{
    if n == 0 {
        Seq::<LineModel>::empty()
    } else {
        let idx = n - 1;
        let style = if idx < header_rows { header_style(base) } else { body_style(base) };
        let with_row = table_prefix(rows, header_rows, base, idx as nat).push(
            seq![span(row_text(rows[idx], rows, column_count(rows)), style)],
        );
        if idx + 1 == header_rows {
            with_row.push(seq![span(separator_text(rows, column_count(rows)), separator_style(base))])
        } else {
            with_row
        }
    }
}

/// The laid-out lines of a table.
pub open spec fn table_lines(rows: Seq<RowModel>, header_rows: nat, base: Style) -> Seq<LineModel> {
    table_prefix(rows, header_rows, base, rows.len())
}

proof fn lemma_prefix_step(rows: Seq<RowModel>, i: int)
    requires
        0 <= i < rows.len(),
    ensures
        rows.subrange(0, i + 1).drop_last() == rows.subrange(0, i),
        rows.subrange(0, i + 1).last() == rows[i],
{
    assert(rows.subrange(0, i + 1).drop_last() == rows.subrange(0, i));
}

/// The number of columns of `rows`.
fn count_columns(rows: &Vec<Vec<String>>) -> (r: usize)
    ensures
        r == column_count(rows_view(rows@)),
{
    let ghost rv = rows_view(rows@);
    let mut m: usize = 0;
    for i in 0..rows.len()
        invariant
            rv == rows_view(rows@),
            m == column_count(rv.subrange(0, i as int)),
    {
        proof {
            lemma_prefix_step(rv, i as int);
        }
        if rows[i].len() > m {
            m = rows[i].len();
        }
    }
    assert(rv.subrange(0, rows@.len() as int) == rv);
    m
}

/// The width of column `c` of `rows`.
fn measure_column(rows: &Vec<Vec<String>>, c: usize) -> (r: usize)
    ensures
        r == column_width(rows_view(rows@), c as int),
{
    let ghost rv = rows_view(rows@);
    let mut w: usize = 0;
    for i in 0..rows.len()
        invariant
            rv == rows_view(rows@),
            w == column_width(rv.subrange(0, i as int), c as int),
    {
        proof {
            lemma_prefix_step(rv, i as int);
        }
        if c < rows[i].len() {
            let l = rows[i][c].as_str().unicode_len();
            if l > w {
                w = l;
            }
        }
    }
    assert(rv.subrange(0, rows@.len() as int) == rv);
    w
}

/// Appends `" | "` to `s`.
fn push_bar(s: &mut String)
    ensures
        final(s)@ == old(s)@ + column_bar(),
{
    proof {
        reveal_strlit(" | ");
    }
    s.append(" | ");
}

/// Appends `"-+-"` to `s`.
fn push_joint(s: &mut String)
    ensures
        final(s)@ == old(s)@ + separator_joint(),
{
    proof {
        reveal_strlit("-+-");
    }
    s.append("-+-");
}

/// The text of one row, padded to the column widths.
fn row_line_text(row: &Vec<String>, widths: &Vec<usize>, ghost_rows: Ghost<Seq<RowModel>>) -> (r: String)
    requires
        forall|c: int| 0 <= c < widths@.len() ==> widths@[c] == column_width(ghost_rows@, c),
    ensures
        r@ == row_text(row_view(row@), ghost_rows@, widths@.len()),
{
    let ghost rows = ghost_rows@;
    let ghost rm = row_view(row@);
    let mut line = String::new();
    for c in 0..widths.len()
        invariant
            rm == row_view(row@),
            forall|k: int| 0 <= k < widths@.len() ==> widths@[k] == column_width(rows, k),
            line@ == row_text(rm, rows, c as nat),
    {
        if c > 0 {
            push_bar(&mut line);
        }
        let ghost before = line@;
        let mut len: usize = 0;
        if c < row.len() {
            line.append(row[c].as_str());
            len = row[c].as_str().unicode_len();
        }
        assert(cell_at(rm, c as int).len() == len);
        if len < widths[c] {
            push_repeat(&mut line, ' ', widths[c] - len);
        }
        assert(line@ == before + pad_right(cell_at(rm, c as int), column_width(rows, c as int)));
    }
    line
}

/// The separator text for the given column widths.
fn separator_line_text(widths: &Vec<usize>, ghost_rows: Ghost<Seq<RowModel>>) -> (r: String)
    requires
        forall|c: int| 0 <= c < widths@.len() ==> widths@[c] == column_width(ghost_rows@, c),
    ensures
        r@ == separator_text(ghost_rows@, widths@.len()),
{
    let ghost rows = ghost_rows@;
    let mut line = String::new();
    for c in 0..widths.len()
        invariant
            forall|k: int| 0 <= k < widths@.len() ==> widths@[k] == column_width(rows, k),
            line@ == separator_text(rows, c as nat),
    {
        if c > 0 {
            push_joint(&mut line);
        }
        let w = if widths[c] > 1 { widths[c] } else { 1 };
        push_repeat(&mut line, '-', w);
    }
    line
}

/// Lays out a table: every row becomes one line of cells left-aligned and
/// padded to their column's width, joined by `" | "`; the first `header_rows`
/// rows are in the header style and followed by a dashed separator line.
pub fn render_table(rows: &Vec<Vec<String>>, header_rows: usize, base: Style) -> (r: Vec<StyledLine>)
    ensures
        lines_view(r@) == table_lines(rows_view(rows@), header_rows as nat, base),
{
    let ghost rv = rows_view(rows@);
    let ncols = count_columns(rows);
    let mut widths: Vec<usize> = Vec::new();
    for c in 0..ncols
        invariant
            rv == rows_view(rows@),
            widths@.len() == c,
            forall|k: int| 0 <= k < c ==> widths@[k] == column_width(rv, k),
    {
        let w = measure_column(rows, c);
        widths.push(w);
    }
    let head = base.with_fg(Color::Cyan).with_bg(Color::Black).add_modifiers(Modifiers::bold());
    let body = base.with_bg(Color::Black);
    let sep_style = base.with_fg(Color::DarkGray).with_bg(Color::Black);
    let mut lines: Vec<StyledLine> = Vec::new();
    for idx in 0..rows.len()
        invariant
            rv == rows_view(rows@),
            widths@.len() == column_count(rv),
            forall|k: int| 0 <= k < widths@.len() ==> widths@[k] == column_width(rv, k),
            head == header_style(base),
            body == body_style(base),
            sep_style == separator_style(base),
            lines_view(lines@) == table_prefix(rv, header_rows as nat, base, idx as nat),
    {
        let text = row_line_text(&rows[idx], &widths, Ghost(rv));
        let style = if idx < header_rows { head } else { body };
        let mut spans: Vec<StyledSpan> = Vec::new();
        spans.push(StyledSpan::new(text, style));
        let row_line = StyledLine { spans };
        assert(row_line@ == seq![span(text@, style)]);
        let ghost before = lines@;
        lines.push(row_line);
        assert(lines_view(lines@) == lines_view(before).push(row_line@));
        assert(rv[idx as int] == row_view(rows@[idx as int]@));
        if idx + 1 == header_rows {
            let sep = separator_line_text(&widths, Ghost(rv));
            let mut sep_spans: Vec<StyledSpan> = Vec::new();
            sep_spans.push(StyledSpan::new(sep, sep_style));
            let sep_line = StyledLine { spans: sep_spans };
            assert(sep_line@ == seq![span(sep@, sep_style)]);
            let ghost mid = lines@;
            lines.push(sep_line);
            assert(lines_view(lines@) == lines_view(mid).push(sep_line@));
        }
        assert(lines_view(lines@) == table_prefix(rv, header_rows as nat, base, (idx + 1) as nat));
    }
    lines
}

} // verus!
