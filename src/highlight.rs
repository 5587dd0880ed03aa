//! Code blocks: a bordered, line-numbered block whose lines are built from
//! highlighter tokens, or drawn in a flat fallback colour where there are none.

use vstd::prelude::*;
use crate::style::{lines_view, span, spans_view, Color, LineModel, Modifiers, SpanModel, Style, StyledLine, StyledSpan};
use crate::text::{decimal, decimal_len, pad_left, push_char, push_decimal, push_repeat, repeat};

verus! {

/// An RGBA colour as a theme gives it.
#[derive(Clone, Copy, Debug, PartialEq, Eq, Structural)]
pub struct Rgba {
    pub r: u8,
    pub g: u8,
    pub b: u8,
    pub a: u8,
}

/// One highlighted token: its colours, its font flags (bold 1, underline 2,
/// italic 4) and its text.
#[derive(Clone, Debug)]
pub struct CodeToken {
    pub fg: Rgba,
    pub bg: Rgba,
    pub font: u8,
    pub text: String,
}

pub struct TokenModel {
    pub fg: Rgba,
    pub bg: Rgba,
    pub font: u8,
    pub text: Seq<char>,
}

impl View for CodeToken {
    type V = TokenModel;

    open spec fn view(&self) -> TokenModel {
        TokenModel { fg: self.fg, bg: self.bg, font: self.font, text: self.text@ }
    }
}

pub open spec fn tokens_view(v: Seq<CodeToken>) -> Seq<TokenModel> {
    v.map_values(|t: CodeToken| t@)
}

pub open spec fn highlights_view(v: Seq<Option<Vec<CodeToken>>>) -> Seq<Option<Seq<TokenModel>>> {
    v.map_values(|o: Option<Vec<CodeToken>>| match o {
        Some(t) => Some(tokens_view(t@)),
        None => None,
    })
}

/// The texts of `toks`, one after another.
pub open spec fn joined_text(toks: Seq<TokenModel>) -> Seq<char>
    decreases toks.len(),
{
    if toks.len() == 0 {
        Seq::<char>::empty()
    } else {
        joined_text(toks.drop_last()) + toks.last().text
    }
}

/// The style of a token: its foreground; its background where the theme gives
/// a visible one, else black; and bold, italic and underline by its font flags.
pub open spec fn token_style(fg: Rgba, bg: Rgba, font: u8) -> Style {
    Style {
        fg: Some(Color::Rgb(fg.r, fg.g, fg.b)),
        bg: Some(if bg.a > 0 { Color::Rgb(bg.r, bg.g, bg.b) } else { Color::Black }),
        modifiers: Modifiers {
            bold: font & 1u8 != 0,
            italic: font & 4u8 != 0,
            underlined: font & 2u8 != 0,
            dim: false,
        },
    }
}

/// The style of a highlighted token.
pub fn syntect_to_style(fg: Rgba, bg: Rgba, font: u8) -> (r: Style)
    ensures
        r == token_style(fg, bg, font),
{
    let background = if bg.a > 0 { Color::Rgb(bg.r, bg.g, bg.b) } else { Color::Black };
    Style {
        fg: Some(Color::Rgb(fg.r, fg.g, fg.b)),
        bg: Some(background),
        modifiers: Modifiers {
            bold: font & 1u8 != 0,
            italic: font & 4u8 != 0,
            underlined: font & 2u8 != 0,
            dim: false,
        },
    }
}

pub open spec fn border_style(base: Style) -> Style {
    base.with_fg_spec(Color::DarkGray).with_bg_spec(Color::Black)
}

pub open spec fn fallback_style(base: Style) -> Style {
    base.with_fg_spec(Color::Yellow).with_bg_spec(Color::Black)
}

/// The width of the line-number column: the digits of the line count (at
/// least one line), and never under two.
pub open spec fn number_width(n_lines: nat) -> nat {
    let d = decimal(if n_lines > 1 { n_lines } else { 1 }).len();
    if d > 2 { d } else { 2 }
}

/// The border and right-aligned number that open code line `i` (from zero).
pub open spec fn gutter(i: nat, width: nat, base: Style) -> LineModel {
    seq![
        span(seq!['│', ' '], border_style(base)),
        span(pad_left(decimal(i + 1), width).push(' '), border_style(base)),
    ]
}

/// The spans of a code line's content: one per token, or the whole line in
/// the fallback style where highlighting gave nothing.
pub open spec fn content_spans(line: Seq<char>, hl: Option<Seq<TokenModel>>, base: Style) -> LineModel {
    match hl {
        Some(toks) => toks.map_values(|t: TokenModel| span(t.text, token_style(t.fg, t.bg, t.font))),
        None => seq![span(line, fallback_style(base))],
    }
}

pub open spec fn highlight_at(hl: Seq<Option<Seq<TokenModel>>>, i: int) -> Option<Seq<TokenModel>> {
    if 0 <= i < hl.len() { hl[i] } else { None }
}

pub open spec fn numbered_line(lines: Seq<Seq<char>>, hl: Seq<Option<Seq<TokenModel>>>, i: int, base: Style) -> LineModel {
    gutter(i as nat, number_width(lines.len()), base) + content_spans(lines[i], highlight_at(hl, i), base)
}

pub open spec fn top_border(label: Seq<char>, base: Style) -> LineModel {
    seq![span(seq!['╭', '─', ' '] + label + seq![' '], border_style(base))]
}

pub open spec fn bottom_border(base: Style) -> LineModel {
    seq![span(seq!['╰', '─'], border_style(base))]
}

/// The line shown for an empty block: the first number and a blank cell.
pub open spec fn empty_block_line(base: Style) -> LineModel {
    gutter(0, 2, base) + seq![span(seq![' '], base.with_bg_spec(Color::Black))]
}

/// A code block: the top border with its label, one numbered line per source
/// line (or a single empty numbered line), and the bottom border.
pub open spec fn code_block_model(
    label: Seq<char>,
    lines: Seq<Seq<char>>,
    hl: Seq<Option<Seq<TokenModel>>>,
    base: Style,
) -> Seq<LineModel> {
    let body = Seq::new(lines.len(), |i: int| numbered_line(lines, hl, i, base));
    let filler = if lines.len() == 0 { seq![empty_block_line(base)] } else { Seq::<LineModel>::empty() };
    seq![top_border(label, base)] + body + filler + seq![bottom_border(base)]
}

pub open spec fn strings_view(v: Seq<String>) -> Seq<Seq<char>> {
    v.map_values(|s: String| s@)
}

fn single_line(text: String, style: Style) -> (r: StyledLine)
    ensures
        r@ == seq![span(text@, style)],
{
    let mut spans: Vec<StyledSpan> = Vec::new();
    spans.push(StyledSpan::new(text, style));
    StyledLine { spans }
}

/// The opening spans of code line `i`: the border and the padded number.
fn gutter_spans(i: usize, width: usize, base: Style) -> (r: Vec<StyledSpan>)
    requires
        i < usize::MAX,
    ensures
        spans_view(r@) == gutter(i as nat, width as nat, base),
{
    let border = base.with_fg(Color::DarkGray).with_bg(Color::Black);
    let mut bar = String::new();
    push_char(&mut bar, '│');
    push_char(&mut bar, ' ');
    assert(bar@ == seq!['│', ' ']);
    let mut number = String::new();
    let digits = decimal_len(i + 1);
    if digits < width {
        push_repeat(&mut number, ' ', width - digits);
    }
    push_decimal(&mut number, i + 1);
    push_char(&mut number, ' ');
    assert(number@ == pad_left(decimal((i + 1) as nat), width as nat).push(' '));
    let mut spans: Vec<StyledSpan> = Vec::new();
    let first = StyledSpan::new(bar, border);
    let second = StyledSpan::new(number, border);
    spans.push(first);
    spans.push(second);
    assert(spans@ == seq![first, second]);
    assert(spans_view(spans@) == seq![first@, second@]);
    spans
}

/// Lays out a code block from its label, its source lines and what the
/// highlighter gave for each line (`None` where it gave nothing).
pub fn code_block_lines(
    label: &str,
    lines: &Vec<String>,
    highlighted: &Vec<Option<Vec<CodeToken>>>,
    base: Style,
) -> (r: Vec<StyledLine>)
    ensures
        lines_view(r@) == code_block_model(label@, strings_view(lines@), highlights_view(highlighted@), base),
{
    let ghost lv = strings_view(lines@);
    let ghost hv = highlights_view(highlighted@);
    let border = base.with_fg(Color::DarkGray).with_bg(Color::Black);
    let fallback = base.with_fg(Color::Yellow).with_bg(Color::Black);
    let n = lines.len();
    let count = if n > 1 { n } else { 1 };
    let digits = decimal_len(count);
    let width = if digits > 2 { digits } else { 2 };
    assert(width == number_width(lv.len()));
    let mut out: Vec<StyledLine> = Vec::new();
    let mut top = String::new();
    push_char(&mut top, '╭');
    push_char(&mut top, '─');
    push_char(&mut top, ' ');
    top.append(label);
    push_char(&mut top, ' ');
    assert(top@ == seq!['╭', '─', ' '] + label@ + seq![' ']);
    let first = single_line(top, border);
    out.push(first);
    assert(out@ == seq![first]);
    assert(lines_view(out@) == seq![first@]);
    for i in 0..n
        invariant
            n == lines@.len(),
            lv == strings_view(lines@),
            hv == highlights_view(highlighted@),
            width == number_width(lv.len()),
            border == border_style(base),
            fallback == fallback_style(base),
            out@.len() == i + 1,
            lines_view(out@)[0] == top_border(label@, base),
            forall|j: int| 0 <= j < i ==> lines_view(out@)[j + 1] == numbered_line(lv, hv, j, base),
    {
        let mut spans = gutter_spans(i, width, base);
        let ghost g = spans_view(spans@);
        if i < highlighted.len() && highlighted[i].is_some() {
            let toks = highlighted[i].as_ref().unwrap();
            let ghost tv = tokens_view(toks@);
            for k in 0..toks.len()
                invariant
                    tv == tokens_view(toks@),
                    spans_view(spans@) == g + tv.subrange(0, k as int).map_values(
                        |t: TokenModel| span(t.text, token_style(t.fg, t.bg, t.font)),
                    ),
            {
                let t = &toks[k];
                let style = syntect_to_style(t.fg, t.bg, t.font);
                let ghost before = spans@;
                spans.push(StyledSpan::new(t.text.clone(), style));
                assert(spans_view(spans@) == spans_view(before).push(span(t.text@, style)));
                assert(tv.subrange(0, k + 1) == tv.subrange(0, k as int).push(tv[k as int]));
                assert(tv.subrange(0, k + 1).map_values(|t: TokenModel| span(t.text, token_style(t.fg, t.bg, t.font)))
                    == tv.subrange(0, k as int).map_values(|t: TokenModel| span(t.text, token_style(t.fg, t.bg, t.font))).push(
                        span(t.text@, style)));
            }
            assert(tv.subrange(0, toks@.len() as int) == tv);
            assert(highlight_at(hv, i as int) == Some(tv));
        } else {
            let ghost before = spans@;
            spans.push(StyledSpan::new(lines[i].clone(), fallback));
            assert(spans_view(spans@) == spans_view(before).push(span(lv[i as int], fallback)));
            assert(highlight_at(hv, i as int) is None);
        }
        let line = StyledLine { spans };
        assert(line@ == numbered_line(lv, hv, i as int, base));
        let ghost before = out@;
        out.push(line);
        assert(lines_view(out@) == lines_view(before).push(line@));
    }
    let ghost body = Seq::new(lv.len(), |i: int| numbered_line(lv, hv, i, base));
    let ghost head = seq![top_border(label@, base)] + body;
    assert forall|j: int| 0 <= j < head.len() implies lines_view(out@)[j] == head[j] by {
        if j >= 1 {
            assert(head[j] == body[j - 1]);
        }
    }
    assert(lines_view(out@) =~= head);
    if n == 0 {
        let mut spans = gutter_spans(0, 2, base);
        let mut blank = String::new();
        push_char(&mut blank, ' ');
        let ghost before = spans@;
        spans.push(StyledSpan::new(blank, base.with_bg(Color::Black)));
        assert(spans_view(spans@) == spans_view(before).push(span(seq![' '], base.with_bg_spec(Color::Black))));
        let ghost b2 = out@;
        let line = StyledLine { spans };
        out.push(line);
        assert(lines_view(out@) == lines_view(b2).push(line@));
        assert(line@ =~= empty_block_line(base));
    }
    let ghost filler = if lv.len() == 0 { seq![empty_block_line(base)] } else { Seq::<LineModel>::empty() };
    assert(lines_view(out@) =~= head + filler);
    let mut bottom = String::new();
    push_char(&mut bottom, '╰');
    push_char(&mut bottom, '─');
    assert(bottom@ == seq!['╰', '─']);
    let ghost b3 = out@;
    let last = single_line(bottom, border);
    out.push(last);
    assert(lines_view(out@) == lines_view(b3).push(last@));
    assert(lines_view(out@) =~= head + filler + seq![bottom_border(base)]);
    out
}

} // verus!
