//! The document renderer: a single forward fold over the markdown event
//! stream, producing styled lines.

use vstd::prelude::*;
use crate::events::{MdEvent, MdTag, MdTagEnd};
use crate::style::{lines_view, span, spans_view, Color, LineModel, Modifiers, SpanModel, Style, StyledLine, StyledSpan};
use crate::table::{render_table, row_view, rows_view, table_lines, RowModel};
use crate::text::{chars_of, push_char, push_repeat, repeat, split_chars, split_on, string_of, trim_text, trimmed};

verus! {

/// The state of the fold: the document so far, the line being built, and the
/// inline, list, code and table modes.
pub struct RenderModel {
    pub lines: Seq<LineModel>,
    pub current: LineModel,
    pub bold: bool,
    pub italic: bool,
    /// The destination of the link being read, if any.
    pub link: Option<Seq<char>>,
    pub list_depth: nat,
    pub in_code: bool,
    pub in_table: bool,
    pub in_cell: bool,
    pub cell: Seq<char>,
    pub row: RowModel,
    pub rows: Seq<RowModel>,
    pub header_rows: nat,
    /// How many code blocks have been placed.
    pub blocks_used: nat,
}

pub open spec fn initial_model() -> RenderModel {
    RenderModel {
        lines: Seq::empty(),
        current: Seq::empty(),
        bold: false,
        italic: false,
        link: None,
        list_depth: 0,
        in_code: false,
        in_table: false,
        in_cell: false,
        cell: Seq::empty(),
        row: Seq::empty(),
        rows: Seq::empty(),
        header_rows: 0,
        blocks_used: 0,
    }
}

/// Ends the line being built: it joins the document, even when empty.
pub open spec fn flush(st: RenderModel) -> RenderModel {
    RenderModel { lines: st.lines.push(st.current), current: Seq::empty(), ..st }
}

/// Ends the line being built if it holds any span.
pub open spec fn flush_pending(st: RenderModel) -> RenderModel {
    if st.current.len() > 0 { flush(st) } else { st }
}

pub open spec fn push_span(st: RenderModel, s: SpanModel) -> RenderModel {
    RenderModel { current: st.current.push(s), ..st }
}

pub open spec fn accent_style(base: Style) -> Style {
    base.with_fg_spec(Color::Cyan).add_spec(Modifiers::bold_spec())
}

pub open spec fn link_url_style(base: Style) -> Style {
    base.with_fg_spec(Color::DarkGray)
}

pub open spec fn inline_code_style(base: Style) -> Style {
    base.with_fg_spec(Color::Yellow).with_bg_spec(Color::Black)
}

pub open spec fn italic_modifiers() -> Modifiers {
    Modifiers { bold: false, italic: true, underlined: false, dim: false }
}

pub open spec fn underline_modifiers() -> Modifiers {
    Modifiers { bold: false, italic: false, underlined: true, dim: false }
}

/// The style of text: the base style with bold and italic as the flags say,
/// and blue underlined inside a link.
pub open spec fn text_style(base: Style, bold: bool, italic: bool, in_link: bool) -> Style {
    let s1 = if bold { base.add_spec(Modifiers::bold_spec()) } else { base };
    let s2 = if italic { s1.add_spec(italic_modifiers()) } else { s1 };
    if in_link { s2.with_fg_spec(Color::Blue).add_spec(underline_modifiers()) } else { s2 }
}

/// The number of `#` marks before a heading: its level, at most four.
pub open spec fn heading_marks(level: u8) -> nat {
    if level <= 1 { 1 } else if level == 2 { 2 } else if level == 3 { 3 } else { 4 }
}

pub open spec fn heading_prefix(level: u8) -> Seq<char> {
    repeat('#', heading_marks(level)).push(' ')
}

/// The bullet of a list item at the given depth: two spaces per level below
/// the first, then the bullet and a space.
pub open spec fn bullet(depth: nat) -> Seq<char> {
    repeat(' ', 2 * (if depth > 0 { (depth - 1) as nat } else { 0 })) + seq!['•', ' ']
}

pub open spec fn link_suffix(url: Seq<char>) -> Seq<char> {
    seq![' ', '<'] + url + seq!['>']
}

pub open spec fn padded_code(c: Seq<char>) -> Seq<char> {
    seq![' '] + c + seq![' ']
}

/// The pieces of a text, split at line feeds: after the first piece each one
/// starts a new line, and empty pieces add no span.
pub open spec fn feed_pieces(st: RenderModel, pieces: Seq<Seq<char>>, style: Style, n: nat) -> RenderModel
    decreases n,
{
    if n == 0 {
        st
    } else {
        let k = n - 1;
        let s1 = feed_pieces(st, pieces, style, k as nat);
        let s2 = if k > 0 { flush(s1) } else { s1 };
        if pieces[k].len() > 0 { push_span(s2, span(pieces[k], style)) } else { s2 }
    }
}

pub open spec fn feed_text(st: RenderModel, t: Seq<char>, style: Style) -> RenderModel {
    let pieces = split_on(t, '\n');
    feed_pieces(st, pieces, style, pieces.len())
}

pub open spec fn start_step(st: RenderModel, tag: MdTag, base: Style) -> RenderModel {
    match tag {
        MdTag::Paragraph => flush_pending(st),
        MdTag::Heading(level) => push_span(flush_pending(st), span(heading_prefix(level), accent_style(base))),
        MdTag::CodeBlock(_) => RenderModel { in_code: true, ..flush_pending(st) },
        MdTag::List => flush_pending(RenderModel { list_depth: st.list_depth + 1, ..st }),
        MdTag::Item => push_span(st, span(bullet(st.list_depth), Style::plain_spec())),
        MdTag::Table => RenderModel {
            in_table: true,
            rows: Seq::empty(),
            header_rows: 0,
            row: Seq::empty(),
            cell: Seq::empty(),
            ..st
        },
        MdTag::TableCell => if st.in_table { RenderModel { in_cell: true, cell: Seq::empty(), ..st } } else { st },
        MdTag::Emphasis => RenderModel { italic: true, ..st },
        MdTag::Strong => RenderModel { bold: true, ..st },
        MdTag::Link(url) => RenderModel { link: Some(url@), ..st },
        MdTag::Other => st,
    }
}

/// The current row joins the table if it holds any cell.
pub open spec fn close_row(st: RenderModel) -> RenderModel {
    if st.row.len() > 0 { RenderModel { rows: st.rows.push(st.row), row: Seq::empty(), ..st } } else { st }
}

/// The lines of the next code block, or none if there is none left.
pub open spec fn next_block(st: RenderModel, blocks: Seq<Seq<LineModel>>) -> Seq<LineModel> {
    if st.blocks_used < blocks.len() { blocks[st.blocks_used as int] } else { Seq::empty() }
}

pub open spec fn end_step(st: RenderModel, tag: MdTagEnd, base: Style, blocks: Seq<Seq<LineModel>>) -> RenderModel {
    match tag {
        MdTagEnd::TableCell => if st.in_table {
            RenderModel { in_cell: false, row: st.row.push(trimmed(st.cell)), cell: Seq::empty(), ..st }
        } else {
            st
        },
        MdTagEnd::TableRow => if st.in_table { close_row(st) } else { st },
        MdTagEnd::TableHead => if st.in_table {
            let s1 = close_row(st);
            RenderModel { header_rows: s1.rows.len(), ..s1 }
        } else {
            st
        },
        MdTagEnd::Table => if st.in_table {
            let s1 = flush_pending(st);
            RenderModel {
                lines: s1.lines + table_lines(s1.rows, s1.header_rows, base).push(Seq::empty()),
                in_table: false,
                in_cell: false,
                rows: Seq::empty(),
                row: Seq::empty(),
                cell: Seq::empty(),
                header_rows: 0,
                ..s1
            }
        } else {
            st
        },
        MdTagEnd::Heading => flush(st),
        MdTagEnd::CodeBlock => flush_pending(
            RenderModel {
                in_code: false,
                lines: st.lines + next_block(st, blocks),
                blocks_used: st.blocks_used + 1,
                ..st
            },
        ),
        MdTagEnd::Emphasis => RenderModel { italic: false, ..st },
        MdTagEnd::Strong => RenderModel { bold: false, ..st },
        MdTagEnd::Link => match st.link {
            Some(url) => push_span(RenderModel { link: None, ..st }, span(link_suffix(url), link_url_style(base))),
            None => st,
        },
        MdTagEnd::List => flush_pending(
            RenderModel { list_depth: if st.list_depth > 0 { (st.list_depth - 1) as nat } else { 0 }, ..st },
        ),
        MdTagEnd::Item => flush(st),
        MdTagEnd::Paragraph => {
            let s1 = flush_pending(st);
            RenderModel { lines: s1.lines.push(Seq::empty()), ..s1 }
        },
        MdTagEnd::Other => st,
    }
}

/// One step of the fold.
pub open spec fn step(st: RenderModel, e: MdEvent, base: Style, blocks: Seq<Seq<LineModel>>) -> RenderModel {
    match e {
        MdEvent::Start(tag) => start_step(st, tag, base),
        MdEvent::End(tag) => end_step(st, tag, base, blocks),
        MdEvent::Text(t) => if st.in_code {
            st
        } else if st.in_cell {
            RenderModel { cell: st.cell + t@, ..st }
        } else {
            feed_text(st, t@, text_style(base, st.bold, st.italic, st.link is Some))
        },
        MdEvent::Code(c) => if st.in_cell {
            RenderModel { cell: st.cell + c@, ..st }
        } else {
            push_span(st, span(padded_code(c@), inline_code_style(base)))
        },
        MdEvent::SoftBreak => if st.in_cell {
            RenderModel { cell: st.cell.push(' '), ..st }
        } else {
            push_span(st, span(seq![' '], Style::plain_spec()))
        },
        MdEvent::HardBreak => if st.in_cell { RenderModel { cell: st.cell.push(' '), ..st } } else { flush(st) },
        MdEvent::Other => st,
    }
}

/// The state after folding over `events`.
pub open spec fn run(events: Seq<MdEvent>, base: Style, blocks: Seq<Seq<LineModel>>) -> RenderModel
    decreases events.len(),
{
    if events.len() == 0 {
        initial_model()
    } else {
        step(run(events.drop_last(), base, blocks), events.last(), base, blocks)
    }
}

pub open spec fn strip_leading(s: Seq<LineModel>) -> Seq<LineModel>
    decreases s.len(),
{
    if s.len() > 0 && s[0].len() == 0 { strip_leading(s.subrange(1, s.len() as int)) } else { s }
}

pub open spec fn strip_trailing(s: Seq<LineModel>) -> Seq<LineModel>
    decreases s.len(),
{
    if s.len() > 0 && s.last().len() == 0 { strip_trailing(s.drop_last()) } else { s }
}

/// The document without blank lines at either end.
pub open spec fn trim_blank_lines(s: Seq<LineModel>) -> Seq<LineModel> {
    strip_trailing(strip_leading(s))
}

/// Neither the first nor the last line of `doc` is blank.
pub open spec fn no_blank_ends(doc: Seq<LineModel>) -> bool {
    doc.len() > 0 ==> doc[0].len() > 0 && doc.last().len() > 0
}

proof fn lemma_strip_leading(s: Seq<LineModel>)
    ensures
        strip_leading(s).len() > 0 ==> strip_leading(s)[0].len() > 0,
        exists|a: int| 0 <= a <= s.len() && strip_leading(s) == s.subrange(a, s.len() as int),
    decreases s.len(),
{
    if s.len() > 0 && s[0].len() == 0 {
        let t = s.subrange(1, s.len() as int);
        lemma_strip_leading(t);
        let a = choose|a: int| 0 <= a <= t.len() && strip_leading(t) == t.subrange(a, t.len() as int);
        assert(t.subrange(a, t.len() as int) == s.subrange(a + 1, s.len() as int));
    } else {
        assert(s.subrange(0, s.len() as int) == s);
    }
}

proof fn lemma_strip_trailing(s: Seq<LineModel>)
    ensures
        strip_trailing(s).len() > 0 ==> strip_trailing(s).last().len() > 0,
        exists|b: int| 0 <= b <= s.len() && strip_trailing(s) == s.subrange(0, b),
    decreases s.len(),
{
    if s.len() > 0 && s.last().len() == 0 {
        lemma_strip_trailing(s.drop_last());
        let b = choose|b: int| 0 <= b <= s.len() - 1 && strip_trailing(s.drop_last()) == s.drop_last().subrange(0, b);
        assert(s.drop_last().subrange(0, b) == s.subrange(0, b));
    } else {
        assert(s.subrange(0, s.len() as int) == s);
    }
}

/// Trimming leaves no blank line at either end, whatever the lines.
pub proof fn lemma_trim_blank_lines(s: Seq<LineModel>)
    ensures
        no_blank_ends(trim_blank_lines(s)),
{
    let t = strip_leading(s);
    lemma_strip_leading(s);
    lemma_strip_trailing(t);
    let b = choose|b: int| 0 <= b <= t.len() && strip_trailing(t) == t.subrange(0, b);
    if b > 0 {
        assert(strip_trailing(t)[0] == t[0]);
    }
}

/// A rendered document never starts or ends with a blank line: for every
/// event stream, base style and rendering of its code blocks, an empty or
/// blank input giving the empty document.
pub proof fn lemma_render_has_no_blank_ends(events: Seq<MdEvent>, base: Style, blocks: Seq<Seq<LineModel>>)
    ensures
        no_blank_ends(render_model(events, base, blocks)),
        events.len() == 0 ==> render_model(events, base, blocks).len() == 0,
{
    lemma_trim_blank_lines(flush_pending(run(events, base, blocks)).lines);
}

/// The rendered document: the fold, the pending line flushed, blank lines
/// trimmed from both ends. `blocks` are the rendered code blocks, in order.
pub open spec fn render_model(events: Seq<MdEvent>, base: Style, blocks: Seq<Seq<LineModel>>) -> Seq<LineModel> {
    trim_blank_lines(flush_pending(run(events, base, blocks)).lines)
}

/// The executable state of the fold; its view is a `RenderModel`.
struct RenderState {
    lines: Vec<StyledLine>,
    current: Vec<StyledSpan>,
    bold: bool,
    italic: bool,
    link: Option<String>,
    list_depth: usize,
    in_code: bool,
    in_table: bool,
    in_cell: bool,
    cell: String,
    row: Vec<String>,
    rows: Vec<Vec<String>>,
    header_rows: usize,
    blocks_used: usize,
}

pub open spec fn opt_view(o: Option<String>) -> Option<Seq<char>> {
    match o {
        Some(s) => Some(s@),
        None => None,
    }
}

impl View for RenderState {
    type V = RenderModel;

    closed spec fn view(&self) -> RenderModel {
        RenderModel {
            lines: lines_view(self.lines@),
            current: spans_view(self.current@),
            bold: self.bold,
            italic: self.italic,
            link: opt_view(self.link),
            list_depth: self.list_depth as nat,
            in_code: self.in_code,
            in_table: self.in_table,
            in_cell: self.in_cell,
            cell: self.cell@,
            row: row_view(self.row@),
            rows: rows_view(self.rows@),
            header_rows: self.header_rows as nat,
            blocks_used: self.blocks_used as nat,
        }
    }
}

/// The models of a sequence of rendered code blocks.
pub open spec fn blocks_view(blocks: Seq<Vec<StyledLine>>) -> Seq<Seq<LineModel>> {
    blocks.map_values(|b: Vec<StyledLine>| lines_view(b@))
}

impl RenderState {
    fn new() -> (r: RenderState)
        ensures
            r@ == initial_model(),
            r.list_depth == 0,
            r.blocks_used == 0,
    {
        let r = RenderState {
            lines: Vec::new(),
            current: Vec::new(),
            bold: false,
            italic: false,
            link: None,
            list_depth: 0,
            in_code: false,
            in_table: false,
            in_cell: false,
            cell: String::new(),
            row: Vec::new(),
            rows: Vec::new(),
            header_rows: 0,
            blocks_used: 0,
        };
        assert(r@.lines == Seq::<LineModel>::empty());
        assert(r@.current == Seq::<SpanModel>::empty());
        assert(r@.row == Seq::<Seq<char>>::empty());
        assert(r@.rows == Seq::<RowModel>::empty());
        r
    }

    fn flush(&mut self)
        ensures
            final(self)@ == flush(old(self)@),
            final(self).list_depth == old(self).list_depth,
            final(self).blocks_used == old(self).blocks_used,
    {
        let mut spans: Vec<StyledSpan> = Vec::new();
        std::mem::swap(&mut self.current, &mut spans);
        let line = StyledLine { spans };
        let ghost before = self.lines@;
        self.lines.push(line);
        assert(lines_view(self.lines@) == lines_view(before).push(line@));
        assert(spans_view(self.current@) == Seq::<SpanModel>::empty());
    }

    fn flush_pending(&mut self)
        ensures
            final(self)@ == flush_pending(old(self)@),
            final(self).list_depth == old(self).list_depth,
            final(self).blocks_used == old(self).blocks_used,
    {
        if self.current.len() > 0 {
            self.flush();
        }
    }

    fn push_span(&mut self, sp: StyledSpan)
        ensures
            final(self)@ == push_span(old(self)@, sp@),
            final(self).list_depth == old(self).list_depth,
            final(self).blocks_used == old(self).blocks_used,
    {
        let ghost before = self.current@;
        self.current.push(sp);
        assert(spans_view(self.current@) == spans_view(before).push(sp@));
    }

    fn close_row(&mut self)
        ensures
            final(self)@ == close_row(old(self)@),
            final(self).list_depth == old(self).list_depth,
            final(self).blocks_used == old(self).blocks_used,
    {
        if self.row.len() > 0 {
            let mut row: Vec<String> = Vec::new();
            std::mem::swap(&mut self.row, &mut row);
            let ghost before = self.rows@;
            self.rows.push(row);
            assert(rows_view(self.rows@) == rows_view(before).push(row_view(row@)));
            assert(row_view(self.row@) == Seq::<Seq<char>>::empty());
        }
    }

    fn start(&mut self, tag: &MdTag, base: Style)
        requires
            old(self).list_depth < usize::MAX,
        ensures
            final(self)@ == start_step(old(self)@, *tag, base),
            final(self).list_depth <= old(self).list_depth + 1,
            final(self).blocks_used == old(self).blocks_used,
    {
        match tag {
            MdTag::Paragraph => self.flush_pending(),
            MdTag::Heading(level) => {
                self.flush_pending();
                let marks: usize = if *level <= 1 { 1 } else if *level == 2 { 2 } else if *level == 3 { 3 } else { 4 };
                let mut prefix = String::new();
                push_repeat(&mut prefix, '#', marks);
                push_char(&mut prefix, ' ');
                let style = base.with_fg(Color::Cyan).add_modifiers(Modifiers::bold());
                self.push_span(StyledSpan::new(prefix, style));
            },
            MdTag::CodeBlock(_) => {
                self.flush_pending();
                self.in_code = true;
            },
            MdTag::List => {
                self.list_depth = self.list_depth + 1;
                self.flush_pending();
            },
            MdTag::Item => {
                let mut text = String::new();
                let levels: usize = if self.list_depth > 0 { self.list_depth - 1 } else { 0 };
                let ghost start = text@;
                for i in 0..levels
                    invariant
                        text@ == start + repeat(' ', 2 * i as nat),
                {
                    push_char(&mut text, ' ');
                    push_char(&mut text, ' ');
                    assert(repeat(' ', 2 * (i + 1) as nat) == repeat(' ', 2 * i as nat).push(' ').push(' '));
                }
                push_char(&mut text, '•');
                push_char(&mut text, ' ');
                assert(text@ == bullet(self.list_depth as nat));
                self.push_span(StyledSpan::new(text, Style::plain()));
            },
            MdTag::Table => {
                self.in_table = true;
                self.rows = Vec::new();
                self.header_rows = 0;
                self.row = Vec::new();
                self.cell = String::new();
                assert(row_view(self.row@) == Seq::<Seq<char>>::empty());
                assert(rows_view(self.rows@) == Seq::<RowModel>::empty());
            },
            MdTag::TableCell => {
                if self.in_table {
                    self.in_cell = true;
                    self.cell = String::new();
                }
            },
            MdTag::Emphasis => self.italic = true,
            MdTag::Strong => self.bold = true,
            MdTag::Link(url) => self.link = Some(url.clone()),
            MdTag::Other => {},
        }
    }

    fn end_table(&mut self, base: Style)
        ensures
            final(self)@ == end_step(old(self)@, MdTagEnd::Table, base, Seq::empty()),
            final(self).list_depth == old(self).list_depth,
            final(self).blocks_used == old(self).blocks_used,
    {
        if self.in_table {
            self.flush_pending();
            let table = render_table(&self.rows, self.header_rows, base);
            self.append_lines(&table);
            let ghost mid = self.lines@;
            self.lines.push(StyledLine::blank());
            assert(lines_view(self.lines@) == lines_view(mid).push(Seq::<SpanModel>::empty()));
            self.in_table = false;
            self.in_cell = false;
            self.rows = Vec::new();
            self.row = Vec::new();
            self.cell = String::new();
            self.header_rows = 0;
            assert(row_view(self.row@) == Seq::<Seq<char>>::empty());
            assert(rows_view(self.rows@) == Seq::<RowModel>::empty());
        }
    }

    fn end_code_block(&mut self, blocks: &Vec<Vec<StyledLine>>)
        requires
            old(self).blocks_used < usize::MAX,
        ensures
            final(self)@ == end_step(old(self)@, MdTagEnd::CodeBlock, Style::plain_spec(), blocks_view(blocks@)),
            final(self).list_depth == old(self).list_depth,
            final(self).blocks_used == old(self).blocks_used + 1,
    {
        self.in_code = false;
        if self.blocks_used < blocks.len() {
            self.append_lines(&blocks[self.blocks_used]);
        }
        self.blocks_used = self.blocks_used + 1;
        self.flush_pending();
    }

    fn end_link(&mut self, base: Style)
        ensures
            final(self)@ == end_step(old(self)@, MdTagEnd::Link, base, Seq::empty()),
            final(self).list_depth == old(self).list_depth,
            final(self).blocks_used == old(self).blocks_used,
    {
        let mut url: Option<String> = None;
        std::mem::swap(&mut self.link, &mut url);
        match url {
            Some(u) => {
                let mut text = String::new();
                push_char(&mut text, ' ');
                push_char(&mut text, '<');
                text.append(u.as_str());
                push_char(&mut text, '>');
                assert(text@ == link_suffix(u@));
                self.push_span(StyledSpan::new(text, base.with_fg(Color::DarkGray)));
            },
            None => {},
        }
    }

    fn end(&mut self, tag: MdTagEnd, base: Style, blocks: &Vec<Vec<StyledLine>>)
        requires
            old(self).blocks_used < usize::MAX,
        ensures
            final(self)@ == end_step(old(self)@, tag, base, blocks_view(blocks@)),
            final(self).list_depth <= old(self).list_depth,
            final(self).blocks_used <= old(self).blocks_used + 1,
    {
        match tag {
            MdTagEnd::TableCell => {
                if self.in_table {
                    self.in_cell = false;
                    let t = trim_text(self.cell.as_str());
                    let ghost before = self.row@;
                    self.row.push(t);
                    assert(row_view(self.row@) == row_view(before).push(t@));
                    self.cell = String::new();
                }
            },
            MdTagEnd::TableRow => {
                if self.in_table {
                    self.close_row();
                }
            },
            MdTagEnd::TableHead => {
                if self.in_table {
                    self.close_row();
                    self.header_rows = self.rows.len();
                }
            },
            MdTagEnd::Table => self.end_table(base),
            MdTagEnd::Heading => self.flush(),
            MdTagEnd::CodeBlock => self.end_code_block(blocks),
            MdTagEnd::Emphasis => self.italic = false,
            MdTagEnd::Strong => self.bold = false,
            MdTagEnd::Link => self.end_link(base),
            MdTagEnd::List => {
                if self.list_depth > 0 {
                    self.list_depth = self.list_depth - 1;
                }
                self.flush_pending();
            },
            MdTagEnd::Item => self.flush(),
            MdTagEnd::Paragraph => {
                self.flush_pending();
                let ghost before = self.lines@;
                self.lines.push(StyledLine::blank());
                assert(lines_view(self.lines@) == lines_view(before).push(Seq::<SpanModel>::empty()));
            },
            MdTagEnd::Other => {},
        }
    }

    fn text_style(&self, base: Style) -> (r: Style)
        ensures
            r == text_style(base, self.bold, self.italic, self.link is Some),
    {
        let mut s = base;
        if self.bold {
            s = s.add_modifiers(Modifiers::bold());
        }
        if self.italic {
            s = s.add_modifiers(Modifiers::italic());
        }
        if self.link.is_some() {
            s = s.with_fg(Color::Blue).add_modifiers(Modifiers::underlined());
        }
        s
    }

    /// Text outside code blocks and table cells: every line feed starts a new
    /// line, and each non-empty piece becomes a span.
    fn feed_text(&mut self, t: &String, style: Style)
        ensures
            final(self)@ == feed_text(old(self)@, t@, style),
            final(self).list_depth == old(self).list_depth,
            final(self).blocks_used == old(self).blocks_used,
    {
        let cs = chars_of(t.as_str());
        let pieces = split_chars(&cs, '\n');
        let ghost pv = split_on(t@, '\n');
        let ghost st0 = self@;
        for k in 0..pieces.len()
            invariant
                pieces@.map_values(|v: Vec<char>| v@) == pv,
                self@ == feed_pieces(st0, pv, style, k as nat),
                self.list_depth == old(self).list_depth,
                self.blocks_used == old(self).blocks_used,
        {
            if k > 0 {
                self.flush();
            }
            assert(pieces@[k as int]@ == pv[k as int]);
            if pieces[k].len() > 0 {
                let text = string_of(&pieces[k]);
                self.push_span(StyledSpan::new(text, style));
            }
        }
    }

    fn step(&mut self, e: &MdEvent, base: Style, blocks: &Vec<Vec<StyledLine>>)
        requires
            old(self).list_depth < usize::MAX,
            old(self).blocks_used < usize::MAX,
        ensures
            final(self)@ == step(old(self)@, *e, base, blocks_view(blocks@)),
            final(self).list_depth <= old(self).list_depth + 1,
            final(self).blocks_used <= old(self).blocks_used + 1,
    {
        match e {
            MdEvent::Start(tag) => self.start(tag, base),
            MdEvent::End(tag) => self.end(*tag, base, blocks),
            MdEvent::Text(t) => {
                if self.in_code {
                } else if self.in_cell {
                    self.cell.append(t.as_str());
                } else {
                    let style = self.text_style(base);
                    self.feed_text(t, style);
                }
            },
            MdEvent::Code(c) => {
                if self.in_cell {
                    self.cell.append(c.as_str());
                } else {
                    let mut text = String::new();
                    push_char(&mut text, ' ');
                    text.append(c.as_str());
                    push_char(&mut text, ' ');
                    assert(text@ == padded_code(c@));
                    let style = base.with_fg(Color::Yellow).with_bg(Color::Black);
                    self.push_span(StyledSpan::new(text, style));
                }
            },
            MdEvent::SoftBreak => {
                if self.in_cell {
                    push_char(&mut self.cell, ' ');
                } else {
                    let mut text = String::new();
                    push_char(&mut text, ' ');
                    assert(text@ == seq![' ']);
                    self.push_span(StyledSpan::new(text, Style::plain()));
                }
            },
            MdEvent::HardBreak => {
                if self.in_cell {
                    push_char(&mut self.cell, ' ');
                } else {
                    self.flush();
                }
            },
            MdEvent::Other => {},
        }
    }

    fn append_lines(&mut self, more: &Vec<StyledLine>)
        ensures
            final(self)@ == (RenderModel { lines: old(self)@.lines + lines_view(more@), ..old(self)@ }),
            final(self).list_depth == old(self).list_depth,
            final(self).blocks_used == old(self).blocks_used,
    {
        let ghost start = lines_view(self.lines@);
        for i in 0..more.len()
            invariant
                lines_view(self.lines@) == start + lines_view(more@).subrange(0, i as int),
                self@ == (RenderModel { lines: lines_view(self.lines@), ..old(self)@ }),
                self.list_depth == old(self).list_depth,
                self.blocks_used == old(self).blocks_used,
        {
            let ghost before = self.lines@;
            self.lines.push(more[i].duplicate());
            assert(lines_view(self.lines@) == lines_view(before).push(more@[i as int]@));
            assert(lines_view(more@).subrange(0, i + 1) == lines_view(more@).subrange(0, i as int).push(more@[i as int]@));
        }
        assert(lines_view(more@).subrange(0, more@.len() as int) == lines_view(more@));
    }
}

/// Removes blank lines from both ends of `lines`.
pub fn strip_blank_ends(lines: Vec<StyledLine>) -> (r: Vec<StyledLine>)
    ensures
        lines_view(r@) == trim_blank_lines(lines_view(lines@)),
        no_blank_ends(lines_view(r@)),
{
    let ghost s = lines_view(lines@);
    let n = lines.len();
    let mut a: usize = 0;
    assert(s.subrange(0, n as int) == s);
    while a < n && lines[a].is_blank()
        invariant
            a <= n,
            n == lines@.len(),
            s == lines_view(lines@),
            strip_leading(s) == strip_leading(s.subrange(a as int, n as int)),
        decreases n - a,
    {
        assert(s.subrange(a as int, n as int).subrange(1, (n - a) as int) == s.subrange(a + 1, n as int));
        a = a + 1;
    }
    let ghost t = s.subrange(a as int, n as int);
    assert(strip_leading(t) == t);
    let mut b: usize = n;
    while b > a && lines[b - 1].is_blank()
        invariant
            a <= b <= n,
            n == lines@.len(),
            s == lines_view(lines@),
            t == s.subrange(a as int, n as int),
            strip_trailing(t) == strip_trailing(s.subrange(a as int, b as int)),
        decreases b,
    {
        assert(s.subrange(a as int, b as int).drop_last() == s.subrange(a as int, b - 1));
        b = b - 1;
    }
    let ghost u = s.subrange(a as int, b as int);
    assert(strip_trailing(u) == u);
    let mut lines = lines;
    lines.truncate(b);
    let r = lines.split_off(a);
    assert(lines_view(r@) == u);
    r
}

/// Renders a markdown event stream: folds every event into the document,
/// flushes the pending line, and trims blank lines from both ends. `blocks`
/// holds the rendered code blocks, in the order in which they end.
pub fn render_events(events: &Vec<MdEvent>, base: Style, blocks: &Vec<Vec<StyledLine>>) -> (r: Vec<StyledLine>)
    ensures
        lines_view(r@) == render_model(events@, base, blocks_view(blocks@)),
        no_blank_ends(lines_view(r@)),
{
    let mut st = RenderState::new();
    for i in 0..events.len()
        invariant
            st@ == run(events@.subrange(0, i as int), base, blocks_view(blocks@)),
            st.list_depth <= i,
            st.blocks_used <= i,
    {
        assert(events@.subrange(0, i + 1).drop_last() == events@.subrange(0, i as int));
        st.step(&events[i], base, blocks);
    }
    assert(events@.subrange(0, events@.len() as int) == events@);
    st.flush_pending();
    strip_blank_ends(st.lines)
}

/// A code block's language token and raw text, as the stream gives them.
pub struct CodeRequest {
    pub lang: Option<String>,
    pub content: String,
}

pub struct RequestModel {
    pub lang: Option<Seq<char>>,
    pub content: Seq<char>,
}

impl View for CodeRequest {
    type V = RequestModel;

    open spec fn view(&self) -> RequestModel {
        RequestModel { lang: opt_view(self.lang), content: self.content@ }
    }
}

pub open spec fn requests_view(v: Seq<CodeRequest>) -> Seq<RequestModel> {
    v.map_values(|q: CodeRequest| q@)
}

/// What the capture of code blocks holds after some events.
pub struct CaptureModel {
    pub active: bool,
    pub lang: Option<Seq<char>>,
    pub buf: Seq<char>,
    pub done: Seq<RequestModel>,
}

/// The language token of a fence: none where the fence names none.
pub open spec fn fence_token(lang: Option<String>) -> Option<Seq<char>> {
    match lang {
        Some(l) => if l@.len() > 0 { Some(l@) } else { None },
        None => None,
    }
}

pub open spec fn capture_step(c: CaptureModel, e: MdEvent) -> CaptureModel {
    match e {
        MdEvent::Start(MdTag::CodeBlock(lang)) => CaptureModel {
            active: true,
            lang: fence_token(lang),
            buf: Seq::empty(),
            ..c
        },
        MdEvent::Text(t) => if c.active { CaptureModel { buf: c.buf + t@, ..c } } else { c },
        MdEvent::End(MdTagEnd::CodeBlock) => CaptureModel {
            active: false,
            lang: None,
            buf: Seq::empty(),
            done: c.done.push(RequestModel { lang: c.lang, content: c.buf }),
        },
        _ => c,
    }
}

pub open spec fn capture(events: Seq<MdEvent>) -> CaptureModel
    decreases events.len(),
{
    if events.len() == 0 {
        CaptureModel { active: false, lang: None, buf: Seq::empty(), done: Seq::empty() }
    } else {
        capture_step(capture(events.drop_last()), events.last())
    }
}

/// The code blocks of `events`, one for each end of a code block, with the
/// text read since its start.
pub open spec fn code_requests(events: Seq<MdEvent>) -> Seq<RequestModel> {
    capture(events).done
}

/// The language token and text of every code block of `events`, in order.
pub fn collect_code_blocks(events: &Vec<MdEvent>) -> (r: Vec<CodeRequest>)
    ensures
        requests_view(r@) == code_requests(events@),
{
    let mut active = false;
    let mut lang: Option<String> = None;
    let mut buf = String::new();
    let mut done: Vec<CodeRequest> = Vec::new();
    assert(requests_view(done@) =~= Seq::<RequestModel>::empty());
    for i in 0..events.len()
        invariant
            capture(events@.subrange(0, i as int)) == (CaptureModel {
                active,
                lang: opt_view(lang),
                buf: buf@,
                done: requests_view(done@),
            }),
    {
        assert(events@.subrange(0, i + 1).drop_last() == events@.subrange(0, i as int));
        match &events[i] {
            MdEvent::Start(MdTag::CodeBlock(l)) => {
                active = true;
                lang = match l {
                    Some(token) => if token.as_str().is_empty() { None } else { Some(token.clone()) },
                    None => None,
                };
                buf = String::new();
            },
            MdEvent::Text(t) => {
                if active {
                    buf.append(t.as_str());
                }
            },
            MdEvent::End(MdTagEnd::CodeBlock) => {
                let mut content = String::new();
                std::mem::swap(&mut buf, &mut content);
                let mut l: Option<String> = None;
                std::mem::swap(&mut lang, &mut l);
                let q = CodeRequest { lang: l, content };
                let ghost before = done@;
                done.push(q);
                assert(requests_view(done@) == requests_view(before).push(q@));
                active = false;
            },
            _ => {},
        }
    }
    assert(events@.subrange(0, events@.len() as int) == events@);
    done
}

} // verus!
