//! Styles, spans and lines: the document model that the renderer produces.

use vstd::prelude::*;

verus! {

/// A terminal colour.
#[derive(Clone, Copy, Debug, PartialEq, Eq, Structural)]
pub enum Color {
    Black,
    Red,
    Green,
    Yellow,
    Blue,
    Magenta,
    Cyan,
    Gray,
    DarkGray,
    White,
    Rgb(u8, u8, u8),
}

/// The set of text modifiers that a span carries.
#[derive(Clone, Copy, Debug, PartialEq, Eq, Structural)]
pub struct Modifiers {
    pub bold: bool,
    pub italic: bool,
    pub underlined: bool,
    pub dim: bool,
}

/// A style descriptor: optional foreground and background colours and a set
/// of modifiers.
#[derive(Clone, Copy, Debug, PartialEq, Eq, Structural)]
pub struct Style {
    pub fg: Option<Color>,
    pub bg: Option<Color>,
    pub modifiers: Modifiers,
}

impl Modifiers {
    pub open spec fn union(self, o: Modifiers) -> Modifiers {
        Modifiers {
            bold: self.bold || o.bold,
            italic: self.italic || o.italic,
            underlined: self.underlined || o.underlined,
            dim: self.dim || o.dim,
        }
    }

    pub fn none() -> (r: Modifiers)
        ensures
            !r.bold && !r.italic && !r.underlined && !r.dim,
    {
        Modifiers { bold: false, italic: false, underlined: false, dim: false }
    }

    pub fn italic() -> (r: Modifiers)
        ensures
            r == (Modifiers { bold: false, italic: true, underlined: false, dim: false }),
    {
        Modifiers { bold: false, italic: true, underlined: false, dim: false }
    }

    pub fn underlined() -> (r: Modifiers)
        ensures
            r == (Modifiers { bold: false, italic: false, underlined: true, dim: false }),
    {
        Modifiers { bold: false, italic: false, underlined: true, dim: false }
    }

    pub fn bold() -> (r: Modifiers)
        ensures
            r == Modifiers::bold_spec(),
    {
        Modifiers { bold: true, italic: false, underlined: false, dim: false }
    }
}

impl Style {
    pub open spec fn plain_spec() -> Style {
        Style { fg: None, bg: None, modifiers: Modifiers::none_spec() }
    }

    /// The style that sets nothing.
    pub fn plain() -> (r: Style)
        ensures
            r == Style::plain_spec(),
    {
        Style { fg: None, bg: None, modifiers: Modifiers::none() }
    }

    pub open spec fn with_fg_spec(self, c: Color) -> Style {
        Style { fg: Some(c), ..self }
    }

    pub open spec fn with_bg_spec(self, c: Color) -> Style {
        Style { bg: Some(c), ..self }
    }

    pub open spec fn add_spec(self, m: Modifiers) -> Style {
        Style { modifiers: self.modifiers.union(m), ..self }
    }

    /// This style with the foreground colour set to `c`.
    pub fn with_fg(self, c: Color) -> (r: Style)
        ensures
            r == self.with_fg_spec(c),
    {
        Style { fg: Some(c), ..self }
    }

    /// This style with the background colour set to `c`.
    pub fn with_bg(self, c: Color) -> (r: Style)
        ensures
            r == self.with_bg_spec(c),
    {
        Style { bg: Some(c), ..self }
    }

    /// This style with the modifiers of `m` added to its own.
    pub fn add_modifiers(self, m: Modifiers) -> (r: Style)
        ensures
            r == self.add_spec(m),
    {
        let modifiers = Modifiers {
            bold: self.modifiers.bold || m.bold,
            italic: self.modifiers.italic || m.italic,
            underlined: self.modifiers.underlined || m.underlined,
            dim: self.modifiers.dim || m.dim,
        };
        Style { modifiers, ..self }
    }
}

impl Modifiers {
    pub open spec fn bold_spec() -> Modifiers {
        Modifiers { bold: true, italic: false, underlined: false, dim: false }
    }

    pub open spec fn none_spec() -> Modifiers {
        Modifiers { bold: false, italic: false, underlined: false, dim: false }
    }
}

/// The model of a span: its characters and its style.
pub struct SpanModel {
    pub text: Seq<char>,
    pub style: Style,
}

/// A run of text in one style. It never holds a line break.
#[derive(Clone, Debug)]
pub struct StyledSpan {
    pub text: String,
    pub style: Style,
}

impl View for StyledSpan {
    type V = SpanModel;

    open spec fn view(&self) -> SpanModel {
        SpanModel { text: self.text@, style: self.style }
    }
}

pub open spec fn span(text: Seq<char>, style: Style) -> SpanModel {
    SpanModel { text, style }
}

impl StyledSpan {
    pub fn new(text: String, style: Style) -> (r: StyledSpan)
        ensures
            r@ == span(text@, style),
    {
        StyledSpan { text, style }
    }

    pub fn from_str(text: &str, style: Style) -> (r: StyledSpan)
        ensures
            r@ == span(text@, style),
    {
        StyledSpan { text: text.to_string(), style }
    }

    /// A copy of this span.
    pub fn duplicate(&self) -> (r: StyledSpan)
        ensures
            r@ == self@,
    {
        StyledSpan { text: self.text.clone(), style: self.style }
    }
}

/// A line of spans, in rendering order. A line with no spans is blank.
#[derive(Clone, Debug)]
pub struct StyledLine {
    pub spans: Vec<StyledSpan>,
}

/// The model of a line: the models of its spans.
pub type LineModel = Seq<SpanModel>;

pub open spec fn spans_view(v: Seq<StyledSpan>) -> LineModel {
    v.map_values(|s: StyledSpan| s@)
}

impl View for StyledLine {
    type V = LineModel;

    open spec fn view(&self) -> LineModel {
        spans_view(self.spans@)
    }
}

/// The model of a sequence of lines.
pub open spec fn lines_view(v: Seq<StyledLine>) -> Seq<LineModel> {
    v.map_values(|l: StyledLine| l@)
}

impl StyledLine {
    pub fn blank() -> (r: StyledLine)
        ensures
            r@ == Seq::<SpanModel>::empty(),
    {
        StyledLine { spans: Vec::new() }
    }

    /// A copy of this line.
    pub fn duplicate(&self) -> (r: StyledLine)
        ensures
            r@ == self@,
    {
        let mut spans: Vec<StyledSpan> = Vec::new();
        for i in 0..self.spans.len()
            invariant
                spans_view(spans@) == spans_view(self.spans@).subrange(0, i as int),
        {
            spans.push(self.spans[i].duplicate());
            assert(spans_view(self.spans@).subrange(0, i + 1) == spans_view(self.spans@).subrange(0, i as int).push(self.spans@[i as int]@));
        }
        assert(spans_view(self.spans@).subrange(0, self.spans@.len() as int) == spans_view(self.spans@));
        StyledLine { spans }
    }

    pub fn is_blank(&self) -> (r: bool)
        ensures
            r == (self@.len() == 0),
    {
        self.spans.len() == 0
    }
}

} // verus!
