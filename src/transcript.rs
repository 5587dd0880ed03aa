//! The transcript: each message as styled lines, with a header naming its
//! author and time, its body rendered or kept plain, and the reasoning of a
//! split reply shown or folded away.

use vstd::prelude::*;
use crate::chat::{Message, MessageContent, Role};
use crate::markdown::{renders, MarkdownRenderer};
use crate::parse::markdown_events_of;
use crate::style::{lines_view, span, spans_view, Color, LineModel, Modifiers, SpanModel, Style, StyledLine, StyledSpan};
use crate::text::{chars_of, lines_of, split_chars, split_lines, split_on, string_of};

verus! {

/// The base style of a message's body: green for the user, blue for the
/// assistant, grey for the system, on black.
pub open spec fn role_style(role: Role) -> Style {
    let fg = match role {
        Role::User => Color::Green,
        Role::Assistant => Color::Blue,
        Role::System => Color::Gray,
    };
    Style::plain_spec().with_fg_spec(fg).with_bg_spec(Color::Black)
}

pub open spec fn role_label(role: Role) -> Seq<char> {
    match role {
        Role::User => "👤 You"@,
        Role::Assistant => "🤖 AI"@,
        Role::System => "⚙️ System"@,
    }
}

pub open spec fn label_style(role: Role) -> Style {
    Style::plain_spec().with_fg_spec(role_style(role).fg.unwrap()).add_spec(Modifiers::bold_spec())
}

pub open spec fn faint_style() -> Style {
    Style::plain_spec().with_fg_spec(Color::DarkGray)
}

pub open spec fn magenta() -> Style {
    Style::plain_spec().with_fg_spec(Color::Magenta)
}

pub open spec fn italic_dim() -> Modifiers {
    Modifiers { bold: false, italic: true, underlined: false, dim: true }
}

pub open spec fn dim_only() -> Modifiers {
    Modifiers { bold: false, italic: false, underlined: false, dim: true }
}

/// The header line: the author, the time in brackets, and a colon.
pub open spec fn header_line(role: Role, time: Seq<char>) -> LineModel {
    seq![
        span(role_label(role), label_style(role)),
        span(" ["@ + time + "]"@, faint_style()),
        span(":"@, label_style(role)),
    ]
}

/// Each piece of `text` between line feeds as a line of one span.
pub open spec fn plain_lines(text: Seq<char>, style: Style) -> Seq<LineModel> {
    split_on(text, '\n').map_values(|l: Seq<char>| seq![span(l, style)])
}

/// The reasoning shown in full: a title, each of its lines indented, and a rule.
pub open spec fn shown_thinking(thinking: Seq<char>) -> Seq<LineModel> {
    seq![seq![span("  🤔 "@, magenta()), span("[Thinking Process] "@, magenta().add_spec(Modifiers::bold_spec()))]]
        + lines_of(thinking).map_values(|l: Seq<char>| seq![span("    "@, Style::plain_spec()), span(l, magenta().add_spec(italic_dim()))])
        + seq![seq![span("  ════════════════════"@, faint_style())]]
}

/// The note that stands for hidden reasoning.
pub open spec fn hidden_thinking() -> LineModel {
    seq![
        span("  🤔 "@, magenta().add_spec(dim_only())),
        span("[Thinking hidden - press 't' to show] "@, magenta().add_spec(italic_dim())),
    ]
}

pub open spec fn indented(doc: Seq<LineModel>) -> Seq<LineModel> {
    doc.map_values(|l: LineModel| seq![span("  "@, Style::plain_spec())] + l)
}

/// The lines of a message, given its header time, whether reasoning is
/// shown, and `doc`, the rendering of its markdown (the reply, or the answer
/// of a split reply). A message ends with a blank line.
pub open spec fn message_model(msg: Message, time: Seq<char>, show_thinking: bool, doc: Seq<LineModel>) -> Seq<LineModel> {
    let base = role_style(msg.role);
    let body = match msg.content {
        MessageContent::Text(t) => if msg.role == Role::Assistant { doc } else { plain_lines(t@, base) },
        MessageContent::WithThinking { thinking, output } => {
            let note = if show_thinking {
                shown_thinking(thinking@)
            } else if thinking@.len() > 0 {
                seq![hidden_thinking()]
            } else {
                Seq::<LineModel>::empty()
            };
            note + indented(doc)
        },
    };
    seq![header_line(msg.role, time)] + body + seq![Seq::<SpanModel>::empty()]
}

/// The markdown of a message that is rendered: an assistant's text, or the
/// answer of a split reply; other messages are shown plain.
pub open spec fn markdown_of(msg: Message) -> Option<Seq<char>> {
    match msg.content {
        MessageContent::Text(t) => if msg.role == Role::Assistant { Some(t@) } else { None },
        MessageContent::WithThinking { output, .. } => Some(output@),
    }
}

/// `doc` is the rendering of the message's markdown in its role's style, and
/// empty where the message is shown plain.
pub open spec fn is_rendering_of(msg: Message, doc: Seq<LineModel>) -> bool {
    match markdown_of(msg) {
        Some(md) => renders(markdown_events_of(md), role_style(msg.role), doc),
        None => doc.len() == 0,
    }
}

fn one_span(text: &str, style: Style) -> (r: StyledSpan)
    ensures
        r@ == span(text@, style),
{
    StyledSpan::from_str(text, style)
}

fn line_of(spans: Vec<StyledSpan>) -> (r: StyledLine)
    ensures
        r@ == spans_view(spans@),
{
    StyledLine { spans }
}

/// Each piece of `text` between line feeds as a line of one span in `style`.
pub fn plain_text_lines(text: &str, style: Style) -> (r: Vec<StyledLine>)
    ensures
        lines_view(r@) == plain_lines(text@, style),
{
    let cs = chars_of(text);
    let pieces = split_chars(&cs, '\n');
    let ghost pv = split_on(text@, '\n');
    let mut out: Vec<StyledLine> = Vec::new();
    for i in 0..pieces.len()
        invariant
            pieces@.map_values(|v: Vec<char>| v@) == pv,
            lines_view(out@) == pv.subrange(0, i as int).map_values(|l: Seq<char>| seq![span(l, style)]),
    {
        let mut spans: Vec<StyledSpan> = Vec::new();
        spans.push(StyledSpan::new(string_of(&pieces[i]), style));
        let line = line_of(spans);
        assert(line@ == seq![span(pv[i as int], style)]);
        let ghost before = out@;
        out.push(line);
        assert(lines_view(out@) == lines_view(before).push(line@));
        assert(pv.subrange(0, i + 1).map_values(|l: Seq<char>| seq![span(l, style)])
            == pv.subrange(0, i as int).map_values(|l: Seq<char>| seq![span(l, style)]).push(seq![span(pv[i as int], style)]));
    }
    assert(pv.subrange(0, pv.len() as int) == pv);
    out
}

fn push_line(out: &mut Vec<StyledLine>, spans: Vec<StyledSpan>)
    ensures
        lines_view(final(out)@) == lines_view(old(out)@).push(spans_view(spans@)),
{
    let line = line_of(spans);
    let ghost before = out@;
    out.push(line);
    assert(lines_view(out@) == lines_view(before).push(line@));
}

fn push_all(out: &mut Vec<StyledLine>, more: Vec<StyledLine>)
    ensures
        lines_view(final(out)@) == lines_view(old(out)@) + lines_view(more@),
{
    let ghost start = lines_view(out@);
    for i in 0..more.len()
        invariant
            lines_view(out@) == start + lines_view(more@).subrange(0, i as int),
    {
        let ghost before = out@;
        out.push(more[i].duplicate());
        assert(lines_view(out@) == lines_view(before).push(more@[i as int]@));
        assert(lines_view(more@).subrange(0, i + 1) == lines_view(more@).subrange(0, i as int).push(more@[i as int]@));
    }
    assert(lines_view(more@).subrange(0, more@.len() as int) == lines_view(more@));
}

fn role_base(role: Role) -> (r: Style)
    ensures
        r == role_style(role),
{
    let fg = match role {
        Role::User => Color::Green,
        Role::Assistant => Color::Blue,
        Role::System => Color::Gray,
    };
    Style::plain().with_fg(fg).with_bg(Color::Black)
}

fn role_name(role: Role) -> (r: &'static str)
    ensures
        r@ == role_label(role),
{
    match role {
        Role::User => "👤 You",
        Role::Assistant => "🤖 AI",
        Role::System => "⚙️ System",
    }
}

/// The lines of one message in the transcript; `time` is shown in its header.
pub fn message_lines(renderer: &MarkdownRenderer, msg: &Message, time: &str, show_thinking: bool) -> (r: Vec<StyledLine>)
    ensures
        exists|doc: Seq<LineModel>| is_rendering_of(*msg, doc)
            && lines_view(r@) == message_model(*msg, time@, show_thinking, doc),
{
    let base = role_base(msg.role);
    let label = Style::plain().with_fg(base.fg.unwrap()).add_modifiers(Modifiers::bold());
    let faint = Style::plain().with_fg(Color::DarkGray);
    let pink = Style::plain().with_fg(Color::Magenta);
    let soft = Modifiers { bold: false, italic: true, underlined: false, dim: true };
    let mut out: Vec<StyledLine> = Vec::new();
    let mut stamp = " [".to_string();
    stamp.append(time);
    stamp.append("]");
    let mut head: Vec<StyledSpan> = Vec::new();
    head.push(one_span(role_name(msg.role), label));
    head.push(StyledSpan::new(stamp, faint));
    head.push(one_span(":", label));
    assert(spans_view(head@) == header_line(msg.role, time@));
    push_line(&mut out, head);
    let ghost after_head = lines_view(out@);
    let ghost mut doc: Seq<LineModel> = Seq::empty();
    match &msg.content {
        MessageContent::Text(text) => {
            if msg.role == Role::Assistant {
                let rendered = renderer.render(text.as_str(), base);
                proof {
                    doc = lines_view(rendered@);
                }
                push_all(&mut out, rendered);
            } else {
                push_all(&mut out, plain_text_lines(text.as_str(), base));
            }
        },
        MessageContent::WithThinking { thinking, output } => {
            if show_thinking {
                let mut title: Vec<StyledSpan> = Vec::new();
                title.push(one_span("  🤔 ", pink));
                title.push(one_span("[Thinking Process] ", pink.add_modifiers(Modifiers::bold())));
                assert(spans_view(title@) == seq![span("  🤔 "@, magenta()), span("[Thinking Process] "@, magenta().add_spec(Modifiers::bold_spec()))]);
                push_line(&mut out, title);
                let ghost mid = lines_view(out@);
                let pieces = split_lines(thinking.as_str());
                let ghost tv = lines_of(thinking@);
                for i in 0..pieces.len()
                    invariant
                        pieces@.map_values(|l: String| l@) == tv,
                        lines_view(out@) == mid + tv.subrange(0, i as int).map_values(
                            |l: Seq<char>| seq![span("    "@, Style::plain_spec()), span(l, magenta().add_spec(italic_dim()))],
                        ),
                        pink == magenta(),
                        soft == italic_dim(),
                {
                    let mut spans: Vec<StyledSpan> = Vec::new();
                    spans.push(one_span("    ", Style::plain()));
                    spans.push(StyledSpan::new(pieces[i].clone(), pink.add_modifiers(soft)));
                    assert(pieces@[i as int]@ == tv[i as int]);
                    assert(spans_view(spans@) == seq![span("    "@, Style::plain_spec()), span(tv[i as int], magenta().add_spec(italic_dim()))]);
                    push_line(&mut out, spans);
                    assert(tv.subrange(0, i + 1) == tv.subrange(0, i as int).push(tv[i as int]));
                }
                assert(tv.subrange(0, tv.len() as int) == tv);
                let mut rule: Vec<StyledSpan> = Vec::new();
                rule.push(one_span("  ════════════════════", faint));
                assert(spans_view(rule@) == seq![span("  ════════════════════"@, faint_style())]);
                push_line(&mut out, rule);
                assert(lines_view(out@) =~= after_head + shown_thinking(thinking@));
            } else if !thinking.as_str().is_empty() {
                let mut note: Vec<StyledSpan> = Vec::new();
                note.push(one_span("  🤔 ", pink.add_modifiers(Modifiers { bold: false, italic: false, underlined: false, dim: true })));
                note.push(one_span("[Thinking hidden - press 't' to show] ", pink.add_modifiers(soft)));
                assert(spans_view(note@) == hidden_thinking());
                push_line(&mut out, note);
            }
            let ghost before_answer = lines_view(out@);
            let rendered = renderer.render(output.as_str(), base);
            proof {
                doc = lines_view(rendered@);
            }
            let ghost rv = lines_view(rendered@);
            for i in 0..rendered.len()
                invariant
                    rv == lines_view(rendered@),
                    lines_view(out@) == before_answer + indented(rv.subrange(0, i as int)),
            {
                let mut spans: Vec<StyledSpan> = Vec::new();
                spans.push(one_span("  ", Style::plain()));
                let src = &rendered[i];
                let ghost lead = spans_view(spans@);
                for k in 0..src.spans.len()
                    invariant
                        spans_view(spans@) == lead + spans_view(src.spans@).subrange(0, k as int),
                {
                    let ghost b = spans@;
                    spans.push(src.spans[k].duplicate());
                    assert(spans_view(spans@) == spans_view(b).push(src.spans@[k as int]@));
                    assert(spans_view(src.spans@).subrange(0, k + 1) == spans_view(src.spans@).subrange(0, k as int).push(src.spans@[k as int]@));
                }
                assert(spans_view(src.spans@).subrange(0, src.spans@.len() as int) == spans_view(src.spans@));
                assert(lead == seq![span("  "@, Style::plain_spec())]);
                push_line(&mut out, spans);
                assert(indented(rv.subrange(0, i + 1)) == indented(rv.subrange(0, i as int)).push(seq![span("  "@, Style::plain_spec())] + rv[i as int]));
            }
            assert(rv.subrange(0, rv.len() as int) == rv);
        },
    }
    push_line(&mut out, Vec::new());
    assert(spans_view(Seq::<StyledSpan>::empty()) == Seq::<SpanModel>::empty());
    assert(lines_view(out@) =~= message_model(*msg, time@, show_thinking, doc));
    assert(is_rendering_of(*msg, doc));
    assert(is_rendering_of(*msg, doc) && lines_view(out@) == message_model(*msg, time@, show_thinking, doc));
    out
}

} // verus!
