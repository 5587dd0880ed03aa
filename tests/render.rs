use chat_markdown::events::{MdEvent, MdTag, MdTagEnd};
use chat_markdown::highlight::{code_block_lines, syntect_to_style, CodeToken, Rgba};
use chat_markdown::render::render_events;
use chat_markdown::table::render_table;
use chat_markdown::{Color, MarkdownRenderer, Modifiers, Style, StyledLine};

fn base() -> Style {
    Style::plain().with_fg(Color::Blue).with_bg(Color::Black)
}

fn line_text(l: &StyledLine) -> String {
    l.spans.iter().map(|s| s.text.as_str()).collect()
}

fn texts(doc: &[StyledLine]) -> Vec<String> {
    doc.iter().map(line_text).collect()
}

fn render(md: &str) -> Vec<StyledLine> {
    MarkdownRenderer::new().render(md, base())
}

#[test]
fn empty_and_blank_input_give_empty_document() {
    assert!(render("").is_empty());
    assert!(render("   \n\n  \n").is_empty());
}

#[test]
fn document_never_starts_or_ends_blank() {
    for md in ["a\n\nb", "# T\n\ntext\n\n", "- x\n- y\n", "```\ncode\n```\n\npara", "| A |\n|---|\n| 1 |"] {
        let doc = render(md);
        assert!(!doc.is_empty());
        assert!(!doc[0].spans.is_empty(), "{md:?}");
        assert!(!doc[doc.len() - 1].spans.is_empty(), "{md:?}");
    }
}

#[test]
fn heading_has_accent_prefix() {
    let doc = render("# Title");
    assert_eq!(doc.len(), 1);
    let spans = &doc[0].spans;
    assert_eq!(spans[0].text, "# ");
    assert_eq!(spans[0].style.fg, Some(Color::Cyan));
    assert!(spans[0].style.modifiers.bold);
    assert_eq!(spans[1].text, "Title");
    assert_eq!(spans[1].style, base());
}

#[test]
fn heading_levels_cap_at_four_marks() {
    assert_eq!(render("## B")[0].spans[0].text, "## ");
    assert_eq!(render("### C")[0].spans[0].text, "### ");
    assert_eq!(render("#### D")[0].spans[0].text, "#### ");
    assert_eq!(render("###### F")[0].spans[0].text, "#### ");
}

#[test]
fn bold_italic_nesting_in_either_order() {
    for md in ["**_x_**", "_**x**_"] {
        let doc = render(md);
        assert_eq!(doc.len(), 1);
        assert_eq!(doc[0].spans.len(), 1);
        let s = &doc[0].spans[0];
        assert_eq!(s.text, "x");
        assert!(s.style.modifiers.bold && s.style.modifiers.italic);
    }
}

#[test]
fn list_items_get_bullets_and_nested_indent() {
    let doc = render("- a\n- b");
    assert_eq!(texts(&doc), vec!["• a", "• b"]);
    assert_eq!(doc[0].spans[0].text, "• ");
    assert_eq!(doc[0].spans[0].style, Style::plain());
    let nested = render("- a\n  - b");
    assert_eq!(texts(&nested), vec!["• a", "  • b"]);
    assert_eq!(nested[1].spans[0].text, "  • ");
}

#[test]
fn table_has_header_separator_and_body() {
    let doc = render("| A | BB |\n|---|---|\n| 1 | 22 |");
    assert_eq!(texts(&doc), vec!["A | BB", "--+---", "1 | 22"]);
    assert!(doc[0].spans[0].style.modifiers.bold);
    assert_eq!(doc[0].spans[0].style.fg, Some(Color::Cyan));
    assert_eq!(doc[1].spans[0].style.fg, Some(Color::DarkGray));
    assert!(!doc[2].spans[0].style.modifiers.bold);
}

#[test]
fn table_columns_pad_to_widest_cell() {
    let doc = render("| A | B |\n|---|---|\n| 10 | 22 |");
    assert_eq!(texts(&doc), vec!["A  | B ", "---+---", "10 | 22"]);
}

#[test]
fn code_block_has_label_numbers_and_borders() {
    let doc = render("```rust\nfn main() {}\nlet x = 1;\n```");
    assert_eq!(doc.len(), 4);
    let top = line_text(&doc[0]);
    assert!(top.contains("rust"));
    assert_eq!(top, "╭─ rust ");
    assert_eq!(doc[1].spans[1].text, " 1 ");
    assert_eq!(doc[2].spans[1].text, " 2 ");
    assert_eq!(line_text(&doc[1]), "│  1 fn main() {}");
    assert_eq!(line_text(&doc[2]), "│  2 let x = 1;");
    assert_eq!(line_text(&doc[3]), "╰─");
}

#[test]
fn code_block_with_unknown_language_keeps_label() {
    let doc = render("```nosuchlang\nfirst\nsecond\n```");
    assert_eq!(doc.len(), 4);
    assert_eq!(line_text(&doc[0]), "╭─ nosuchlang ");
    assert_eq!(line_text(&doc[1]), "│  1 first");
    assert_eq!(line_text(&doc[2]), "│  2 second");
}

#[test]
fn empty_code_block_shows_one_numbered_line() {
    let doc = render("```\n```");
    assert_eq!(texts(&doc), vec!["╭─ code ", "│  1  ", "╰─"]);
}

#[test]
fn concatenation_is_not_the_same_as_joint_rendering() {
    let mut apart = render("a");
    apart.extend(render("b"));
    let together = render("a\n\nb");
    assert_eq!(texts(&apart), vec!["a", "b"]);
    assert_eq!(texts(&together), vec!["a", "", "b"]);
    assert_ne!(texts(&apart), texts(&together));
}

#[test]
fn soft_break_joins_with_space_and_hard_break_splits() {
    let soft = render("a\nb");
    assert_eq!(soft.len(), 1);
    assert_eq!(line_text(&soft[0]), "a b");
    let hard = render("a  \nb");
    assert_eq!(texts(&hard), vec!["a", "b"]);
    let backslash = render("a\\\nb");
    assert_eq!(texts(&backslash), vec!["a", "b"]);
}

#[test]
fn links_are_underlined_with_destination() {
    let doc = render("[site](https://x.org)");
    assert_eq!(texts(&doc), vec!["site <https://x.org>"]);
    let s = &doc[0].spans;
    assert_eq!(s[0].style.fg, Some(Color::Blue));
    assert!(s[0].style.modifiers.underlined);
    assert_eq!(s[1].style.fg, Some(Color::DarkGray));
}

#[test]
fn inline_code_is_padded_and_marked() {
    let doc = render("use `x` here");
    assert_eq!(texts(&doc), vec!["use  x  here"]);
    let s = &doc[0].spans[1];
    assert_eq!(s.text, " x ");
    assert_eq!(s.style.fg, Some(Color::Yellow));
    assert_eq!(s.style.bg, Some(Color::Black));
}

#[test]
fn paragraphs_are_separated_by_blank_line() {
    let doc = render("one\n\ntwo\n\nthree");
    assert_eq!(texts(&doc), vec!["one", "", "two", "", "three"]);
    assert!(doc[1].spans.is_empty());
}

#[test]
fn text_events_split_at_line_feeds() {
    let events = vec![
        MdEvent::Start(MdTag::Paragraph),
        MdEvent::Text("x\n\ny".to_string()),
        MdEvent::End(MdTagEnd::Paragraph),
    ];
    let doc = render_events(&events, base(), &vec![]);
    assert_eq!(texts(&doc), vec!["x", "", "y"]);
    assert!(doc[1].spans.is_empty());
}

#[test]
fn table_cells_are_trimmed() {
    let events = vec![
        MdEvent::Start(MdTag::Table),
        MdEvent::Start(MdTag::TableCell),
        MdEvent::Text("  pad  ".to_string()),
        MdEvent::End(MdTagEnd::TableCell),
        MdEvent::End(MdTagEnd::TableHead),
        MdEvent::Start(MdTag::TableCell),
        MdEvent::Text("b".to_string()),
        MdEvent::End(MdTagEnd::TableCell),
        MdEvent::End(MdTagEnd::TableRow),
        MdEvent::End(MdTagEnd::Table),
    ];
    let doc = render_events(&events, base(), &vec![]);
    assert_eq!(texts(&doc), vec!["pad", "---", "b  "]);
}

#[test]
fn code_blocks_are_placed_in_order() {
    let block = vec![StyledLine { spans: vec![] }, StyledLine::blank()];
    let mut marked = StyledLine::blank();
    marked.spans.push(chat_markdown::StyledSpan::from_str("B", base()));
    let events = vec![
        MdEvent::Start(MdTag::CodeBlock(None)),
        MdEvent::Text("ignored here".to_string()),
        MdEvent::End(MdTagEnd::CodeBlock),
        MdEvent::Text("after".to_string()),
    ];
    let doc = render_events(&events, base(), &vec![vec![marked.duplicate()], block]);
    assert_eq!(texts(&doc), vec!["B", "after"]);
}

#[test]
fn render_table_lays_out_short_rows() {
    let rows = vec![
        vec!["h1".to_string(), "h2".to_string()],
        vec!["x".to_string()],
    ];
    let lines = render_table(&rows, 1, base());
    assert_eq!(texts(&lines), vec!["h1 | h2", "---+---", "x  |   "]);
    assert!(render_table(&vec![], 0, base()).is_empty());
}

#[test]
fn render_table_without_header_has_no_separator() {
    let rows = vec![vec!["a".to_string(), "".to_string()]];
    let lines = render_table(&rows, 0, base());
    assert_eq!(texts(&lines), vec!["a | "]);
}

#[test]
fn token_style_reads_font_flags_and_alpha() {
    let fg = Rgba { r: 1, g: 2, b: 3, a: 255 };
    let opaque = Rgba { r: 9, g: 8, b: 7, a: 255 };
    let clear = Rgba { r: 9, g: 8, b: 7, a: 0 };
    let s = syntect_to_style(fg, opaque, 1 | 4);
    assert_eq!(s.fg, Some(Color::Rgb(1, 2, 3)));
    assert_eq!(s.bg, Some(Color::Rgb(9, 8, 7)));
    assert!(s.modifiers.bold && s.modifiers.italic && !s.modifiers.underlined);
    let t = syntect_to_style(fg, clear, 2);
    assert_eq!(t.bg, Some(Color::Black));
    assert!(t.modifiers.underlined && !t.modifiers.bold);
}

#[test]
fn code_block_lines_fall_back_per_line() {
    let lines = vec!["ok".to_string(), "bad".to_string()];
    let tok = CodeToken { fg: Rgba { r: 1, g: 1, b: 1, a: 255 }, bg: Rgba { r: 0, g: 0, b: 0, a: 0 }, font: 0, text: "ok".to_string() };
    let hl = vec![Some(vec![tok]), None];
    let out = code_block_lines("txt", &lines, &hl, base());
    assert_eq!(texts(&out), vec!["╭─ txt ", "│  1 ok", "│  2 bad", "╰─"]);
    assert_eq!(out[1].spans[2].style.fg, Some(Color::Rgb(1, 1, 1)));
    assert_eq!(out[2].spans[2].style.fg, Some(Color::Yellow));
}

#[test]
fn number_column_widens_past_ninety_nine_lines() {
    let lines: Vec<String> = (0..100).map(|i| format!("l{i}")).collect();
    let hl = vec![None; 100];
    let out = code_block_lines("x", &lines, &hl, base());
    assert_eq!(out.len(), 102);
    assert_eq!(out[1].spans[1].text, "  1 ");
    assert_eq!(out[100].spans[1].text, "100 ");
}

#[test]
fn highlighted_tokens_rebuild_each_line() {
    let r = MarkdownRenderer::new();
    let out = r.render_code_block("let x = 1;\nfn f() {}\n", Some("rs"), base());
    assert_eq!(out.len(), 4);
    let body: String = out[1].spans[2..].iter().map(|s| s.text.as_str()).collect();
    assert_eq!(body, "let x = 1;");
    assert!(out[1].spans.len() > 3);
}

#[test]
fn list_depth_never_goes_below_zero() {
    let events = vec![
        MdEvent::End(MdTagEnd::List),
        MdEvent::Start(MdTag::List),
        MdEvent::Start(MdTag::Item),
        MdEvent::Text("x".to_string()),
        MdEvent::End(MdTagEnd::Item),
        MdEvent::End(MdTagEnd::List),
    ];
    let doc = render_events(&events, base(), &vec![]);
    assert_eq!(texts(&doc), vec!["• x"]);
}

#[test]
fn link_end_without_link_adds_nothing() {
    let events = vec![MdEvent::Text("a".to_string()), MdEvent::End(MdTagEnd::Link)];
    let doc = render_events(&events, base(), &vec![]);
    assert_eq!(doc.len(), 1);
    assert_eq!(doc[0].spans.len(), 1);
}

#[test]
fn breaks_and_code_inside_cells_stay_in_the_cell() {
    let events = vec![
        MdEvent::Start(MdTag::Table),
        MdEvent::Start(MdTag::TableCell),
        MdEvent::Text("a".to_string()),
        MdEvent::SoftBreak,
        MdEvent::Code("b".to_string()),
        MdEvent::HardBreak,
        MdEvent::Text("c".to_string()),
        MdEvent::End(MdTagEnd::TableCell),
        MdEvent::End(MdTagEnd::TableRow),
        MdEvent::End(MdTagEnd::Table),
    ];
    let doc = render_events(&events, base(), &vec![]);
    assert_eq!(texts(&doc), vec!["a b c"]);
}

#[test]
fn empty_heading_keeps_its_prefix_line() {
    let doc = render("#");
    assert_eq!(texts(&doc), vec!["# "]);
}

#[test]
fn ignored_events_change_nothing() {
    let events = vec![
        MdEvent::Start(MdTag::Other),
        MdEvent::Text("t".to_string()),
        MdEvent::Other,
        MdEvent::End(MdTagEnd::Other),
    ];
    let doc = render_events(&events, base(), &vec![]);
    assert_eq!(texts(&doc), vec!["t"]);
}

#[test]
fn indented_code_block_is_labelled_code() {
    let doc = render("    let x = 1;\n");
    assert_eq!(line_text(&doc[0]), "╭─ code ");
    assert_eq!(doc.len(), 3);
}

#[test]
fn empty_language_token_is_labelled_code() {
    let r = MarkdownRenderer::new();
    let out = r.render_code_block("x\n", Some(""), base());
    assert_eq!(line_text(&out[0]), "╭─ code ");
    assert_eq!(texts(&out), vec!["╭─ code ", "│  1 x", "╰─"]);
}

#[test]
fn unknown_grammar_lines_use_fallback_colour() {
    let r = MarkdownRenderer::new();
    let out = r.render_code_block("abc\n", Some("no-such-grammar"), base());
    assert_eq!(line_text(&out[1]), "│  1 abc");
    assert_eq!(out.len(), 3);
}

#[test]
fn default_renderer_highlights_plain_blocks() {
    let r = MarkdownRenderer::new();
    let out = r.render_code_block("plain words\n", None, base());
    assert_eq!(line_text(&out[1]), "│  1 plain words");
    assert_ne!(out[1].spans[2].style.fg, Some(Color::Yellow));
}
