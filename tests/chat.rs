use chat_markdown::chat::{handle_event, parse_thinking_tokens, select_context, thinking_split, viewport, FileRequest, Key, KeyAction, SendAction};
use chat_markdown::widgets::{centered_rect, Area};
use chat_markdown::{ApiMessage, App, InputMode, LoadingWidget, Message, MessageContent, Role, ScrollState, StatusType};

fn msg(role: Role, text: &str) -> Message {
    Message { role, content: MessageContent::Text(text.to_string()), sent_at: "t".to_string() }
}

fn status(app: &App) -> (String, StatusType) {
    app.status_message.clone().unwrap()
}

#[test]
fn context_keeps_system_and_latest() {
    let msgs = vec![
        msg(Role::System, "sys"),
        msg(Role::User, "u1"),
        msg(Role::Assistant, "a1"),
        msg(Role::User, "u2"),
        msg(Role::Assistant, "a2"),
    ];
    let turns = select_context(&msgs, 3);
    let texts: Vec<&str> = turns.iter().map(|t| t.content.as_str()).collect();
    assert_eq!(texts, vec!["sys", "u2", "a2"]);
    assert_eq!(turns[0].role, Role::System);
}

#[test]
fn context_without_system_keeps_latest_max() {
    let msgs = vec![msg(Role::User, "1"), msg(Role::Assistant, "2"), msg(Role::User, "3"), msg(Role::Assistant, "4")];
    let texts: Vec<String> = select_context(&msgs, 2).into_iter().map(|t| t.content).collect();
    assert_eq!(texts, vec!["3", "4"]);
    assert_eq!(select_context(&msgs, 4).len(), 4);
    assert_eq!(select_context(&msgs, 10).len(), 4);
}

#[test]
fn context_sends_answer_of_split_reply() {
    let reply = Message {
        role: Role::Assistant,
        content: MessageContent::WithThinking { thinking: "why".to_string(), output: "what".to_string() },
        sent_at: "t".to_string(),
    };
    let turns = select_context(&vec![msg(Role::User, "q"), reply], 5);
    assert_eq!(turns[1].content, "what");
}

#[test]
fn thinking_tags_are_split_off() {
    match parse_thinking_tokens("<thinking>plan it</thinking>\nThe answer") {
        MessageContent::WithThinking { thinking, output } => {
            assert_eq!(thinking, "plan it");
            assert_eq!(output, "The answer");
        }
        other => panic!("{other:?}"),
    }
    match parse_thinking_tokens("[THINKING]x[/THINKING] done") {
        MessageContent::WithThinking { thinking, output } => {
            assert_eq!(thinking, "x");
            assert_eq!(output, "done");
        }
        other => panic!("{other:?}"),
    }
}

#[test]
fn thinking_emoji_line_is_split_off() {
    match parse_thinking_tokens("🤔 Thinking: idea\n\nResult") {
        MessageContent::WithThinking { thinking, output } => {
            assert_eq!(thinking, "idea");
            assert_eq!(output, "Result");
        }
        other => panic!("{other:?}"),
    }
}

#[test]
fn reply_without_answer_or_marker_stays_whole() {
    assert!(matches!(parse_thinking_tokens("<thinking>only</thinking>"), MessageContent::Text(t) if t == "<thinking>only</thinking>"));
    assert!(matches!(parse_thinking_tokens("plain"), MessageContent::Text(t) if t == "plain"));
    assert!(matches!(thinking_split("abc", None), MessageContent::Text(t) if t == "abc"));
}

#[test]
fn thinking_split_removes_every_copy_of_the_segment() {
    match thinking_split("[THINKING]a[/THINKING] x [THINKING]a[/THINKING]", Some("[THINKING]a[/THINKING]".to_string())) {
        MessageContent::WithThinking { thinking, output } => {
            assert_eq!(thinking, "a");
            assert_eq!(output, "x");
        }
        other => panic!("{other:?}"),
    }
}

#[test]
fn new_app_welcomes_and_adds_system_prompt() {
    let app = App::new(20, Some("be brief".to_string()), "t0".to_string());
    assert_eq!(app.messages.len(), 1);
    assert_eq!(app.messages[0].role, Role::System);
    assert_eq!(status(&app).1, StatusType::Info);
    assert!(status(&app).0.starts_with("Welcome!"));
    assert!(App::new(20, None, "t0".to_string()).messages.is_empty());
}

#[test]
fn scrolling_moves_offset_and_pins() {
    let mut app = App::new(20, None, "t".to_string());
    app.scroll_up();
    assert_eq!(app.scroll_state, ScrollState::Fixed(0));
    assert_eq!(app.scroll_offset, 0);
    app.scroll_down();
    app.scroll_down();
    assert_eq!(app.scroll_offset, 2);
    assert_eq!(app.scroll_state, ScrollState::Fixed(2));
    app.scroll_up();
    assert_eq!(app.scroll_offset, 1);
    assert_eq!(app.scroll_state, ScrollState::Fixed(2));
    app.scroll_to_bottom();
    assert_eq!(app.scroll_state, ScrollState::Bottom);
    assert_eq!(app.scroll_offset, 0);
}

#[test]
fn loader_cycles_through_eight_frames_while_loading() {
    let mut app = App::new(20, None, "t".to_string());
    app.update_loader_animation();
    assert_eq!(app.loading_frame, 0);
    app.is_loading = true;
    app.loading_frame = 7;
    app.update_loader_animation();
    assert_eq!(app.loading_frame, 0);
    app.update_loader_animation();
    assert_eq!(app.loading_frame, 1);
}

#[test]
fn commands_toggle_clear_and_report() {
    let mut app = App::new(20, None, "t".to_string());
    assert_eq!(app.handle_command("help"), None);
    assert!(app.show_help);
    assert_eq!(status(&app), ("Help toggled".to_string(), StatusType::Info));
    app.add_message(Role::User, "hello!!".to_string(), "t".to_string());
    app.add_message(Role::Assistant, "ok".to_string(), "t".to_string());
    app.handle_command("s");
    assert_eq!(status(&app), ("Messages: 2 (U:1 A:1) | ~2 tokens".to_string(), StatusType::Info));
    app.handle_command("clear");
    assert!(app.messages.is_empty());
    assert_eq!(status(&app), ("Conversation cleared".to_string(), StatusType::Success));
    app.handle_command("frobnicate now");
    assert_eq!(status(&app), ("Unknown command: /frobnicate now".to_string(), StatusType::Warning));
}

#[test]
fn save_and_load_commands_ask_for_files() {
    let mut app = App::new(20, None, "t".to_string());
    assert_eq!(app.handle_command("save"), Some(FileRequest::Save("conversation.json".to_string())));
    assert_eq!(app.handle_command("load other.json"), Some(FileRequest::Load("other.json".to_string())));
    app.finish_save("a.json", None);
    assert_eq!(status(&app), ("Saved conversation to a.json".to_string(), StatusType::Success));
    app.finish_save("a.json", Some("denied".to_string()));
    assert_eq!(status(&app), ("Failed to save: denied".to_string(), StatusType::Error));
    app.finish_load("b.json", Ok(vec![msg(Role::User, "x")]));
    assert_eq!(app.messages.len(), 1);
    assert_eq!(status(&app), ("Loaded conversation from b.json".to_string(), StatusType::Success));
    app.finish_load("b.json", Err("missing".to_string()));
    assert_eq!(app.messages.len(), 1);
    assert_eq!(status(&app), ("Failed to load: missing".to_string(), StatusType::Error));
}

#[test]
fn sending_empty_input_is_refused() {
    let mut app = App::new(20, None, "t".to_string());
    app.input = "   ".to_string();
    assert!(matches!(app.send_message("t".to_string()), SendAction::Nothing));
    assert_eq!(status(&app), ("Cannot send empty message".to_string(), StatusType::Warning));
    assert_eq!(app.input, "   ");
}

#[test]
fn sending_text_adds_user_message_and_context() {
    let mut app = App::new(20, Some("sys".to_string()), "t".to_string());
    app.input = "hi there".to_string();
    app.input_mode = InputMode::Editing;
    match app.send_message("t1".to_string()) {
        SendAction::Request(turns) => {
            assert_eq!(turns.len(), 2);
            assert_eq!(turns[1].content, "hi there");
            assert_eq!(turns[1].role, Role::User);
        }
        other => panic!("{other:?}"),
    }
    assert!(app.input.is_empty());
    assert_eq!(app.input_mode, InputMode::Normal);
    assert!(app.is_loading);
    assert_eq!(status(&app), ("Sending message...".to_string(), StatusType::Info));
}

#[test]
fn sending_slash_runs_command() {
    let mut app = App::new(20, None, "t".to_string());
    app.input = "/save x.json".to_string();
    assert!(matches!(app.send_message("t".to_string()), SendAction::File(FileRequest::Save(f)) if f == "x.json"));
    assert!(app.messages.is_empty());
}

#[test]
fn api_reply_and_error_update_conversation() {
    let mut app = App::new(20, None, "t".to_string());
    app.add_message(Role::User, "q".to_string(), "t".to_string());
    app.is_loading = true;
    app.process_api_response(Some(ApiMessage::Error("boom".to_string())), "t".to_string());
    assert!(app.messages.is_empty());
    assert!(!app.is_loading);
    assert_eq!(status(&app), ("✗ boom".to_string(), StatusType::Error));
    app.process_api_response(Some(ApiMessage::Response("<thinking>a</thinking>b".to_string())), "t".to_string());
    assert_eq!(app.messages.len(), 1);
    assert!(matches!(&app.messages[0].content, MessageContent::WithThinking { output, .. } if output == "b"));
    assert_eq!(status(&app), ("✓ Message sent successfully".to_string(), StatusType::Success));
    app.process_api_response(None, "t".to_string());
    assert_eq!(status(&app), ("✗ API connection lost".to_string(), StatusType::Error));
}

#[test]
fn keys_drive_modes_and_input() {
    let mut app = App::new(20, None, "t".to_string());
    assert!(matches!(handle_event(&mut app, Key::Char('q'), false, false, "t".to_string()), KeyAction::Quit));
    handle_event(&mut app, Key::Char('t'), false, false, "t".to_string());
    assert!(app.show_thinking);
    assert_eq!(status(&app).0, "Thinking tokens: visible");
    handle_event(&mut app, Key::PageDown, false, false, "t".to_string());
    assert_eq!(app.scroll_offset, 10);
    handle_event(&mut app, Key::Home, false, false, "t".to_string());
    assert_eq!(app.scroll_state, ScrollState::Fixed(0));
    handle_event(&mut app, Key::Char('i'), false, false, "t".to_string());
    assert_eq!(app.input_mode, InputMode::Editing);
    handle_event(&mut app, Key::Char('a'), false, false, "t".to_string());
    handle_event(&mut app, Key::Enter, true, false, "t".to_string());
    handle_event(&mut app, Key::Char('b'), false, false, "t".to_string());
    handle_event(&mut app, Key::Backspace, false, false, "t".to_string());
    assert_eq!(app.input, "a\n");
    assert!(matches!(handle_event(&mut app, Key::Char('s'), false, true, "t".to_string()), KeyAction::QuickSave(f) if f == "conversation.json"));
    app.finish_quick_save(None);
    assert_eq!(status(&app).0, "Saved!");
    handle_event(&mut app, Key::Esc, false, false, "t".to_string());
    assert_eq!(app.input_mode, InputMode::Normal);
}

#[test]
fn estimate_is_a_quarter_of_characters() {
    let app = App::new(20, None, "t".to_string());
    assert_eq!(app.estimate_tokens("abcdefghi"), 2);
    assert_eq!(app.estimate_tokens("ééééé"), 1);
}

#[test]
fn loading_widget_cycles_glyphs() {
    assert_eq!(LoadingWidget::new(0).glyph(), '⣾');
    assert_eq!(LoadingWidget::new(3).frame, 3);
    assert_eq!(LoadingWidget::new(11).glyph(), '⢿');
}

#[test]
fn popup_is_centred_and_clamped() {
    let area = Area { x: 0, y: 0, width: 100, height: 40 };
    assert_eq!(centered_rect(area, 44, 7), Area { x: 28, y: 16, width: 44, height: 7 });
    let small = Area { x: 2, y: 3, width: 6, height: 3 };
    assert_eq!(centered_rect(small, 44, 7), Area { x: 2, y: 3, width: 10, height: 5 });
}

#[test]
fn viewport_shows_tail_when_pinned_and_head_when_fixed() {
    assert_eq!(viewport(10, 4, ScrollState::Bottom), (6, 10));
    assert_eq!(viewport(3, 4, ScrollState::Bottom), (0, 3));
    assert_eq!(viewport(10, 4, ScrollState::Fixed(2)), (0, 4));
    assert_eq!(viewport(3, 4, ScrollState::Fixed(0)), (0, 3));
}

fn line_text(l: &chat_markdown::StyledLine) -> String {
    l.spans.iter().map(|s| s.text.as_str()).collect()
}

#[test]
fn user_message_lines_are_plain_and_headed() {
    let r = chat_markdown::MarkdownRenderer::new();
    let m = msg(Role::User, "**hi**\nthere");
    let lines = chat_markdown::transcript::message_lines(&r, &m, "12:00:01", false);
    let texts: Vec<String> = lines.iter().map(line_text).collect();
    assert_eq!(texts, vec!["👤 You [12:00:01]:", "**hi**", "there", ""]);
    assert!(lines[0].spans[0].style.modifiers.bold);
    assert_eq!(lines[1].spans[0].style.fg, Some(chat_markdown::Color::Green));
}

#[test]
fn assistant_reply_is_rendered_markdown() {
    let r = chat_markdown::MarkdownRenderer::new();
    let m = msg(Role::Assistant, "**hi**");
    let lines = chat_markdown::transcript::message_lines(&r, &m, "t", false);
    let texts: Vec<String> = lines.iter().map(line_text).collect();
    assert_eq!(texts, vec!["🤖 AI [t]:", "hi", ""]);
    assert!(lines[1].spans[0].style.modifiers.bold);
}

#[test]
fn split_reply_shows_or_folds_reasoning() {
    let r = chat_markdown::MarkdownRenderer::new();
    let m = Message {
        role: Role::Assistant,
        content: MessageContent::WithThinking { thinking: "step one\nstep two".to_string(), output: "done".to_string() },
        sent_at: "t".to_string(),
    };
    let shown: Vec<String> = chat_markdown::transcript::message_lines(&r, &m, "t", true).iter().map(line_text).collect();
    assert_eq!(shown, vec!["🤖 AI [t]:", "  🤔 [Thinking Process] ", "    step one", "    step two", "  ════════════════════", "  done", ""]);
    let folded: Vec<String> = chat_markdown::transcript::message_lines(&r, &m, "t", false).iter().map(line_text).collect();
    assert_eq!(folded, vec!["🤖 AI [t]:", "  🤔 [Thinking hidden - press 't' to show] ", "  done", ""]);
}

#[test]
fn plain_text_keeps_empty_pieces() {
    let lines = chat_markdown::transcript::plain_text_lines("a\n\nb", chat_markdown::Style::plain());
    assert_eq!(lines.len(), 3);
    assert_eq!(lines[1].spans.len(), 1);
    assert_eq!(lines[1].spans[0].text, "");
}

fn expect_api_error(detail: &str, want: &str) {
    assert_eq!(chat_markdown::chat::api_error_text(detail), want);
}

#[test]
fn service_errors_get_plain_explanations() {
    expect_api_error("HTTP 404 Not Found", "Error 404: API endpoint not found. Check WORKING_CONFIGS.md for valid configurations.");
    expect_api_error("status 401", "Error 401: Invalid API key. Please check your token.");
    expect_api_error("429 Too Many", "Error 429: Rate limit exceeded. Please wait and try again.");
    expect_api_error(
        "tcp connection reset",
        "Connection Error: Cannot reach API. Check if service is running and HF_BASE_URL is correct.",
    );
    expect_api_error("weird", "API Error: weird. See WORKING_CONFIGS.md for help.");
}

#[test]
fn local_endpoints_need_no_token() {
    assert_eq!(chat_markdown::chat::default_token("http://localhost:11434/v1"), "unused");
    assert_eq!(chat_markdown::chat::default_token("http://127.0.0.1:8080"), "unused");
    assert_eq!(chat_markdown::chat::default_token("https://api.example.com"), "missing-token");
}

#[test]
fn substring_search_finds_and_misses() {
    assert!(chat_markdown::chat::contains_text("abcabd", "abd"));
    assert!(chat_markdown::chat::contains_text("abc", ""));
    assert!(!chat_markdown::chat::contains_text("ab", "abc"));
    assert!(!chat_markdown::chat::contains_text("abcab", "abd"));
}

#[test]
fn scroll_label_shows_position() {
    let mut app = App::new(20, None, "t".to_string());
    assert_eq!(app.scroll_label(), "");
    app.add_message(Role::User, "a".to_string(), "t".to_string());
    app.add_message(Role::User, "b".to_string(), "t".to_string());
    assert_eq!(app.scroll_label(), " [BOTTOM ↓] ");
    app.scroll_state = ScrollState::Fixed(0);
    assert_eq!(app.scroll_label(), " [MSG 1/2] ");
    app.scroll_state = ScrollState::Fixed(7);
    assert_eq!(app.scroll_label(), " [MSG 2/2] ");
}

#[test]
fn page_up_moves_ten_and_keeps_position_marker() {
    let mut app = App::new(20, None, "t".to_string());
    app.scroll_offset = 25;
    handle_event(&mut app, Key::PageUp, false, false, "t".to_string());
    assert_eq!(app.scroll_offset, 15);
    assert_eq!(app.scroll_state, ScrollState::Fixed(25));
    handle_event(&mut app, Key::PageUp, false, false, "t".to_string());
    handle_event(&mut app, Key::PageUp, false, false, "t".to_string());
    assert_eq!(app.scroll_offset, 0);
    assert_eq!(app.scroll_state, ScrollState::Fixed(25));
    handle_event(&mut app, Key::End, false, false, "t".to_string());
    assert_eq!(app.scroll_state, ScrollState::Bottom);
}

#[test]
fn slash_input_runs_the_rest_as_command() {
    let mut app = App::new(20, None, "t".to_string());
    app.input = "/help".to_string();
    app.input_mode = InputMode::Editing;
    assert!(matches!(app.send_message("t".to_string()), SendAction::Nothing));
    assert!(app.show_help);
    assert!(app.input.is_empty());
    assert_eq!(app.input_mode, InputMode::Normal);
    assert_eq!(status(&app), ("Help toggled".to_string(), StatusType::Info));
}

#[test]
fn enter_in_edit_mode_submits_input() {
    let mut app = App::new(20, None, "t".to_string());
    app.input_mode = InputMode::Editing;
    app.input = "question".to_string();
    match handle_event(&mut app, Key::Enter, false, false, "t".to_string()) {
        KeyAction::Send(SendAction::Request(turns)) => assert_eq!(turns[0].content, "question"),
        other => panic!("{other:?}"),
    }
    assert!(app.is_loading);
}
