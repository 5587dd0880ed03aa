//! The chat client's state: messages, the context sent upstream, the split
//! of a reply into its reasoning and its answer, scrolling and the spinner.

use vstd::prelude::*;
use crate::text::{chars_of, decimal, is_white_space, push_decimal, trim_text, trimmed};

verus! {

/// Who wrote a message.
#[derive(Clone, Copy, Debug, PartialEq, Eq, Structural)]
pub enum Role {
    User,
    Assistant,
    System,
}

/// What a message holds: plain text, or a reply split into its reasoning
/// and its answer.
#[derive(Debug)]
pub enum MessageContent {
    Text(String),
    WithThinking { thinking: String, output: String },
}

/// A message of the conversation; `sent_at` is its local date and time in
/// RFC 3339 form.
#[derive(Debug)]
pub struct Message {
    pub role: Role,
    pub content: MessageContent,
    pub sent_at: String,
}

/// A reply from the completion service, or the reason there is none.
#[derive(Debug)]
pub enum ApiMessage {
    Response(String),
    Error(String),
}

/// How the message list is scrolled: pinned to the end, or at a fixed
/// message offset.
#[derive(Clone, Copy, Debug, PartialEq, Eq, Structural)]
pub enum ScrollState {
    Bottom,
    Fixed(usize),
}

#[derive(Clone, Copy, Debug, PartialEq, Eq, Structural)]
pub enum InputMode {
    Normal,
    Editing,
}

#[derive(Clone, Copy, Debug, PartialEq, Eq, Structural)]
pub enum StatusType {
    Info,
    Success,
    Warning,
    Error,
}

/// One message as sent upstream: its role and the text the service sees.
#[derive(Debug)]
pub struct ApiTurn {
    pub role: Role,
    pub content: String,
}

impl MessageContent {
    /// A copy of this content.
    pub fn duplicate(&self) -> (r: MessageContent)
        ensures
            r == *self,
    {
        match self {
            MessageContent::Text(t) => MessageContent::Text(t.clone()),
            MessageContent::WithThinking { thinking, output } => MessageContent::WithThinking {
                thinking: thinking.clone(),
                output: output.clone(),
            },
        }
    }
}

impl Message {
    /// A copy of this message.
    pub fn duplicate(&self) -> (r: Message)
        ensures
            r == *self,
    {
        Message { role: self.role, content: self.content.duplicate(), sent_at: self.sent_at.clone() }
    }
}

/// The text of a message that the completion service sees: the answer of a
/// split reply, else the whole text.
pub open spec fn outgoing_text(c: MessageContent) -> Seq<char> {
    match c {
        MessageContent::Text(t) => t@,
        MessageContent::WithThinking { output, .. } => output@,
    }
}

/// Where the recent messages start when `n` messages exceed the window of
/// `max`: the last `max - 1` after a kept system message (never the system
/// message itself), else the last `max`.
pub open spec fn context_start(n: nat, max: nat, keeps_system: bool) -> nat {
    if keeps_system {
        let k: nat = if max > 0 { (max - 1) as nat } else { 0 };
        let s: nat = if n > k { (n - k) as nat } else { 0 };
        if s > 1 { s } else { 1 }
    } else {
        if n > max { (n - max) as nat } else { 0 }
    }
}

/// The positions of the messages sent upstream: all of them when they fit in
/// `max`; else a leading system message, if there is one, followed by the
/// most recent ones.
pub open spec fn context_indices(roles: Seq<Role>, max: nat) -> Seq<int> {
    let n = roles.len();
    if n <= max {
        Seq::new(n, |i: int| i)
    } else {
        let sys = roles[0] == Role::System;
        let start = context_start(n, max, sys);
        let recent = Seq::new((n - start) as nat, |i: int| start + i);
        if sys { seq![0int] + recent } else { recent }
    }
}

pub open spec fn roles_of(messages: Seq<Message>) -> Seq<Role> {
    messages.map_values(|m: Message| m.role)
}

/// `turns` are the messages at `idx`, with the text the service sees.
pub open spec fn turns_match(turns: Seq<ApiTurn>, messages: Seq<Message>, idx: Seq<int>) -> bool {
    &&& turns.len() == idx.len()
    &&& forall|j: int| 0 <= j < idx.len() ==> 0 <= #[trigger] idx[j] < messages.len()
        && turns[j].role == messages[idx[j]].role && turns[j].content@ == outgoing_text(messages[idx[j]].content)
}

/// The context sent upstream for `messages` under a window of `max` messages.
pub fn select_context(messages: &Vec<Message>, max: usize) -> (r: Vec<ApiTurn>)
    ensures
        turns_match(r@, messages@, context_indices(roles_of(messages@), max as nat)),
{
    let n = messages.len();
    let ghost idx = context_indices(roles_of(messages@), max as nat);
    let mut out: Vec<ApiTurn> = Vec::new();
    let mut start: usize = 0;
    if n > max {
        let sys = messages[0].role == Role::System;
        assert(roles_of(messages@)[0] == messages@[0].role);
        if sys {
            out.push(ApiTurn { role: messages[0].role, content: outgoing(&messages[0].content) });
            let k = if max > 0 { max - 1 } else { 0 };
            let s = if n > k { n - k } else { 0 };
            start = if s > 1 { s } else { 1 };
        } else {
            start = n - max;
        }
    }
    let ghost lead: nat = out@.len() as nat;
    assert(forall|j: int| 0 <= j < lead ==> idx[j] == 0 && out@[j].role == messages@[0].role
        && out@[j].content@ == outgoing_text(messages@[0].content));
    for i in start..n
        invariant
            start <= n,
            n == messages@.len(),
            idx == context_indices(roles_of(messages@), max as nat),
            lead <= 1,
            idx.len() == lead + (n - start),
            forall|j: int| lead <= j < idx.len() ==> idx[j] == start + (j - lead),
            forall|j: int| 0 <= j < lead ==> idx[j] == 0,
            out@.len() == lead + (i - start),
            forall|j: int| 0 <= j < out@.len() ==> 0 <= #[trigger] idx[j] < messages@.len()
                && out@[j].role == messages@[idx[j]].role
                && out@[j].content@ == outgoing_text(messages@[idx[j]].content),
    {
        out.push(ApiTurn { role: messages[i].role, content: outgoing(&messages[i].content) });
    }
    out
}

/// The text of a message that the completion service sees.
fn outgoing(c: &MessageContent) -> (r: String)
    ensures
        r@ == outgoing_text(*c),
{
    match c {
        MessageContent::Text(t) => t.clone(),
        MessageContent::WithThinking { output, .. } => output.clone(),
    }
}

/// The pattern of a reasoning segment in a reply: a `<thinking>` element, a
/// `[THINKING]` element, or a line led by the thinking emoji and `Thinking:`
/// up to the next blank line or the end.
pub const THINKING_PATTERN: &'static str = r"(?s)(<thinking>.*?</thinking>|\[THINKING\].*?\[/THINKING\]|🤔\s*Thinking:.*?(?:\n\n|$))";

/// What `Regex::new(pattern)` followed by `find(text)` gives: the text of the
/// leftmost-first match, or `None` where there is no match or the pattern
/// does not compile.
pub uninterp spec fn first_match(pattern: Seq<char>, text: Seq<char>) -> Option<Seq<char>>;

/// Relies on regex's `Regex::new` and `Regex::find`: the leftmost-first match
/// of `pattern` in `text`.
#[verifier::external_body]
fn find_first(pattern: &str, text: &str) -> (r: Option<String>)
    ensures
        opt_text(r) == first_match(pattern@, text@),
{
    regex::Regex::new(pattern).ok()?.find(text).map(|m| m.as_str().to_string())
}

/// `s` with every non-overlapping occurrence of `from`, found from left to
/// right, replaced by `to`; an empty `from` matches before every character
/// and at the end.
pub open spec fn replaced(s: Seq<char>, from: Seq<char>, to: Seq<char>) -> Seq<char>
    decreases s.len(),
{
    if from.len() == 0 {
        if s.len() == 0 { to } else { to + seq![s[0]] + replaced(s.subrange(1, s.len() as int), from, to) }
    } else if s.len() < from.len() {
        s
    } else if s.subrange(0, from.len() as int) == from {
        to + replaced(s.subrange(from.len() as int, s.len() as int), from, to)
    } else {
        seq![s[0]] + replaced(s.subrange(1, s.len() as int), from, to)
    }
}

/// Relies on `str::replace`: every match of `from`, left to right and not
/// overlapping, replaced by `to`.
#[verifier::external_body]
fn replace_text(s: &str, from: &str, to: &str) -> (r: String)
    ensures
        r@ == replaced(s@, from@, to@),
{
    s.replace(from, to)
}

pub open spec fn opt_text(o: Option<String>) -> Option<Seq<char>> {
    match o {
        Some(s) => Some(s@),
        None => None,
    }
}

/// A reasoning segment without its markers.
pub open spec fn strip_markers(m: Seq<char>) -> Seq<char> {
    let e = Seq::<char>::empty();
    replaced(
        replaced(replaced(replaced(replaced(m, "<thinking>"@, e), "</thinking>"@, e), "[THINKING]"@, e), "[/THINKING]"@, e),
        "🤔 Thinking:"@,
        e,
    )
}

/// `r` is `content` split at the reasoning segment `found`: where removing
/// that segment leaves an answer, the reasoning without its markers and the
/// answer, both trimmed; else the whole text.
pub open spec fn splits_thinking(r: MessageContent, content: Seq<char>, found: Option<Seq<char>>) -> bool {
    let e = Seq::<char>::empty();
    match found {
        Some(m) => if trimmed(replaced(content, m, e)).len() > 0 {
            r == MessageContent::WithThinking { thinking: r->thinking, output: r->output }
                && r->thinking@ == trimmed(strip_markers(m))
                && r->output@ == trimmed(replaced(content, m, e))
        } else {
            r is Text && r->Text_0@ == content
        },
        None => r is Text && r->Text_0@ == content,
    }
}

/// Splits `content` at the reasoning segment `found` in it, if any.
pub fn thinking_split(content: &str, found: Option<String>) -> (r: MessageContent)
    ensures
        splits_thinking(r, content@, opt_text(found)),
{
    if let Some(m) = found {
        let output = trim_text(replace_text(content, m.as_str(), "").as_str());
        proof {
            reveal_strlit("");
        }
        assert(""@ == Seq::<char>::empty());
        if !output.as_str().is_empty() {
            let t1 = replace_text(m.as_str(), "<thinking>", "");
            let t2 = replace_text(t1.as_str(), "</thinking>", "");
            let t3 = replace_text(t2.as_str(), "[THINKING]", "");
            let t4 = replace_text(t3.as_str(), "[/THINKING]", "");
            let t5 = replace_text(t4.as_str(), "🤔 Thinking:", "");
            let thinking = trim_text(t5.as_str());
            return MessageContent::WithThinking { thinking, output };
        }
    }
    MessageContent::Text(content.to_string())
}

/// Splits an assistant reply into its reasoning and its answer, where it
/// holds a reasoning segment and something besides.
pub fn parse_thinking_tokens(content: &str) -> (r: MessageContent)
    ensures
        splits_thinking(r, content@, first_match(THINKING_PATTERN@, content@)),
{
    let found = find_first(THINKING_PATTERN, content);
    thinking_split(content, found)
}

/// The words of `s`: its longest runs of characters that are not white space,
/// in order.
pub open spec fn words_of(s: Seq<char>) -> Seq<Seq<char>>
    decreases s.len(),
{
    if s.len() == 0 {
        Seq::empty()
    } else {
        let w = words_of(s.drop_last());
        let c = s.last();
        if is_white_space(c) {
            w
        } else if s.len() >= 2 && !is_white_space(s[s.len() - 2]) {
            w.update(w.len() - 1, w.last().push(c))
        } else {
            w.push(seq![c])
        }
    }
}

/// Relies on `str::split_whitespace`: the runs of non-white-space characters.
#[verifier::external_body]
fn split_words(s: &str) -> (r: Vec<String>)
    ensures
        r@.map_values(|w: String| w@) == words_of(s@),
{
    s.split_whitespace().map(|w| w.to_string()).collect()
}

/// Whether `a` and `b` hold the same characters.
pub fn same_text(a: &str, b: &str) -> (r: bool)
    ensures
        r == (a@ == b@),
{
    let x = chars_of(a);
    let y = chars_of(b);
    if x.len() != y.len() {
        return false;
    }
    for i in 0..x.len()
        invariant
            x@ == a@,
            y@ == b@,
            x@.len() == y@.len(),
            forall|j: int| 0 <= j < i ==> x@[j] == y@[j],
    {
        if x[i] != y[i] {
            assert(x@[i as int] != y@[i as int]);
            return false;
        }
    }
    assert(x@ =~= y@);
    true
}

/// `a` followed by `b`.
fn joined(a: &str, b: &str) -> (r: String)
    ensures
        r@ == a@ + b@,
{
    let mut s = a.to_string();
    s.append(b);
    s
}

/// A file the front end is asked to write the conversation to, or read it from.
#[derive(Debug, PartialEq, Eq)]
pub enum FileRequest {
    Save(String),
    Load(String),
}

/// What the front end does after the input was submitted.
#[derive(Debug)]
pub enum SendAction {
    /// Nothing: the input was empty, or a command was handled in full.
    Nothing,
    /// Read or write the conversation file, then report back.
    File(FileRequest),
    /// Send this context to the completion service and report the reply.
    Request(Vec<ApiTurn>),
}

/// A key, as far as the key bindings tell keys apart.
#[derive(Clone, Copy, Debug, PartialEq, Eq, Structural)]
pub enum Key {
    Char(char),
    Enter,
    Backspace,
    Esc,
    Up,
    Down,
    PageUp,
    PageDown,
    Home,
    End,
    Other,
}

/// What the front end does after a key press.
#[derive(Debug)]
pub enum KeyAction {
    /// Keep going.
    Continue,
    Quit,
    /// Write the conversation to this file, then call `finish_quick_save`.
    QuickSave(String),
    Send(SendAction),
}

/// The default conversation file.
pub const CONVERSATION_FILE: &'static str = "conversation.json";

/// The number of messages of `role` among `msgs`.
pub open spec fn count_role(msgs: Seq<Message>, role: Role) -> nat
    decreases msgs.len(),
{
    if msgs.len() == 0 {
        0
    } else {
        count_role(msgs.drop_last(), role) + if msgs.last().role == role { 1nat } else { 0nat }
    }
}

/// The characters a message holds.
pub open spec fn content_len(c: MessageContent) -> nat {
    match c {
        MessageContent::Text(t) => t@.len(),
        MessageContent::WithThinking { thinking, output } => thinking@.len() + output@.len(),
    }
}

pub open spec fn total_chars(msgs: Seq<Message>) -> nat
    decreases msgs.len(),
{
    if msgs.len() == 0 { 0 } else { total_chars(msgs.drop_last()) + content_len(msgs.last().content) }
}

pub open spec fn cap(n: nat) -> nat {
    if n <= usize::MAX { n } else { usize::MAX as nat }
}

/// The statistics line: message counts and a token estimate of a quarter of
/// the characters held, as `App::estimate_tokens` counts them.
pub open spec fn stats_text(msgs: Seq<Message>) -> Seq<char> {
    "Messages: "@ + decimal(msgs.len()) + " (U:"@ + decimal(count_role(msgs, Role::User)) + " A:"@
        + decimal(count_role(msgs, Role::Assistant)) + ") | ~"@ + decimal(cap(total_chars(msgs)) / 4)
        + " tokens"@
}

/// The first word of a command, or nothing.
pub open spec fn command_word(command: Seq<char>) -> Seq<char> {
    let words = words_of(command);
    if words.len() > 0 { words[0] } else { Seq::<char>::empty() }
}

/// What carrying out `command` does to the state, with `r` the file asked
/// for: the effect of each command, and every field a command does not touch
/// left alone. The input and the input mode are not among what it reads.
pub open spec fn command_effect(before: App, after: App, command: Seq<char>, r: Option<FileRequest>) -> bool {
    let words = words_of(command);
    let cmd = command_word(command);
    let file = if words.len() > 1 { words[1] } else { CONVERSATION_FILE@ };
    &&& if cmd == "help"@ || cmd == "h"@ {
        r is None && after.show_help == !before.show_help
            && status_is(after.status_message, "Help toggled"@, StatusType::Info)
            && after.messages == before.messages
    } else if cmd == "clear"@ || cmd == "c"@ {
        r is None && after.messages@.len() == 0 && after.scroll_offset == 0
            && status_is(after.status_message, "Conversation cleared"@, StatusType::Success)
    } else if cmd == "stats"@ || cmd == "s"@ {
        r is None && status_is(after.status_message, stats_text(before.messages@), StatusType::Info)
            && after.messages == before.messages
    } else if cmd == "save"@ {
        r matches Some(FileRequest::Save(f)) && f@ == file && after.messages == before.messages
    } else if cmd == "load"@ {
        r matches Some(FileRequest::Load(f)) && f@ == file && after.messages == before.messages
    } else {
        r is None && status_is(after.status_message, "Unknown command: /"@ + command, StatusType::Warning)
            && after.messages == before.messages
    }
    &&& after.is_loading == before.is_loading
    &&& after.max_context_messages == before.max_context_messages
    &&& after.show_thinking == before.show_thinking
    &&& after.loading_frame == before.loading_frame
    &&& !(cmd == "clear"@ || cmd == "c"@) ==> after.scroll_offset == before.scroll_offset
        && after.scroll_state == before.scroll_state
    &&& !(cmd == "help"@ || cmd == "h"@) ==> after.show_help == before.show_help
    &&& (cmd == "save"@ || cmd == "load"@) ==> after.status_message == before.status_message
}

/// The file request of a send action, if it is one.
pub open spec fn file_of(r: SendAction) -> Option<FileRequest> {
    match r {
        SendAction::File(q) => Some(q),
        _ => None,
    }
}

/// What submitting the input does: an empty (or all white-space) input is
/// refused and changes nothing but the status; `/...` clears the input and
/// carries out the command; anything else clears the input, adds a user
/// message, starts loading and returns the context to send.
pub open spec fn send_effect(before: App, after: App, r: SendAction) -> bool {
    let input = before.input@;
    if trimmed(input).len() == 0 {
        r is Nothing && after.messages == before.messages && after.input == before.input
            && after.input_mode == before.input_mode && after.is_loading == before.is_loading
            && status_is(after.status_message, "Cannot send empty message"@, StatusType::Warning)
    } else {
        &&& after.input@.len() == 0
        &&& after.input_mode == InputMode::Normal
        &&& if input[0] == '/' {
            !(r is Request) && command_effect(before, after, input.subrange(1, input.len() as int), file_of(r))
        } else {
            &&& r matches SendAction::Request(turns)
            &&& after.messages@.len() == before.messages@.len() + 1
            &&& after.messages@.drop_last() == before.messages@
            &&& after.messages@.last().role == Role::User
            &&& after.messages@.last().content is Text
            &&& after.messages@.last().content->Text_0@ == input
            &&& after.is_loading
            &&& status_is(after.status_message, "Sending message..."@, StatusType::Info)
            &&& turns_match(turns@, after.messages@, context_indices(roles_of(after.messages@), after.max_context_messages as nat))
        }
    }
}

/// The chat client's state, apart from the connection to the service.
pub struct App {
    pub messages: Vec<Message>,
    pub input: String,
    pub input_mode: InputMode,
    pub show_help: bool,
    pub show_thinking: bool,
    pub status_message: Option<(String, StatusType)>,
    pub is_loading: bool,
    pub loading_frame: usize,
    pub scroll_offset: usize,
    pub scroll_state: ScrollState,
    pub max_context_messages: usize,
}

pub open spec fn status_is(s: Option<(String, StatusType)>, text: Seq<char>, kind: StatusType) -> bool {
    s matches Some(p) && p.0@ == text && p.1 == kind
}

/// The content a new message of `role` gets: a reply is split at its
/// reasoning segment, other text is kept whole.
pub open spec fn new_content(role: Role, content: Seq<char>, r: MessageContent) -> bool {
    if role == Role::Assistant {
        splits_thinking(r, content, first_match(THINKING_PATTERN@, content))
    } else {
        r is Text && r->Text_0@ == content
    }
}

impl App {
    /// A fresh session with a welcome status, opened by the system prompt
    /// where one is given.
    pub fn new(max_context_messages: usize, system_prompt: Option<String>, sent_at: String) -> (r: App)
        ensures
            r.max_context_messages == max_context_messages,
            r.input@.len() == 0,
            r.input_mode == InputMode::Normal,
            !r.show_help && !r.show_thinking && !r.is_loading,
            r.loading_frame == 0 && r.scroll_offset == 0 && r.scroll_state == ScrollState::Bottom,
            status_is(r.status_message, "Welcome! Press 'i' to start typing, 'h' for help, 'q' to quit"@, StatusType::Info),
            system_prompt is None ==> r.messages@.len() == 0,
            system_prompt matches Some(p) ==> r.messages@.len() == 1 && r.messages@[0].role == Role::System
                && r.messages@[0].content is Text && r.messages@[0].content->Text_0@ == p@
                && r.messages@[0].sent_at == sent_at,
    {
        let mut app = App {
            messages: Vec::new(),
            input: String::new(),
            input_mode: InputMode::Normal,
            show_help: false,
            show_thinking: false,
            status_message: Some((
                "Welcome! Press 'i' to start typing, 'h' for help, 'q' to quit".to_string(),
                StatusType::Info,
            )),
            is_loading: false,
            loading_frame: 0,
            scroll_offset: 0,
            scroll_state: ScrollState::Bottom,
            max_context_messages,
        };
        if let Some(p) = system_prompt {
            app.add_message(Role::System, p, sent_at);
        }
        app
    }

    /// Appends a message and pins the view to the bottom.
    pub fn add_message(&mut self, role: Role, content: String, sent_at: String)
        ensures
            final(self).messages@.len() == old(self).messages@.len() + 1,
            final(self).messages@.drop_last() == old(self).messages@,
            final(self).messages@.last().role == role,
            final(self).messages@.last().sent_at == sent_at,
            new_content(role, content@, final(self).messages@.last().content),
            final(self).scroll_state == ScrollState::Bottom,
            final(self).scroll_offset == 0,
            final(self).status_message == old(self).status_message,
            final(self).input == old(self).input,
            final(self).input_mode == old(self).input_mode,
            final(self).is_loading == old(self).is_loading,
            final(self).show_help == old(self).show_help,
            final(self).show_thinking == old(self).show_thinking,
            final(self).loading_frame == old(self).loading_frame,
            final(self).max_context_messages == old(self).max_context_messages,
    {
        let body = if role == Role::Assistant {
            parse_thinking_tokens(content.as_str())
        } else {
            MessageContent::Text(content)
        };
        self.messages.push(Message { role, content: body, sent_at });
        assert(self.messages@.drop_last() == old(self).messages@);
        self.scroll_state = ScrollState::Bottom;
        self.scroll_offset = 0;
    }

    /// A rough token count for a text: a quarter of its length in
    /// characters, taking a token to be about four characters. The statistics
    /// line estimates the whole conversation the same way.
    pub fn estimate_tokens(&self, text: &str) -> (r: usize)
        ensures
            r == text@.len() / 4,
    {
        text.unicode_len() / 4
    }

    /// The messages sent upstream, within the context window.
    pub fn prepare_api_messages(&self) -> (r: Vec<ApiTurn>)
        ensures
            turns_match(r@, self.messages@, context_indices(roles_of(self.messages@), self.max_context_messages as nat)),
    {
        select_context(&self.messages, self.max_context_messages)
    }

    pub fn scroll_up(&mut self)
        ensures
            final(self).scroll_state == ScrollState::Fixed(match old(self).scroll_state {
                ScrollState::Bottom => old(self).scroll_offset,
                ScrollState::Fixed(o) => o,
            }),
            final(self).scroll_offset == if old(self).scroll_offset > 0 { old(self).scroll_offset - 1 } else { 0 },
    {
        self.scroll_state = match self.scroll_state {
            ScrollState::Bottom => ScrollState::Fixed(self.scroll_offset),
            ScrollState::Fixed(offset) => ScrollState::Fixed(offset),
        };
        self.scroll_offset = if self.scroll_offset > 0 { self.scroll_offset - 1 } else { 0 };
    }

    pub fn scroll_down(&mut self)
        ensures
            final(self).scroll_offset == if old(self).scroll_offset < usize::MAX { old(self).scroll_offset + 1 } else { usize::MAX as int },
            final(self).scroll_state == ScrollState::Fixed(final(self).scroll_offset),
    {
        self.scroll_offset = self.scroll_offset.saturating_add(1);
        self.scroll_state = ScrollState::Fixed(self.scroll_offset);
    }

    pub fn scroll_to_bottom(&mut self)
        ensures
            final(self).scroll_state == ScrollState::Bottom,
            final(self).scroll_offset == 0,
    {
        self.scroll_state = ScrollState::Bottom;
        self.scroll_offset = 0;
    }

    /// Advances the spinner, one of eight frames, while a reply is awaited.
    pub fn update_loader_animation(&mut self)
        ensures
            old(self).is_loading ==> final(self).loading_frame == (old(self).loading_frame + 1) % 8,
            !old(self).is_loading ==> final(self).loading_frame == old(self).loading_frame,
    {
        if self.is_loading {
            self.loading_frame = (self.loading_frame % 8 + 1) % 8;
        }
    }

    fn set_status(&mut self, text: String, kind: StatusType)
        ensures
            status_is(final(self).status_message, text@, kind),
            final(self).messages == old(self).messages,
            final(self).show_help == old(self).show_help,
            final(self).show_thinking == old(self).show_thinking,
            final(self).loading_frame == old(self).loading_frame,
            final(self).is_loading == old(self).is_loading,
            final(self).input == old(self).input,
            final(self).input_mode == old(self).input_mode,
            final(self).scroll_offset == old(self).scroll_offset,
            final(self).scroll_state == old(self).scroll_state,
            final(self).max_context_messages == old(self).max_context_messages,
    {
        self.status_message = Some((text, kind));
    }

    /// Carries out a command typed after `/`: toggles help, clears the
    /// conversation, shows statistics, or asks for the conversation file to be
    /// saved or loaded (by default `conversation.json`).
    pub fn handle_command(&mut self, command: &str) -> (r: Option<FileRequest>)
        ensures
            command_effect(*old(self), *final(self), command@, r),
            final(self).input == old(self).input,
            final(self).input_mode == old(self).input_mode,
    {
        proof {
            reveal_strlit("help");
            reveal_strlit("h");
            reveal_strlit("clear");
            reveal_strlit("c");
            reveal_strlit("save");
            reveal_strlit("load");
            reveal_strlit("stats");
            reveal_strlit("s");
            assert("save"@.len() == 4 && "load"@.len() == 4 && "stats"@.len() == 5 && "s"@.len() == 1);
            assert("h"@.len() == 1 && "c"@.len() == 1 && "help"@.len() == 4 && "clear"@.len() == 5);
            assert("save"@[0] == 's' && "load"@[0] == 'l' && "help"@[0] == 'h' && "clear"@[0] == 'c');
        }
        let parts = split_words(command);
        let ghost words = words_of(command@);
        assert(parts@.len() == words.len());
        let empty = String::new();
        let cmd: &str = if parts.len() > 0 { parts[0].as_str() } else { empty.as_str() };
        assert(parts@.len() > 0 ==> parts@[0]@ == words[0]);
        if same_text(cmd, "help") || same_text(cmd, "h") {
            self.show_help = !self.show_help;
            self.set_status("Help toggled".to_string(), StatusType::Info);
            None
        } else if same_text(cmd, "clear") || same_text(cmd, "c") {
            self.messages = Vec::new();
            self.scroll_offset = 0;
            self.set_status("Conversation cleared".to_string(), StatusType::Success);
            None
        } else if same_text(cmd, "stats") || same_text(cmd, "s") {
            let text = self.stats();
            self.set_status(text, StatusType::Info);
            None
        } else if same_text(cmd, "save") || same_text(cmd, "load") {
            let file = if parts.len() > 1 { parts[1].clone() } else { CONVERSATION_FILE.to_string() };
            assert(parts@.len() > 1 ==> parts@[1]@ == words[1]);
            if same_text(cmd, "save") {
                Some(FileRequest::Save(file))
            } else {
                Some(FileRequest::Load(file))
            }
        } else {
            let text = joined("Unknown command: /", command);
            self.set_status(text, StatusType::Warning);
            None
        }
    }

    /// The statistics line for the current messages.
    fn stats(&self) -> (r: String)
        ensures
            r@ == stats_text(self.messages@),
    {
        let ghost msgs = self.messages@;
        let mut users: usize = 0;
        let mut assistants: usize = 0;
        let mut chars: usize = 0;
        for i in 0..self.messages.len()
            invariant
                msgs == self.messages@,
                users == count_role(msgs.subrange(0, i as int), Role::User),
                assistants == count_role(msgs.subrange(0, i as int), Role::Assistant),
                users <= i && assistants <= i,
                chars == cap(total_chars(msgs.subrange(0, i as int))),
        {
            assert(msgs.subrange(0, i + 1).drop_last() == msgs.subrange(0, i as int));
            let m = &self.messages[i];
            if m.role == Role::User {
                users = users + 1;
            }
            if m.role == Role::Assistant {
                assistants = assistants + 1;
            }
            let len = match &m.content {
                MessageContent::Text(t) => t.as_str().unicode_len(),
                MessageContent::WithThinking { thinking, output } => thinking.as_str().unicode_len().saturating_add(
                    output.as_str().unicode_len(),
                ),
            };
            assert(len == cap(content_len(m.content)));
            chars = chars.saturating_add(len);
        }
        assert(msgs.subrange(0, msgs.len() as int) == msgs);
        let mut text = "Messages: ".to_string();
        push_decimal(&mut text, self.messages.len());
        text.append(" (U:");
        push_decimal(&mut text, users);
        text.append(" A:");
        push_decimal(&mut text, assistants);
        text.append(") | ~");
        push_decimal(&mut text, chars / 4);
        text.append(" tokens");
        text
    }

    /// Reports a finished save of the conversation to `file`; `error` holds
    /// the reason where it failed.
    pub fn finish_save(&mut self, file: &str, error: Option<String>)
        ensures
            error is None ==> status_is(final(self).status_message, "Saved conversation to "@ + file@, StatusType::Success),
            error matches Some(e) ==> status_is(final(self).status_message, "Failed to save: "@ + e@, StatusType::Error),
            final(self).messages == old(self).messages,
    {
        match error {
            None => {
                let text = joined("Saved conversation to ", file);
                self.set_status(text, StatusType::Success);
            },
            Some(e) => {
                let text = joined("Failed to save: ", e.as_str());
                self.set_status(text, StatusType::Error);
            },
        }
    }

    /// Reports a finished load from `file`: the loaded messages replace the
    /// conversation, or the reason it failed is shown.
    pub fn finish_load(&mut self, file: &str, loaded: Result<Vec<Message>, String>)
        ensures
            loaded matches Ok(msgs) ==> final(self).messages == msgs
                && status_is(final(self).status_message, "Loaded conversation from "@ + file@, StatusType::Success),
            loaded matches Err(e) ==> final(self).messages == old(self).messages
                && status_is(final(self).status_message, "Failed to load: "@ + e@, StatusType::Error),
    {
        match loaded {
            Ok(msgs) => {
                self.messages = msgs;
                let text = joined("Loaded conversation from ", file);
                self.set_status(text, StatusType::Success);
            },
            Err(e) => {
                let text = joined("Failed to load: ", e.as_str());
                self.set_status(text, StatusType::Error);
            },
        }
    }

    /// Reports a finished quick save; `error` holds the reason where it failed.
    pub fn finish_quick_save(&mut self, error: Option<String>)
        ensures
            error is None ==> status_is(final(self).status_message, "Saved!"@, StatusType::Success),
            error matches Some(e) ==> status_is(final(self).status_message, "Save failed: "@ + e@, StatusType::Error),
    {
        match error {
            None => self.set_status("Saved!".to_string(), StatusType::Success),
            Some(e) => {
                let text = joined("Save failed: ", e.as_str());
                self.set_status(text, StatusType::Error);
            },
        }
    }

    /// Submits the input: an empty input is refused; `/...` is a command;
    /// anything else becomes a user message, and the context to send is
    /// returned.
    pub fn send_message(&mut self, sent_at: String) -> (r: SendAction)
        ensures
            send_effect(*old(self), *final(self), r),
    {
        let check = trim_text(self.input.as_str());
        if check.as_str().is_empty() {
            self.set_status("Cannot send empty message".to_string(), StatusType::Warning);
            return SendAction::Nothing;
        }
        proof {
            assert(trimmed(old(self).input@).len() > 0);
        }
        let mut user_input = String::new();
        std::mem::swap(&mut self.input, &mut user_input);
        self.input_mode = InputMode::Normal;
        let n = user_input.as_str().unicode_len();
        if n > 0 && user_input.as_str().get_char(0) == '/' {
            let command = user_input.as_str().substring_char(1, n);
            match self.handle_command(command) {
                Some(req) => SendAction::File(req),
                None => SendAction::Nothing,
            }
        } else {
            self.add_message(Role::User, user_input, sent_at);
            self.is_loading = true;
            self.set_status("Sending message...".to_string(), StatusType::Info);
            SendAction::Request(self.prepare_api_messages())
        }
    }

    /// Takes in what came from the completion service: a reply becomes an
    /// assistant message; an error drops the unanswered user message and is
    /// shown; `None` means the channel closed without an answer.
    pub fn process_api_response(&mut self, msg: Option<ApiMessage>, sent_at: String)
        ensures
            !final(self).is_loading,
            msg is None ==> final(self).messages == old(self).messages
                && status_is(final(self).status_message, "✗ API connection lost"@, StatusType::Error),
            msg matches Some(ApiMessage::Response(c)) ==> final(self).messages@.len() == old(self).messages@.len() + 1
                && final(self).messages@.drop_last() == old(self).messages@
                && final(self).messages@.last().role == Role::Assistant
                && new_content(Role::Assistant, c@, final(self).messages@.last().content)
                && final(self).scroll_state == ScrollState::Bottom && final(self).scroll_offset == 0
                && status_is(final(self).status_message, "✓ Message sent successfully"@, StatusType::Success),
            msg matches Some(ApiMessage::Error(e)) ==> status_is(final(self).status_message, "✗ "@ + e@, StatusType::Error)
                && (if old(self).messages@.len() > 0 && old(self).messages@.last().role == Role::User {
                    final(self).messages@ == old(self).messages@.drop_last()
                } else {
                    final(self).messages == old(self).messages
                }),
    {
        self.is_loading = false;
        match msg {
            Some(ApiMessage::Response(content)) => {
                self.add_message(Role::Assistant, content, sent_at);
                self.set_status("✓ Message sent successfully".to_string(), StatusType::Success);
            },
            Some(ApiMessage::Error(e)) => {
                let n = self.messages.len();
                if n > 0 && self.messages[n - 1].role == Role::User {
                    self.messages.pop();
                }
                let text = joined("✗ ", e.as_str());
                self.set_status(text, StatusType::Error);
            },
            None => self.set_status("✗ API connection lost".to_string(), StatusType::Error),
        }
    }

}

/// Applies a key press: in normal mode the navigation keys, `q` to quit,
/// `i` to edit, `h` for help and `t` for the reasoning; in edit mode
/// typing, Shift+Enter for a new line, Enter to send, Ctrl+S to save and
/// Esc to leave.
pub fn handle_event(app: &mut App, key: Key, shift: bool, control: bool, sent_at: String) -> (r: KeyAction)
    ensures
        old(app).input_mode == InputMode::Normal ==> (r is Quit <==> key == Key::Char('q')),
        old(app).input_mode == InputMode::Normal && key == Key::Char('q') ==> *final(app) == *old(app),
        old(app).input_mode == InputMode::Editing ==> !(r is Quit),
        old(app).input_mode == InputMode::Normal && key == Key::Char('i') ==> final(app).input_mode == InputMode::Editing,
        old(app).input_mode == InputMode::Normal && key == Key::Char('h') ==> final(app).show_help == !old(app).show_help,
        old(app).input_mode == InputMode::Normal && key == Key::Char('t') ==> final(app).show_thinking == !old(app).show_thinking
            && status_is(final(app).status_message,
                if final(app).show_thinking { "Thinking tokens: visible"@ } else { "Thinking tokens: hidden"@ }, StatusType::Info),
        old(app).input_mode == InputMode::Normal && (key == Key::Up || key == Key::PageUp) ==> final(app).scroll_state
            == ScrollState::Fixed(match old(app).scroll_state {
                ScrollState::Bottom => old(app).scroll_offset,
                ScrollState::Fixed(o) => o,
            }),
        old(app).input_mode == InputMode::Normal && key == Key::Up ==> final(app).scroll_offset == (
            if old(app).scroll_offset > 0 { old(app).scroll_offset - 1 } else { 0 }),
        old(app).input_mode == InputMode::Normal && key == Key::PageUp ==> final(app).scroll_offset == (
            if old(app).scroll_offset > 10 { old(app).scroll_offset - 10 } else { 0 }),
        old(app).input_mode == InputMode::Normal && key == Key::Down ==> final(app).scroll_offset == (
            if old(app).scroll_offset < usize::MAX { old(app).scroll_offset + 1 } else { usize::MAX as int })
            && final(app).scroll_state == ScrollState::Fixed(final(app).scroll_offset),
        old(app).input_mode == InputMode::Normal && key == Key::PageDown ==> final(app).scroll_offset == (
            if old(app).scroll_offset < usize::MAX - 10 { old(app).scroll_offset + 10 } else { usize::MAX as int })
            && final(app).scroll_state == ScrollState::Fixed(final(app).scroll_offset),
        old(app).input_mode == InputMode::Normal && key == Key::Home ==> final(app).scroll_offset == 0
            && final(app).scroll_state == ScrollState::Fixed(0),
        old(app).input_mode == InputMode::Normal && key == Key::End ==> final(app).scroll_offset == 0
            && final(app).scroll_state == ScrollState::Bottom,
        old(app).input_mode == InputMode::Editing && key == Key::Enter && shift ==> final(app).input@ == old(app).input@.push('\n'),
        old(app).input_mode == InputMode::Editing && key == Key::Enter && !shift ==> (r matches KeyAction::Send(a)
            && send_effect(*old(app), *final(app), a)),
        old(app).input_mode == InputMode::Editing ==> (key == Key::Char('s') && control <==> r is QuickSave),
        old(app).input_mode == InputMode::Editing ==> (r matches KeyAction::QuickSave(f) ==> f@ == CONVERSATION_FILE@),
        old(app).input_mode == InputMode::Editing ==> (forall|c: char| key == Key::Char(c) && !control
            ==> final(app).input@ == old(app).input@.push(c)),
        old(app).input_mode == InputMode::Editing && key == Key::Backspace ==> final(app).input@ == (
            if old(app).input@.len() > 0 { old(app).input@.drop_last() } else { old(app).input@ }),
        old(app).input_mode == InputMode::Editing && key == Key::Esc ==> final(app).input_mode == InputMode::Normal,
{
    match app.input_mode {
        InputMode::Normal => {
            match key {
                Key::Char('q') => return KeyAction::Quit,
                Key::Char('i') => app.input_mode = InputMode::Editing,
                Key::Char('h') => app.show_help = !app.show_help,
                Key::Char('t') => {
                    app.show_thinking = !app.show_thinking;
                    let text = if app.show_thinking {
                        "Thinking tokens: visible".to_string()
                    } else {
                        "Thinking tokens: hidden".to_string()
                    };
                    app.set_status(text, StatusType::Info);
                },
                Key::Up => app.scroll_up(),
                Key::Down => app.scroll_down(),
                Key::PageUp => {
                    let ghost pinned = match old(app).scroll_state {
                        ScrollState::Bottom => old(app).scroll_offset,
                        ScrollState::Fixed(o) => o,
                    };
                    let start = app.scroll_offset;
                    app.scroll_up();
                    for i in 1..10usize
                        invariant
                            app.scroll_state == ScrollState::Fixed(pinned),
                            app.scroll_offset == if start > i { start - i } else { 0 },
                    {
                        app.scroll_up();
                    }
                },
                Key::PageDown => {
                    let start = app.scroll_offset;
                    app.scroll_down();
                    for i in 1..10usize
                        invariant
                            app.scroll_offset == if start < usize::MAX - i { start + i } else { usize::MAX as int },
                            app.scroll_state == ScrollState::Fixed(app.scroll_offset),
                    {
                        app.scroll_down();
                    }
                },
                Key::Home => {
                    app.scroll_offset = 0;
                    app.scroll_state = ScrollState::Fixed(0);
                },
                Key::End => app.scroll_to_bottom(),
                _ => {},
            }
            KeyAction::Continue
        },
        InputMode::Editing => {
            match key {
                Key::Enter => {
                    if shift {
                        crate::text::push_char(&mut app.input, '\n');
                        KeyAction::Continue
                    } else {
                        KeyAction::Send(app.send_message(sent_at))
                    }
                },
                Key::Char(c) => {
                    if control {
                        if c == 's' {
                            KeyAction::QuickSave(CONVERSATION_FILE.to_string())
                        } else {
                            KeyAction::Continue
                        }
                    } else {
                        crate::text::push_char(&mut app.input, c);
                        KeyAction::Continue
                    }
                },
                Key::Backspace => {
                    crate::text::pop_char(&mut app.input);
                    KeyAction::Continue
                },
                Key::Esc => {
                    app.input_mode = InputMode::Normal;
                    KeyAction::Continue
                },
                _ => KeyAction::Continue,
            }
        },
    }
}

/// The lines shown of `total` in a view `height` lines tall, as a range
/// `(start, end)`: the last ones when pinned to the bottom, else the first.
pub fn viewport(total: usize, height: usize, state: ScrollState) -> (r: (usize, usize))
    ensures
        r.0 <= r.1 <= total,
        r.1 - r.0 == if total < height { total } else { height },
        state == ScrollState::Bottom ==> r.1 == total,
        state != ScrollState::Bottom ==> r.0 == 0,
{
    match state {
        ScrollState::Bottom => {
            if total > height {
                (total - height, total)
            } else {
                (0, total)
            }
        },
        ScrollState::Fixed(_) => {
            if total < height {
                (0, total)
            } else {
                (0, height)
            }
        },
    }
}

/// `t` occurs in `s`.
pub open spec fn text_contains(s: Seq<char>, t: Seq<char>) -> bool {
    exists|i: int| 0 <= i && i + t.len() <= s.len() && #[trigger] s.subrange(i, i + t.len()) == t
}

/// Whether `t` occurs in `s`.
pub fn contains_text(s: &str, t: &str) -> (r: bool)
    ensures
        r == text_contains(s@, t@),
{
    let x = chars_of(s);
    let y = chars_of(t);
    let n = x.len();
    let m = y.len();
    if m > n {
        return false;
    }
    let mut i: usize = 0;
    while i <= n - m
        invariant
            x@ == s@,
            y@ == t@,
            n == x@.len(),
            m == y@.len(),
            m <= n,
            i <= n - m + 1,
            forall|k: int| 0 <= k < i ==> #[trigger] x@.subrange(k, k + m) != y@,
        decreases n - m + 1 - i,
    {
        let mut j: usize = 0;
        let mut same = true;
        while j < m
            invariant
                x@ == s@,
                y@ == t@,
                n == x@.len(),
                m == y@.len(),
                i + m <= n,
                j <= m,
                same == (forall|k: int| 0 <= k < j ==> x@[i + k] == y@[k]),
            decreases m - j,
        {
            if x[i + j] != y[j] {
                same = false;
            }
            j = j + 1;
        }
        if same {
            assert(x@.subrange(i as int, i + m) =~= y@);
            return true;
        }
        assert(exists|k: int| 0 <= k < m && x@[i + k] != y@[k]);
        assert(x@.subrange(i as int, i + m) != y@) by {
            let k = choose|k: int| 0 <= k < m && x@[i + k] != y@[k];
            assert(x@.subrange(i as int, i + m)[k] == x@[i + k]);
        }
        i = i + 1;
    }
    assert forall|k: int| 0 <= k && k + t@.len() <= s@.len() implies #[trigger] s@.subrange(k, k + t@.len()) != t@ by {
        assert(k < i);
    }
    false
}

/// What the user is told when the completion service fails with an error
/// whose text is `detail`.
pub open spec fn api_error_spec(detail: Seq<char>) -> Seq<char> {
    if text_contains(detail, "404"@) {
        "Error 404: API endpoint not found. Check WORKING_CONFIGS.md for valid configurations."@
    } else if text_contains(detail, "401"@) {
        "Error 401: Invalid API key. Please check your token."@
    } else if text_contains(detail, "429"@) {
        "Error 429: Rate limit exceeded. Please wait and try again."@
    } else if text_contains(detail, "Connection refused"@) || text_contains(detail, "connection"@) {
        "Connection Error: Cannot reach API. Check if service is running and HF_BASE_URL is correct."@
    } else {
        "API Error: "@ + detail + ". See WORKING_CONFIGS.md for help."@
    }
}

/// The message shown for a failed call to the completion service.
pub fn api_error_text(detail: &str) -> (r: String)
    ensures
        r@ == api_error_spec(detail@),
{
    if contains_text(detail, "404") {
        "Error 404: API endpoint not found. Check WORKING_CONFIGS.md for valid configurations.".to_string()
    } else if contains_text(detail, "401") {
        "Error 401: Invalid API key. Please check your token.".to_string()
    } else if contains_text(detail, "429") {
        "Error 429: Rate limit exceeded. Please wait and try again.".to_string()
    } else if contains_text(detail, "Connection refused") || contains_text(detail, "connection") {
        "Connection Error: Cannot reach API. Check if service is running and HF_BASE_URL is correct.".to_string()
    } else {
        let mut text = joined("API Error: ", detail);
        text.append(". See WORKING_CONFIGS.md for help.");
        text
    }
}

/// The token used when none is configured: local services need none, a
/// remote one gets a placeholder that the service will refuse.
pub fn default_token(base_url: &str) -> (r: String)
    ensures
        r@ == if text_contains(base_url@, "localhost"@) || text_contains(base_url@, "127.0.0.1"@) {
            "unused"@
        } else {
            "missing-token"@
        },
{
    if contains_text(base_url, "localhost") || contains_text(base_url, "127.0.0.1") {
        "unused".to_string()
    } else {
        "missing-token".to_string()
    }
}

/// The scroll note in the messages title: empty without messages, a bottom
/// marker when pinned, else the message position (from one, at most the count).
pub open spec fn scroll_label_spec(count: nat, state: ScrollState) -> Seq<char> {
    if count == 0 {
        Seq::<char>::empty()
    } else {
        match state {
            ScrollState::Bottom => " [BOTTOM ↓] "@,
            ScrollState::Fixed(o) => " [MSG "@ + decimal(if o + 1 < count { (o + 1) as nat } else { count }) + "/"@
                + decimal(count) + "] "@,
        }
    }
}

impl App {
    pub fn scroll_label(&self) -> (r: String)
        ensures
            r@ == scroll_label_spec(self.messages@.len(), self.scroll_state),
    {
        let count = self.messages.len();
        if count == 0 {
            return String::new();
        }
        match self.scroll_state {
            ScrollState::Bottom => " [BOTTOM ↓] ".to_string(),
            ScrollState::Fixed(o) => {
                let shown = if o < count - 1 { o + 1 } else { count };
                let mut text = " [MSG ".to_string();
                push_decimal(&mut text, shown);
                text.append("/");
                push_decimal(&mut text, count);
                text.append("] ");
                text
            },
        }
    }
}

} // verus!
