//! The renderer's entry point: markdown text in, styled lines out, with code
//! blocks highlighted through syntect's bundled grammars and themes.

use vstd::prelude::*;
use syntect::easy::HighlightLines;
use syntect::highlighting::ThemeSet;
use syntect::parsing::SyntaxSet;
use crate::chat::same_text;
use crate::events::MdEvent;
use crate::highlight::{strings_view, code_block_lines, highlights_view, joined_text, tokens_view, code_block_model, CodeToken, Rgba, TokenModel};
use crate::parse::{markdown_events_of, parse_markdown};
use crate::render::{opt_view, blocks_view, code_requests, collect_code_blocks, no_blank_ends, render_events, render_model, requests_view, RequestModel};
use crate::style::{lines_view, LineModel, Style, StyledLine};
use crate::text::{lines_of, split_lines};

verus! {

#[verifier::external_type_specification]
#[verifier::external_body]
pub struct ExSyntaxSet(SyntaxSet);

#[verifier::external_type_specification]
#[verifier::external_body]
pub struct ExThemeSet(ThemeSet);

/// Relies on syntect's `SyntaxSet::load_defaults_newlines`: the bundled grammars.
/// Like every set syntect builds, it holds the plain-text grammar.
pub assume_specification[ SyntaxSet::load_defaults_newlines ]() -> (r: SyntaxSet)
    ensures
        grammar_names(r).contains("Plain Text"@),
;

/// Relies on syntect's `ThemeSet::load_defaults`: the bundled themes.
/// Among them, as syntect documents, `base16-ocean.dark`.
pub assume_specification[ ThemeSet::load_defaults ]() -> (r: ThemeSet)
    ensures
        theme_keys(r).contains("base16-ocean.dark"@),
;

/// The name of the grammar that `SyntaxSet::find_syntax_by_token` finds in
/// `set` for `token`, if any.
pub uninterp spec fn token_grammar(set: SyntaxSet, token: Seq<char>) -> Option<Seq<char>>;

/// The name of the grammar that `SyntaxSet::find_syntax_by_extension` finds
/// in `set` for `extension`, if any.
pub uninterp spec fn extension_grammar(set: SyntaxSet, extension: Seq<char>) -> Option<Seq<char>>;

/// The names of the grammars of `set`, as `SyntaxSet::find_syntax_by_name`
/// matches them.
pub uninterp spec fn grammar_names(set: SyntaxSet) -> Set<Seq<char>>;

/// The keys of the `themes` map of `set`, in the map's order.
pub uninterp spec fn theme_keys(set: ThemeSet) -> Seq<Seq<char>>;

/// Relies on syntect's `SyntaxSet::find_syntax_by_token`: the name of the
/// grammar found for a fence token.
#[verifier::external_body]
fn grammar_by_token(set: &SyntaxSet, token: &str) -> (r: Option<String>)
    ensures
        opt_view(r) == token_grammar(*set, token@),
{
    set.find_syntax_by_token(token).map(|s| s.name.clone())
}

/// Relies on syntect's `SyntaxSet::find_syntax_by_extension`: the name of the
/// grammar found for a file extension.
#[verifier::external_body]
fn grammar_by_extension(set: &SyntaxSet, extension: &str) -> (r: Option<String>)
    ensures
        opt_view(r) == extension_grammar(*set, extension@),
{
    set.find_syntax_by_extension(extension).map(|s| s.name.clone())
}

/// Relies on the `themes` map (a `BTreeMap`) of syntect's `ThemeSet`: whether
/// it has a theme under `name`.
#[verifier::external_body]
fn has_theme(set: &ThemeSet, name: &str) -> (r: bool)
    ensures
        r == theme_keys(*set).contains(name@),
{
    set.themes.contains_key(name)
}

/// Relies on the `themes` map (a `BTreeMap`) of syntect's `ThemeSet`: its
/// first key, if it has any.
#[verifier::external_body]
fn first_theme_key(set: &ThemeSet) -> (r: Option<String>)
    ensures
        theme_keys(*set).len() == 0 ==> r is None,
        theme_keys(*set).len() > 0 ==> opt_view(r) == Some(theme_keys(*set)[0]),
{
    set.themes.keys().next().cloned()
}

/// What syntect's `HighlightLines`, made from the grammar named `grammar` of
/// `set` and the theme under key `theme` of `themes`, gives for each of
/// `lines` in turn: its tokens, or `None` for a line the grammar fails on.
/// `None` as a whole where the grammar or the theme is missing.
pub uninterp spec fn highlight_of(
    set: SyntaxSet,
    themes: ThemeSet,
    grammar: Seq<char>,
    theme: Seq<char>,
    lines: Seq<Seq<char>>,
) -> Option<Seq<Option<Seq<TokenModel>>>>;

pub open spec fn opt_highlights_view(r: Option<Vec<Option<Vec<CodeToken>>>>) -> Option<Seq<Option<Seq<TokenModel>>>> {
    match r {
        Some(hl) => Some(highlights_view(hl@)),
        None => None,
    }
}

/// Relies on syntect's `SyntaxSet::find_syntax_by_name`, the `themes` map of
/// `ThemeSet`, `HighlightLines::new` and `HighlightLines::highlight_line`
/// (given the set the grammar came from): one entry per line. The token texts
/// of a line may make only a first part of it (the highlight iterator stops
/// early where a scope cannot be restored); callers check.
#[verifier::external_body]
fn highlight_text(set: &SyntaxSet, themes: &ThemeSet, grammar: &str, theme: &str, lines: &Vec<String>) -> (r: Option<Vec<Option<Vec<CodeToken>>>>)
    ensures
        opt_highlights_view(r) == highlight_of(*set, *themes, grammar@, theme@, strings_view(lines@)),
        (r is Some) == (grammar_names(*set).contains(grammar@) && theme_keys(*themes).contains(theme@)),
        r matches Some(hl) ==> hl@.len() == lines@.len(),
{
    let mut h = HighlightLines::new(set.find_syntax_by_name(grammar)?, themes.themes.get(theme)?);
    Some(lines.iter().map(|l| h.highlight_line(l, set).ok().map(|ranges| ranges.into_iter().map(|(s, t)| CodeToken {
        fg: Rgba { r: s.foreground.r, g: s.foreground.g, b: s.foreground.b, a: s.foreground.a },
        bg: Rgba { r: s.background.r, g: s.background.g, b: s.background.b, a: s.background.a },
        font: s.font_style.bits(),
        text: t.to_string(),
    }).collect())).collect())
}

/// A line's tokens where they make the whole line, else none.
pub open spec fn keep_whole(o: Option<Seq<TokenModel>>, line: Seq<char>) -> Option<Seq<TokenModel>> {
    match o {
        Some(t) => if joined_text(t) == line { Some(t) } else { None },
        None => None,
    }
}

/// A copy of `t`.
fn copy_tokens(t: &Vec<CodeToken>) -> (r: Vec<CodeToken>)
    ensures
        tokens_view(r@) == tokens_view(t@),
{
    let mut out: Vec<CodeToken> = Vec::new();
    for i in 0..t.len()
        invariant
            tokens_view(out@) == tokens_view(t@).subrange(0, i as int),
    {
        let k = &t[i];
        let ghost before = out@;
        out.push(CodeToken { fg: k.fg, bg: k.bg, font: k.font, text: k.text.clone() });
        assert(tokens_view(out@) == tokens_view(before).push(t@[i as int]@));
        assert(tokens_view(t@).subrange(0, i + 1) == tokens_view(t@).subrange(0, i as int).push(t@[i as int]@));
    }
    assert(tokens_view(t@).subrange(0, t@.len() as int) == tokens_view(t@));
    out
}

/// The texts of `toks` put together.
fn joined_tokens(toks: &Vec<CodeToken>) -> (r: String)
    ensures
        r@ == joined_text(tokens_view(toks@)),
{
    let mut out = String::new();
    for i in 0..toks.len()
        invariant
            out@ == joined_text(tokens_view(toks@).subrange(0, i as int)),
    {
        out.append(toks[i].text.as_str());
        assert(tokens_view(toks@).subrange(0, i + 1).drop_last() == tokens_view(toks@).subrange(0, i as int));
    }
    assert(tokens_view(toks@).subrange(0, toks@.len() as int) == tokens_view(toks@));
    out
}

/// The grammar for a language token: the one found by token, else by file
/// extension, else plain text.
pub open spec fn grammar_choice(set: SyntaxSet, lang: Option<Seq<char>>) -> Seq<char> {
    match lang {
        Some(t) => match token_grammar(set, t) {
            Some(n) => n,
            None => match extension_grammar(set, t) {
                Some(n) => n,
                None => "Plain Text"@,
            },
        },
        None => "Plain Text"@,
    }
}

/// The theme: `base16-ocean.dark` where the set has it, else its first key,
/// else none.
pub open spec fn theme_choice(set: ThemeSet) -> Option<Seq<char>> {
    if theme_keys(set).contains("base16-ocean.dark"@) {
        Some("base16-ocean.dark"@)
    } else if theme_keys(set).len() > 0 {
        Some(theme_keys(set)[0])
    } else {
        None
    }
}

/// What highlighting may give for `lines`: one entry per line, and the
/// tokens of a line, where there are any, put together make that line.
pub open spec fn highlights_fit(lines: Seq<Seq<char>>, hl: Seq<Option<Seq<TokenModel>>>) -> bool {
    &&& hl.len() == lines.len()
    &&& forall|i: int| 0 <= i < hl.len() ==> (#[trigger] hl[i] matches Some(t) ==> joined_text(t) == lines[i])
}

/// No tokens for any of `n` lines.
pub open spec fn no_highlights(n: nat) -> Seq<Option<Seq<TokenModel>>> {
    Seq::new(n, |i: int| None)
}

/// The label of a code block: its language token, or `code` where none is
/// given or it is empty.
pub open spec fn code_label(lang: Option<Seq<char>>) -> Seq<char> {
    match lang {
        Some(l) => if l.len() > 0 { l } else { seq!['c', 'o', 'd', 'e'] },
        None => seq!['c', 'o', 'd', 'e'],
    }
}

/// `out` is the code block of `content` in language `lang`, for some
/// outcome of highlighting its lines.
pub open spec fn shows_code_block(content: Seq<char>, lang: Option<Seq<char>>, base: Style, out: Seq<LineModel>) -> bool {
    exists|hl: Seq<Option<Seq<TokenModel>>>|
        highlights_fit(lines_of(content), hl) && out == code_block_model(code_label(lang), lines_of(content), hl, base)
}

/// Each of `blocks` shows the code block asked for at the same place.
pub open spec fn blocks_fit(reqs: Seq<RequestModel>, blocks: Seq<Seq<LineModel>>, base: Style) -> bool {
    &&& blocks.len() == reqs.len()
    &&& forall|k: int| 0 <= k < blocks.len() ==> shows_code_block(reqs[k].content, reqs[k].lang, base, #[trigger] blocks[k])
}

/// `doc` renders `events`: the fold over them, with each code block shown as
/// the highlighter gave it.
pub open spec fn renders(events: Seq<MdEvent>, base: Style, doc: Seq<LineModel>) -> bool {
    exists|blocks: Seq<Seq<LineModel>>|
        blocks_fit(code_requests(events), blocks, base) && doc == render_model(events, base, blocks)
}

pub open spec fn str_opt_view(o: Option<&str>) -> Option<Seq<char>> {
    match o {
        Some(s) => Some(s@),
        None => None,
    }
}

/// Renders markdown into styled lines, highlighting code blocks with a
/// grammar and theme database loaded once.
pub struct MarkdownRenderer {
    pub syntax_set: SyntaxSet,
    pub theme_set: ThemeSet,
}

impl MarkdownRenderer {
    /// A renderer over syntect's bundled grammars and themes.
    pub fn new() -> (r: MarkdownRenderer)
        ensures
            r.can_highlight(None),
    {
        MarkdownRenderer { syntax_set: SyntaxSet::load_defaults_newlines(), theme_set: ThemeSet::load_defaults() }
    }

    /// The lines of the code block asked for by `q`.
    pub open spec fn code_block_of(&self, q: RequestModel, base: Style) -> Seq<LineModel> {
        code_block_model(code_label(q.lang), lines_of(q.content), self.block_highlights(q.lang, lines_of(q.content)), base)
    }

    /// The lines of the code blocks asked for by `reqs`, in order.
    pub open spec fn code_blocks(&self, reqs: Seq<RequestModel>, base: Style) -> Seq<Seq<LineModel>> {
        reqs.map_values(|q: RequestModel| self.code_block_of(q, base))
    }

    /// Whether a block in language `lang` gets highlighted at all: its
    /// grammar and the theme are both found.
    pub open spec fn can_highlight(&self, lang: Option<Seq<char>>) -> bool {
        theme_choice(self.theme_set) matches Some(t) && theme_keys(self.theme_set).contains(t)
            && grammar_names(self.syntax_set).contains(grammar_choice(self.syntax_set, lang))
    }

    /// The tokens each of `lines` gets in language `lang`: what highlighting
    /// gives for it where it makes the whole line, else none; none at all
    /// where the grammar or theme is missing.
    pub open spec fn block_highlights(&self, lang: Option<Seq<char>>, lines: Seq<Seq<char>>) -> Seq<Option<Seq<TokenModel>>> {
        let raw = match theme_choice(self.theme_set) {
            Some(t) => highlight_of(self.syntax_set, self.theme_set, grammar_choice(self.syntax_set, lang), t, lines),
            None => None,
        };
        match raw {
            Some(hl) => Seq::new(lines.len(), |i: int| keep_whole(if i < hl.len() { hl[i] } else { None }, lines[i])),
            None => no_highlights(lines.len()),
        }
    }

    /// The name of the grammar for a language token: by token, then by file
    /// extension, else plain text.
    fn syntax_for_lang(&self, lang: Option<&str>) -> (r: String)
        ensures
            r@ == grammar_choice(self.syntax_set, str_opt_view(lang)),
    {
        proof {
            reveal_strlit("Plain Text");
        }
        if let Some(token) = lang {
            if let Some(name) = grammar_by_token(&self.syntax_set, token) {
                return name;
            }
            if let Some(name) = grammar_by_extension(&self.syntax_set, token) {
                return name;
            }
        }
        "Plain Text".to_string()
    }

    /// The key of the theme: `base16-ocean.dark` where the set has it, else
    /// its first key.
    fn theme(&self) -> (r: Option<String>)
        ensures
            opt_view(r) == theme_choice(self.theme_set),
    {
        if has_theme(&self.theme_set, "base16-ocean.dark") {
            Some("base16-ocean.dark".to_string())
        } else {
            first_theme_key(&self.theme_set)
        }
    }

    /// Highlights the lines; a line whose tokens do not make the whole line,
    /// or that the grammar fails on, gets none.
    fn highlight_lines(&self, lines: &Vec<String>, lang: Option<&str>) -> (r: Vec<Option<Vec<CodeToken>>>)
        ensures
            highlights_view(r@) == self.block_highlights(str_opt_view(lang), strings_view(lines@)),
            highlights_fit(strings_view(lines@), highlights_view(r@)),
            !self.can_highlight(str_opt_view(lang)) ==> highlights_view(r@) == no_highlights(lines@.len()),
    {
        let ghost lv = strings_view(lines@);
        let grammar = self.syntax_for_lang(lang);
        let theme = self.theme();
        let raw = match &theme {
            Some(t) => highlight_text(&self.syntax_set, &self.theme_set, grammar.as_str(), t.as_str(), lines),
            None => None,
        };
        let ghost want = self.block_highlights(str_opt_view(lang), lv);
        proof {
            if raw is Some {
                assert(self.can_highlight(str_opt_view(lang)));
            }
        }
        let mut out: Vec<Option<Vec<CodeToken>>> = Vec::new();
        for i in 0..lines.len()
            invariant
                lv == strings_view(lines@),
                want == self.block_highlights(str_opt_view(lang), lv),
                opt_view(theme) == theme_choice(self.theme_set),
                grammar@ == grammar_choice(self.syntax_set, str_opt_view(lang)),
                theme is None ==> raw is None,
                theme matches Some(t) ==> opt_highlights_view(raw) == highlight_of(self.syntax_set, self.theme_set, grammar@, t@, lv),
                raw matches Some(hl) ==> hl@.len() == lines@.len(),
                out@.len() == i,
                forall|j: int| 0 <= j < i ==> #[trigger] highlights_view(out@)[j] == want[j],
        {
            let tokens = match &raw {
                Some(hl) => match &hl[i] {
                    Some(toks) => {
                        let whole = joined_tokens(toks);
                        if same_text(whole.as_str(), lines[i].as_str()) {
                            Some(copy_tokens(toks))
                        } else {
                            None
                        }
                    },
                    None => None,
                },
                None => None,
            };
            let ghost before = out@;
            out.push(tokens);
            assert(highlights_view(out@) == highlights_view(before).push(highlights_view(out@)[i as int]));
            assert(highlights_view(out@)[i as int] == want[i as int]);
        }
        assert(highlights_view(out@) =~= want);
        proof {
            assert forall|i: int| 0 <= i < want.len() implies (#[trigger] want[i] matches Some(t) ==> joined_text(t) == lv[i]) by {}
            if !self.can_highlight(str_opt_view(lang)) {
                assert(want =~= no_highlights(lv.len()));
            }
        }
        out
    }

    /// A bordered, numbered block for the code `content`, labelled with its
    /// language token (or `code`), each line highlighted where the grammar
    /// allows and in the flat fallback colour where it does not. Where no
    /// grammar or theme is found, every line is in the fallback colour.
    pub fn render_code_block(&self, content: &str, lang: Option<&str>, base: Style) -> (r: Vec<StyledLine>)
        ensures
            shows_code_block(content@, str_opt_view(lang), base, lines_view(r@)),
            lines_view(r@) == code_block_model(
                code_label(str_opt_view(lang)),
                lines_of(content@),
                self.block_highlights(str_opt_view(lang), lines_of(content@)),
                base,
            ),
            !self.can_highlight(str_opt_view(lang)) ==> lines_view(r@) == code_block_model(
                code_label(str_opt_view(lang)),
                lines_of(content@),
                no_highlights(lines_of(content@).len()),
                base,
            ),
    {
        let label = match lang {
            Some(l) => if l.is_empty() { "code" } else { l },
            None => "code",
        };
        proof {
            reveal_strlit("code");
        }
        let lines = split_lines(content);
        let highlighted = self.highlight_lines(&lines, lang);
        let r = code_block_lines(label, &lines, &highlighted, base);
        assert(label@ == code_label(str_opt_view(lang)));
        assert(highlights_fit(lines_of(content@), highlights_view(highlighted@)));
        assert(strings_view(lines@) == lines_of(content@));
        r
    }

    /// Renders `markdown` into styled lines in the surrounding `base` style.
    /// The result never starts or ends with a blank line.
    pub fn render(&self, markdown: &str, base: Style) -> (r: Vec<StyledLine>)
        ensures
            renders(markdown_events_of(markdown@), base, lines_view(r@)),
            lines_view(r@) == render_model(
                markdown_events_of(markdown@),
                base,
                self.code_blocks(code_requests(markdown_events_of(markdown@)), base),
            ),
            no_blank_ends(lines_view(r@)),
    {
        let events = parse_markdown(markdown);
        let requests = collect_code_blocks(&events);
        let ghost reqs = requests_view(requests@);
        let mut blocks: Vec<Vec<StyledLine>> = Vec::new();
        for k in 0..requests.len()
            invariant
                reqs == requests_view(requests@),
                blocks@.len() == k,
                forall|j: int| 0 <= j < k ==> shows_code_block(reqs[j].content, reqs[j].lang, base, #[trigger] blocks_view(blocks@)[j]),
                forall|j: int| 0 <= j < k ==> #[trigger] blocks_view(blocks@)[j] == self.code_block_of(reqs[j], base),
        {
            let q = &requests[k];
            let lang: Option<&str> = match &q.lang {
                Some(l) => Some(l.as_str()),
                None => None,
            };
            assert(str_opt_view(lang) == reqs[k as int].lang);
            let block = self.render_code_block(q.content.as_str(), lang, base);
            let ghost before = blocks@;
            blocks.push(block);
            assert forall|j: int| 0 <= j < k + 1 implies shows_code_block(reqs[j].content, reqs[j].lang, base, #[trigger] blocks_view(blocks@)[j]) by {
                if j < k {
                    assert(blocks_view(blocks@)[j] == blocks_view(before)[j]);
                }
            }
            assert forall|j: int| 0 <= j < k + 1 implies #[trigger] blocks_view(blocks@)[j] == self.code_block_of(reqs[j], base) by {
                if j < k {
                    assert(blocks_view(blocks@)[j] == blocks_view(before)[j]);
                }
            }
        }
        assert(blocks_view(blocks@) =~= self.code_blocks(reqs, base));
        let r = render_events(&events, base, &blocks);
        assert(blocks_fit(code_requests(events@), blocks_view(blocks@), base));
        assert(renders(events@, base, lines_view(r@)));
        r
    }
}

} // verus!
