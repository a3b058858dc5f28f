//! Text with escape sequences that colour it.

use vstd::prelude::*;

verus! {

/// A stretch of text in one style, as an escape sequence set it. Colours are
/// held by name, and modifiers as bit sets.
#[derive(Debug)]
pub struct AnsiSpan {
    pub content: String,
    pub look: AnsiLook,
}

/// The style of such a stretch.
#[derive(Debug)]
pub struct AnsiLook {
    pub fg: Option<String>,
    pub bg: Option<String>,
    pub underline: Option<String>,
    pub add_modifier: u16,
    pub sub_modifier: u16,
}

/// The style of such a stretch, over texts.
#[verifier::ext_equal]
pub struct AnsiLookView {
    pub fg: Option<Seq<char>>,
    pub bg: Option<Seq<char>>,
    pub underline: Option<Seq<char>>,
    pub add_modifier: u16,
    pub sub_modifier: u16,
}

/// An optional text.
pub open spec fn text_view(s: Option<String>) -> Option<Seq<char>> {
    match s {
        Some(s) => Some(s@),
        None => None,
    }
}

impl View for AnsiLook {
    type V = AnsiLookView;

    open spec fn view(&self) -> AnsiLookView {
        AnsiLookView {
            fg: text_view(self.fg),
            bg: text_view(self.bg),
            underline: text_view(self.underline),
            add_modifier: self.add_modifier,
            sub_modifier: self.sub_modifier,
        }
    }
}

/// A stretch of text in one style, over texts.
#[verifier::ext_equal]
pub struct AnsiSpanView {
    pub content: Seq<char>,
    pub look: AnsiLookView,
}

impl View for AnsiSpan {
    type V = AnsiSpanView;

    open spec fn view(&self) -> AnsiSpanView {
        AnsiSpanView { content: self.content@, look: self.look@ }
    }
}

/// The spans in `spans`, over texts.
pub open spec fn ansi_span_views(spans: Seq<AnsiSpan>) -> Seq<AnsiSpanView> {
    spans.map_values(|s: AnsiSpan| s@)
}

/// Parsed lines, over texts; none where parsing failed.
pub open spec fn ansi_views(lines: Option<Vec<Vec<AnsiSpan>>>) -> Option<Seq<Seq<AnsiSpanView>>> {
    match lines {
        Some(lines) => Some(lines@.map_values(|l: Vec<AnsiSpan>| ansi_span_views(l@))),
        None => None,
    }
}

/// The lines that `text` stands for, with its escape sequences turned into
/// styles; none where they cannot be parsed.
pub uninterp spec fn ansi_lines(text: Seq<char>) -> Option<Seq<Seq<AnsiSpanView>>>;

/// Turn the escape sequences in `text` into styles.
///
/// Calls `ansi_to_tui::IntoText::into_text`. Stated of the result: it depends
/// on `text` alone. Not stated: what it is.
#[verifier::external_body]
pub(crate) fn parse_ansi(text: &str) -> (r: Option<Vec<Vec<AnsiSpan>>>)
    ensures
        ansi_views(r) == ansi_lines(text@),
{
    let parsed = ansi_to_tui::IntoText::into_text(&text).ok()?;
    let convert = |s: ratatui::text::Span<'static>| AnsiSpan {
        content: s.content.into_owned(),
        look: AnsiLook {
            fg: s.style.fg.map(|c| c.to_string()),
            bg: s.style.bg.map(|c| c.to_string()),
            underline: s.style.underline_color.map(|c| c.to_string()),
            add_modifier: s.style.add_modifier.bits(),
            sub_modifier: s.style.sub_modifier.bits(),
        },
    };
    Some(parsed.lines.into_iter().map(|l| l.spans.into_iter().map(convert).collect()).collect())
}

} // verus!
