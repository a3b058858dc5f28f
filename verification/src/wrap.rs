//! How many rows text takes once it wraps.

use crate::scene::{SpanView, TextBlock, TextSpan};
use vstd::prelude::*;

verus! {

/// The widest that a paragraph which wraps may be.
pub const WIDEST: u16 = 16_383;

/// The rows that lines made of such spans take in a paragraph `width` cells
/// wide that wraps, with the blanks at the start of a line trimmed or not.
pub uninterp spec fn wrapped_rows(lines: Seq<Seq<Seq<char>>>, trim: bool, width: u16) -> nat;

/// The texts in `spans`.
pub open spec fn string_views(spans: Seq<String>) -> Seq<Seq<char>> {
    spans.map_values(|s: String| s@)
}

/// The texts in `lines`, span by span.
pub open spec fn content_views(lines: Seq<Vec<String>>) -> Seq<Seq<Seq<char>>> {
    lines.map_values(|l: Vec<String>| string_views(l@))
}

/// The rows that `lines` take in a paragraph that wraps at `width`.
///
/// Calls `ratatui::widgets::Paragraph::line_count` on a paragraph with
/// `Wrap { trim }`. Stated of the result: it depends on the text of the spans,
/// on `trim` and on `width` alone, and is 0 where `width` is 0. Not stated: how
/// text breaks into rows. The call adds up cell widths in 16 bits, up to four
/// times `width` where characters are as wide as that, so a wider paragraph is
/// left out.
#[verifier::external_body]
fn count_rows(lines: &Vec<Vec<String>>, trim: bool, width: u16) -> (n: usize)
    requires
        width <= WIDEST,
    ensures
        n == wrapped_rows(content_views(lines@), trim, width),
        width == 0 ==> n == 0,
{
    let text: Vec<ratatui::text::Line<'_>> = lines
        .iter()
        .map(|l| l.iter().map(|s| ratatui::text::Span::raw(s.as_str())).collect())
        .collect();
    ratatui::widgets::Paragraph::new(text).wrap(ratatui::widgets::Wrap { trim }).line_count(width)
}

/// The text of a span. The cursor and the spinner take one cell.
pub open spec fn content_of(span: SpanView) -> Seq<char> {
    match span {
        SpanView::Styled { content, .. } => content,
        SpanView::Ansi { content, .. } => content,
        SpanView::Cursor { .. } => " "@,
        SpanView::Spinner { .. } => " "@,
    }
}

/// The texts of lines, span by span.
pub open spec fn contents(text: Seq<Seq<SpanView>>) -> Seq<Seq<Seq<char>>> {
    text.map_values(|l: Seq<SpanView>| l.map_values(|s: SpanView| content_of(s)))
}

/// The rows that `text` takes once it wraps at `width`.
pub open spec fn rows_of(text: Seq<Seq<SpanView>>, trim: bool, width: u16) -> nat {
    wrapped_rows(contents(text), trim, width)
}

fn span_content(span: &TextSpan) -> (r: String)
    ensures
        r@ == content_of(span@),
{
    match span {
        TextSpan::Styled { content, .. } => content.clone(),
        TextSpan::Ansi { content, .. } => content.clone(),
        TextSpan::Cursor { .. } => crate::text::owned(" "),
        TextSpan::Spinner { .. } => crate::text::owned(" "),
    }
}

/// The rows that `text` takes once it wraps at `width`.
pub fn row_count(text: &TextBlock, trim: bool, width: u16) -> (n: usize)
    requires
        width <= WIDEST,
    ensures
        n == rows_of(text@, trim, width),
        width == 0 ==> n == 0,
{
    let mut lines: Vec<Vec<String>> = Vec::new();
    let mut i: usize = 0;
    assert(content_views(lines@) =~= contents(text@.take(0)));
    while i < text.lines.len()
        invariant
            i <= text.lines.len(),
            content_views(lines@) == contents(text@.take(i as int)),
        decreases text.lines.len() - i,
    {
        let ghost line = text@[i as int];
        assert(line == text.lines@[i as int]@);
        let mut spans: Vec<String> = Vec::new();
        let mut j: usize = 0;
        let ghost all = line.map_values(|s: SpanView| content_of(s));
        assert(string_views(spans@) =~= all.take(0));
        while j < text.lines[i as usize].spans.len()
            invariant
                i < text.lines.len(),
                line == text.lines@[i as int]@,
                all == line.map_values(|s: SpanView| content_of(s)),
                j <= text.lines@[i as int].spans.len(),
                string_views(spans@) == all.take(j as int),
            decreases text.lines@[i as int].spans.len() - j,
        {
            assert(line[j as int] == text.lines@[i as int].spans@[j as int]@);
            let ghost spans0 = spans@;
            spans.push(span_content(&text.lines[i].spans[j]));
            assert(string_views(spans@) =~= string_views(spans0).push(all[j as int]));
            assert(all.take(j + 1) =~= all.take(j as int).push(all[j as int]));
            j = j + 1;
        }
        assert(all.take(j as int) =~= all);
        let ghost lines0 = lines@;
        lines.push(spans);
        assert(content_views(lines@) =~= content_views(lines0).push(all));
        assert(contents(text@.take(i + 1)) =~= contents(text@.take(i as int)).push(all));
        i = i + 1;
    }
    assert(text@.take(i as int) =~= text@);
    count_rows(&lines, trim, width)
}

/// A number of rows, held to what a coordinate can be.
pub open spec fn held(n: nat) -> u16 {
    if n > u16::MAX {
        u16::MAX
    } else {
        n as u16
    }
}

/// A number of rows, held to what a coordinate can be.
pub fn hold(n: usize) -> (r: u16)
    ensures
        r == held(n as nat),
{
    if n > 65535 {
        65535
    } else {
        n as u16
    }
}

/// A count that fits is held as it is, and a larger one as the largest that fits.
pub proof fn counts_are_held_where_they_fit(n: nat, m: nat)
    ensures
        n <= u16::MAX ==> held(n) == n,
        n <= m ==> held(n) <= held(m),
        held(n) <= n,
        n > u16::MAX ==> held(n) == u16::MAX,
{
}

/// What is counted is what is seen: the text of each span, and one cell for a
/// cursor or a spinner.
pub proof fn every_span_is_counted(text: Seq<Seq<SpanView>>, i: int, j: int)
    requires
        0 <= i < text.len(),
        0 <= j < text[i].len(),
    ensures
        contents(text).len() == text.len(),
        contents(text)[i].len() == text[i].len(),
        text[i][j] is Styled ==> contents(text)[i][j] == text[i][j]->Styled_content,
        text[i][j] is Ansi ==> contents(text)[i][j] == text[i][j]->Ansi_content,
        text[i][j] is Cursor || text[i][j] is Spinner ==> contents(text)[i][j].len() == 1,
{
    reveal_strlit(" ");
}

} // verus!
