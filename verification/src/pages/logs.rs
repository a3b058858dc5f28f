//! The Logs page: the latest entries of the log in a bordered panel.
//!
//! The page has no widgets. Its window follows the newest entry until the user
//! pins it.

use crate::ansi::{ansi_lines, ansi_span_views, ansi_views, parse_ansi, AnsiSpan, AnsiSpanView};
use crate::app::logs::PageState;
use crate::app::App;
use crate::components::{less, minus};
use crate::geometry::{on_screen, rect, Rect};
use crate::log::{Level, LogEntry};
use crate::scene::{
    fg_style, no_style, raw_line, span, styled_span, Color, Op, OpView, Scene, SpanView, Style,
    TextBlock, TextLine, TextSpan, Wrap,
};
use crate::text::{chars, from_chars, owned};
use crate::wrap::{held, hold, row_count, rows_of, WIDEST};
use vstd::prelude::*;

pub mod laws;

verus! {

/// The colour of a level.
pub open spec fn level_color(level: Level) -> Color {
    match level {
        Level::Error => Color::Red,
        Level::Warn => Color::Yellow,
        Level::Info => Color::Green,
        Level::Debug => Color::Cyan,
        Level::Trace => Color::DarkGray,
    }
}

/// `s` without the line breaks at its end.
pub open spec fn without_newlines(s: Seq<char>) -> Seq<char>
    decreases s.len(),
{
    if s.len() > 0 && s.last() == '\n' {
        without_newlines(s.drop_last())
    } else {
        s
    }
}

/// A span that an escape sequence styled.
pub open spec fn ansi_span(s: AnsiSpanView) -> SpanView {
    SpanView::Ansi { content: s.content, look: s.look }
}

/// A line of the daemon's log: a prefix, and the first line of what its escape
/// sequences were parsed to, or the bare text where they could not be parsed.
pub open spec fn daemon_spans(
    text: Seq<char>,
    parsed: Option<Seq<Seq<AnsiSpanView>>>,
) -> Seq<SpanView> {
    let prefix = seq![styled_span("[daemon] "@, fg_style(Color::Magenta))];
    match parsed {
        Some(lines) => if lines.len() > 0 {
            prefix + lines[0].map_values(|s: AnsiSpanView| ansi_span(s))
        } else {
            prefix
        },
        None => prefix.push(styled_span(text, fg_style(Color::Magenta))),
    }
}

/// The line that shows a log entry.
pub open spec fn entry_spans(entry: LogEntry) -> Seq<SpanView> {
    match entry {
        LogEntry::Tui { level, text } => seq![styled_span(text@, fg_style(level_color(level)))],
        LogEntry::Daemon { line } => {
            let text = without_newlines(line@);
            daemon_spans(text, ansi_lines(text))
        },
    }
}

/// The lines that show the log.
pub open spec fn log_lines(entries: Seq<LogEntry>) -> Seq<Seq<SpanView>> {
    if entries.len() == 0 {
        seq![raw_line("No log entries yet."@)]
    } else {
        entries.map_values(|e: LogEntry| entry_spans(e))
    }
}

/// What is inside the border of `area`.
pub open spec fn inside_border(area: Rect) -> Rect {
    Rect {
        x: if area.width > 0 {
            (area.x + 1) as u16
        } else {
            area.x
        },
        y: if area.height > 0 {
            (area.y + 1) as u16
        } else {
            area.y
        },
        width: less(area.width, 2),
        height: less(area.height, 2),
    }
}

/// The rows that the log takes in `area`.
pub open spec fn log_rows(entries: Seq<LogEntry>, area: Rect) -> u16 {
    held(rows_of(log_lines(entries), false, inside_border(area).width))
}

/// What the page draws: the border, the entries from `scroll` on, and a
/// scrollbar over the right border where they take more than the panel has.
pub open spec fn log_ops(text: Seq<Seq<SpanView>>, area: Rect, rows: u16, scroll: u16) -> Seq<
    OpView,
> {
    let inner = inside_border(area);
    let panel = seq![
        OpView::Border { area, title: "Logs"@ },
        OpView::Text { area: inner, text, wrap: Wrap::Keep, scroll, style: no_style() },
    ];
    if rows > inner.height && area.width >= 1 && area.height >= 3 {
        panel.push(
            OpView::Scrollbar {
                area: rect(
                    (area.x + area.width - 1) as u16,
                    (area.y + 1) as u16,
                    1,
                    (area.height - 2) as u16,
                ),
                total: rows as usize,
                offset: scroll as usize,
                viewport: inner.height as usize,
            },
        )
    } else {
        panel
    }
}

fn trim_newlines(text: &str) -> (r: String)
    ensures
        r@ == without_newlines(text@),
{
    let mut v = chars(text);
    while v.len() > 0 && v[v.len() - 1] == '\n'
        invariant
            without_newlines(v@) == without_newlines(text@),
        decreases v.len(),
    {
        let ghost before = v@;
        v.pop();
        assert(v@ =~= before.drop_last());
    }
    from_chars(&v)
}

/// A line of the daemon's log, from its text and what that was parsed to.
pub fn daemon_line(text: &str, parsed: Option<Vec<Vec<AnsiSpan>>>) -> (r: TextLine)
    ensures
        r@ == daemon_spans(text@, ansi_views(parsed)),
{
    let magenta = Style::new().fg(Color::Magenta);
    let mut line = TextLine::styled("[daemon] ", magenta);
    match parsed {
        Some(lines) => {
            let ghost all = ansi_views(Some(lines))->0;
            let mut lines = lines;
            if lines.len() > 0 {
                let first: Vec<AnsiSpan> = lines.remove(0);
                assert(all[0] == ansi_span_views(first@));
                let ghost shown = all[0].map_values(|s: AnsiSpanView| ansi_span(s));
                let ghost prefix = line@;
                assert(line@ =~= prefix + shown.take(0));
                for s in it: first
                    invariant
                        shown == ansi_span_views(it.seq()).map_values(
                            |s: AnsiSpanView| ansi_span(s),
                        ),
                        line@ == prefix + shown.take(it.index() as int),
                {
                    let ghost n = it.index() as int;
                    assert(shown[n] == ansi_span(s@));
                    assert(shown.take(n + 1) =~= shown.take(n).push(shown[n]));
                    line.push(TextSpan::Ansi { content: s.content, look: s.look });
                    assert(line@ =~= prefix + shown.take(n + 1));
                }
                assert(shown.take(shown.len() as int) =~= shown);
            }
        },
        None => {
            line.push(span(text, magenta));
        },
    }
    line
}

/// The line that shows a log entry. Entries of this program take the colour of
/// their level; lines of the daemon keep the colours they came with.
pub fn format_log_line(entry: &LogEntry) -> (r: TextLine)
    ensures
        r@ == entry_spans(*entry),
{
    match entry {
        LogEntry::Tui { level, text } => {
            let color = match *level {
                Level::Error => Color::Red,
                Level::Warn => Color::Yellow,
                Level::Info => Color::Green,
                Level::Debug => Color::Cyan,
                Level::Trace => Color::DarkGray,
            };
            TextLine::styled(text.as_str(), Style::new().fg(color))
        },
        LogEntry::Daemon { line } => {
            let text = trim_newlines(line.as_str());
            let parsed = parse_ansi(text.as_str());
            daemon_line(text.as_str(), parsed)
        },
    }
}

fn format_log(entries: &Vec<LogEntry>) -> (r: TextBlock)
    ensures
        r@ == log_lines(entries@),
{
    let mut text = TextBlock::new();
    if entries.len() == 0 {
        text.push_raw("No log entries yet.");
        assert(text@ =~= log_lines(entries@));
        return text;
    }
    let ghost all = log_lines(entries@);
    let mut i: usize = 0;
    assert(text@ =~= all.take(0));
    while i < entries.len()
        invariant
            i <= entries.len(),
            entries.len() > 0,
            all == log_lines(entries@),
            text@ == all.take(i as int),
        decreases entries.len() - i,
    {
        text.push(format_log_line(&entries[i]));
        assert(all.take(i + 1) =~= all.take(i as int).push(all[i as int]));
        i = i + 1;
    }
    assert(all.take(i as int) =~= all);
    text
}

/// Draw the page, and take note of the size of the log and of its window.
pub fn render(area: Rect, app: &mut App) -> (scene: Scene)
    requires
        on_screen(area),
        area.width <= WIDEST,
    ensures
        ({
            let rows = log_rows(old(app).log_buffer@, area);
            let height = inside_border(area).height;
            &&& scene@ == log_ops(
                log_lines(old(app).log_buffer@),
                area,
                rows,
                old(app).logs_state.top(rows, height),
            )
            &&& final(app).logs_state == old(app).logs_state.sized(rows, height)
            &&& *final(app) == (App {
                logs_state: PageState { total: rows, viewport: height, ..old(app).logs_state },
                ..*old(app)
            })
        }),
{
    let inner = Rect {
        x: if area.width > 0 {
            area.x + 1
        } else {
            area.x
        },
        y: if area.height > 0 {
            area.y + 1
        } else {
            area.y
        },
        width: minus(area.width, 2),
        height: minus(area.height, 2),
    };
    let text = format_log(&app.log_buffer);
    let rows: u16 = hold(row_count(&text, false, inner.width));
    let scroll: u16 = app.logs_state.effective_scroll(rows, inner.height);
    app.logs_state.record_dimensions(rows, inner.height);
    let mut scene = Scene::new();
    scene.push(Op::Border { area, title: owned("Logs") });
    scene.push(Op::Text { area: inner, text, wrap: Wrap::Keep, scroll, style: Style::new() });
    if rows > inner.height && area.width >= 1 && area.height >= 3 {
        scene.push(
            Op::Scrollbar {
                area: Rect::new(area.x + area.width - 1, area.y + 1, 1, area.height - 2),
                total: rows as usize,
                offset: scroll as usize,
                viewport: inner.height as usize,
            },
        );
    }
    assert(scene@ =~= log_ops(log_lines(old(app).log_buffer@), area, rows, scroll));
    scene
}

} // verus!
