//! What the Logs page shows of an entry.

use crate::geometry::Rect;
use crate::log::{Level, LogEntry};
use crate::pages::logs::{
    daemon_spans, entry_spans, inside_border, level_color, log_lines, log_ops, log_rows,
    without_newlines,
};
use crate::scene::{Color, SpanView, Wrap};
use crate::wrap::{held, rows_of};
use vstd::prelude::*;

verus! {

/// Each severity has its own colour, and errors stand out in red.
pub proof fn severities_can_be_told_apart(a: Level, b: Level)
    ensures
        level_color(a) == level_color(b) <==> a == b,
        level_color(a) == Color::Red <==> a == Level::Error,
        level_color(a) == Color::Yellow <==> a == Level::Warn,
        level_color(a) == Color::Green <==> a == Level::Info,
        level_color(a) == Color::Cyan <==> a == Level::Debug,
        level_color(a) == Color::DarkGray <==> a == Level::Trace,
{
}

/// The log has one line for each entry, in order, and is never blank.
pub proof fn every_entry_has_its_line(entries: Seq<LogEntry>)
    ensures
        entries.len() > 0 ==> log_lines(entries).len() == entries.len(),
        forall|i: int|
            0 <= i < entries.len() ==> #[trigger] log_lines(entries)[i] == entry_spans(entries[i]),
        entries.len() == 0 ==> log_lines(entries).len() == 1 && log_lines(entries)[0].len() == 1
            && log_lines(entries)[0][0] is Styled && log_lines(entries)[0][0]->Styled_content
            == "No log entries yet."@,
{
}

/// An entry of this program is shown as it was printed, in the colour of its
/// severity; a line of the daemon begins with a mark that says so.
pub proof fn entries_tell_where_they_come_from(entry: LogEntry)
    ensures
        entry_spans(entry).len() > 0,
        entry_spans(entry)[0] is Styled,
        match entry {
            LogEntry::Tui { level, text } => {
                &&& entry_spans(entry).len() == 1
                &&& entry_spans(entry)[0]->Styled_content == text@
                &&& entry_spans(entry)[0]->Styled_style.fg == Some(level_color(level))
            },
            LogEntry::Daemon { .. } => {
                &&& entry_spans(entry)[0]->Styled_content == "[daemon] "@
                &&& entry_spans(entry)[0]->Styled_style.fg == Some(Color::Magenta)
            },
        },
{
}

/// A line of the daemon that could not be read is shown as it stands; of one that
/// could, the first line is shown, piece by piece.
pub proof fn daemon_lines_lose_nothing(
    text: Seq<char>,
    parsed: Option<Seq<Seq<crate::ansi::AnsiSpanView>>>,
)
    ensures
        parsed is None ==> daemon_spans(text, parsed).len() == 2 && daemon_spans(
            text,
            parsed,
        )[1] is Styled && daemon_spans(text, parsed)[1]->Styled_content == text,
        parsed is Some && parsed->0.len() == 0 ==> daemon_spans(text, parsed).len() == 1,
        parsed is Some && parsed->0.len() > 0 ==> {
            let line = parsed->0[0];
            &&& daemon_spans(text, parsed).len() == 1 + line.len()
            &&& forall|i: int|
                0 <= i < line.len() ==> daemon_spans(text, parsed)[1 + i] == (SpanView::Ansi {
                    content: (#[trigger] line[i]).content,
                    look: line[i].look,
                })
        },
{
}

/// Only newlines are cut off, only at the end, and all of them.
pub proof fn only_newlines_are_cut_off(text: Seq<char>)
    ensures
        ({
            let kept = without_newlines(text);
            &&& kept.len() <= text.len()
            &&& kept == text.take(kept.len() as int)
            &&& forall|i: int| kept.len() <= i < text.len() ==> #[trigger] text[i] == '\n'
            &&& kept.len() > 0 ==> kept.last() != '\n'
        }),
    decreases text.len(),
{
    if text.len() > 0 && text.last() == '\n' {
        let less = text.drop_last();
        only_newlines_are_cut_off(less);
        let kept = without_newlines(text);
        assert(kept =~= text.take(kept.len() as int));
        assert forall|i: int| kept.len() <= i < text.len() implies #[trigger] text[i] == '\n' by {
            if i < less.len() {
                assert(less[i] == text[i]);
            }
        }
    } else {
        assert(text =~= text.take(text.len() as int));
    }
}

/// The panel has a scrollbar exactly where the log does not fit and there is room
/// for one; text and bar both stand at the row that the window begins with.
pub proof fn the_scrollbar_follows_the_text(
    text: Seq<Seq<SpanView>>,
    area: Rect,
    rows: u16,
    scroll: u16,
)
    ensures
        ({
            let ops = log_ops(text, area, rows, scroll);
            let bar = rows + 2 > area.height && rows > 0 && area.width > 0 && area.height > 2;
            &&& ops.len() == if bar {
                3int
            } else {
                2int
            }
            &&& ops[0] is Border && ops[0]->Border_area == area && ops[0]->title == "Logs"@
            &&& ops[1] is Text && ops[1]->text == text && ops[1]->scroll == scroll
            &&& bar ==> ops[2] is Scrollbar && ops[2]->total == rows && ops[2]->offset == scroll
                && ops[2]->viewport == area.height - 2
        }),
{
}

/// Inside its border the panel has two cells less each way, as far as there are any.
pub proof fn the_border_takes_a_cell_on_each_side(area: Rect)
    requires
        area.x + area.width <= u16::MAX,
        area.y + area.height <= u16::MAX,
    ensures
        area.width >= 2 && area.height >= 2 ==> inside_border(area) == (Rect {
            x: (area.x + 1) as u16,
            y: (area.y + 1) as u16,
            width: (area.width - 2) as u16,
            height: (area.height - 2) as u16,
        }),
        area.width < 2 ==> inside_border(area).width == 0 && inside_border(area).x == area.x
            + area.width,
        area.height < 2 ==> inside_border(area).height == 0 && inside_border(area).y == area.y
            + area.height,
{
}

/// The rows of the log are counted as they are drawn: as wide as the inside of the
/// panel, and with the blanks at the start of a row kept.
pub proof fn rows_are_counted_as_they_are_drawn(
    entries: Seq<LogEntry>,
    area: Rect,
    scroll: u16,
)
    ensures
        ({
            let op = log_ops(log_lines(entries), area, log_rows(entries, area), scroll)[1];
            log_rows(entries, area) == held(
                rows_of(op->text, op->wrap == Wrap::Trim, op->Text_area.width),
            ) && op->wrap == Wrap::Keep
        }),
{
}

} // verus!
