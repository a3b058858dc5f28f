//! What the pages are built on: text, time, wrapping, layout and log lines.

use mullvad_tui::app::select_location::PageState;
use mullvad_tui::app::{logs, App, PageId};
use mullvad_tui::components::centered_column;
use mullvad_tui::daemon::Timestamp;
use mullvad_tui::focus::{row_id_or_none, WidgetId};
use mullvad_tui::geometry::Rect;
use mullvad_tui::log::{Level, LogEntry};
use mullvad_tui::pages::logs::{daemon_line, format_log_line};
use mullvad_tui::pages::page_area;
use mullvad_tui::scene::{Color, TextBlock, TextLine, TextSpan};
use mullvad_tui::text::{decimal, signed_decimal, text_less};
use mullvad_tui::text_set::TextSet;
use mullvad_tui::time::{format_local, format_with_offset, DATE, DATE_AND_TIME};
use mullvad_tui::wrap::{hold, row_count, WIDEST};
use ratatui::layout::{Constraint, Layout};

fn at(seconds: i64) -> Timestamp {
    Timestamp { seconds, nanos: 0 }
}

// ---- Time ----

#[test]
fn moments_read_in_the_given_zone() {
    let t = at(1_806_582_840);
    assert_eq!(format_with_offset(t, 0, DATE), "2027-04-01");
    assert_eq!(format_with_offset(t, 0, DATE_AND_TIME), "Apr 1, 2027 12:34 PM");
    assert_eq!(format_with_offset(t, 12 * 3600, DATE_AND_TIME), "Apr 2, 2027 12:34 AM");
    assert_eq!(format_with_offset(t, -13 * 3600, DATE), "2027-03-31");
}

#[test]
fn local_time_is_some_zone_of_the_world() {
    let t = at(1_806_582_840);
    let local = format_local(t, DATE_AND_TIME);
    let known = (-18 * 60..=18 * 60)
        .any(|minutes| format_with_offset(t, minutes * 60, DATE_AND_TIME) == local);
    assert!(known, "{local:?}");
}

// ---- Wrapping ----

fn block(lines: &[&str]) -> TextBlock {
    let mut block = TextBlock::new();
    for line in lines {
        block.push_raw(line);
    }
    block
}

#[test]
fn long_lines_take_more_rows() {
    assert_eq!(row_count(&block(&["one two three"]), false, 40), 1);
    assert_eq!(row_count(&block(&["one two three"]), false, 8), 2);
    assert_eq!(row_count(&block(&["one", "", "two"]), true, 8), 3);
    assert_eq!(row_count(&block(&["one two three"]), true, 0), 0);
    assert_eq!(row_count(&block(&[]), true, 10), 0);
}

#[test]
fn the_widest_paragraph_wraps() {
    let letters = "x".repeat(70_000);
    assert_eq!(row_count(&block(&[letters.as_str()]), true, WIDEST), 5);
    assert_eq!(row_count(&block(&[letters.as_str()]), false, WIDEST), 5);
    let wide = format!("x{}", "\u{ff9e}".repeat(usize::from(WIDEST) - 1));
    let mixed = format!("a {}{wide}{wide}{wide}{wide}", "b".repeat(usize::from(WIDEST) - 3));
    assert!(row_count(&block(&[mixed.as_str()]), true, WIDEST) > 0);
    assert!(row_count(&block(&[mixed.as_str()]), false, WIDEST) > 0);
}

#[test]
fn heights_are_held_to_coordinates() {
    assert_eq!(hold(7), 7);
    assert_eq!(hold(65535), 65535);
    assert_eq!(hold(65536), 65535);
}

// ---- Layout ----

fn amount(c: &Constraint) -> u16 {
    match c {
        Constraint::Length(n) | Constraint::Min(n) => *n,
        _ => unreachable!(),
    }
}

/// `parts` are the starts and lengths of the parts of `size` cells from `start`.
fn check_parts(constraints: &[Constraint], start: u16, size: u16, parts: &[(u16, u16)]) {
    assert_eq!(parts.len(), constraints.len());
    let total: u32 = constraints.iter().map(|c| u32::from(amount(c))).sum();
    let growing = constraints.iter().filter(|c| matches!(c, Constraint::Min(_))).count();
    let fits = total <= u32::from(size) && growing <= 3;
    let mut next = start;
    for (constraint, (at, len)) in constraints.iter().zip(parts.iter().copied()) {
        assert!(at >= start && at + len <= start + size, "{constraints:?} in {size}");
        if fits {
            assert_eq!(at, next, "{constraints:?} in {size}");
            match constraint {
                Constraint::Length(n) => assert_eq!(len, *n, "{constraints:?} in {size}"),
                Constraint::Min(n) => assert!(len >= *n, "{constraints:?} in {size}"),
                _ => unreachable!(),
            }
            next = at + len;
        }
    }
    if fits && constraints.iter().any(|c| matches!(c, Constraint::Min(_))) {
        assert_eq!(next, start + size, "{constraints:?} in {size}");
    }
}

fn check_rows(constraints: &[Constraint], start: u16, size: u16) {
    let rows = Layout::vertical(constraints.to_vec())
        .split(ratatui::layout::Rect::new(3, start, 20, size));
    assert!(rows.iter().all(|r| (r.x, r.width) == (3, 20)));
    let parts: Vec<(u16, u16)> = rows.iter().map(|r| (r.y, r.height)).collect();
    check_parts(constraints, start, size, &parts);
    let columns = Layout::horizontal(constraints.to_vec())
        .split(ratatui::layout::Rect::new(start, 3, size, 20));
    assert!(columns.iter().all(|r| (r.y, r.height) == (3, 20)));
    let parts: Vec<(u16, u16)> = columns.iter().map(|r| (r.x, r.width)).collect();
    check_parts(constraints, start, size, &parts);
}

#[test]
fn parts_that_fit_get_what_they_ask_for() {
    let lists = [
        vec![Constraint::Length(1); 16],
        vec![Constraint::Length(1), Constraint::Min(0)],
        vec![Constraint::Min(0), Constraint::Length(1), Constraint::Length(3)],
        vec![Constraint::Length(3), Constraint::Min(1), Constraint::Length(1), Constraint::Length(2)],
        vec![
            Constraint::Min(1),
            Constraint::Length(3),
            Constraint::Min(1),
            Constraint::Length(3),
            Constraint::Min(1),
        ],
        vec![Constraint::Min(7), Constraint::Length(2), Constraint::Min(1), Constraint::Min(0)],
        vec![
            Constraint::Length(1),
            Constraint::Length(0),
            Constraint::Length(5),
            Constraint::Min(3),
            Constraint::Length(1),
            Constraint::Min(1),
        ],
    ];
    for constraints in &lists {
        for height in 0..40 {
            check_rows(constraints, 0, height);
            check_rows(constraints, 7, height);
        }
    }
    let many: Vec<Constraint> = std::iter::repeat(Constraint::Length(1)).take(120).collect();
    check_rows(&many, 2, 120);
    check_rows(&many, 2, 200);
}

fn check_many(seed: u64, cases: u32) {
    let mut seed: u64 = seed;
    let mut next = |below: u64| -> u16 {
        seed = seed.wrapping_mul(6_364_136_223_846_793_005).wrapping_add(1_442_695_040_888_963_407);
        ((seed >> 33) % below) as u16
    };
    for _ in 0..cases {
        let parts = 1 + next(20);
        let constraints: Vec<Constraint> = (0..parts)
            .map(|_| {
                let n = next(9);
                if next(3) == 0 {
                    Constraint::Min(n)
                } else {
                    Constraint::Length(n)
                }
            })
            .collect();
        let start = next(50);
        let height = next(160);
        check_rows(&constraints, start, height);
    }
}

#[test]
fn parts_of_many_kinds_that_fit_get_what_they_ask_for() {
    check_many(2024, 60);
}

#[test]
fn rectangles_end_inside_the_coordinates() {
    assert_eq!(Rect::new(1, 2, 3, 4), Rect { x: 1, y: 2, width: 3, height: 4 });
    let cut = Rect::new(65530, 65534, 10, 10);
    assert_eq!(cut, Rect { x: 65530, y: 65534, width: 5, height: 1 });
}

// ---- Log lines ----

fn spans(line: &TextLine) -> Vec<(String, Option<Color>, Option<String>)> {
    line.spans
        .iter()
        .map(|span| match span {
            TextSpan::Styled { content, style } => (content.clone(), style.fg, None),
            TextSpan::Ansi { content, look } => (content.clone(), None, look.fg.clone()),
            TextSpan::Cursor { .. } | TextSpan::Spinner { .. } => panic!("unexpected span"),
        })
        .collect()
}

#[test]
fn entries_of_this_program_are_coloured_by_level() {
    for (level, color) in [
        (Level::Error, Some(Color::Red)),
        (Level::Warn, Some(Color::Yellow)),
        (Level::Trace, Some(Color::DarkGray)),
    ] {
        let line = format_log_line(&LogEntry::Tui { level, text: "hello".to_string() });
        let shown = spans(&line);
        let text: String = shown.iter().map(|s| s.0.as_str()).collect();
        assert!(text.contains("hello"), "{text:?}");
        assert!(shown.iter().any(|s| s.1 == color), "{shown:?}");
    }
}

#[test]
fn escape_sequences_of_the_daemon_become_colours() {
    let line = format_log_line(&LogEntry::Daemon { line: "\u{1b}[31mred\u{1b}[0m plain\n".to_string() });
    let shown = spans(&line);
    let text: String = shown.iter().map(|s| s.0.as_str()).collect();
    assert!(text.ends_with("red plain"), "{text:?}");
    assert!(!text.contains('\u{1b}'));
    assert!(shown.iter().any(|s| s.0 == "red" && s.2.as_deref() == Some("Red")), "{shown:?}");
}

#[test]
fn a_line_that_cannot_be_parsed_is_shown_as_it_is() {
    let shown = spans(&daemon_line("raw text", None));
    assert_eq!(shown.last().map(|s| (s.0.as_str(), s.1)), Some(("raw text", Some(Color::Magenta))));
}

// ---- Text ----

#[test]
fn numbers_in_decimal() {
    assert_eq!(decimal(0), "0");
    assert_eq!(decimal(u64::MAX), u64::MAX.to_string());
    assert_eq!(signed_decimal(-17), "-17");
    assert_eq!(signed_decimal(i32::MIN), i32::MIN.to_string());
}

#[test]
fn texts_are_ordered_as_the_standard_library_orders_them() {
    let words = ["", "a", "ab", "b", "Z", "é", "ö", "zz", "日本"];
    for a in words {
        for b in words {
            assert_eq!(text_less(a, b), a < b, "{a:?} {b:?}");
        }
    }
}

#[test]
fn sets_hold_a_text_once() {
    let mut set = TextSet::new();
    set.insert("a");
    set.insert("a");
    set.insert("b");
    assert!(set.contains("a") && set.contains("b") && !set.contains("c"));
    set.remove("a");
    assert!(!set.contains("a") && set.contains("b"));
    set.remove("b");
    assert!(set.is_empty());
}

// ---- State ----

#[test]
fn rows_past_the_last_id_have_none() {
    assert_eq!(row_id_or_none(0, 16, 0x100), Some(WidgetId(0x100)));
    assert_eq!(row_id_or_none(15, 16, 0x100), Some(WidgetId(0x10f)));
    assert_eq!(row_id_or_none(16, 16, 0x100), None);
    assert_eq!(row_id_or_none(usize::MAX, 16, 0x100), None);
}

#[test]
fn a_new_app_has_nothing_open() {
    let app = App::new();
    assert!(app.settings.is_none() && app.connection.is_none() && app.account.is_none());
    assert!(app.relay_locations.is_empty() && app.log_buffer.is_empty());
    assert!(!app.status_state.connection_details_expanded);
    assert!(!app.account_state.account_number_visible);
    assert_eq!(app.settings_state.mtu_buffer, "");
    assert_eq!(app.logs_state.effective_scroll(50, 10), 40);
    assert_eq!(app.select_location_state.query(), "");
    assert_eq!(app.select_location_state.scroll_offset(), 0);
    assert!(app.filter_state.all_providers_selected());
    assert_eq!(app.page, PageId::Status);
    assert!(!app.quit);
}

#[test]
fn a_column_stands_in_the_middle() {
    let area = Rect::new(3, 2, 80, 24);
    assert_eq!(centered_column(area, 50), Rect::new(18, 2, 50, 24));
    assert_eq!(centered_column(area, 80), area);
    assert_eq!(centered_column(area, 200), area);
}

#[test]
fn status_and_logs_take_the_whole_body() {
    let area = Rect::new(3, 2, 80, 24);
    assert_eq!(page_area(PageId::Status, area, 50), area);
    assert_eq!(page_area(PageId::Logs, area, 50), area);
    for page in [PageId::Account, PageId::SettingsVpn, PageId::SelectLocationFilter] {
        assert_eq!(page_area(page, area, 50), Rect::new(18, 2, 50, 24));
    }
}

#[test]
fn leaving_a_sub_page_undoes_entering_it() {
    let mut app = App::new();
    app.focused = Some(WidgetId(0x42));
    app.enter_sub_page(PageId::SettingsVpn);
    assert_eq!(app.page, PageId::SettingsVpn);
    app.leave_sub_page();
    assert_eq!(app.page, PageId::Status);
    assert_eq!(app.focused, Some(WidgetId(0x42)));
}

#[test]
fn expanding_is_undone_by_collapsing() {
    let mut state = PageState::new();
    state.expand_country("se");
    state.expand_country("se");
    state.expand_city("se", "got");
    assert!(state.is_country_expanded("se") && state.is_city_expanded("se", "got"));
    assert!(!state.is_city_expanded("no", "got"));
    state.collapse_city("se", "got");
    state.collapse_country("se");
    assert!(!state.is_country_expanded("se") && !state.is_city_expanded("se", "got"));
}

#[test]
fn the_log_window_follows_its_tail_until_pinned() {
    let mut state = logs::PageState::new();
    assert_eq!(state.effective_scroll(50, 10), 40);
    assert_eq!(state.effective_scroll(5, 10), 0);
    state.scroll_to_top();
    assert_eq!(state.effective_scroll(50, 10), 0);
    state.page_down(50, 10);
    assert_eq!(state.effective_scroll(50, 10), 10);
    for _ in 0..4 {
        state.page_down(50, 10);
    }
    assert_eq!(state.effective_scroll(60, 10), 50);
}
