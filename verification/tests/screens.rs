//! What the pages look like on a terminal.

use mullvad_tui::app::select_location::NodeKind;
use mullvad_tui::app::{App, PageId};
use mullvad_tui::daemon::{
    DaitaSettings, DnsBlockers, DnsSettings, LocationConstraint, ObfuscationSettings,
    RelayLocation, RelaySettings, SelectedObfuscation, Settings, SplitTunnelSettings,
};
use mullvad_tui::focus::{ArrowDir, WidgetId};
use mullvad_tui::geometry;
use mullvad_tui::log::{Level, LogEntry};
use mullvad_tui::pages::select_location::enter_with_current_selection_focused;
use mullvad_tui::pages::select_location::view::render_search_row;
use mullvad_tui::pages::select_location::widgets::{
    COUNTRY_CHEVRON_BASE, COUNTRY_RADIO_BASE, SEARCH_ANCHOR,
};
use mullvad_tui::pages::settings::root::{Versions, REPO_URL};
use mullvad_tui::pages::settings::vpn::{render_vpn_input_row, render_vpn_toggle_row};
use mullvad_tui::pages::settings::widgets::{VPN_LAN_INFO, VPN_LAN_TOGGLE, VPN_MTU_EDIT};
use mullvad_tui::pages::{account, logs, select_location, select_location_filter, settings};
use mullvad_tui::scene::{Op, Scene, TextBlock, TextSpan, Wrap};
use ratatui::buffer::Buffer;
use ratatui::layout::Rect;
use ratatui::style::{Color, Modifier, Style};
use ratatui::text::{Line, Span};
use ratatui::widgets::{
    Block, Paragraph, Scrollbar, ScrollbarOrientation, ScrollbarState, StatefulWidget, Widget,
};

// ---- A terminal to look at ----

fn area_of(r: &geometry::Rect) -> Rect {
    Rect::new(r.x, r.y, r.width, r.height)
}

fn color_of(c: mullvad_tui::scene::Color) -> Color {
    match c {
        mullvad_tui::scene::Color::Reset => Color::Reset,
        mullvad_tui::scene::Color::Black => Color::Black,
        mullvad_tui::scene::Color::Red => Color::Red,
        mullvad_tui::scene::Color::Green => Color::Green,
        mullvad_tui::scene::Color::Yellow => Color::Yellow,
        mullvad_tui::scene::Color::Blue => Color::Blue,
        mullvad_tui::scene::Color::Magenta => Color::Magenta,
        mullvad_tui::scene::Color::Cyan => Color::Cyan,
        mullvad_tui::scene::Color::Gray => Color::Gray,
        mullvad_tui::scene::Color::DarkGray => Color::DarkGray,
        mullvad_tui::scene::Color::LightRed => Color::LightRed,
        mullvad_tui::scene::Color::LightGreen => Color::LightGreen,
        mullvad_tui::scene::Color::LightYellow => Color::LightYellow,
        mullvad_tui::scene::Color::LightBlue => Color::LightBlue,
        mullvad_tui::scene::Color::LightMagenta => Color::LightMagenta,
        mullvad_tui::scene::Color::LightCyan => Color::LightCyan,
        mullvad_tui::scene::Color::White => Color::White,
        mullvad_tui::scene::Color::Rgb(r, g, b) => Color::Rgb(r, g, b),
        mullvad_tui::scene::Color::Indexed(i) => Color::Indexed(i),
    }
}

fn style_of(s: &mullvad_tui::scene::Style) -> Style {
    let mut style = Style::default();
    style.fg = s.fg.map(color_of);
    style.bg = s.bg.map(color_of);
    style.add_modifier = Modifier::from_bits_truncate(s.add_modifier);
    style.sub_modifier = Modifier::from_bits_truncate(s.sub_modifier);
    style
}

fn lines_of(text: &TextBlock) -> Vec<Line<'static>> {
    text.lines
        .iter()
        .map(|line| {
            Line::from(
                line.spans
                    .iter()
                    .map(|span| match span {
                        TextSpan::Styled { content, style } => {
                            Span::styled(content.clone(), style_of(style))
                        }
                        TextSpan::Ansi { content, .. } => Span::raw(content.clone()),
                        TextSpan::Cursor { bg } => {
                            Span::styled("█", Style::new().fg(Color::Yellow).bg(color_of(*bg)))
                        }
                        TextSpan::Spinner { style, .. } => Span::styled("⠋", style_of(style)),
                    })
                    .collect::<Vec<_>>(),
            )
        })
        .collect()
}

fn button_style(focused: bool) -> Style {
    if focused {
        Style::new().fg(Color::Yellow)
    } else {
        Style::new()
    }
}

fn right_end(area: Rect, width: u16) -> Rect {
    let x = area.x + area.width.saturating_sub(width);
    Rect::new(x, area.y, width.min(area.width), 1)
}

fn paint(scene: &Scene, buf: &mut Buffer) {
    for op in &scene.ops {
        match op {
            Op::Text { area, text, wrap, scroll, style } => {
                let paragraph = Paragraph::new(lines_of(text))
                    .style(style_of(style))
                    .scroll((*scroll, 0));
                let paragraph = match wrap {
                    Wrap::Cut => paragraph,
                    Wrap::Keep => paragraph.wrap(ratatui::widgets::Wrap { trim: false }),
                    Wrap::Trim => paragraph.wrap(ratatui::widgets::Wrap { trim: true }),
                };
                paragraph.render(area_of(area), buf);
            }
            Op::Border { area, title } => {
                Block::bordered().title(title.clone()).render(area_of(area), buf);
            }
            Op::Button { area, label, focused, .. } => {
                Paragraph::new(format!("[{label}]"))
                    .style(button_style(*focused))
                    .render(area_of(area), buf);
            }
            Op::RunningButton { area, label, style, .. } => {
                Paragraph::new(format!("[{label}]"))
                    .style(style_of(style))
                    .render(area_of(area), buf);
            }
            Op::CenteredButton { area, label, focused, .. } => {
                Paragraph::new(format!("[{label}]"))
                    .style(button_style(*focused))
                    .centered()
                    .render(area_of(area), buf);
            }
            Op::LabelButtonRow { area, label, button, focused, .. } => {
                Paragraph::new(label.clone()).render(area_of(area), buf);
                let width = button.chars().count() as u16 + 2;
                Paragraph::new(format!("[{button}]"))
                    .style(button_style(*focused))
                    .render(right_end(area_of(area), width), buf);
            }
            Op::Scrollbar { area, total, offset, viewport } => {
                let mut state = ScrollbarState::new(total.saturating_sub(*viewport) + 1)
                    .position(*offset)
                    .viewport_content_length(*viewport);
                Scrollbar::new(ScrollbarOrientation::VerticalRight)
                    .begin_symbol(None)
                    .end_symbol(None)
                    .render(area_of(area), buf, &mut state);
            }
            Op::Globe { .. }
            | Op::Register { .. }
            | Op::ClickTarget { .. }
            | Op::EndRow
            | Op::BeginScrollGroup
            | Op::EndScrollGroup => {}
        }
    }
}

fn drawn(scene: &Scene, width: u16, height: u16) -> Buffer {
    let mut buf = Buffer::empty(Rect::new(0, 0, width, height));
    paint(scene, &mut buf);
    buf
}

fn row_of(buf: &Buffer, y: u16) -> String {
    (0..buf.area.width).map(|x| buf[(x, y)].symbol()).collect()
}

fn screen_of(scene: &Scene, width: u16, height: u16) -> Vec<String> {
    let buf = drawn(scene, width, height);
    (0..height)
        .map(|y| row_of(&buf, y).trim_end().to_string())
        .collect()
}

fn whole(width: u16, height: u16) -> geometry::Rect {
    geometry::Rect::new(0, 0, width, height)
}

// ---- Where the focus can go ----

struct Registry {
    rows: Vec<Vec<(WidgetId, Rect)>>,
    groups: Vec<(usize, usize)>,
    clicks: Vec<(WidgetId, Rect)>,
}

impl Registry {
    fn of(scene: &Scene) -> Registry {
        let mut registry = Registry { rows: Vec::new(), groups: Vec::new(), clicks: Vec::new() };
        let mut row: Vec<(WidgetId, Rect)> = Vec::new();
        let mut group_start = 0;
        for op in &scene.ops {
            match op {
                Op::Button { area, id, .. }
                | Op::RunningButton { area, id, .. }
                | Op::Register { area, id, .. } => row.push((*id, area_of(area))),
                Op::CenteredButton { area, id, .. } | Op::LabelButtonRow { area, id, .. } => {
                    row.push((*id, area_of(area)));
                    registry.rows.push(std::mem::take(&mut row));
                }
                Op::ClickTarget { area, id } => registry.clicks.push((*id, area_of(area))),
                Op::EndRow => {
                    if !row.is_empty() {
                        registry.rows.push(std::mem::take(&mut row));
                    }
                }
                Op::BeginScrollGroup => group_start = registry.rows.len(),
                Op::EndScrollGroup => registry.groups.push((group_start, registry.rows.len())),
                Op::Text { .. } | Op::Border { .. } | Op::Scrollbar { .. } | Op::Globe { .. } => {}
            }
        }
        if !row.is_empty() {
            registry.rows.push(row);
        }
        registry
    }

    fn place(&self, id: WidgetId) -> Option<(usize, usize)> {
        for (r, row) in self.rows.iter().enumerate() {
            for (c, cell) in row.iter().enumerate() {
                if cell.0 == id {
                    return Some((r, c));
                }
            }
        }
        None
    }

    fn first_in_row(&self, row: usize) -> Option<WidgetId> {
        self.rows.get(row).map(|r| r[0].0)
    }

    fn group_of(&self, id: WidgetId) -> Option<(usize, usize)> {
        let (row, _) = self.place(id)?;
        self.groups.iter().copied().find(|g| g.0 <= row && row < g.1)
    }

    fn first_in_scroll_group(&self, id: WidgetId) -> Option<WidgetId> {
        let group = self.group_of(id)?;
        self.first_in_row(group.0)
    }

    fn move_within(&self, id: WidgetId, delta: isize, first: usize, end: usize) -> Option<WidgetId> {
        let (row, _) = self.place(id)?;
        let target = (row as isize + delta).clamp(first as isize, end as isize - 1);
        self.first_in_row(target as usize)
    }

    fn move_rows(&self, id: WidgetId, delta: isize) -> Option<WidgetId> {
        self.move_within(id, delta, 0, self.rows.len())
    }

    fn move_rows_in_scroll_group(&self, id: WidgetId, delta: isize) -> Option<WidgetId> {
        let (first, end) = self.group_of(id)?;
        self.move_within(id, delta, first, end)
    }

    fn navigate(&self, id: WidgetId, dir: ArrowDir) -> Option<WidgetId> {
        let (r, c) = self.place(id)?;
        let x = self.rows[r][c].1.x;
        match dir {
            ArrowDir::Up => r.checked_sub(1).and_then(|above| self.first_in_row(above)),
            ArrowDir::Down => self.first_in_row(r + 1),
            ArrowDir::Left => self.rows[r]
                .iter()
                .filter(|cell| cell.1.x < x)
                .max_by_key(|cell| cell.1.x)
                .map(|cell| cell.0),
            ArrowDir::Right => self.rows[r]
                .iter()
                .filter(|cell| cell.1.x > x)
                .min_by_key(|cell| cell.1.x)
                .map(|cell| cell.0),
        }
    }

    fn hit_test(&self, x: u16, y: u16) -> Option<WidgetId> {
        let inside = |area: &Rect| {
            area.x <= x && x < area.x + area.width && area.y <= y && y < area.y + area.height
        };
        self.clicks
            .iter()
            .chain(self.rows.iter().flatten())
            .find(|cell| inside(&cell.1))
            .map(|cell| cell.0)
    }
}

// ---- Applications to draw ----

fn default_settings() -> Settings {
    Settings {
        relay_settings: RelaySettings::Normal {
            exit: LocationConstraint::Country("se".to_string()),
            entry: LocationConstraint::Country("se".to_string()),
        },
        use_multihop: false,
        ip_version: None,
        allow_lan: false,
        lockdown_mode: false,
        auto_connect: false,
        enable_ipv6: true,
        quantum_resistant: true,
        mtu: None,
        daita: DaitaSettings { enabled: false, use_multihop_if_necessary: true },
        obfuscation_settings: ObfuscationSettings {
            selected_obfuscation: SelectedObfuscation::Auto,
            udp2tcp_port: None,
            shadowsocks_port: None,
            wireguard_port: None,
        },
        dns: DnsSettings {
            custom: false,
            addresses: Vec::new(),
            blockers: DnsBlockers {
                ads: false,
                trackers: false,
                malware: false,
                adult_content: false,
                gambling: false,
                social_media: false,
            },
        },
        split_tunnel: SplitTunnelSettings { enabled: false, apps: Vec::new() },
        api_access_methods: Vec::new(),
        relay_overrides: Vec::new(),
    }
}

fn settings_multihop_daita(multihop: bool, daita_overrides_entry: bool) -> Settings {
    let mut settings = default_settings();
    settings.use_multihop = multihop;
    if daita_overrides_entry {
        settings.daita.enabled = true;
        settings.daita.use_multihop_if_necessary = true;
    }
    settings
}

fn settings_with_location(location: LocationConstraint) -> Settings {
    let mut settings = default_settings();
    settings.relay_settings = RelaySettings::Normal {
        exit: location,
        entry: LocationConstraint::Country("se".to_string()),
    };
    settings
}

fn relay(hostname: &str, country: (&str, &str), city: (&str, &str)) -> RelayLocation {
    RelayLocation {
        hostname: hostname.to_string(),
        country_code: country.0.to_string(),
        country_name: country.1.to_string(),
        city_code: city.0.to_string(),
        city_name: city.1.to_string(),
    }
}

fn test_app_with_relays() -> App {
    let mut app = App::new();
    app.relay_locations = vec![
        relay("se-got-wg-001", ("se", "Sweden"), ("got", "Gothenburg")),
        relay("us-nyc-wg-001", ("us", "USA"), ("nyc", "New York")),
        relay("us-lax-wg-001", ("us", "USA"), ("lax", "Los Angeles")),
    ];
    app
}

fn test_app_with_many_relays() -> App {
    let mut app = App::new();
    app.relay_locations = vec![
        relay("ar-bue-wg-001", ("ar", "Argentina"), ("bue", "Buenos Aires")),
        relay("au-bne-wg-301", ("au", "Australia"), ("bne", "Brisbane")),
        relay("au-syd-wg-001", ("au", "Australia"), ("syd", "Sydney")),
        relay("de-fra-wg-001", ("de", "Germany"), ("fra", "Frankfurt")),
        relay("se-got-wg-001", ("se", "Sweden"), ("got", "Gothenburg")),
        relay("us-lax-wg-001", ("us", "USA"), ("lax", "Los Angeles")),
        relay("us-nyc-wg-001", ("us", "USA"), ("nyc", "New York")),
        relay("us-nyc-wg-002", ("us", "USA"), ("nyc", "New York")),
    ];
    app
}

fn test_app_with_fifty_countries() -> App {
    let mut app = App::new();
    for i in 0..50u32 {
        app.relay_locations.push(RelayLocation {
            hostname: format!("c{i:02}-aa-wg-001"),
            country_name: format!("Country{i:02}"),
            country_code: format!("c{i:02}"),
            city_name: "AlphaCity".into(),
            city_code: "aa".into(),
        });
    }
    app
}

fn render_screen(app: &mut App, width: u16, height: u16) -> Vec<String> {
    let scene = select_location::render(whole(width, height), app);
    screen_of(&scene, width, height)
}

fn registry_of(app: &mut App, width: u16, height: u16) -> Registry {
    Registry::of(&select_location::render(whole(width, height), app))
}

// ---- Select location ----

#[test]
fn entry_exit_tabs_render_only_with_multihop() {
    let mut app = test_app_with_relays();

    let lines = render_screen(&mut app, 50, 20);
    assert!(
        !lines.iter().any(|l| l.contains("[Entry]")),
        "no Entry/Exit tabs when multihop is off",
    );

    app.settings = Some(settings_multihop_daita(true, false));
    let lines = render_screen(&mut app, 50, 20);
    assert!(
        lines
            .iter()
            .any(|l| l.contains("[Entry]") && l.contains("[Exit]")),
        "Entry/Exit tabs appear when multihop is on",
    );
}

#[test]
fn entry_mode_renders_daita_override_message_without_a_tree() {
    let mut app = test_app_with_relays();
    app.settings = Some(settings_multihop_daita(true, true));
    app.select_location_state.set_node_mode(NodeKind::Entry);

    let lines = render_screen(&mut app, 60, 20);
    assert!(
        lines.iter().any(|l| l.contains("DAITA")),
        "Entry tab shows the DAITA-override message",
    );
    assert!(
        !lines.iter().any(|l| l.contains("Sweden")),
        "the entry tree is hidden while DAITA overrides the entry",
    );
    assert!(
        lines
            .iter()
            .any(|l| l.contains("[Entry]") && l.contains("[Exit]")),
    );
}

#[test]
fn search_anchor_is_wrapped_with_focusable_brackets() {
    for focused_now in [true, false] {
        let scene = render_search_row(
            whole(50, 1),
            "",
            focused_now.then_some(WidgetId(SEARCH_ANCHOR)),
        );
        let buf = drawn(&scene, 50, 1);
        let cell_at = |x: u16| buf[(x, 0)].symbol();
        let open = (0..buf.area.width)
            .find(|&x| cell_at(x) == "[")
            .unwrap_or_else(|| panic!("anchor `[` missing (focused={focused_now})"));
        let close = ((open + 1)..buf.area.width)
            .find(|&x| cell_at(x) == "]")
            .unwrap_or_else(|| panic!("anchor `]` missing (focused={focused_now})"));
        assert_eq!(open, 0, "anchor `[` must sit at the row's left edge");
        assert!(close > open, "brackets out of order");

        let expected_fg = if focused_now {
            Color::Yellow
        } else {
            Color::White
        };
        assert_eq!(
            buf[(open, 0)].fg,
            expected_fg,
            "open bracket fg should track focus (focused={focused_now})",
        );
        assert_eq!(
            buf[(close, 0)].fg,
            expected_fg,
            "close bracket fg should track focus (focused={focused_now})",
        );
    }
}

#[test]
fn overflowing_tree_renders_only_visible_window_in_order() {
    let mut app = App::new();
    let mut relays = Vec::new();
    for i in 0..50u32 {
        let code = format!("c{i:02}");
        let country_name = format!("Country{i:02}");
        relays.push(RelayLocation {
            hostname: format!("{code}-aa-wg-001"),
            country_name: country_name.clone(),
            country_code: code.clone(),
            city_name: "AlphaCity".into(),
            city_code: "aa".into(),
        });
        relays.push(RelayLocation {
            hostname: format!("{code}-bb-wg-001"),
            country_name,
            country_code: code,
            city_name: "BetaCity".into(),
            city_code: "bb".into(),
        });
    }
    app.relay_locations = relays;
    app.select_location_state.expand_country("c01");

    let screen = render_screen(&mut app, 50, 30);
    let body: Vec<&String> = screen
        .iter()
        .skip(1)
        .filter(|line| !line.is_empty())
        .collect();
    let firsts: Vec<&String> = body.iter().take(6).copied().collect();
    assert!(firsts[0].contains("Country00"), "row 0: {}", firsts[0]);
    assert!(firsts[1].contains("Country01"), "row 1: {}", firsts[1]);
    assert!(firsts[2].contains("AlphaCity"), "row 2: {}", firsts[2]);
    assert!(firsts[3].contains("BetaCity"), "row 3: {}", firsts[3]);
    assert!(firsts[4].contains("Country02"), "row 4: {}", firsts[4]);
    assert!(firsts[5].contains("Country03"), "row 5: {}", firsts[5]);
    for (idx, line) in firsts.iter().enumerate() {
        assert!(
            !line.contains("ity") || line.contains("Cit"),
            "row {idx} has city-name fragment bleed: {line}",
        );
    }
}

#[test]
fn overflow_renders_a_scrollbar_in_the_rightmost_column() {
    let mut app = test_app_with_fifty_countries();
    let screen = render_screen(&mut app, 50, 30);
    let bar_glyphs = ['║', '█', '▌', '▐', '┃', '│'];
    let bar_present = (2..screen.len()).any(|y| {
        screen[y]
            .chars()
            .last()
            .is_some_and(|c| bar_glyphs.contains(&c))
    });
    assert!(
        bar_present,
        "scrollbar should render in the rightmost column when the tree overflows; \
         screen:\n{}",
        screen.join("\n"),
    );
}

#[test]
fn no_overflow_means_no_scrollbar() {
    let mut app = test_app_with_relays();
    let screen = render_screen(&mut app, 50, 30);
    let bar_glyphs = ['║', '█', '▌', '▐', '┃'];
    let bar_present = (2..screen.len()).any(|y| {
        screen[y]
            .chars()
            .last()
            .is_some_and(|c| bar_glyphs.contains(&c))
    });
    assert!(
        !bar_present,
        "scrollbar should NOT appear when the tree fits; screen:\n{}",
        screen.join("\n"),
    );
}

#[test]
fn page_down_then_render_scrolls_far_down_the_tree() {
    let mut app = test_app_with_fifty_countries();
    app.focused = Some(WidgetId(COUNTRY_RADIO_BASE));
    let registry = registry_of(&mut app, 50, 30);
    let mut cursor = WidgetId(COUNTRY_RADIO_BASE);
    for _ in 0..3 {
        cursor = registry
            .move_rows(cursor, 10)
            .expect("PgDn should land somewhere");
    }
    app.focused = Some(cursor);
    let screen = render_screen(&mut app, 50, 30);
    let saw_country30 = screen.iter().any(|line| line.contains("Country30"));
    let saw_country00 = screen.iter().any(|line| line.contains("Country00"));
    assert!(
        saw_country30 && !saw_country00,
        "PgDn x 3 should scroll Country30 into view and Country00 out; \
         screen:\n{}",
        screen.join("\n"),
    );
}

#[test]
fn home_in_the_tree_does_not_escape_to_the_search_anchor() {
    let mut app = test_app_with_relays();
    let registry = registry_of(&mut app, 50, 30);
    let second_country_id = WidgetId(COUNTRY_RADIO_BASE + 1);
    app.focused = Some(second_country_id);
    let target = registry
        .first_in_scroll_group(second_country_id)
        .or_else(|| registry.first_in_row(0));
    assert_eq!(
        target,
        Some(WidgetId(COUNTRY_RADIO_BASE)),
        "Home should clamp to the first tree row, not the search anchor",
    );
}

#[test]
fn page_up_from_top_tree_row_does_not_escape_above_the_list() {
    let mut app = test_app_with_fifty_countries();
    app.focused = Some(WidgetId(COUNTRY_RADIO_BASE));
    let registry = registry_of(&mut app, 50, 30);
    let target = registry
        .move_rows_in_scroll_group(WidgetId(COUNTRY_RADIO_BASE), -100)
        .or_else(|| registry.move_rows(WidgetId(COUNTRY_RADIO_BASE), -100));
    assert_eq!(
        target,
        Some(WidgetId(COUNTRY_RADIO_BASE)),
        "PgUp at the top of the tree should stay on the first country, \
         not escape to the search anchor",
    );
}

#[test]
fn focused_off_screen_row_scrolls_into_view() {
    let mut app = test_app_with_fifty_countries();
    app.focused = Some(WidgetId(COUNTRY_RADIO_BASE + 40));
    let screen = render_screen(&mut app, 50, 30);
    let saw_country40 = screen.iter().any(|line| line.contains("Country40"));
    assert!(
        saw_country40,
        "Country40 should be visible after scroll; screen:\n{}",
        screen.join("\n"),
    );
}

#[test]
fn dump_screen_when_country_and_city_are_expanded() {
    let mut app = test_app_with_many_relays();
    app.select_location_state.expand_country("au");
    app.select_location_state.expand_city("au", "bne");
    let screen = render_screen(&mut app, 50, 30);
    let mut order: Vec<&str> = Vec::new();
    for line in &screen {
        for needle in [
            "Argentina",
            "Australia",
            "Brisbane",
            "au-bne-wg-301",
            "Sydney",
            "Germany",
            "Sweden",
            "USA",
        ] {
            if line.contains(needle) {
                order.push(needle);
            }
        }
    }
    assert_eq!(
        order,
        vec![
            "Argentina",
            "Australia",
            "Brisbane",
            "au-bne-wg-301",
            "Sydney",
            "Germany",
            "Sweden",
            "USA",
        ],
        "rows should appear in tree order, screen:\n{}",
        screen.join("\n"),
    );
}

#[test]
fn country_name_match_shows_cities_collapsed_when_no_hostname_matches() {
    let mut app = test_app_with_relays();
    app.page = PageId::SelectLocation;
    for ch in "usa".chars() {
        app.select_location_state.query.push(ch);
    }
    let screen = render_screen(&mut app, 50, 12);
    let any_line_with = |needle: &str| screen.iter().any(|line| line.contains(needle));
    assert!(
        any_line_with("USA"),
        "country header rendered:\n{}",
        screen.join("\n")
    );
    assert!(
        any_line_with("Los Angeles"),
        "city visible:\n{}",
        screen.join("\n")
    );
    assert!(
        any_line_with("New York"),
        "sibling city visible:\n{}",
        screen.join("\n")
    );
    assert!(
        !any_line_with("us-lax-wg-001"),
        "city should not be force-expanded when only the country name matched:\n{}",
        screen.join("\n"),
    );
    assert!(
        !any_line_with("us-nyc-wg-001"),
        "city should not be force-expanded when only the country name matched:\n{}",
        screen.join("\n"),
    );
}

#[test]
fn manually_expanded_name_matched_city_renders_its_full_relay_list() {
    let mut app = test_app_with_relays();
    app.page = PageId::SelectLocation;
    for ch in "usa".chars() {
        app.select_location_state.query.push(ch);
    }
    let before = render_screen(&mut app, 50, 12);
    assert!(
        !before.iter().any(|line| line.contains("us-lax-wg-001")),
        "city is collapsed by default under a name-only match:\n{}",
        before.join("\n"),
    );

    app.select_location_state.expand_city("us", "lax");
    let after = render_screen(&mut app, 50, 12);
    assert!(
        after.iter().any(|line| line.contains("us-lax-wg-001")),
        "manual expansion must render the city's full relay list:\n{}",
        after.join("\n"),
    );
}

#[test]
fn city_name_match_shows_city_collapsed_when_no_hostname_matches() {
    let mut app = test_app_with_relays();
    app.page = PageId::SelectLocation;
    for ch in "gothen".chars() {
        app.select_location_state.query.push(ch);
    }
    let screen = render_screen(&mut app, 50, 12);
    let any_line_with = |needle: &str| screen.iter().any(|line| line.contains(needle));
    assert!(any_line_with("Sweden"));
    assert!(any_line_with("Gothenburg"));
    assert!(
        !any_line_with("se-got-wg-001"),
        "city should not be force-expanded when only the city name matched:\n{}",
        screen.join("\n"),
    );
}

#[test]
fn typing_a_pure_hostname_match_renders_subtree_force_expanded() {
    let mut app = test_app_with_many_relays();
    app.page = PageId::SelectLocation;
    assert!(!app.select_location_state.is_country_expanded("au"));
    for ch in "301".chars() {
        app.select_location_state.query.push(ch);
    }
    let screen = render_screen(&mut app, 50, 18);
    let any_line_with = |needle: &str| screen.iter().any(|line| line.contains(needle));
    assert!(
        any_line_with("Australia"),
        "country row visible:\n{}",
        screen.join("\n"),
    );
    assert!(
        any_line_with("Brisbane"),
        "matched relay's city row visible:\n{}",
        screen.join("\n"),
    );
    assert!(
        any_line_with("au-bne-wg-301"),
        "matched relay row force-expanded:\n{}",
        screen.join("\n"),
    );
    assert!(
        !any_line_with("Sydney"),
        "sibling city without a match is pruned:\n{}",
        screen.join("\n"),
    );
}

#[test]
fn typing_a_city_code_match_keeps_city_collapsed_until_manual_expand() {
    let mut app = test_app_with_relays();
    app.page = PageId::SelectLocation;
    for ch in "lax".chars() {
        app.select_location_state.query.push(ch);
    }
    let screen = render_screen(&mut app, 50, 12);
    let any_line_with = |needle: &str| screen.iter().any(|line| line.contains(needle));
    assert!(any_line_with("USA"));
    assert!(any_line_with("Los Angeles"));
    assert!(
        !any_line_with("us-lax-wg-001"),
        "city-code match must not auto-expand the relay row:\n{}",
        screen.join("\n"),
    );
    assert!(!any_line_with("Sweden"));
    assert!(!any_line_with("New York"));
}

#[test]
fn expanding_country_lists_cities_directly_below_it() {
    let mut app = test_app_with_relays();
    app.select_location_state.expand_country("us");
    let screen = render_screen(&mut app, 50, 12);
    let usa_idx = screen
        .iter()
        .position(|line| line.contains("USA"))
        .expect("USA row present");
    assert!(
        screen[usa_idx + 1].contains("Los Angeles"),
        "Los Angeles should land on the row directly below USA, screen:\n{}",
        screen.join("\n"),
    );
    assert!(
        screen[usa_idx + 2].contains("New York"),
        "New York should land on the second row below USA, screen:\n{}",
        screen.join("\n"),
    );
}

#[test]
fn opening_with_hostname_selection_centres_relay_in_visible_window() {
    let mut app = App::new();
    let mut relays = Vec::with_capacity(30);
    for i in 0..30u32 {
        relays.push(RelayLocation {
            hostname: format!("us-nyc-wg-{i:03}"),
            country_name: "USA".into(),
            country_code: "us".into(),
            city_name: "New York".into(),
            city_code: "nyc".into(),
        });
    }
    app.relay_locations = relays;
    app.settings = Some(settings_with_location(LocationConstraint::Hostname(
        "us-nyc-wg-015".to_string(),
    )));

    enter_with_current_selection_focused(&mut app);
    let _ = render_screen(&mut app, 50, 12);
    let offset = app.select_location_state.scroll_offset();
    assert!(
        offset > 0,
        "expected centered offset to scroll past the top; got {offset}",
    );
    let _ = render_screen(&mut app, 50, 12);
    assert!(
        !app.select_location_state.center_focused,
        "center request should be one-shot; renderer must clear it",
    );
}

#[test]
fn rendered_chevron_rect_is_hit_testable_to_chevron_widget_id() {
    let mut app = test_app_with_relays();
    let registry = registry_of(&mut app, 60, 12);
    let screen = render_screen(&mut app, 60, 12);
    let se_row = screen
        .iter()
        .position(|line| line.contains("Sweden"))
        .expect("Sweden row visible") as u16;
    let line = &screen[se_row as usize];
    let chevron_col = line.chars().count() as u16 - 1;
    let chevron_hit = registry.hit_test(chevron_col, se_row);
    assert_eq!(
        chevron_hit,
        Some(WidgetId(COUNTRY_CHEVRON_BASE)),
        "rightmost cell of Sweden row should hit-test to the country-0 chevron",
    );
    let leading = line.chars().take_while(|c| *c == ' ').count() as u16;
    let radio_hit = registry.hit_test(leading + 2, se_row);
    assert_eq!(
        radio_hit,
        Some(WidgetId(COUNTRY_RADIO_BASE)),
        "label column on Sweden row should still hit the country radio",
    );
}


#[test]
fn only_the_selected_city_is_marked_among_cities_of_one_code() {
    let mut app = App::new();
    app.relay_locations = vec![
        relay("ca-van-wg-001", ("ca", "Canada"), ("van", "Vancouver")),
        relay("us-van-wg-001", ("us", "USA"), ("van", "Vancouver")),
    ];
    app.settings = Some(settings_with_location(LocationConstraint::City {
        country: "us".to_string(),
        city: "van".to_string(),
    }));
    app.select_location_state.expand_country("ca");
    app.select_location_state.expand_country("us");
    let screen = render_screen(&mut app, 50, 12);
    let rows: Vec<&String> = screen.iter().filter(|line| line.contains("Vancouver")).collect();
    assert_eq!(rows.len(), 2);
    assert!(rows[0].contains("( )"), "{rows:?}");
    assert!(rows[1].contains("(•)"), "{rows:?}");
}

// ---- Settings ----

fn settings_screen(app: &App) -> String {
    let versions = Versions { tui: "0.9.1", targeted_daemon: "2026.2" };
    screen_of(&settings::render(whole(50, 24), app, &versions), 50, 24).join("\n")
}

#[test]
fn settings_root_renders_app_info_block_at_the_bottom() {
    let mut app = App::new();
    app.daemon_version = Some("2026.4".to_string());
    let screen = settings_screen(&app);
    assert!(
        screen.contains("App info"),
        "expected App info header, got:\n{screen}",
    );
    assert!(
        screen.contains(REPO_URL),
        "expected repo URL, got:\n{screen}",
    );
    assert!(
        screen.contains("0.9.1"),
        "expected mullvad-tui version, got:\n{screen}",
    );
    assert!(
        screen.contains("Targeted daemon"),
        "expected targeted daemon row, got:\n{screen}",
    );
    assert!(
        screen.contains("2026.2"),
        "expected targeted daemon version, got:\n{screen}",
    );
    assert!(
        screen.contains("2026.4"),
        "expected daemon version, got:\n{screen}",
    );
}

#[test]
fn settings_root_app_info_falls_back_to_dash_when_daemon_version_unknown() {
    let screen = settings_screen(&App::new());
    assert!(
        screen.contains("mullvad-daemon"),
        "expected mullvad-daemon row, got:\n{screen}",
    );
    assert!(
        screen.contains("-"),
        "expected dash placeholder for unknown daemon version, got:\n{screen}",
    );
    let row = screen
        .lines()
        .find(|line| line.contains("mullvad-daemon"))
        .expect("daemon row");
    assert!(row.ends_with(" -"), "{row:?}");
}

#[test]
fn vpn_toggle_row_registers_toggle_before_info() {
    let scene = render_vpn_toggle_row(
        whole(50, 1),
        "Local network sharing",
        false,
        Some(WidgetId(VPN_LAN_INFO)),
        WidgetId(VPN_LAN_TOGGLE),
        None,
    );
    let registry = Registry::of(&scene);
    assert_eq!(
        registry.first_in_row(0),
        Some(WidgetId(VPN_LAN_TOGGLE)),
        "toggle should be the first focus index on the row",
    );
    assert_eq!(
        registry.navigate(WidgetId(VPN_LAN_TOGGLE), ArrowDir::Right),
        None,
        "toggle is the right-most cell visually; Right should not move",
    );
    assert_eq!(
        registry.navigate(WidgetId(VPN_LAN_TOGGLE), ArrowDir::Left),
        Some(WidgetId(VPN_LAN_INFO)),
    );
    assert_eq!(
        registry.navigate(WidgetId(VPN_LAN_INFO), ArrowDir::Right),
        Some(WidgetId(VPN_LAN_TOGGLE)),
    );
}

fn mtu_row(buffer: &str, focused: bool) -> Buffer {
    let scene = render_vpn_input_row(
        whole(50, 1),
        "MTU",
        buffer,
        "Default",
        WidgetId(VPN_MTU_EDIT),
        focused.then_some(WidgetId(VPN_MTU_EDIT)),
    );
    drawn(&scene, 50, 1)
}

#[test]
fn vpn_input_row_close_bracket_stays_at_right_edge_as_buffer_grows() {
    fn close_bracket_x(buffer: &str) -> u16 {
        let buf = mtu_row(buffer, true);
        (0..buf.area.width)
            .rev()
            .find(|&x| buf[(x, 0)].symbol() == "]")
            .expect("close bracket should render")
    }

    let empty = close_bracket_x("");
    for buffer in ["1", "13", "138", "1380"] {
        assert_eq!(
            close_bracket_x(buffer),
            empty,
            "`]` must stay at the same column for buffer={buffer:?}",
        );
    }
}

#[test]
fn vpn_input_row_wraps_pill_with_focusable_brackets() {
    for focused_now in [true, false] {
        let buf = mtu_row("", focused_now);
        let row = row_of(&buf, 0);
        let open = row
            .find('[')
            .unwrap_or_else(|| panic!("open bracket missing (focused={focused_now}): {row:?}"))
            as u16;
        let close = row
            .rfind(']')
            .unwrap_or_else(|| panic!("close bracket missing (focused={focused_now}): {row:?}"))
            as u16;
        assert!(close > open, "brackets out of order: {row:?}");

        let expected_fg = if focused_now {
            Color::Yellow
        } else {
            Color::White
        };
        assert_eq!(
            buf[(open, 0)].fg,
            expected_fg,
            "open bracket fg should track focus (focused={focused_now})",
        );
        assert_eq!(
            buf[(close, 0)].fg,
            expected_fg,
            "close bracket fg should track focus (focused={focused_now})",
        );
    }
}

#[test]
fn vpn_input_row_renders_placeholder_at_text_entry_column_when_focused_and_empty() {
    let buf = mtu_row("", true);
    let row = row_of(&buf, 0);
    assert!(
        row.contains("Default"),
        "focused empty pill should show the placeholder, got {row:?}",
    );
    assert!(
        !row.contains("█Default"),
        "no leading cursor block - placeholder should start at the text-entry column, got {row:?}",
    );
    let first_col = row.find('D').expect("placeholder rendered") as u16;
    assert_eq!(
        buf[(first_col, 0)].bg,
        Color::Yellow,
        "first placeholder character should carry cursor styling (yellow bg)",
    );
}

#[test]
fn vpn_input_row_pill_position_does_not_shift_when_first_digit_is_typed() {
    fn render(buffer: &str) -> (String, u16) {
        let buf = mtu_row(buffer, true);
        let dark = Color::Indexed(232);
        let yellow = Color::Yellow;
        let pill_x = (0..buf.area.width)
            .find(|x| {
                let bg = buf[(*x, 0)].bg;
                bg == dark || bg == yellow
            })
            .expect("pill must render at least one styled cell");
        (row_of(&buf, 0), pill_x)
    }

    let (empty_row, empty_x) = render("");
    let (typed_row, typed_x) = render("1");
    assert_eq!(
        empty_x, typed_x,
        "pill left edge must stay at the same column across the empty/typed transition; \
         empty row {empty_row:?} typed row {typed_row:?}",
    );
    assert_eq!(
        empty_row.as_bytes()[empty_x as usize],
        b'[',
        "leftmost styled cell should be the open bracket; got {empty_row:?}",
    );
    let cursor_col = empty_x + 1;
    assert_eq!(
        typed_row.as_bytes()[cursor_col as usize],
        b'1',
        "the typed digit must land at the column the cursor was on",
    );
}

#[test]
fn vpn_input_row_renders_buffer_then_cursor_when_focused_with_text() {
    let buf = mtu_row("1380", true);
    let row = row_of(&buf, 0);
    assert!(
        row.contains("1380█"),
        "focused non-empty pill should render buffer + trailing cursor, got {row:?}",
    );
    assert!(
        !row.contains("Default"),
        "placeholder should be hidden once the buffer has text, got {row:?}",
    );
}

// ---- Location filter ----

fn filter_registry() -> Registry {
    Registry::of(&select_location_filter::render(whole(60, 30), &App::new()))
}

#[test]
fn rendered_registry_dump_shows_one_row_per_focusable() {
    let registry = filter_registry();
    let row_widths: Vec<usize> = registry.rows.iter().map(|row| row.len()).collect();
    assert!(
        row_widths.iter().all(|w| *w == 1),
        "every focusable row should have exactly one cell, got widths {row_widths:?}",
    );
    assert_eq!(
        row_widths.len(),
        4 + select_location_filter::providers().len(),
        "row count should equal focusable count",
    );
}

#[test]
fn rows_register_as_separate_focus_rows_so_up_down_navigates() {
    let registry = filter_registry();
    let any = WidgetId(select_location_filter::widgets::OWNERSHIP_ANY);
    let owned = WidgetId(select_location_filter::widgets::OWNERSHIP_MULLVAD_OWNED);
    let rented = WidgetId(select_location_filter::widgets::OWNERSHIP_RENTED);
    let all = WidgetId(select_location_filter::widgets::PROVIDERS_ALL);
    assert_eq!(registry.navigate(any, ArrowDir::Down), Some(owned));
    assert_eq!(registry.navigate(owned, ArrowDir::Down), Some(rented));
    assert_eq!(registry.navigate(rented, ArrowDir::Down), Some(all));
    assert_eq!(registry.navigate(all, ArrowDir::Up), Some(rented));
    assert_eq!(registry.navigate(any, ArrowDir::Right), None);
    assert_eq!(registry.navigate(any, ArrowDir::Left), None);
}

// ---- Logs ----

fn app_with_log(entries: u32, digits: usize) -> App {
    let mut app = App::new();
    for i in 0..entries {
        app.log_buffer.push(LogEntry::Tui {
            level: Level::Info,
            text: format!("INFO tests: entry-{i:0digits$}"),
        });
    }
    app
}

fn logs_screen(app: &mut App, width: u16, height: u16) -> Vec<String> {
    screen_of(&logs::render(whole(width, height), app), width, height)
}

#[test]
fn auto_tail_shows_the_most_recent_entries() {
    let mut app = app_with_log(50, 2);
    let screen = logs_screen(&mut app, 60, 12);
    let saw_latest = screen.iter().any(|line| line.contains("entry-49"));
    let saw_oldest = screen.iter().any(|line| line.contains("entry-00"));
    assert!(
        saw_latest && !saw_oldest,
        "auto-tail should show the latest entry, not the oldest; screen:\n{}",
        screen.join("\n"),
    );
}

#[test]
fn scroll_to_top_pins_the_oldest_entries_into_view() {
    let mut app = app_with_log(50, 2);
    let _ = logs_screen(&mut app, 60, 12);
    app.logs_state.scroll_to_top();
    let screen = logs_screen(&mut app, 60, 12);
    let saw_oldest = screen.iter().any(|line| line.contains("entry-00"));
    let saw_latest = screen.iter().any(|line| line.contains("entry-49"));
    assert!(
        saw_oldest && !saw_latest,
        "scroll_to_top should reveal the oldest entry and hide the latest; screen:\n{}",
        screen.join("\n"),
    );
}

#[test]
fn scrollbar_overlays_the_right_border_between_corners() {
    let mut app = app_with_log(200, 3);
    let width = 60;
    let height = 12;
    let buf = drawn(&logs::render(whole(width, height), &mut app), width, height);
    assert_eq!(
        buf[(width - 1, 0)].symbol(),
        "┐",
        "top-right corner must stay intact",
    );
    assert_eq!(
        buf[(width - 1, height - 1)].symbol(),
        "┘",
        "bottom-right corner must stay intact",
    );
    let track_or_thumb = |sym: &str| sym == "║" || sym == "█";
    for row in 1..height - 1 {
        let cell = buf[(width - 1, row)].symbol();
        assert!(
            track_or_thumb(cell),
            "inner row {row} at the rightmost column should be a scrollbar glyph, got {cell:?}",
        );
    }
}

#[test]
fn page_down_from_top_eventually_re_engages_tail() {
    let mut app = app_with_log(50, 2);
    let _ = logs_screen(&mut app, 60, 12);
    app.logs_state.scroll_to_top();
    for _ in 0..5 {
        let (total, viewport) = app.logs_state.last_dimensions();
        app.logs_state.page_down(total, viewport);
        let _ = logs_screen(&mut app, 60, 12);
    }
    let screen = logs_screen(&mut app, 60, 12);
    let saw_latest = screen.iter().any(|line| line.contains("entry-49"));
    assert!(
        saw_latest,
        "PgDn x N should reach the bottom and show the latest entry; screen:\n{}",
        screen.join("\n"),
    );
}

// ---- All pages ----

fn registered(scene: &Scene) -> Vec<WidgetId> {
    let registry = Registry::of(scene);
    registry
        .rows
        .iter()
        .flatten()
        .chain(registry.clicks.iter())
        .map(|cell| cell.0)
        .collect()
}

fn assert_owned(scene: &Scene, owns: fn(WidgetId) -> bool) {
    let widgets = registered(scene);
    assert!(!widgets.is_empty());
    for widget in widgets {
        assert!(owns(widget), "{widget:?}");
    }
}

#[test]
fn pages_register_widgets_of_their_own() {
    let area = whole(60, 40);
    let mut app = test_app_with_many_relays();
    app.settings = Some(settings_multihop_daita(true, false));
    app.select_location_state.expand_country("us");
    app.select_location_state.expand_city("us", "nyc");
    app.split_tunnel_pids = Some(vec![1, 2, 3]);
    if let Some(settings) = &mut app.settings {
        settings.dns.addresses = vec!["9.9.9.9".to_string(); 20];
    }
    let versions = Versions { tui: "0.9.1", targeted_daemon: "2026.2" };
    assert_owned(&select_location::render(area, &mut app), select_location::owns_widget);
    assert_owned(&select_location_filter::render(area, &app), select_location_filter::owns_widget);
    assert_owned(&settings::render(area, &app, &versions), settings::owns_widget);
    assert_owned(&settings::render_daita(area, &app), settings::owns_widget);
    assert_owned(&settings::render_multihop(area, &app), settings::owns_widget);
    assert_owned(&settings::render_vpn_settings(area, &mut app), settings::owns_widget);
    assert_owned(&settings::render_split_tunnel(area, &app, true), settings::owns_widget);
    assert_owned(&settings::anti_censorship::render(area, &app), settings::owns_widget);
    assert_owned(&settings::custom_dns::render(area, &app), settings::owns_widget);
    assert_owned(&settings::dns_blockers::render(area, &app), settings::owns_widget);
    assert_owned(&settings::relay_overrides::render(area, &app), settings::owns_widget);
    assert_owned(&account::render(area, &app), account::owns_top_widget);
    assert!(registered(&logs::render(area, &mut app)).is_empty());
}

#[test]
fn the_last_button_stands_in_the_last_row() {
    let area = whole(60, 20);
    let app = App::new();
    let versions = Versions { tui: "0.9.1", targeted_daemon: "2026.2" };
    let root = screen_of(&settings::render(area, &app, &versions), 60, 20);
    assert!(root[19].contains("[Quit]"), "{root:?}");
    let split = screen_of(&settings::render_split_tunnel(area, &app, true), 60, 20);
    assert!(split[19].contains("[Add PID]"), "{split:?}");
    let dns = screen_of(&settings::custom_dns::render(area, &app), 60, 20);
    assert!(dns[19].contains("[Add address]"), "{dns:?}");
    let overrides = screen_of(&settings::relay_overrides::render(area, &app), 60, 20);
    assert!(overrides[19].ends_with("[Clear all]"), "{overrides:?}");
}

#[test]
fn tree_rows_stand_one_below_the_other() {
    let mut app = test_app_with_fifty_countries();
    let registry = registry_of(&mut app, 50, 30);
    let shown: Vec<Rect> = registry
        .rows
        .iter()
        .flatten()
        .filter(|cell| cell.0 .0 >= COUNTRY_RADIO_BASE && cell.1.height > 0)
        .map(|cell| cell.1)
        .collect();
    assert_eq!(shown.len(), 29);
    for (i, area) in shown.iter().enumerate() {
        assert_eq!((area.y, area.height), (1 + i as u16, 1));
    }
}
