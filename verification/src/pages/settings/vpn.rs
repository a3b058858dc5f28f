//! The VPN settings page.

use crate::app::{mtu_text, App, SettingsState, WIREGUARD_MTU_MAX, WIREGUARD_MTU_MIN};
use crate::components::{
    checkbox, checkbox_glyph, less, max_of, minus, most, radio, radio_glyph,
};
use crate::daemon::{IpVersion, Settings};
use crate::focus::{is_focused, FocusKind, WidgetId};
use crate::geometry::{
    divides_into_rows, on_screen, one_cell_each, rect, rows_inside, single_rows,
    single_rows_ask_for_one_cell_each, single_rows_come_first, split_rows, Constraint, Rect,
};
use crate::pages::settings::{current_mode, dns_addresses, widgets};
use crate::scene::{
    bg_style, button_op, fg_bg_style, fg_style, focus_style, joined, joined_push, label_button_op,
    label_op, span, styled_op, styled_span, Color, Op, OpView, Scene, SpanView, Style, TextBlock,
    TextLine, TextSpan, Wrap,
};
use crate::text::{blank, cat, chars, decimal, decimal_digits, from_chars, owned, spaces};
use vstd::prelude::*;

verus! {

// ---- What the rows are ----

/// A row of the page.
pub enum VpnRow {
    /// `<label>     [Info] [x]`: a checkbox, and an `[Info]` button for most.
    Toggle { label: String, enabled: bool, info_id: Option<WidgetId>, toggle_id: WidgetId },
    /// `<label>     [<text>]`.
    Button { label: String, button_text: String, button_id: WidgetId },
    /// `  ( ) <label>`.
    Radio { label: String, selected: bool, id: WidgetId },
    /// `<label>     [<field>]`.
    Input { label: String, buffer: String, placeholder: String, id: WidgetId },
    /// Dimmed text.
    Hint(String),
}

/// A row of the page, over texts.
#[verifier::ext_equal]
pub enum VpnRowView {
    Toggle { label: Seq<char>, enabled: bool, info_id: Option<WidgetId>, toggle_id: WidgetId },
    Button { label: Seq<char>, button_text: Seq<char>, button_id: WidgetId },
    Radio { label: Seq<char>, selected: bool, id: WidgetId },
    Input { label: Seq<char>, buffer: Seq<char>, placeholder: Seq<char>, id: WidgetId },
    Hint(Seq<char>),
}

impl View for VpnRow {
    type V = VpnRowView;

    open spec fn view(&self) -> VpnRowView {
        match self {
            VpnRow::Toggle { label, enabled, info_id, toggle_id } => VpnRowView::Toggle {
                label: label@,
                enabled: *enabled,
                info_id: *info_id,
                toggle_id: *toggle_id,
            },
            VpnRow::Button { label, button_text, button_id } => VpnRowView::Button {
                label: label@,
                button_text: button_text@,
                button_id: *button_id,
            },
            VpnRow::Radio { label, selected, id } => VpnRowView::Radio {
                label: label@,
                selected: *selected,
                id: *id,
            },
            VpnRow::Input { label, buffer, placeholder, id } => VpnRowView::Input {
                label: label@,
                buffer: buffer@,
                placeholder: placeholder@,
                id: *id,
            },
            VpnRow::Hint(text) => VpnRowView::Hint(text@),
        }
    }
}

/// The rows in `rows`, over texts.
pub open spec fn vpn_row_views(rows: Seq<VpnRow>) -> Seq<VpnRowView> {
    rows.map_values(|r: VpnRow| r@)
}

/// A checkbox row.
pub open spec fn toggle(label: Seq<char>, enabled: bool, info: Option<u32>, id: u32) -> VpnRowView {
    VpnRowView::Toggle {
        label,
        enabled,
        info_id: match info {
            Some(i) => Some(WidgetId(i)),
            None => None,
        },
        toggle_id: WidgetId(id),
    }
}

/// A button row.
pub open spec fn button(label: Seq<char>, text: Seq<char>, id: u32) -> VpnRowView {
    VpnRowView::Button { label, button_text: text, button_id: WidgetId(id) }
}

/// A radio row.
pub open spec fn choice(label: Seq<char>, selected: bool, id: u32) -> VpnRowView {
    VpnRowView::Radio { label, selected, id: WidgetId(id) }
}

/// What the row of the custom DNS servers says of them.
pub open spec fn dns_summary(app: App) -> Seq<char> {
    let n = dns_addresses(app).len();
    match app.settings {
        None => "-"@,
        Some(s) => if !s.dns.custom {
            "Off"@
        } else if n == 0 {
            "On (no servers)"@
        } else if n == 1 {
            "1 server"@
        } else {
            decimal_digits(n) + " servers"@
        },
    }
}

/// The name of the obfuscation mode.
pub open spec fn mode_name(app: App) -> Seq<char> {
    match app.settings {
        Some(s) => s.obfuscation_settings.selected_obfuscation.name(),
        None => "unknown"@,
    }
}

/// The IP version that the transport is held to.
pub open spec fn ip_version(app: App) -> Option<IpVersion> {
    match app.settings {
        Some(s) => s.ip_version,
        None => None,
    }
}

/// What the MTU field holds after a frame: the daemon's value, unless the field
/// has the focus, in which case it is left to the user.
pub open spec fn mtu_buffer_after(app: App) -> Seq<char> {
    if app.focused == Some(WidgetId(widgets::VPN_MTU_EDIT)) {
        app.settings_state.mtu_buffer@
    } else {
        mtu_text(
            match app.settings {
                Some(s) => s.mtu,
                None => None,
            },
        )
    }
}

/// The rows of the page, with `buffer` in the MTU field.
pub open spec fn rows_in(app: App, buffer: Seq<char>) -> Seq<VpnRowView> {
    let known = app.settings is Some;
    let s = app.settings->0;
    seq![
        toggle("Auto-connect"@, known && s.auto_connect, None, widgets::VPN_AUTO_CONNECT_TOGGLE),
        toggle(
            "Local network sharing"@,
            known && s.allow_lan,
            Some(widgets::VPN_LAN_INFO),
            widgets::VPN_LAN_TOGGLE,
        ),
        button("DNS content blockers"@, ">"@, widgets::VPN_DNS_BLOCKERS_INFO),
        button("Use custom DNS server"@, dns_summary(app) + " >"@, widgets::VPN_CUSTOM_DNS_INFO),
        toggle(
            "In-tunnel IPv6"@,
            known && s.enable_ipv6,
            Some(widgets::VPN_IPV6_INFO),
            widgets::VPN_IPV6_TOGGLE,
        ),
        toggle(
            "Kill switch"@,
            true,
            Some(widgets::VPN_KILL_SWITCH_INFO),
            widgets::VPN_KILL_SWITCH_TOGGLE,
        ),
        toggle(
            "Lockdown mode"@,
            known && s.lockdown_mode,
            Some(widgets::VPN_LOCKDOWN_INFO),
            widgets::VPN_LOCKDOWN_TOGGLE,
        ),
        button("Anti-censorship"@, mode_name(app) + " >"@, widgets::VPN_ANTI_CENSORSHIP_EDIT),
        toggle(
            "Quantum-resistant tunnel"@,
            known && s.quantum_resistant,
            Some(widgets::VPN_QUANTUM_INFO),
            widgets::VPN_QUANTUM_TOGGLE,
        ),
        button("Device IP version"@, "Info"@, widgets::VPN_DEVICE_IP_INFO),
        choice("Automatic"@, ip_version(app) is None, widgets::VPN_DEVICE_IP_AUTO),
        choice("IPv4"@, ip_version(app) == Some(IpVersion::V4), widgets::VPN_DEVICE_IP_V4),
        choice("IPv6"@, ip_version(app) == Some(IpVersion::V6), widgets::VPN_DEVICE_IP_V6),
        VpnRowView::Input {
            label: "MTU"@,
            buffer,
            placeholder: "Default"@,
            id: WidgetId(widgets::VPN_MTU_EDIT),
        },
        VpnRowView::Hint(
            "Valid range: "@ + decimal_digits(WIREGUARD_MTU_MIN as nat) + "-"@ + decimal_digits(
                WIREGUARD_MTU_MAX as nat,
            ) + "."@,
        ),
        button("Server IP override"@, ">"@, widgets::VPN_SERVER_IP_INFO),
    ]
}

fn toggle_row(label: &str, enabled: bool, info: Option<u32>, id: u32) -> (r: VpnRow)
    ensures
        r@ == toggle(label@, enabled, info, id),
{
    let info_id = match info {
        Some(i) => Some(WidgetId(i)),
        None => None,
    };
    VpnRow::Toggle { label: owned(label), enabled, info_id, toggle_id: WidgetId(id) }
}

fn button_row(label: &str, text: &str, id: u32) -> (r: VpnRow)
    ensures
        r@ == button(label@, text@, id),
{
    VpnRow::Button { label: owned(label), button_text: owned(text), button_id: WidgetId(id) }
}

fn radio_row(label: &str, selected: bool, id: u32) -> (r: VpnRow)
    ensures
        r@ == choice(label@, selected, id),
{
    VpnRow::Radio { label: owned(label), selected, id: WidgetId(id) }
}

fn summarize_dns(app: &App) -> (r: String)
    ensures
        r@ == dns_summary(*app),
{
    match &app.settings {
        None => owned("-"),
        Some(s) => if !s.dns.custom {
            owned("Off")
        } else {
            let n: usize = s.dns.addresses.len();
            if n == 0 {
                owned("On (no servers)")
            } else if n == 1 {
                owned("1 server")
            } else {
                cat(decimal(n as u64).as_str(), " servers")
            }
        },
    }
}

/// The rows of the page. Brings the MTU field in line with the daemon, unless
/// it has the focus.
pub fn vpn_rows(app: &mut App) -> (rows: Vec<VpnRow>)
    ensures
        final(app).settings_state.mtu_buffer@ == mtu_buffer_after(*old(app)),
        vpn_row_views(rows@) == rows_in(*old(app), mtu_buffer_after(*old(app))),
        *final(app) == (App {
            settings_state: SettingsState {
                mtu_buffer: final(app).settings_state.mtu_buffer,
                ..old(app).settings_state
            },
            ..*old(app)
        }),
{
    let ghost before = *app;
    let mtu: Option<u16> = match &app.settings {
        Some(s) => s.mtu,
        None => None,
    };
    if !is_focused(app.focused, WidgetId(widgets::VPN_MTU_EDIT)) {
        app.settings_state.sync_mtu_buffer_from_daemon(mtu);
    }
    let buffer = app.settings_state.mtu_buffer.clone();
    let (auto_connect, lan, ipv6, lockdown, quantum) = match &app.settings {
        Some(s) => (
            s.auto_connect,
            s.allow_lan,
            s.enable_ipv6,
            s.lockdown_mode,
            s.quantum_resistant,
        ),
        None => (false, false, false, false, false),
    };
    let mode: &str = match &app.settings {
        Some(s) => s.obfuscation_settings.selected_obfuscation.label(),
        None => "unknown",
    };
    let version: Option<IpVersion> = match &app.settings {
        Some(s) => s.ip_version,
        None => None,
    };
    let (auto, v4, v6) = match version {
        None => (true, false, false),
        Some(IpVersion::V4) => (false, true, false),
        Some(IpVersion::V6) => (false, false, true),
    };
    let mut range = cat("Valid range: ", decimal(WIREGUARD_MTU_MIN as u64).as_str());
    range.append("-");
    range.append(decimal(WIREGUARD_MTU_MAX as u64).as_str());
    range.append(".");
    let dns = cat(summarize_dns(app).as_str(), " >");
    let rows: Vec<VpnRow> = vec![
        toggle_row("Auto-connect", auto_connect, None, widgets::VPN_AUTO_CONNECT_TOGGLE),
        toggle_row(
            "Local network sharing",
            lan,
            Some(widgets::VPN_LAN_INFO),
            widgets::VPN_LAN_TOGGLE,
        ),
        button_row("DNS content blockers", ">", widgets::VPN_DNS_BLOCKERS_INFO),
        button_row("Use custom DNS server", dns.as_str(), widgets::VPN_CUSTOM_DNS_INFO),
        toggle_row(
            "In-tunnel IPv6",
            ipv6,
            Some(widgets::VPN_IPV6_INFO),
            widgets::VPN_IPV6_TOGGLE,
        ),
        // Always on; activating it explains why.
        toggle_row(
            "Kill switch",
            true,
            Some(widgets::VPN_KILL_SWITCH_INFO),
            widgets::VPN_KILL_SWITCH_TOGGLE,
        ),
        toggle_row(
            "Lockdown mode",
            lockdown,
            Some(widgets::VPN_LOCKDOWN_INFO),
            widgets::VPN_LOCKDOWN_TOGGLE,
        ),
        button_row(
            "Anti-censorship",
            cat(mode, " >").as_str(),
            widgets::VPN_ANTI_CENSORSHIP_EDIT,
        ),
        toggle_row(
            "Quantum-resistant tunnel",
            quantum,
            Some(widgets::VPN_QUANTUM_INFO),
            widgets::VPN_QUANTUM_TOGGLE,
        ),
        button_row("Device IP version", "Info", widgets::VPN_DEVICE_IP_INFO),
        radio_row("Automatic", auto, widgets::VPN_DEVICE_IP_AUTO),
        radio_row("IPv4", v4, widgets::VPN_DEVICE_IP_V4),
        radio_row("IPv6", v6, widgets::VPN_DEVICE_IP_V6),
        VpnRow::Input {
            label: owned("MTU"),
            buffer,
            placeholder: owned("Default"),
            id: WidgetId(widgets::VPN_MTU_EDIT),
        },
        VpnRow::Hint(range),
        button_row("Server IP override", ">", widgets::VPN_SERVER_IP_INFO),
    ];
    assert(vpn_row_views(rows@) =~= rows_in(before, mtu_buffer_after(before)));
    rows
}

// ---- How a row is drawn ----

/// A checkbox row. The checkbox is registered before the `[Info]` button that
/// stands left of it, so it is the row's first widget.
pub open spec fn toggle_row_ops(
    area: Rect,
    label: Seq<char>,
    enabled: bool,
    info_id: Option<WidgetId>,
    toggle_id: WidgetId,
    focused: Option<WidgetId>,
) -> Seq<OpView> {
    let trailing: u16 = if info_id is Some {
        10
    } else {
        3
    };
    let glyph = rect((area.x + less(area.width, 3)) as u16, area.y, 3, 1);
    let info = match info_id {
        Some(id) => seq![
            button_op(
                rect((area.x + less(area.width, trailing)) as u16, area.y, 6, 1),
                "Info"@,
                id,
                focused,
            ),
        ],
        None => Seq::empty(),
    };
    (seq![
        label_op(rect(area.x, area.y, less(area.width, trailing), 1), label),
        styled_op(glyph, checkbox(enabled), focus_style(focused == Some(toggle_id))),
        OpView::Register { id: toggle_id, area: glyph, kind: FocusKind::Toggle },
    ] + info).push(OpView::EndRow)
}

/// Draw a checkbox row.
pub fn render_vpn_toggle_row(
    area: Rect,
    label: &str,
    enabled: bool,
    info_id: Option<WidgetId>,
    toggle_id: WidgetId,
    focused: Option<WidgetId>,
) -> (scene: Scene)
    requires
        on_screen(area),
    ensures
        scene@ == toggle_row_ops(area, label@, enabled, info_id, toggle_id, focused),
{
    let trailing: u16 = if info_id.is_some() {
        10
    } else {
        3
    };
    let mut scene = Scene::new();
    scene.label(Rect::new(area.x, area.y, minus(area.width, trailing), 1), label);
    let glyph = Rect::new(area.x + minus(area.width, 3), area.y, 3, 1);
    let style = Style::focus(is_focused(focused, toggle_id));
    scene.styled(glyph, checkbox_glyph(enabled), style);
    scene.register(toggle_id, glyph, FocusKind::Toggle);
    if let Some(id) = info_id {
        let x: u16 = area.x + minus(area.width, trailing);
        scene.button(Rect::new(x, area.y, 6, 1), "Info", id, focused);
    }
    scene.end_row();
    assert(scene@ =~= toggle_row_ops(area, label@, enabled, info_id, toggle_id, focused));
    scene
}

/// A radio row: indented, and one widget as a whole.
pub open spec fn radio_row_ops(
    area: Rect,
    label: Seq<char>,
    selected: bool,
    id: WidgetId,
    focused: Option<WidgetId>,
) -> Seq<OpView> {
    seq![
        styled_op(
            area,
            "  "@ + radio(selected) + " "@ + label,
            focus_style(focused == Some(id)),
        ),
        OpView::Register { id, area, kind: FocusKind::SelectOption },
        OpView::EndRow,
    ]
}

fn render_radio_subrow(
    area: Rect,
    label: &str,
    selected: bool,
    id: WidgetId,
    focused: Option<WidgetId>,
) -> (scene: Scene)
    ensures
        scene@ == radio_row_ops(area, label@, selected, id, focused),
{
    let mut text = cat("  ", radio_glyph(selected));
    text.append(" ");
    text.append(label);
    let mut scene = Scene::new();
    scene.styled(area, text.as_str(), Style::focus(is_focused(focused, id)));
    scene.register(id, area, FocusKind::SelectOption);
    scene.end_row();
    assert(scene@ =~= radio_row_ops(area, label@, selected, id, focused));
    scene
}

// ---- The text field ----

/// The background of the field.
pub open spec fn field() -> Color {
    Color::Indexed(232)
}

/// The cells between the brackets of the field: enough for the placeholder, and
/// for the text with the cursor behind it. Typing a first character into the
/// focused field does not move it, as long as the placeholder is longer.
pub open spec fn field_width(buffer: Seq<char>, placeholder: Seq<char>, focused: bool) -> u16 {
    most(
        (buffer.len() + if focused && buffer.len() > 0 {
            1int
        } else {
            0int
        }) as u16,
        placeholder.len() as u16,
    )
}

/// A bracket of the field.
pub open spec fn bracket(text: Seq<char>, focused: bool) -> SpanView {
    styled_span(
        text,
        fg_bg_style(
            if focused {
                Color::Yellow
            } else {
                Color::White
            },
            field(),
        ),
    )
}

/// Blanks from the end of `used` cells to the closing bracket.
pub open spec fn padding(width: u16, used: int) -> SpanView {
    styled_span(
        spaces(
            if width > used {
                (width - used) as nat
            } else {
                0
            },
        ),
        bg_style(field()),
    )
}

/// What the field shows. While it has the focus and is empty, the cursor lies on
/// the first character of the placeholder, where the text will start.
pub open spec fn field_spans(buffer: Seq<char>, placeholder: Seq<char>, focused: bool) -> Seq<
    SpanView,
> {
    let width = field_width(buffer, placeholder, focused);
    let inside = if buffer.len() > 0 {
        if focused {
            seq![
                styled_span(buffer, fg_bg_style(Color::Yellow, field())),
                SpanView::Cursor { bg: field() },
                padding(width, buffer.len() as int + 1),
            ]
        } else {
            seq![
                styled_span(buffer, fg_bg_style(Color::White, field())),
                padding(width, buffer.len() as int),
            ]
        }
    } else if !focused {
        seq![
            styled_span(placeholder, fg_bg_style(Color::DarkGray, field())),
            padding(width, placeholder.len() as int),
        ]
    } else if placeholder.len() > 0 {
        seq![
            styled_span(placeholder.take(1), fg_bg_style(field(), Color::Yellow)),
            styled_span(placeholder.skip(1), fg_bg_style(Color::DarkGray, field())),
            padding(width, placeholder.len() as int),
        ]
    } else {
        seq![SpanView::Cursor { bg: field() }, padding(width, 1)]
    };
    (seq![bracket("["@, focused)] + inside).push(bracket("]"@, focused))
}

/// The area of the field: at the right end of `area`.
pub open spec fn field_area(area: Rect, width: u16) -> Rect {
    rect(
        (area.x + less(area.width, (width + 2) as u16)) as u16,
        area.y,
        (width + 2) as u16,
        1,
    )
}

/// A row with a text field.
pub open spec fn input_row_ops(
    area: Rect,
    label: Seq<char>,
    buffer: Seq<char>,
    placeholder: Seq<char>,
    id: WidgetId,
    focused: Option<WidgetId>,
) -> Seq<OpView> {
    let has_focus = focused == Some(id);
    let width = field_width(buffer, placeholder, has_focus);
    let pill = field_area(area, width);
    seq![
        label_op(rect(area.x, area.y, less(area.width, (width + 3) as u16), 1), label),
        OpView::Text {
            area: pill,
            text: seq![field_spans(buffer, placeholder, has_focus)],
            wrap: Wrap::Cut,
            scroll: 0,
            style: bg_style(field()),
        },
        OpView::Register { id, area: pill, kind: FocusKind::TextInput },
        OpView::EndRow,
    ]
}

fn pad_span(width: u16, used: usize) -> (r: TextSpan)
    ensures
        r@ == padding(width, used as int),
{
    let n: usize = if width as usize > used {
        width as usize - used
    } else {
        0
    };
    TextSpan::Styled { content: blank(n), style: Style::new().bg(Color::Indexed(232)) }
}

fn bracket_span(text: &str, focused: bool) -> (r: TextSpan)
    ensures
        r@ == bracket(text@, focused),
{
    let color = if focused {
        Color::Yellow
    } else {
        Color::White
    };
    span(text, Style::new().fg(color).bg(Color::Indexed(232)))
}

fn field_line(buffer: &str, placeholder: &str, focused: bool, width: u16) -> (line: TextLine)
    requires
        buffer@.len() < u16::MAX,
        width == field_width(buffer@, placeholder@, focused),
    ensures
        line@ == field_spans(buffer@, placeholder@, focused),
{
    let bg = Color::Indexed(232);
    let mut line = TextLine::new();
    line.push(bracket_span("[", focused));
    if !buffer.is_empty() {
        let n: usize = buffer.unicode_len();
        if focused {
            line.push(span(buffer, Style::new().fg(Color::Yellow).bg(bg)));
            line.push(TextSpan::Cursor { bg });
            line.push(pad_span(width, n + 1));
        } else {
            line.push(span(buffer, Style::new().fg(Color::White).bg(bg)));
            line.push(pad_span(width, n));
        }
    } else if !focused {
        line.push(span(placeholder, Style::new().fg(Color::DarkGray).bg(bg)));
        line.push(pad_span(width, placeholder.unicode_len()));
    } else if !placeholder.is_empty() {
        let n: usize = placeholder.unicode_len();
        let first: &str = placeholder.substring_char(0, 1);
        let rest: &str = placeholder.substring_char(1, n);
        assert(first@ =~= placeholder@.take(1));
        assert(rest@ =~= placeholder@.skip(1));
        line.push(span(first, Style::new().fg(bg).bg(Color::Yellow)));
        line.push(span(rest, Style::new().fg(Color::DarkGray).bg(bg)));
        line.push(pad_span(width, n));
    } else {
        line.push(TextSpan::Cursor { bg });
        line.push(pad_span(width, 1));
    }
    line.push(bracket_span("]", focused));
    assert(line@ =~= field_spans(buffer@, placeholder@, focused));
    line
}

/// Draw a row with a text field.
pub fn render_vpn_input_row(
    area: Rect,
    label: &str,
    buffer: &str,
    placeholder: &str,
    id: WidgetId,
    focused: Option<WidgetId>,
) -> (scene: Scene)
    requires
        on_screen(area),
        buffer@.len() + 4 <= u16::MAX,
        placeholder@.len() + 4 <= u16::MAX,
    ensures
        scene@ == input_row_ops(area, label@, buffer@, placeholder@, id, focused),
{
    let has_focus = is_focused(focused, id);
    let cursor: usize = if has_focus && !buffer.is_empty() {
        1
    } else {
        0
    };
    let width: u16 = max_of(
        (buffer.unicode_len() + cursor) as u16,
        placeholder.unicode_len() as u16,
    );
    let pill = Rect::new(area.x + minus(area.width, width + 2), area.y, width + 2, 1);
    let mut scene = Scene::new();
    scene.label(Rect::new(area.x, area.y, minus(area.width, width + 3), 1), label);
    scene.push(
        Op::Text {
            area: pill,
            text: TextBlock::of(field_line(buffer, placeholder, has_focus, width)),
            wrap: Wrap::Cut,
            scroll: 0,
            style: Style::new().bg(Color::Indexed(232)),
        },
    );
    scene.register(id, pill, FocusKind::TextInput);
    scene.end_row();
    assert(scene@ =~= input_row_ops(area, label@, buffer@, placeholder@, id, focused));
    scene
}

// ---- The page ----

/// How a row is drawn.
pub open spec fn vpn_row_ops(area: Rect, row: VpnRowView, focused: Option<WidgetId>) -> Seq<OpView> {
    match row {
        VpnRowView::Toggle { label, enabled, info_id, toggle_id } => toggle_row_ops(
            area,
            label,
            enabled,
            info_id,
            toggle_id,
            focused,
        ),
        VpnRowView::Button { label, button_text, button_id } => seq![
            label_button_op(area, label, button_text, button_id, focused),
        ],
        VpnRowView::Radio { label, selected, id } => radio_row_ops(
            area,
            label,
            selected,
            id,
            focused,
        ),
        VpnRowView::Input { label, buffer, placeholder, id } => input_row_ops(
            area,
            label,
            buffer,
            placeholder,
            id,
            focused,
        ),
        VpnRowView::Hint(text) => seq![styled_op(area, text, fg_style(Color::DarkGray))],
    }
}

/// Whether the texts of a row are short enough for a field.
pub open spec fn row_fits(row: VpnRowView) -> bool {
    row is Input ==> row->buffer.len() + 4 <= u16::MAX && row->placeholder.len() + 4 <= u16::MAX
}

fn render_vpn_row(area: Rect, row: &VpnRow, focused: Option<WidgetId>) -> (scene: Scene)
    requires
        on_screen(area),
        row_fits(row@),
    ensures
        scene@ == vpn_row_ops(area, row@, focused),
{
    match row {
        VpnRow::Toggle { label, enabled, info_id, toggle_id } => render_vpn_toggle_row(
            area,
            label.as_str(),
            *enabled,
            *info_id,
            *toggle_id,
            focused,
        ),
        VpnRow::Button { label, button_text, button_id } => {
            let mut scene = Scene::new();
            scene.label_button_row(
                area,
                label.as_str(),
                button_text.as_str(),
                *button_id,
                focused,
            );
            assert(scene@ =~= vpn_row_ops(area, row@, focused));
            scene
        },
        VpnRow::Radio { label, selected, id } => render_radio_subrow(
            area,
            label.as_str(),
            *selected,
            *id,
            focused,
        ),
        VpnRow::Input { label, buffer, placeholder, id } => render_vpn_input_row(
            area,
            label.as_str(),
            buffer.as_str(),
            placeholder.as_str(),
            *id,
            focused,
        ),
        VpnRow::Hint(text) => {
            let mut scene = Scene::new();
            scene.styled(area, text.as_str(), Style::new().fg(Color::DarkGray));
            assert(scene@ =~= vpn_row_ops(area, row@, focused));
            scene
        },
    }
}

/// The first `n` rows, one below the other.
pub open spec fn page_ops(
    areas: Seq<Rect>,
    rows: Seq<VpnRowView>,
    n: int,
    focused: Option<WidgetId>,
) -> Seq<OpView>
    decreases n,
{
    if n <= 0 {
        Seq::empty()
    } else {
        page_ops(areas, rows, n - 1, focused) + vpn_row_ops(areas[n - 1], rows[n - 1], focused)
    }
}

/// `ops` draws the page in `area`, with `buffer` in the MTU field.
pub open spec fn draws_page(ops: Seq<OpView>, area: Rect, app: App, buffer: Seq<char>) -> bool {
    exists|areas: Seq<Rect>|
        #[trigger] divides_into_rows(area, single_rows(16).push(Constraint::Min(0)), areas) && ops
            == page_ops(areas, rows_in(app, buffer), 16, app.focused)
}

proof fn short_numbers(n: nat)
    requires
        n <= 65535,
    ensures
        decimal_digits(n).len() <= 5,
{
    reveal_with_fuel(decimal_digits, 6);
}

proof fn rows_fit(app: App, buffer: Seq<char>, i: int)
    requires
        0 <= i < 16,
        buffer.len() + 4 <= u16::MAX,
    ensures
        row_fits(rows_in(app, buffer)[i]),
{
    reveal_strlit("Default");
}

/// Draw the page in `area`.
///
/// `area` is the page's column, as [`crate::pages::page_area`] gives it.
pub fn render_vpn_settings(area: Rect, app: &mut App) -> (scene: Scene)
    requires
        on_screen(area),
        old(app).focused == Some(WidgetId(widgets::VPN_MTU_EDIT))
            ==> old(app).settings_state.mtu_buffer@.len() + 4 <= u16::MAX,
    ensures
        draws_page(scene@, area, *old(app), final(app).settings_state.mtu_buffer@),
        final(app).settings_state.mtu_buffer@ == mtu_buffer_after(*old(app)),
        *final(app) == (App {
            settings_state: SettingsState {
                mtu_buffer: final(app).settings_state.mtu_buffer,
                ..old(app).settings_state
            },
            ..*old(app)
        }),
{
    let ghost before = *app;
    let focused = app.focused;
    let rows = vpn_rows(app);
    let ghost buffer = mtu_buffer_after(before);
    let ghost v = rows_in(before, buffer);
    proof {
        if let Some(s) = before.settings {
            if let Some(n) = s.mtu {
                short_numbers(n as nat);
            }
        }
    }
    assert(vpn_row_views(rows@).len() == 16);
    let mut constraints: Vec<Constraint> = one_cell_each(16);
    constraints.push(Constraint::Min(0));
    let areas = split_rows(area, &constraints);
    let mut scene = Scene::new();
    let mut i: usize = 0;
    while i < 16
        invariant
            i <= 16,
            on_screen(area),
            rows@.len() == 16,
            areas@.len() == 17,
            rows_inside(areas@, area),
            v == vpn_row_views(rows@),
            v == rows_in(before, buffer),
            buffer.len() + 4 <= u16::MAX,
            scene@ == page_ops(areas@, v, i as int, focused),
        decreases 16 - i,
    {
        proof {
            rows_fit(before, buffer, i as int);
            assert(v[i as int] == rows@[i as int]@);
        }
        scene.append(render_vpn_row(areas[i], &rows[i], focused));
        i = i + 1;
    }
    scene
}

// ---- What holds of the field ----

/// The width of the spans of a line. The cursor takes one cell.
pub open spec fn line_width(spans: Seq<SpanView>) -> nat
    decreases spans.len(),
{
    if spans.len() == 0 {
        0
    } else {
        line_width(spans.drop_last()) + match spans.last() {
            SpanView::Styled { content, .. } => content.len(),
            SpanView::Ansi { content, .. } => content.len(),
            _ => 1,
        }
    }
}

proof fn line_width_push(spans: Seq<SpanView>, s: SpanView)
    ensures
        line_width(spans.push(s)) == line_width(spans) + match s {
            SpanView::Styled { content, .. } => content.len(),
            SpanView::Ansi { content, .. } => content.len(),
            _ => 1,
        },
{
    assert(spans.push(s).drop_last() =~= spans);
}

/// The field fills its area: its closing bracket stands at the right end,
/// whatever is typed.
pub proof fn the_field_ends_with_its_bracket(
    buffer: Seq<char>,
    placeholder: Seq<char>,
    focused: bool,
)
    requires
        placeholder.len() > 0,
        buffer.len() + 4 <= u16::MAX,
        placeholder.len() + 4 <= u16::MAX,
    ensures
        line_width(field_spans(buffer, placeholder, focused)) == field_width(
            buffer,
            placeholder,
            focused,
        ) + 2,
        field_spans(buffer, placeholder, focused).last() == bracket("]"@, focused),
{
    reveal_strlit("[");
    reveal_strlit("]");
    let all = field_spans(buffer, placeholder, focused);
    let n = all.len() as int;
    let e = Seq::<SpanView>::empty();
    assert(line_width(e) == 0);
    line_width_push(e, all[0]);
    line_width_push(e.push(all[0]), all[1]);
    line_width_push(e.push(all[0]).push(all[1]), all[2]);
    line_width_push(e.push(all[0]).push(all[1]).push(all[2]), all[3]);
    if n == 4 {
        assert(all =~= e.push(all[0]).push(all[1]).push(all[2]).push(all[3]));
    } else {
        line_width_push(e.push(all[0]).push(all[1]).push(all[2]).push(all[3]), all[4]);
        assert(all =~= e.push(all[0]).push(all[1]).push(all[2]).push(all[3]).push(all[4]));
    }
}

/// The field does not move while a text shorter than the placeholder is typed
/// into it.
pub proof fn typing_does_not_move_the_field(
    area: Rect,
    placeholder: Seq<char>,
    before: Seq<char>,
    after: Seq<char>,
    focused: bool,
)
    requires
        before.len() < placeholder.len(),
        after.len() < placeholder.len(),
        placeholder.len() + 4 <= u16::MAX,
    ensures
        field_area(area, field_width(before, placeholder, focused)) == field_area(
            area,
            field_width(after, placeholder, focused),
        ),
{
}

/// Where the area has room for all rows, row `i` stands in its line `i`.
pub proof fn every_row_has_its_line(area: Rect, areas: Seq<Rect>, i: int)
    requires
        divides_into_rows(area, single_rows(16).push(Constraint::Min(0)), areas),
        area.height >= 16,
        area.y + area.height <= u16::MAX,
        0 <= i < 16,
    ensures
        areas[i] == (Rect { x: area.x, y: (area.y + i) as u16, width: area.width, height: 1 }),
{
    let constraints = single_rows(16).push(Constraint::Min(0));
    single_rows_ask_for_one_cell_each(16);
    assert(constraints.drop_last() =~= single_rows(16));
    single_rows_come_first(area, constraints, areas, 16, i);
}

} // verus!
