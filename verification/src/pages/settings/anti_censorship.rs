//! The Anti-censorship page.

use crate::app::App;
use crate::daemon::{ObfuscationSettings, SelectedObfuscation};
use crate::focus::WidgetId;
use crate::geometry::{
    divides_into_rows, one_cell_each, single_rows, split_rows, Constraint, Rect,
};
use crate::pages::settings::{
    current_mode, current_obfuscation_mode, has_port, mode_has_configurable_port, widgets,
    SettingsWidget,
};
use crate::scene::{
    block_op, label_button_op, raw_line, OpView, Scene, SpanView, TextBlock, Wrap,
};
use crate::text::{cat, decimal, decimal_digits, owned};
use vstd::prelude::*;

verus! {

/// The modes, in the order of their rows.
pub open spec fn modes() -> Seq<SelectedObfuscation> {
    seq![
        SelectedObfuscation::Off,
        SelectedObfuscation::Auto,
        SelectedObfuscation::Udp2Tcp,
        SelectedObfuscation::Shadowsocks,
        SelectedObfuscation::WireguardPort,
        SelectedObfuscation::Quic,
        SelectedObfuscation::Lwo,
    ]
}

/// The widget that selects a mode.
pub open spec fn selector(mode: SelectedObfuscation) -> SettingsWidget {
    match mode {
        SelectedObfuscation::Off => SettingsWidget::AntiCensorshipModeOff,
        SelectedObfuscation::Auto => SettingsWidget::AntiCensorshipModeAuto,
        SelectedObfuscation::Udp2Tcp => SettingsWidget::AntiCensorshipModeUdp2Tcp,
        SelectedObfuscation::Shadowsocks => SettingsWidget::AntiCensorshipModeShadowsocks,
        SelectedObfuscation::WireguardPort => SettingsWidget::AntiCensorshipModeWireguardPort,
        SelectedObfuscation::Quic => SettingsWidget::AntiCensorshipModeQuic,
        SelectedObfuscation::Lwo => SettingsWidget::AntiCensorshipModeLwo,
    }
}

/// The id of the widget that selects a mode.
pub fn widget_id(mode: SelectedObfuscation) -> (r: WidgetId)
    ensures
        r == WidgetId(selector(mode).id()),
{
    WidgetId(
        match mode {
            SelectedObfuscation::Off => widgets::ANTI_CENSORSHIP_MODE_OFF,
            SelectedObfuscation::Auto => widgets::ANTI_CENSORSHIP_MODE_AUTO,
            SelectedObfuscation::Udp2Tcp => widgets::ANTI_CENSORSHIP_MODE_UDP2_TCP,
            SelectedObfuscation::Shadowsocks => widgets::ANTI_CENSORSHIP_MODE_SHADOWSOCKS,
            SelectedObfuscation::WireguardPort => widgets::ANTI_CENSORSHIP_MODE_WIREGUARD_PORT,
            SelectedObfuscation::Quic => widgets::ANTI_CENSORSHIP_MODE_QUIC,
            SelectedObfuscation::Lwo => widgets::ANTI_CENSORSHIP_MODE_LWO,
        },
    )
}

/// The widget that selects a mode selects that mode, and no other widget does.
pub proof fn every_mode_has_its_widget(mode: SelectedObfuscation, widget: SettingsWidget)
    ensures
        selector(mode).mode() == Some(mode),
        widget.mode() == Some(mode) <==> widget == selector(mode),
        modes().contains(mode),
{
    let i: int = match mode {
        SelectedObfuscation::Off => 0,
        SelectedObfuscation::Auto => 1,
        SelectedObfuscation::Udp2Tcp => 2,
        SelectedObfuscation::Shadowsocks => 3,
        SelectedObfuscation::WireguardPort => 4,
        SelectedObfuscation::Quic => 5,
        SelectedObfuscation::Lwo => 6,
    };
    assert(modes()[i] == mode);
}

/// The port that a mode is held to. None where the daemon picks one, and for
/// the modes that have no port.
pub open spec fn port_of(settings: ObfuscationSettings, mode: SelectedObfuscation) -> Option<u16> {
    match mode {
        SelectedObfuscation::Udp2Tcp => settings.udp2tcp_port,
        SelectedObfuscation::Shadowsocks => settings.shadowsocks_port,
        SelectedObfuscation::WireguardPort => settings.wireguard_port,
        _ => None,
    }
}

/// The port that a mode is held to.
pub fn current_port_for_mode(settings: &ObfuscationSettings, mode: SelectedObfuscation) -> (r: Option<
    u16,
>)
    ensures
        r == port_of(*settings, mode),
{
    match mode {
        SelectedObfuscation::Udp2Tcp => settings.udp2tcp_port,
        SelectedObfuscation::Shadowsocks => settings.shadowsocks_port,
        SelectedObfuscation::WireguardPort => settings.wireguard_port,
        _ => None,
    }
}

/// What the port row says.
pub open spec fn port_text(app: App) -> Seq<char> {
    let port = match app.settings {
        Some(s) => port_of(s.obfuscation_settings, current_mode(app)),
        None => None,
    };
    match port {
        Some(p) => "Port: "@ + decimal_digits(p as nat),
        None => "Port: "@ + "Any"@,
    }
}

/// What stands above the modes.
pub open spec fn header() -> Seq<Seq<SpanView>> {
    seq![
        raw_line("Anti-censorship"@),
        raw_line(""@),
        raw_line("Override how WireGuard tunnels look on the wire to evade"@),
        raw_line("network-level VPN blocking. The active mode is marked *."@),
    ]
}

/// The rows of the page.
pub open spec fn page_rows(port_editable: bool) -> Seq<Constraint> {
    (seq![Constraint::Length(4)] + single_rows(
        if port_editable {
            10
        } else {
            8
        },
    )).push(Constraint::Min(0))
}

/// A mode row: marked if it is the current mode.
pub open spec fn mode_row_op(
    area: Rect,
    mode: SelectedObfuscation,
    active: bool,
    focused: Option<WidgetId>,
) -> OpView {
    label_button_op(
        area,
        (if active {
            "*"@
        } else {
            " "@
        }) + " "@ + mode.name(),
        "Select"@,
        WidgetId(selector(mode).id()),
        focused,
    )
}

/// What the page shows.
pub open spec fn page_ops(parts: Seq<Rect>, app: App) -> Seq<OpView> {
    let above = seq![block_op(parts[0], header(), Wrap::Cut)] + Seq::new(
        7,
        |i: int| mode_row_op(parts[2 + i], modes()[i], modes()[i] == current_mode(app), app.focused),
    );
    if has_port(current_mode(app)) {
        above.push(
            label_button_op(
                parts[10],
                port_text(app),
                "Edit"@,
                WidgetId(widgets::ANTI_CENSORSHIP_PORT_EDIT),
                app.focused,
            ),
        )
    } else {
        above
    }
}

/// `ops` draws the page in `area`.
pub open spec fn draws_page(ops: Seq<OpView>, area: Rect, app: App) -> bool {
    exists|parts: Seq<Rect>|
        #[trigger] divides_into_rows(area, page_rows(has_port(current_mode(app))), parts) && ops
            == page_ops(parts, app)
}

fn render_row(
    scene: &mut Scene,
    area: Rect,
    mode: SelectedObfuscation,
    active: bool,
    focused: Option<WidgetId>,
)
    ensures
        final(scene)@ == old(scene)@.push(mode_row_op(area, mode, active, focused)),
{
    let mut label = owned(
        if active {
            "*"
        } else {
            " "
        },
    );
    label.append(" ");
    label.append(mode.label());
    scene.label_button_row(area, label.as_str(), "Select", widget_id(mode), focused);
}

/// Draw the page in `area`: one row for each mode and, where the mode has a
/// port, a row for it.
///
/// `area` is the page's column, as [`crate::pages::page_area`] gives it.
pub fn render(area: Rect, app: &App) -> (scene: Scene)
    ensures
        draws_page(scene@, area, *app),
{
    let focused = app.focused;
    let active = current_obfuscation_mode(app);
    let port_editable = mode_has_configurable_port(active);
    let mut text = TextBlock::new();
    text.push_raw("Anti-censorship");
    text.push_raw("");
    text.push_raw("Override how WireGuard tunnels look on the wire to evade");
    text.push_raw("network-level VPN blocking. The active mode is marked *.");
    assert(text@ =~= header());
    let mut constraints: Vec<Constraint> = vec![Constraint::Length(4)];
    let mut below = one_cell_each(
        if port_editable {
            10
        } else {
            8
        },
    );
    constraints.append(&mut below);
    constraints.push(Constraint::Min(0));
    assert(constraints@ =~= page_rows(port_editable));
    let parts = split_rows(area, &constraints);
    let mut scene = Scene::new();
    scene.block(parts[0], text, Wrap::Cut);
    render_row(&mut scene, parts[2], SelectedObfuscation::Off, active == SelectedObfuscation::Off, focused);
    render_row(&mut scene, parts[3], SelectedObfuscation::Auto, active == SelectedObfuscation::Auto, focused);
    render_row(&mut scene, parts[4], SelectedObfuscation::Udp2Tcp, active == SelectedObfuscation::Udp2Tcp, focused);
    render_row(
        &mut scene,
        parts[5],
        SelectedObfuscation::Shadowsocks,
        active == SelectedObfuscation::Shadowsocks,
        focused,
    );
    render_row(
        &mut scene,
        parts[6],
        SelectedObfuscation::WireguardPort,
        active == SelectedObfuscation::WireguardPort,
        focused,
    );
    render_row(&mut scene, parts[7], SelectedObfuscation::Quic, active == SelectedObfuscation::Quic, focused);
    render_row(&mut scene, parts[8], SelectedObfuscation::Lwo, active == SelectedObfuscation::Lwo, focused);
    if port_editable {
        let port: Option<u16> = match &app.settings {
            Some(s) => current_port_for_mode(&s.obfuscation_settings, active),
            None => None,
        };
        let value = match port {
            Some(p) => decimal(p as u64),
            None => owned("Any"),
        };
        scene.label_button_row(
            parts[10],
            cat("Port: ", value.as_str()).as_str(),
            "Edit",
            WidgetId(widgets::ANTI_CENSORSHIP_PORT_EDIT),
            focused,
        );
    }
    assert(scene@ =~= page_ops(parts@, *app));
    scene
}

} // verus!
