//! What the Settings pages show of the settings, and that each mark stands beside
//! the widget that changes what it shows.

use crate::app::App;
use crate::daemon::{RelayOverride, SelectedObfuscation, Settings};
use crate::focus::WidgetId;
use crate::geometry::Rect;
use crate::pages::settings::laws::{
    ids_lead_to_their_widgets, nothing_is_up, settings_after, with_settings,
};
use crate::pages::settings::vpn::VpnRowView;
use crate::pages::settings::{
    anti_censorship, api_access, custom_dns, daita, dns_blockers, multihop, relay_overrides, root,
    split_tunnel, vpn, widgets, SettingsWidget,
};
use crate::scene::{block_op, joined, label_op, Color, OpView, Wrap};
use crate::text::{decimal_digits, signed_digits};
use vstd::prelude::*;

verus! {

// ---- Marks ----

/// Whether an operation draws a line that reads `text`.
pub open spec fn reads(op: OpView, text: Seq<char>) -> bool {
    &&& op is Text
    &&& op->text.len() == 1
    &&& op->text[0].len() == 1
    &&& op->text[0][0] is Styled
    &&& op->text[0][0]->Styled_content == text
}

/// Whether an operation draws the button with the id `id`.
pub open spec fn is_button(op: OpView, id: u32) -> bool {
    match op {
        OpView::Button { id: i, .. } => i == WidgetId(id),
        OpView::RunningButton { id: i, .. } => i == WidgetId(id),
        OpView::CenteredButton { id: i, .. } => i == WidgetId(id),
        OpView::LabelButtonRow { id: i, .. } => i == WidgetId(id),
        _ => false,
    }
}

/// What a button reads.
pub open spec fn face(op: OpView) -> Seq<char> {
    match op {
        OpView::Button { label, .. } => label,
        OpView::RunningButton { label, .. } => label,
        OpView::CenteredButton { label, .. } => label,
        OpView::LabelButtonRow { button, .. } => button,
        _ => Seq::empty(),
    }
}

/// Whether there is one button with the id `id`, and it reads `text`.
pub open spec fn has_button(ops: Seq<OpView>, id: u32, text: Seq<char>) -> bool {
    &&& exists|i: int| 0 <= i < ops.len() && is_button(#[trigger] ops[i], id)
    &&& forall|i: int|
        0 <= i < ops.len() && is_button(#[trigger] ops[i], id) ==> face(ops[i]) == text
}

/// Whether the checkbox with the id `id` is there, and checked exactly if `on`.
pub open spec fn has_mark(ops: Seq<OpView>, id: u32, on: bool) -> bool {
    has_button(
        ops,
        id,
        if on {
            "x"@
        } else {
            " "@
        },
    )
}

/// Whether a line reads `text`.
pub open spec fn has_line(ops: Seq<OpView>, text: Seq<char>) -> bool {
    exists|i: int| 0 <= i < ops.len() && reads(#[trigger] ops[i], text)
}

/// `On` or `Off`.
pub open spec fn word(on: bool) -> Seq<char> {
    if on {
        "On"@
    } else {
        "Off"@
    }
}

/// A checked mark looks other than a clear one, and `On` reads other than `Off`.
pub proof fn marks_can_be_told_apart(a: bool, b: bool)
    ensures
        crate::components::check_mark(a) == crate::components::check_mark(b) <==> a == b,
        crate::components::on_off(a) == crate::components::on_off(b) <==> a == b,
        crate::components::checkbox(a) == crate::components::checkbox(b) <==> a == b,
        crate::components::radio(a) == crate::components::radio(b) <==> a == b,
        crate::components::chevron(a) == crate::components::chevron(b) <==> a == b,
{
    reveal_strlit("x");
    reveal_strlit(" ");
    reveal_strlit("On");
    reveal_strlit("Off");
    reveal_strlit("[x]");
    reveal_strlit("[ ]");
    reveal_strlit("(•)");
    reveal_strlit("( )");
    reveal_strlit("▲");
    reveal_strlit("▼");
    assert("x"@[0] != " "@[0]);
    assert("On"@.len() != "Off"@.len());
    assert("[x]"@[1] != "[ ]"@[1]);
    assert("(•)"@[1] != "( )"@[1]);
    assert("▲"@[0] != "▼"@[0]);
}

// ---- Pages with one or two settings ----

/// The Multihop page shows whether multihop is on, and its checkbox turns over
/// what it shows.
pub proof fn the_multihop_page_shows_multihop(
    ops: Seq<OpView>,
    after: Seq<OpView>,
    area: Rect,
    app: App,
    s: Settings,
    linux: bool,
)
    requires
        app.settings == Some(s),
        multihop::draws_page(ops, area, app),
        multihop::draws_page(
            after,
            area,
            with_settings(
                app,
                settings_after(app, s, WidgetId(widgets::MULTIHOP_TOGGLE), linux),
            ),
        ),
    ensures
        has_mark(ops, widgets::MULTIHOP_TOGGLE, s.use_multihop),
        has_line(ops, "Status: "@ + word(s.use_multihop)),
        has_mark(after, widgets::MULTIHOP_TOGGLE, !s.use_multihop),
{
    ids_lead_to_their_widgets(app, SettingsWidget::MultihopToggle, linux);
    assert(reads(ops[2], "Status: "@ + word(s.use_multihop)));
    assert(is_button(ops[3], widgets::MULTIHOP_TOGGLE));
    assert(is_button(after[3], widgets::MULTIHOP_TOGGLE));
}

/// The DAITA page shows whether DAITA is on, and whether it is held to direct
/// connections; each checkbox turns over what it shows, and not the other.
pub proof fn the_daita_page_shows_daita(
    ops: Seq<OpView>,
    area: Rect,
    app: App,
    s: Settings,
    linux: bool,
)
    requires
        app.settings == Some(s),
        daita::draws_page(ops, area, app),
    ensures
        has_mark(ops, widgets::DAITA_TOGGLE, s.daita.enabled),
        has_line(ops, "Status: "@ + word(s.daita.enabled)),
        has_mark(ops, widgets::DAITA_DIRECT_ONLY_TOGGLE, !s.daita.use_multihop_if_necessary),
        settings_after(app, s, WidgetId(widgets::DAITA_TOGGLE), linux).daita.enabled
            == !s.daita.enabled,
        settings_after(
            app,
            s,
            WidgetId(widgets::DAITA_TOGGLE),
            linux,
        ).daita.use_multihop_if_necessary == s.daita.use_multihop_if_necessary,
        settings_after(
            app,
            s,
            WidgetId(widgets::DAITA_DIRECT_ONLY_TOGGLE),
            linux,
        ).daita.use_multihop_if_necessary == !s.daita.use_multihop_if_necessary,
        settings_after(
            app,
            s,
            WidgetId(widgets::DAITA_DIRECT_ONLY_TOGGLE),
            linux,
        ).daita.enabled == s.daita.enabled,
{
    ids_lead_to_their_widgets(app, SettingsWidget::DaitaToggle, linux);
    ids_lead_to_their_widgets(app, SettingsWidget::DaitaDirectOnlyToggle, linux);
    let last = ops.len() - 1;
    assert(reads(ops[last - 3], "Status: "@ + word(s.daita.enabled)));
    assert(is_button(ops[last - 2], widgets::DAITA_TOGGLE));
    assert(is_button(ops[last], widgets::DAITA_DIRECT_ONLY_TOGGLE));
}

/// The root page shows whether DAITA and multihop are on, wherever there is room,
/// and its last button says whether quitting takes a tunnel down.
pub proof fn the_last_button_says_whether_it_disconnects(
    ops: Seq<OpView>,
    area: Rect,
    app: App,
    tui: Seq<char>,
    targeted: Seq<char>,
)
    requires
        root::draws_page(ops, area, app, tui, targeted),
    ensures
        ops.len() > 0,
        is_button(ops.last(), widgets::DISCONNECT_AND_QUIT),
        face(ops.last()) == if nothing_is_up(app.connection) {
            "Quit"@
        } else {
            "Disconnect & quit"@
        },
{
}

/// Beside the entries of the root page stand the settings that they lead to.
pub proof fn root_entries_show_their_settings(parts: Seq<Rect>, app: App)
    ensures
        ({
            let ops = root::entry_ops(parts, app);
            let s = app.settings->0;
            let known = app.settings is Some;
            &&& parts[0].width > 11 ==> ops.len() > 1 && is_button(ops[0], widgets::DAITA) && reads(
                ops[1],
                word(known && s.daita.enabled),
            )
            &&& parts[0].width > 11 && parts[1].width > 14 ==> ops.len() > 4 && is_button(
                ops[3],
                widgets::MULTIHOP,
            ) && reads(ops[4], word(known && s.use_multihop))
        }),
{
    reveal_strlit("On");
    reveal_strlit("Off");
    reveal_strlit("DAITA");
    reveal_strlit("Multihop");
    let ops = root::entry_ops(parts, app);
}

// ---- Content blockers ----

/// Each row of the content blockers names its blocker and shows whether it is on.
pub proof fn blocker_rows_show_their_blocker(ops: Seq<OpView>, area: Rect, app: App, s: Settings)
    requires
        app.settings == Some(s),
        dns_blockers::draws_page(ops, area, app),
    ensures
        ops.len() == 8,
        blocker_reads(ops[2], widgets::DNS_BLOCK_ADS, "Ads"@, s.dns.blockers.ads),
        blocker_reads(ops[3], widgets::DNS_BLOCK_TRACKERS, "Trackers"@, s.dns.blockers.trackers),
        blocker_reads(ops[4], widgets::DNS_BLOCK_MALWARE, "Malware"@, s.dns.blockers.malware),
        blocker_reads(
            ops[5],
            widgets::DNS_BLOCK_ADULT_CONTENT,
            "Adult content"@,
            s.dns.blockers.adult_content,
        ),
        blocker_reads(ops[6], widgets::DNS_BLOCK_GAMBLING, "Gambling"@, s.dns.blockers.gambling),
        blocker_reads(
            ops[7],
            widgets::DNS_BLOCK_SOCIAL_MEDIA,
            "Social media"@,
            s.dns.blockers.social_media,
        ),
{
}

/// Whether a row is that of a blocker, named, with its mark and word.
pub open spec fn blocker_reads(op: OpView, id: u32, name: Seq<char>, on: bool) -> bool {
    &&& op is LabelButtonRow
    &&& op->LabelButtonRow_id == WidgetId(id)
    &&& op->LabelButtonRow_label == name + ": "@ + word(on)
    &&& op->button == if on {
        "x"@
    } else {
        " "@
    }
}

// ---- Anti-censorship ----

/// The rows of the obfuscation modes mark the mode in use, and no other; the row
/// of a mode is that of the widget that sets it.
pub proof fn the_mode_in_use_is_marked(ops: Seq<OpView>, area: Rect, app: App, s: Settings)
    requires
        app.settings == Some(s),
        anti_censorship::draws_page(ops, area, app),
    ensures
        ({
            let used = s.obfuscation_settings.selected_obfuscation;
            &&& ops.len() >= 8
            &&& mode_reads(
                ops[1],
                widgets::ANTI_CENSORSHIP_MODE_OFF,
                "off"@,
                used == SelectedObfuscation::Off,
            )
            &&& mode_reads(
                ops[2],
                widgets::ANTI_CENSORSHIP_MODE_AUTO,
                "auto"@,
                used == SelectedObfuscation::Auto,
            )
            &&& mode_reads(
                ops[3],
                widgets::ANTI_CENSORSHIP_MODE_UDP2_TCP,
                "udp2tcp"@,
                used == SelectedObfuscation::Udp2Tcp,
            )
            &&& mode_reads(
                ops[4],
                widgets::ANTI_CENSORSHIP_MODE_SHADOWSOCKS,
                "shadowsocks"@,
                used == SelectedObfuscation::Shadowsocks,
            )
            &&& mode_reads(
                ops[5],
                widgets::ANTI_CENSORSHIP_MODE_WIREGUARD_PORT,
                "wireguard-port"@,
                used == SelectedObfuscation::WireguardPort,
            )
            &&& mode_reads(
                ops[6],
                widgets::ANTI_CENSORSHIP_MODE_QUIC,
                "quic"@,
                used == SelectedObfuscation::Quic,
            )
            &&& mode_reads(
                ops[7],
                widgets::ANTI_CENSORSHIP_MODE_LWO,
                "lwo"@,
                used == SelectedObfuscation::Lwo,
            )
        }),
{
}

/// Whether a row is that of a mode, named, and marked if it is in use.
pub open spec fn mode_reads(op: OpView, id: u32, name: Seq<char>, used: bool) -> bool {
    &&& op is LabelButtonRow
    &&& op->LabelButtonRow_id == WidgetId(id)
    &&& op->button == "Select"@
    &&& op->LabelButtonRow_label == (if used {
        "*"@
    } else {
        " "@
    }) + " "@ + name
}

/// The port row is there exactly where the mode in use has a port, and shows that
/// mode's port.
pub proof fn the_port_shown_is_that_of_the_mode_in_use(
    ops: Seq<OpView>,
    area: Rect,
    app: App,
    s: Settings,
)
    requires
        app.settings == Some(s),
        anti_censorship::draws_page(ops, area, app),
    ensures
        ({
            let o = s.obfuscation_settings;
            let port = match o.selected_obfuscation {
                SelectedObfuscation::Udp2Tcp => Some(o.udp2tcp_port),
                SelectedObfuscation::Shadowsocks => Some(o.shadowsocks_port),
                SelectedObfuscation::WireguardPort => Some(o.wireguard_port),
                _ => None,
            };
            &&& port is None ==> ops.len() == 8
            &&& port is Some ==> {
                &&& ops.len() == 9
                &&& ops[8] is LabelButtonRow
                &&& ops[8]->LabelButtonRow_id == WidgetId(widgets::ANTI_CENSORSHIP_PORT_EDIT)
                &&& ops[8]->LabelButtonRow_label == "Port: "@ + match port->0 {
                    Some(n) => decimal_digits(n as nat),
                    None => "Any"@,
                }
            }
        }),
{
}

// ---- The VPN page ----

/// The summaries of the VPN page: how many servers custom DNS uses, and which
/// obfuscation mode is in use.
pub proof fn summaries_tell_the_settings(app: App, buffer: Seq<char>)
    ensures
        ({
            let rows = vpn::rows_in(app, buffer);
            let dns = rows[3];
            let mode = rows[7];
            let s = app.settings->0;
            let n = s.dns.addresses@.len();
            &&& dns is Button && dns->button_id == WidgetId(widgets::VPN_CUSTOM_DNS_INFO)
            &&& mode is Button && mode->button_id == WidgetId(widgets::VPN_ANTI_CENSORSHIP_EDIT)
            &&& app.settings is None ==> dns->button_text == "-"@ + " >"@ && mode->button_text
                == "unknown"@ + " >"@
            &&& app.settings is Some ==> {
                &&& dns->button_text == (if !s.dns.custom {
                    "Off"@
                } else if n == 0 {
                    "On (no servers)"@
                } else if n == 1 {
                    "1 server"@
                } else {
                    decimal_digits(n) + " servers"@
                }) + " >"@
                &&& mode->button_text == (match s.obfuscation_settings.selected_obfuscation {
                    SelectedObfuscation::Off => "off"@,
                    SelectedObfuscation::Auto => "auto"@,
                    SelectedObfuscation::Udp2Tcp => "udp2tcp"@,
                    SelectedObfuscation::Shadowsocks => "shadowsocks"@,
                    SelectedObfuscation::WireguardPort => "wireguard-port"@,
                    SelectedObfuscation::Quic => "quic"@,
                    SelectedObfuscation::Lwo => "lwo"@,
                }) + " >"@
            }
        }),
{
}

/// The rows of the VPN page are named after what they show.
pub proof fn vpn_rows_are_named(app: App, buffer: Seq<char>)
    ensures
        ({
            let rows = vpn::rows_in(app, buffer);
            &&& rows.len() == 16
            &&& rows[0]->Toggle_label == "Auto-connect"@ && rows[0]->toggle_id == WidgetId(
                widgets::VPN_AUTO_CONNECT_TOGGLE,
            ) && rows[0]->info_id is None
            &&& rows[1]->Toggle_label == "Local network sharing"@ && rows[1]->toggle_id == WidgetId(
                widgets::VPN_LAN_TOGGLE,
            ) && rows[1]->info_id == Some(WidgetId(widgets::VPN_LAN_INFO))
            &&& rows[4]->Toggle_label == "In-tunnel IPv6"@ && rows[4]->toggle_id == WidgetId(
                widgets::VPN_IPV6_TOGGLE,
            ) && rows[4]->info_id == Some(WidgetId(widgets::VPN_IPV6_INFO))
            &&& rows[5]->Toggle_label == "Kill switch"@ && rows[5]->toggle_id == WidgetId(
                widgets::VPN_KILL_SWITCH_TOGGLE,
            ) && rows[5]->info_id == Some(WidgetId(widgets::VPN_KILL_SWITCH_INFO))
            &&& rows[6]->Toggle_label == "Lockdown mode"@ && rows[6]->toggle_id == WidgetId(
                widgets::VPN_LOCKDOWN_TOGGLE,
            ) && rows[6]->info_id == Some(WidgetId(widgets::VPN_LOCKDOWN_INFO))
            &&& rows[8]->Toggle_label == "Quantum-resistant tunnel"@ && rows[8]->toggle_id
                == WidgetId(widgets::VPN_QUANTUM_TOGGLE) && rows[8]->info_id == Some(
                WidgetId(widgets::VPN_QUANTUM_INFO),
            )
            &&& rows[2]->button_id == WidgetId(widgets::VPN_DNS_BLOCKERS_INFO)
            &&& rows[9]->button_id == WidgetId(widgets::VPN_DEVICE_IP_INFO)
            &&& rows[10]->Radio_label == "Automatic"@ && rows[11]->Radio_label == "IPv4"@
                && rows[12]->Radio_label == "IPv6"@
            &&& rows[13] is Input && rows[13]->buffer == buffer && rows[13]->Input_id == WidgetId(
                widgets::VPN_MTU_EDIT,
            )
            &&& rows[15]->button_id == WidgetId(widgets::VPN_SERVER_IP_INFO)
        }),
{
}

/// The MTU field shows what the user types while it has the focus, and what the
/// settings say otherwise.
pub proof fn the_field_shows_the_mtu(app: App)
    ensures
        app.focused == Some(WidgetId(widgets::VPN_MTU_EDIT)) ==> vpn::mtu_buffer_after(app)
            == app.settings_state.mtu_buffer@,
        app.focused != Some(WidgetId(widgets::VPN_MTU_EDIT)) ==> vpn::mtu_buffer_after(app)
            == if app.settings is Some && app.settings->0.mtu is Some {
            decimal_digits(app.settings->0.mtu->0 as nat)
        } else {
            Seq::empty()
        },
{
}

/// Where the operations of a row begin.
spec fn ops_above(areas: Seq<Rect>, rows: Seq<VpnRowView>, n: int, focused: Option<WidgetId>) -> int {
    vpn::page_ops(areas, rows, n, focused).len() as int
}

proof fn rows_are_drawn(
    areas: Seq<Rect>,
    rows: Seq<VpnRowView>,
    n: int,
    focused: Option<WidgetId>,
    i: int,
)
    requires
        0 <= i < n,
    ensures
        ({
            let ops = vpn::page_ops(areas, rows, n, focused);
            let at = ops_above(areas, rows, i, focused);
            let row = vpn::vpn_row_ops(areas[i], rows[i], focused);
            &&& at + row.len() <= ops.len()
            &&& ops.subrange(at, at + row.len()) == row
        }),
    decreases n,
{
    let ops = vpn::page_ops(areas, rows, n, focused);
    let at = ops_above(areas, rows, i, focused);
    let row = vpn::vpn_row_ops(areas[i], rows[i], focused);
    if i < n - 1 {
        rows_are_drawn(areas, rows, n - 1, focused, i);
        let before = vpn::page_ops(areas, rows, n - 1, focused);
        assert(ops.subrange(at, at + row.len()) =~= before.subrange(at, at + row.len()));
    } else {
        assert(ops.subrange(at, at + row.len()) =~= row);
    }
}

/// Whether a mark that reads `text` stands in front of the widget `id`, in the
/// same place.
pub open spec fn mark_before(ops: Seq<OpView>, at: int, id: WidgetId, text: Seq<char>) -> bool {
    &&& 0 <= at
    &&& at + 1 < ops.len()
    &&& reads(ops[at], text)
    &&& ops[at + 1] is Register
    &&& ops[at + 1]->Register_id == id
    &&& ops[at]->Text_area == ops[at + 1]->Register_area
}

/// On the VPN page a checked box stands before every setting that is on, an empty
/// one before every setting that is off, and likewise for the radios.
pub proof fn vpn_marks_are_drawn(
    ops: Seq<OpView>,
    area: Rect,
    app: App,
    buffer: Seq<char>,
    i: int,
)
    requires
        vpn::draws_page(ops, area, app, buffer),
        0 <= i < 16,
    ensures
        ({
            let row = vpn::rows_in(app, buffer)[i];
            let on = "  (•) "@ + row->Radio_label;
            let off = "  ( ) "@ + row->Radio_label;
            &&& row is Toggle && row->enabled ==> exists|at: int| #[trigger]
                mark_before(ops, at, row->toggle_id, "[x]"@)
            &&& row is Toggle && !row->enabled ==> exists|at: int| #[trigger]
                mark_before(ops, at, row->toggle_id, "[ ]"@)
            &&& row is Radio && row->selected ==> exists|at: int| #[trigger]
                mark_before(ops, at, row->Radio_id, on)
            &&& row is Radio && !row->selected ==> exists|at: int| #[trigger]
                mark_before(ops, at, row->Radio_id, off)
            &&& row is Button ==> exists|at: int|
                0 <= at < ops.len() && (#[trigger] ops[at]) is LabelButtonRow
                    && ops[at]->LabelButtonRow_id == row->button_id
                    && ops[at]->LabelButtonRow_label == row->Button_label && ops[at]->button
                    == row->button_text
        }),
{
    let rows = vpn::rows_in(app, buffer);
    let areas = choose|areas: Seq<Rect>|
        #[trigger] crate::geometry::divides_into_rows(
            area,
            crate::geometry::single_rows(16).push(crate::geometry::Constraint::Min(0)),
            areas,
        ) && ops == vpn::page_ops(areas, rows, 16, app.focused);
    rows_are_drawn(areas, rows, 16, app.focused, i);
    let at = ops_above(areas, rows, i, app.focused);
    let drawn = vpn::vpn_row_ops(areas[i], rows[i], app.focused);
    let part = ops.subrange(at, at + drawn.len());
    match rows[i] {
        VpnRowView::Toggle { enabled, toggle_id, .. } => {
            assert(part[1] == ops[at + 1] && part[2] == ops[at + 2]);
            assert(mark_before(
                ops,
                at + 1,
                toggle_id,
                if enabled {
                    "[x]"@
                } else {
                    "[ ]"@
                },
            ));
        },
        VpnRowView::Radio { selected, label, id } => {
            assert(part[0] == ops[at] && part[1] == ops[at + 1]);
            reveal_strlit("  ");
            reveal_strlit(" ");
            reveal_strlit("(•)");
            reveal_strlit("( )");
            reveal_strlit("  (•) ");
            reveal_strlit("  ( ) ");
            assert("  "@ + "(•)"@ + " "@ + label =~= "  (•) "@ + label);
            assert("  "@ + "( )"@ + " "@ + label =~= "  ( ) "@ + label);
            assert(mark_before(
                ops,
                at,
                id,
                if selected {
                    "  (•) "@ + label
                } else {
                    "  ( ) "@ + label
                },
            ));
        },
        VpnRowView::Button { .. } => {
            assert(part[0] == ops[at]);
            assert(ops[at] is LabelButtonRow);
        },
        _ => {},
    }
}

// ---- Lists ----

/// Whether the operations of a list entry stand in `ops` from `at` on.
pub open spec fn stands_in(ops: Seq<OpView>, at: int, entry: Seq<OpView>) -> bool {
    &&& 0 <= at
    &&& at + entry.len() <= ops.len()
    &&& forall|q: int| 0 <= q < entry.len() ==> #[trigger] entry[q] == ops[at + q]
}

/// Whether the server `address` is shown at `at`, with the buttons that edit and
/// remove the entry `i`.
pub open spec fn address_at(ops: Seq<OpView>, at: int, address: Seq<char>, i: int) -> bool {
    &&& 0 <= at < ops.len()
    &&& reads(ops[at], "    "@ + address)
    &&& i < 16 ==> {
        &&& at + 2 < ops.len()
        &&& is_button(ops[at + 1], (widgets::CUSTOM_DNS_EDIT_BASE + i) as u32)
        &&& face(ops[at + 1]) == "Edit"@
        &&& is_button(ops[at + 2], (widgets::CUSTOM_DNS_REMOVE_BASE + i) as u32)
        &&& face(ops[at + 2]) == "Remove"@
    }
}

/// Whether the server `address` is shown, with the buttons that edit and remove
/// the entry `i`.
pub open spec fn address_at_some(ops: Seq<OpView>, address: Seq<char>, i: int) -> bool {
    exists|at: int| address_at(ops, at, address, i)
}

proof fn addresses_are_drawn(
    parts: Seq<Rect>,
    addresses: Seq<String>,
    n: int,
    focused: Option<WidgetId>,
    i: int,
) -> (at: int)
    requires
        0 <= i < n <= addresses.len(),
    ensures
        stands_in(
            custom_dns::address_rows_ops(parts, addresses, n, focused),
            at,
            custom_dns::address_row_ops(parts[7 + i], addresses[i]@, i, focused),
        ),
    decreases n,
{
    if i < n - 1 {
        addresses_are_drawn(parts, addresses, n - 1, focused, i)
    } else {
        custom_dns::address_rows_ops(parts, addresses, n - 1, focused).len() as int
    }
}

/// The Custom DNS page shows whether custom DNS is on, and each server beside the
/// buttons that edit and remove it.
pub proof fn the_custom_dns_page_shows_the_servers(
    ops: Seq<OpView>,
    area: Rect,
    app: App,
    s: Settings,
)
    requires
        app.settings == Some(s),
        custom_dns::draws_page(ops, area, app),
    ensures
        ops.len() > 3,
        is_button(ops[3], widgets::CUSTOM_DNS_TOGGLE),
        face(ops[3]) == if s.dns.custom {
            "x"@
        } else {
            " "@
        },
        reads(ops[2], "Status: "@ + word(s.dns.custom)),
        s.dns.addresses@.len() == 0 ==> has_line(ops, "    (no servers configured)"@),
        forall|i: int|
            0 <= i < s.dns.addresses@.len() ==> address_at_some(
                ops,
                (#[trigger] s.dns.addresses@[i])@,
                i,
            ),
        is_button(ops.last(), widgets::CUSTOM_DNS_ADD_ADDRESS),
{
    let parts = choose|parts: Seq<Rect>|
        parts.len() == custom_dns::page_rows(0, s.dns.addresses@.len()).len()
            && #[trigger] crate::geometry::divides_into_rows(
            area,
            custom_dns::page_rows(
                crate::wrap::rows_of(custom_dns::description(), false, area.width) as u16,
                s.dns.addresses@.len(),
            ),
            parts,
        ) && ops == custom_dns::page_ops(parts, app);
    let addresses = s.dns.addresses@;
    let n = addresses.len() as int;
    if n == 0 {
        assert(reads(ops[6], "    (no servers configured)"@));
    } else {
        let list = custom_dns::address_rows_ops(parts, addresses, n, app.focused);
        assert(stands_in(ops, 6, list));
        assert forall|i: int| 0 <= i < n implies address_at_some(
            ops,
            (#[trigger] addresses[i])@,
            i,
        ) by {
            let at = addresses_are_drawn(parts, addresses, n, app.focused, i);
            let entry = custom_dns::address_row_ops(parts[7 + i], addresses[i]@, i, app.focused);
            assert(entry[0] == list[at]);
            assert(list[at] == ops[6 + at]);
            if i < 16 {
                assert(entry[1] == list[at + 1] && entry[2] == list[at + 2]);
                assert(list[at + 1] == ops[6 + (at + 1)] && list[at + 2] == ops[6 + (at + 2)]);
            }
            assert(address_at(ops, 6 + at, addresses[i]@, i));
        }
    }
}

/// Whether an excluded entry is shown at `at`, with the button that removes it.
pub open spec fn excluded_at(ops: Seq<OpView>, at: int, text: Seq<char>, id: u32, i: int) -> bool {
    &&& 0 <= at < ops.len()
    &&& reads(ops[at], "    "@ + text)
    &&& i < 32 ==> {
        &&& at + 1 < ops.len()
        &&& is_button(ops[at + 1], id)
        &&& face(ops[at + 1]) == "Remove"@
    }
}

proof fn excluded_are_drawn(parts: Seq<Rect>, app: App, linux: bool, n: int, i: int) -> (at: int)
    requires
        0 <= i < n,
    ensures
        stands_in(
            split_tunnel::list_ops(parts, app, linux, n),
            at,
            crate::pages::settings::rows::remove_row_ops(
                parts[5 + i],
                split_tunnel::list_label(app, linux, i),
                crate::focus::id_in(
                    i,
                    split_tunnel::list_base(linux),
                    widgets::SPLIT_TUNNEL_REMOVE_MAX,
                ),
                app.focused,
            ),
        ),
    decreases n,
{
    if i < n - 1 {
        excluded_are_drawn(parts, app, linux, n - 1, i)
    } else {
        split_tunnel::list_ops(parts, app, linux, n - 1).len() as int
    }
}

/// What the Split tunneling page lists: processes on Linux, and else programs.
pub open spec fn excluded(app: App, linux: bool, i: int) -> Seq<char> {
    if linux {
        signed_digits(app.split_tunnel_pids->0@[i] as int)
    } else {
        app.settings->0.split_tunnel.apps@[i]@
    }
}

/// The Split tunneling page shows whether split tunneling is on, and each entry
/// beside the button that removes it.
pub proof fn the_split_tunnel_page_shows_what_is_excluded(
    ops: Seq<OpView>,
    area: Rect,
    app: App,
    s: Settings,
    linux: bool,
)
    requires
        app.settings == Some(s),
        split_tunnel::draws_page(ops, area, app, linux),
    ensures
        ops.len() > 2,
        reads(ops[1], "Status: "@ + word(s.split_tunnel.enabled)),
        is_button(ops[2], widgets::SPLIT_TUNNEL_TOGGLE),
        face(ops[2]) == if s.split_tunnel.enabled {
            "x"@
        } else {
            " "@
        },
        is_button(
            ops.last(),
            if linux {
                widgets::SPLIT_TUNNEL_ADD_PID
            } else {
                widgets::SPLIT_TUNNEL_ADD_APP
            },
        ),
        !linux ==> forall|i: int|
            0 <= i < s.split_tunnel.apps@.len() ==> excluded_at_some(
                    ops,
                    (#[trigger] s.split_tunnel.apps@[i])@,
                    (widgets::SPLIT_TUNNEL_REMOVE_APP_BASE + i) as u32,
                    i,
                ),
        linux && app.split_tunnel_pids is Some ==> forall|i: int|
            0 <= i < app.split_tunnel_pids->0@.len() ==> excluded_at_some(
                    ops,
                    signed_digits(#[trigger] app.split_tunnel_pids->0@[i] as int),
                    (widgets::SPLIT_TUNNEL_REMOVE_PID_BASE + i) as u32,
                    i,
                ),
{
    let count = split_tunnel::list_len(app, linux);
    let parts = choose|parts: Seq<Rect>|
        parts.len() == split_tunnel::page_rows(0, count).len()
            && #[trigger] crate::geometry::divides_into_rows(
            area,
            split_tunnel::page_rows(
                crate::wrap::rows_of(split_tunnel::header(linux), false, area.width) as u16,
                count,
            ),
            parts,
        ) && ops == split_tunnel::page_ops(parts, app, linux);
    let n = count as int;
    let base = split_tunnel::list_base(linux);
    if n > 0 {
        let list = split_tunnel::list_ops(parts, app, linux, n);
        assert(stands_in(ops, 5, list));
        assert forall|i: int| 0 <= i < n implies #[trigger] excluded_at_some(
            ops,
            excluded(app, linux, i),
            (base + i) as u32,
            i,
        ) by {
            let at = excluded_are_drawn(parts, app, linux, n, i);
            let entry = crate::pages::settings::rows::remove_row_ops(
                parts[5 + i],
                split_tunnel::list_label(app, linux, i),
                crate::focus::id_in(i, base, widgets::SPLIT_TUNNEL_REMOVE_MAX),
                app.focused,
            );
            assert(entry[0] == list[at]);
            assert(list[at] == ops[5 + at]);
            if i < 32 {
                assert(entry[1] == list[at + 1]);
                assert(list[at + 1] == ops[5 + (at + 1)]);
            }
            assert(excluded_at(ops, 5 + at, excluded(app, linux, i), (base + i) as u32, i));
        }
        if linux {
            assert forall|i: int| 0 <= i < app.split_tunnel_pids->0@.len() implies excluded_at_some(
                    ops,
                    signed_digits(#[trigger] app.split_tunnel_pids->0@[i] as int),
                    (widgets::SPLIT_TUNNEL_REMOVE_PID_BASE + i) as u32,
                    i,
                ) by {
                assert(excluded_at_some(ops, excluded(app, linux, i), (base + i) as u32, i));
            }
        } else {
            assert forall|i: int| 0 <= i < s.split_tunnel.apps@.len() implies excluded_at_some(
                    ops,
                    (#[trigger] s.split_tunnel.apps@[i])@,
                    (widgets::SPLIT_TUNNEL_REMOVE_APP_BASE + i) as u32,
                    i,
                ) by {
                assert(excluded_at_some(ops, excluded(app, linux, i), (base + i) as u32, i));
            }
        }
    }
}

/// Whether an excluded entry is shown, with the button that removes it.
pub open spec fn excluded_at_some(ops: Seq<OpView>, text: Seq<char>, id: u32, i: int) -> bool {
    exists|at: int| excluded_at(ops, at, text, id, i)
}

/// Whether an override is shown at `at`: the relay, with the button that removes
/// its override, and below it the two addresses, or a dash for one that is not
/// replaced.
pub open spec fn override_at(ops: Seq<OpView>, at: int, ov: RelayOverride, i: int) -> bool {
    &&& 0 <= at
    &&& at + 2 < ops.len()
    &&& i < 32 ==> is_button(ops[at], (widgets::RELAY_OVERRIDE_REMOVE_BASE + i) as u32)
        && ops[at]->LabelButtonRow_label == ov.hostname@ && face(ops[at]) == "Remove"@
    &&& i >= 32 ==> reads(ops[at], ov.hostname@)
    &&& reads(
        ops[at + 1],
        "    v4 "@ + if ov.ipv4_addr_in is Some {
            ov.ipv4_addr_in->0@
        } else {
            "\u{2014}"@
        },
    )
    &&& reads(
        ops[at + 2],
        "    v6 "@ + if ov.ipv6_addr_in is Some {
            ov.ipv6_addr_in->0@
        } else {
            "\u{2014}"@
        },
    )
}

proof fn overrides_are_drawn(
    parts: Seq<Rect>,
    overrides: Seq<RelayOverride>,
    n: int,
    focused: Option<WidgetId>,
    i: int,
)
    requires
        0 <= i < n <= overrides.len(),
    ensures
        relay_overrides::overrides_ops(parts, overrides, n, focused).len() == 3 * n,
        override_at(
            relay_overrides::overrides_ops(parts, overrides, n, focused),
            3 * i,
            overrides[i],
            i,
        ),
    decreases n,
{
    if i < n - 1 {
        overrides_are_drawn(parts, overrides, n - 1, focused, i);
    } else if n > 1 {
        overrides_are_drawn(parts, overrides, n - 1, focused, n - 2);
    }
}

/// The Server IP overrides page shows each override beside the button that removes
/// it.
pub proof fn the_overrides_page_shows_the_overrides(
    ops: Seq<OpView>,
    area: Rect,
    app: App,
    s: Settings,
    i: int,
)
    requires
        app.settings == Some(s),
        relay_overrides::draws_page(ops, area, app),
        0 <= i < s.relay_overrides@.len(),
    ensures
        override_at(ops, 4 + 3 * i, s.relay_overrides@[i], i),
{
    let (parts, footer) = choose|parts: Seq<Rect>, footer: Seq<OpView>|
        parts.len() == relay_overrides::page_rows(0, s.relay_overrides@.len()).len()
            && #[trigger] crate::geometry::divides_into_rows(
            area,
            relay_overrides::page_rows(
                crate::wrap::rows_of(relay_overrides::description(), false, area.width) as u16,
                s.relay_overrides@.len(),
            ),
            parts,
        ) && #[trigger] relay_overrides::draws_footer(
            footer,
            parts[parts.len() - 1],
            app.focused,
        ) && ops == relay_overrides::body_ops(parts, app) + footer;
    let all = s.relay_overrides@;
    let list = relay_overrides::overrides_ops(parts, all, all.len() as int, app.focused);
    overrides_are_drawn(parts, all, all.len() as int, app.focused, i);
    assert(ops[4 + 3 * i] == list[3 * i]);
    assert(ops[4 + 3 * i + 1] == list[3 * i + 1]);
    assert(ops[4 + 3 * i + 2] == list[3 * i + 2]);
}

proof fn pieces_stand_in_the_whole(pieces: Seq<Seq<OpView>>, i: int) -> (at: int)
    requires
        0 <= i < pieces.len(),
    ensures
        stands_in(joined(pieces), at, pieces[i]),
    decreases pieces.len(),
{
    if i < pieces.len() - 1 {
        let less = pieces.drop_last();
        let at = pieces_stand_in_the_whole(less, i);
        assert(less[i] == pieces[i]);
        at
    } else {
        joined(pieces.drop_last()).len() as int
    }
}

/// Whether an access method is shown at `at`: its name, with an asterisk before it
/// if it is the one in use, its checkbox, and the button that puts it to use.
pub open spec fn method_at(
    ops: Seq<OpView>,
    at: int,
    name: Seq<char>,
    used: bool,
    on: bool,
    i: int,
) -> bool {
    &&& 0 <= at < ops.len()
    &&& reads(
        ops[at],
        (if used {
            "* "@
        } else {
            "  "@
        }) + name,
    )
    &&& i < 16 ==> {
        &&& at + 2 < ops.len()
        &&& is_button(ops[at + 1], (widgets::API_ACCESS_TOGGLE_BASE + i) as u32)
        &&& face(ops[at + 1]) == if on {
            "x"@
        } else {
            " "@
        }
        &&& is_button(ops[at + 2], (widgets::API_ACCESS_USE_BASE + i) as u32)
        &&& face(ops[at + 2]) == "Use"@
    }
}

/// Whether an access method is shown, with the widgets that change it.
pub open spec fn method_at_some(
    ops: Seq<OpView>,
    name: Seq<char>,
    used: bool,
    on: bool,
    i: int,
) -> bool {
    exists|at: int| method_at(ops, at, name, used, on, i)
}

/// The API access page shows each method, whether it may be used, and which one
/// is in use, beside the widgets that change that.
pub proof fn the_api_access_page_shows_the_methods(
    ops: Seq<OpView>,
    area: Rect,
    app: App,
    s: Settings,
    i: int,
)
    requires
        app.settings == Some(s),
        api_access::draws_page(ops, area, app),
        0 <= i < s.api_access_methods@.len(),
    ensures
        ({
            let method = s.api_access_methods@[i];
            let used = app.api_access_id is Some && app.api_access_id->0@ == method.id@;
            method_at_some(ops, method.name@, used, method.enabled, i)
        }),
{
    let methods = s.api_access_methods@;
    let (parts, list) = choose|parts: Seq<Rect>, list: Seq<OpView>|
        #[trigger] crate::geometry::divides_into_rows(
            area,
            api_access::page_rows(
                crate::wrap::rows_of(api_access::description(), false, area.width) as u16,
                methods.len(),
            ),
            parts,
        ) && #[trigger] api_access::draws_list(list, parts, app) && ops == seq![
            label_op(parts[0], "API access"@),
            block_op(parts[2], api_access::description(), Wrap::Keep),
        ] + list;
    let pieces = choose|pieces: Seq<Seq<OpView>>|
        pieces.len() == methods.len() && api_access::draw_methods(pieces, parts, app) && list
            == #[trigger] joined(pieces);
    let at = pieces_stand_in_the_whole(pieces, i);
    let piece = pieces[i];
    assert(api_access::draws_method_row(piece, parts[4 + i], app, methods[i], i));
    assert(piece[0] == list[at]);
    assert(list[at] == ops[2 + at]);
    if i < 16 {
        assert(piece[1] == list[at + 1] && piece[2] == list[at + 2]);
        assert(list[at + 1] == ops[2 + (at + 1)] && list[at + 2] == ops[2 + (at + 2)]);
    }
    assert(method_at(
        ops,
        2 + at,
        methods[i].name@,
        app.api_access_id is Some && app.api_access_id->0@ == methods[i].id@,
        methods[i].enabled,
        i,
    ));
}

/// Each entry of the root page reads what it leads to.
pub proof fn root_entries_read_what_they_lead_to(parts: Seq<Rect>, app: App)
    ensures
        ({
            let ops = root::entry_ops(parts, app);
            &&& has_button(ops, widgets::DAITA, "DAITA"@)
            &&& has_button(ops, widgets::MULTIHOP, "Multihop"@)
            &&& has_button(ops, widgets::VPN_SETTINGS, "VPN settings"@)
            &&& has_button(ops, widgets::SPLIT_TUNNELING, "Split tunneling"@)
            &&& has_button(ops, widgets::API_ACCESS, "API access"@)
        }),
{
    let ops = root::entry_ops(parts, app);
    let n = ops.len() as int;
    let second: int = if ops[1] is EndRow {
        2
    } else {
        3
    };
    assert(is_button(ops[0], widgets::DAITA));
    assert(is_button(ops[second], widgets::MULTIHOP));
    assert(is_button(ops[n - 6], widgets::VPN_SETTINGS));
    assert(is_button(ops[n - 4], widgets::SPLIT_TUNNELING));
    assert(is_button(ops[n - 2], widgets::API_ACCESS));
}

/// The text field shows what was typed, or its placeholder where nothing was, and
/// the cursor while it has the focus.
pub proof fn the_field_shows_what_is_typed(
    buffer: Seq<char>,
    placeholder: Seq<char>,
    focused: bool,
)
    requires
        placeholder.len() > 0,
    ensures
        ({
            let spans = vpn::field_spans(buffer, placeholder, focused);
            &&& spans.len() > 2
            &&& spans[1] is Styled
            &&& buffer.len() > 0 ==> spans[1]->Styled_content == buffer
            &&& buffer.len() > 0 ==> (focused <==> spans[2] is Cursor)
            &&& buffer.len() == 0 && !focused ==> spans[1]->Styled_content == placeholder
            &&& buffer.len() == 0 && focused ==> spans[2] is Styled && spans[1]->Styled_content
                + spans[2]->Styled_content == placeholder
        }),
{
    assert(placeholder.take(1) + placeholder.skip(1) =~= placeholder);
}

/// The hint below the field names the range that the daemon takes.
pub proof fn the_hint_names_the_range(app: App, buffer: Seq<char>)
    ensures
        vpn::rows_in(app, buffer)[14] == VpnRowView::Hint(
            "Valid range: "@ + decimal_digits(1280) + "-"@ + decimal_digits(1420) + "."@,
        ),
{
}

/// The mark of a checkbox or radio of the VPN page is yellow exactly while it has
/// the focus.
pub proof fn the_focused_mark_is_yellow(
    area: Rect,
    label: Seq<char>,
    on: bool,
    info: Option<WidgetId>,
    id: WidgetId,
    focused: Option<WidgetId>,
)
    ensures
        ({
            let box_ops = vpn::toggle_row_ops(area, label, on, info, id, focused);
            let dot_ops = vpn::radio_row_ops(area, label, on, id, focused);
            &&& box_ops[1]->Text_style.fg == Some(Color::Yellow) <==> focused == Some(id)
            &&& dot_ops[0]->Text_style.fg == Some(Color::Yellow) <==> focused == Some(id)
            &&& box_ops[2]->Register_id == id && dot_ops[1]->Register_id == id
            &&& reads(box_ops[0], label)
            &&& info is Some ==> is_button(box_ops[3], (info->0).0) && face(box_ops[3]) == "Info"@
        }),
{
}

/// On a row that is wide enough the checkbox ends at the right edge, the information
/// button stands before it with a blank between, and the label before both.
pub proof fn toggle_rows_are_laid_out_without_overlap(
    area: Rect,
    label: Seq<char>,
    on: bool,
    info: Option<WidgetId>,
    id: WidgetId,
    focused: Option<WidgetId>,
)
    requires
        area.width >= 10,
        area.x + area.width <= u16::MAX,
        area.y < u16::MAX,
    ensures
        ({
            let ops = vpn::toggle_row_ops(area, label, on, info, id, focused);
            let text = ops[0]->Text_area;
            let mark = ops[1]->Text_area;
            &&& mark.x + mark.width == area.x + area.width && mark.width == 3
            &&& ops[2]->Register_area == mark
            &&& text.x == area.x
            &&& info is None ==> text.x + text.width == mark.x
            &&& info is Some ==> text.x + text.width == ops[3]->Button_area.x
                && ops[3]->Button_area.x + ops[3]->Button_area.width + 1 == mark.x
        }),
{
}

} // verus!
