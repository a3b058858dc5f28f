//! Which page a widget belongs to.

use crate::app::select_location::{NodeKind, PageStateView};
use crate::app::{App, SelectionView};
use crate::components::beside_scrollbar;
use crate::daemon::{Device, RelayOverride, Timestamp};
use crate::focus::WidgetId;
use crate::geometry::{divides_into_rows, single_rows, Constraint, Rect};
use crate::pages::select_location::rows::{visible_rows, RowView};
use crate::pages::select_location::tree::{filtering, tree_in};
use crate::pages::select_location::view;
use crate::pages::settings::SettingsWidget;
use crate::pages::{account, select_location, select_location_filter, settings, status};
use crate::scene::{block_op, joined, label_op, widget_in, OpView, Wrap};
use crate::wrap::rows_of;
use vstd::prelude::*;

verus! {

/// The pages, as far as they have widgets of their own. A page stands here with
/// its sub-pages where they share their widgets.
pub enum Owner {
    Status,
    Account,
    Settings,
    SelectLocation,
    SelectLocationFilter,
}

/// Whether `widget` belongs to `owner`.
pub open spec fn belongs_to(widget: WidgetId, owner: Owner) -> bool {
    match owner {
        Owner::Status => status::is_own(widget),
        Owner::Account => account::is_own(widget),
        Owner::Settings => settings::is_own(widget),
        Owner::SelectLocation => select_location::is_own(widget),
        Owner::SelectLocationFilter => select_location_filter::is_own(widget),
    }
}

/// No widget belongs to two pages.
pub proof fn no_widget_belongs_to_two_pages(widget: WidgetId, one: Owner, other: Owner)
    requires
        belongs_to(widget, one),
        belongs_to(widget, other),
    ensures
        one == other,
{
}

/// Whether every widget that `ops` registers belongs to `owner`.
pub open spec fn registers_only(ops: Seq<OpView>, owner: Owner) -> bool {
    forall|i: int| 0 <= i < ops.len() ==> op_belongs_to(#[trigger] ops[i], owner)
}

/// Whether the widget that `op` registers, if it does, belongs to `owner`.
pub open spec fn op_belongs_to(op: OpView, owner: Owner) -> bool {
    match widget_in(op) {
        Some(widget) => belongs_to(widget, owner),
        None => true,
    }
}

proof fn joined_registers_only(pieces: Seq<Seq<OpView>>, owner: Owner)
    requires
        forall|i: int| 0 <= i < pieces.len() ==> registers_only(#[trigger] pieces[i], owner),
    ensures
        registers_only(joined(pieces), owner),
    decreases pieces.len(),
{
    if pieces.len() > 0 {
        let init = pieces.drop_last();
        assert forall|i: int| 0 <= i < init.len() implies registers_only(
            #[trigger] init[i],
            owner,
        ) by {
            assert(init[i] == pieces[i]);
        }
        joined_registers_only(init, owner);
        assert(pieces.last() == pieces[pieces.len() - 1]);
    }
}

// ---- Account ----

/// Every widget that the Account page registers belongs to it.
pub proof fn account_registers_its_own(ops: Seq<OpView>, area: Rect, app: App)
    requires
        account::view::draws_page(ops, area, app),
    ensures
        registers_only(ops, Owner::Account),
{
}

proof fn device_rows_register_their_own(
    parts: Seq<Rect>,
    devices: Seq<Device>,
    dates: Seq<Seq<char>>,
    n: int,
    focused: Option<WidgetId>,
)
    requires
        n <= account::widgets::REMOVE_DEVICE_MAX,
    ensures
        registers_only(
            account::view::device_rows_ops(parts, devices, dates, n, focused),
            Owner::Account,
        ),
    decreases n,
{
    if n > 0 {
        device_rows_register_their_own(parts, devices, dates, n - 1, focused);
    }
}

/// Every widget that the Manage-devices page registers belongs to it.
pub proof fn devices_register_their_own(ops: Seq<OpView>, area: Rect, app: App)
    requires
        account::view::draws_devices(ops, area, app),
    ensures
        registers_only(ops, Owner::Account),
{
    let others = account::other_devices(app);
    let (parts, created, dates) = choose|
        parts: Seq<Rect>,
        created: Seq<char>,
        dates: Seq<Seq<char>>,
    |
        #[trigger] divides_into_rows(
            area,
            account::view::devices_rows(
                account::view::devices_header(app, created).len(),
                others.len(),
            ),
            parts,
        ) && #[trigger] account::view::is_created_text(created, app)
            && #[trigger] account::view::are_dates(dates, others) && ops
            == account::view::devices_ops(parts, app, created, dates);
    device_rows_register_their_own(
        parts,
        others,
        dates,
        account::view::shown_devices(others.len()),
        app.focused,
    );
}

// ---- Settings ----

proof fn is_fixed_widget(widget: SettingsWidget)
    ensures
        belongs_to(WidgetId(widget.id()), Owner::Settings),
{
}

/// Every widget that the root menu registers belongs to the Settings pages.
pub proof fn root_menu_registers_its_own(
    ops: Seq<OpView>,
    area: Rect,
    app: App,
    tui: Seq<char>,
    targeted: Seq<char>,
)
    requires
        settings::root::draws_page(ops, area, app, tui, targeted),
    ensures
        registers_only(ops, Owner::Settings),
{
    is_fixed_widget(SettingsWidget::Daita);
    is_fixed_widget(SettingsWidget::Multihop);
    is_fixed_widget(SettingsWidget::VpnSettings);
    is_fixed_widget(SettingsWidget::SplitTunneling);
    is_fixed_widget(SettingsWidget::ApiAccess);
    is_fixed_widget(SettingsWidget::DisconnectAndQuit);
}

/// Every widget that the Multihop page registers belongs to the Settings pages.
pub proof fn multihop_registers_its_own(ops: Seq<OpView>, area: Rect, app: App)
    requires
        settings::multihop::draws_page(ops, area, app),
    ensures
        registers_only(ops, Owner::Settings),
{
    is_fixed_widget(SettingsWidget::MultihopToggle);
}

/// Every widget that the DAITA page registers belongs to the Settings pages.
pub proof fn daita_registers_its_own(ops: Seq<OpView>, area: Rect, app: App)
    requires
        settings::daita::draws_page(ops, area, app),
    ensures
        registers_only(ops, Owner::Settings),
{
    is_fixed_widget(SettingsWidget::DaitaToggle);
    is_fixed_widget(SettingsWidget::DaitaDirectOnlyToggle);
    is_fixed_widget(SettingsWidget::DaitaBlurbPrev);
    is_fixed_widget(SettingsWidget::DaitaBlurbNext);
}

proof fn vpn_rows_register_their_own(
    areas: Seq<Rect>,
    app: App,
    buffer: Seq<char>,
    n: int,
    focused: Option<WidgetId>,
)
    requires
        n <= 16,
    ensures
        registers_only(
            settings::vpn::page_ops(areas, settings::vpn::rows_in(app, buffer), n, focused),
            Owner::Settings,
        ),
    decreases n,
{
    is_fixed_widget(SettingsWidget::VpnLanToggle);
    is_fixed_widget(SettingsWidget::VpnDnsBlockersInfo);
    is_fixed_widget(SettingsWidget::VpnCustomDnsInfo);
    is_fixed_widget(SettingsWidget::VpnIpv6Toggle);
    is_fixed_widget(SettingsWidget::VpnKillSwitchInfo);
    is_fixed_widget(SettingsWidget::VpnLockdownToggle);
    is_fixed_widget(SettingsWidget::VpnAntiCensorshipEdit);
    is_fixed_widget(SettingsWidget::VpnQuantumToggle);
    is_fixed_widget(SettingsWidget::VpnDeviceIpInfo);
    is_fixed_widget(SettingsWidget::VpnMtuEdit);
    is_fixed_widget(SettingsWidget::VpnServerIpInfo);
    is_fixed_widget(SettingsWidget::VpnAutoConnectToggle);
    is_fixed_widget(SettingsWidget::VpnLanInfo);
    is_fixed_widget(SettingsWidget::VpnIpv6Info);
    is_fixed_widget(SettingsWidget::VpnKillSwitchToggle);
    is_fixed_widget(SettingsWidget::VpnLockdownInfo);
    is_fixed_widget(SettingsWidget::VpnQuantumInfo);
    is_fixed_widget(SettingsWidget::VpnDeviceIpAuto);
    is_fixed_widget(SettingsWidget::VpnDeviceIpV4);
    is_fixed_widget(SettingsWidget::VpnDeviceIpV6);
    if n > 0 {
        vpn_rows_register_their_own(areas, app, buffer, n - 1, focused);
        assert(registers_only(
            settings::vpn::vpn_row_ops(
                areas[n - 1],
                settings::vpn::rows_in(app, buffer)[n - 1],
                focused,
            ),
            Owner::Settings,
        ));
    }
}

/// Every widget that the VPN settings page registers belongs to the Settings
/// pages.
pub proof fn vpn_settings_register_their_own(
    ops: Seq<OpView>,
    area: Rect,
    app: App,
    buffer: Seq<char>,
)
    requires
        settings::vpn::draws_page(ops, area, app, buffer),
    ensures
        registers_only(ops, Owner::Settings),
{
    let areas = choose|areas: Seq<Rect>|
        #[trigger] divides_into_rows(area, single_rows(16).push(Constraint::Min(0)), areas) && ops
            == settings::vpn::page_ops(
            areas,
            settings::vpn::rows_in(app, buffer),
            16,
            app.focused,
        );
    vpn_rows_register_their_own(areas, app, buffer, 16, app.focused);
}

proof fn excluded_rows_register_their_own(parts: Seq<Rect>, app: App, linux: bool, n: int)
    ensures
        registers_only(
            settings::split_tunnel::list_ops(parts, app, linux, n),
            Owner::Settings,
        ),
    decreases n,
{
    if n > 0 {
        excluded_rows_register_their_own(parts, app, linux, n - 1);
    }
}

/// Every widget that the Split tunneling page registers belongs to the Settings
/// pages.
pub proof fn split_tunnel_registers_its_own(ops: Seq<OpView>, area: Rect, app: App, linux: bool)
    requires
        settings::split_tunnel::draws_page(ops, area, app, linux),
    ensures
        registers_only(ops, Owner::Settings),
{
    is_fixed_widget(SettingsWidget::SplitTunnelToggle);
    is_fixed_widget(SettingsWidget::SplitTunnelAddApp);
    is_fixed_widget(SettingsWidget::SplitTunnelAddPid);
    let n = settings::split_tunnel::list_len(app, linux);
    let parts = choose|parts: Seq<Rect>|
        parts.len() == settings::split_tunnel::page_rows(0, n).len()
            && #[trigger] divides_into_rows(
            area,
            settings::split_tunnel::page_rows(
                rows_of(settings::split_tunnel::header(linux), false, area.width) as u16,
                n,
            ),
            parts,
        ) && ops == settings::split_tunnel::page_ops(parts, app, linux);
    excluded_rows_register_their_own(parts, app, linux, n as int);
}

/// Every widget that the Anti-censorship page registers belongs to the Settings
/// pages.
pub proof fn anti_censorship_registers_its_own(ops: Seq<OpView>, area: Rect, app: App)
    requires
        settings::anti_censorship::draws_page(ops, area, app),
    ensures
        registers_only(ops, Owner::Settings),
{
    is_fixed_widget(SettingsWidget::AntiCensorshipModeOff);
    is_fixed_widget(SettingsWidget::AntiCensorshipModeAuto);
    is_fixed_widget(SettingsWidget::AntiCensorshipModeUdp2Tcp);
    is_fixed_widget(SettingsWidget::AntiCensorshipModeShadowsocks);
    is_fixed_widget(SettingsWidget::AntiCensorshipModeWireguardPort);
    is_fixed_widget(SettingsWidget::AntiCensorshipModeQuic);
    is_fixed_widget(SettingsWidget::AntiCensorshipModeLwo);
    is_fixed_widget(SettingsWidget::AntiCensorshipPortEdit);
}

/// Every widget that the API access page registers belongs to the Settings
/// pages.
pub proof fn api_access_registers_its_own(ops: Seq<OpView>, area: Rect, app: App)
    requires
        settings::api_access::draws_page(ops, area, app),
    ensures
        registers_only(ops, Owner::Settings),
{
    let methods = settings::api_access::methods_of(app);
    let (parts, list) = choose|parts: Seq<Rect>, list: Seq<OpView>|
        #[trigger] divides_into_rows(
            area,
            settings::api_access::page_rows(
                rows_of(settings::api_access::description(), false, area.width) as u16,
                methods.len(),
            ),
            parts,
        ) && #[trigger] settings::api_access::draws_list(list, parts, app) && ops == seq![
            label_op(parts[0], "API access"@),
            block_op(parts[2], settings::api_access::description(), Wrap::Keep),
        ] + list;
    if methods.len() > 0 {
        let pieces = choose|pieces: Seq<Seq<OpView>>|
            pieces.len() == methods.len() && settings::api_access::draw_methods(
                pieces,
                parts,
                app,
            ) && list == #[trigger] joined(pieces);
        joined_registers_only(pieces, Owner::Settings);
    }
}

proof fn address_rows_register_their_own(
    parts: Seq<Rect>,
    addresses: Seq<String>,
    n: int,
    focused: Option<WidgetId>,
)
    ensures
        registers_only(
            settings::custom_dns::address_rows_ops(parts, addresses, n, focused),
            Owner::Settings,
        ),
    decreases n,
{
    if n > 0 {
        address_rows_register_their_own(parts, addresses, n - 1, focused);
    }
}

/// Every widget that the Custom DNS page registers belongs to the Settings
/// pages.
pub proof fn custom_dns_registers_its_own(ops: Seq<OpView>, area: Rect, app: App)
    requires
        settings::custom_dns::draws_page(ops, area, app),
    ensures
        registers_only(ops, Owner::Settings),
{
    is_fixed_widget(SettingsWidget::CustomDnsToggle);
    is_fixed_widget(SettingsWidget::CustomDnsAddAddress);
    let addresses = settings::dns_addresses(app);
    let parts = choose|parts: Seq<Rect>|
        parts.len() == settings::custom_dns::page_rows(0, addresses.len()).len()
            && #[trigger] divides_into_rows(
            area,
            settings::custom_dns::page_rows(
                rows_of(settings::custom_dns::description(), false, area.width) as u16,
                addresses.len(),
            ),
            parts,
        ) && ops == settings::custom_dns::page_ops(parts, app);
    address_rows_register_their_own(parts, addresses, addresses.len() as int, app.focused);
}

/// Every widget that the DNS content blockers page registers belongs to the
/// Settings pages.
pub proof fn dns_blockers_register_their_own(ops: Seq<OpView>, area: Rect, app: App)
    requires
        settings::dns_blockers::draws_page(ops, area, app),
    ensures
        registers_only(ops, Owner::Settings),
{
}

proof fn override_rows_register_their_own(
    parts: Seq<Rect>,
    overrides: Seq<RelayOverride>,
    n: int,
    focused: Option<WidgetId>,
)
    ensures
        registers_only(
            settings::relay_overrides::overrides_ops(parts, overrides, n, focused),
            Owner::Settings,
        ),
    decreases n,
{
    if n > 0 {
        override_rows_register_their_own(parts, overrides, n - 1, focused);
    }
}

/// Every widget that the Server IP overrides page registers belongs to the
/// Settings pages.
pub proof fn relay_overrides_register_their_own(ops: Seq<OpView>, area: Rect, app: App)
    requires
        settings::relay_overrides::draws_page(ops, area, app),
    ensures
        registers_only(ops, Owner::Settings),
{
    is_fixed_widget(SettingsWidget::RelayOverrideAdd);
    is_fixed_widget(SettingsWidget::RelayOverrideClearAll);
    let overrides = settings::overrides_of(app);
    let (parts, footer) = choose|parts: Seq<Rect>, footer: Seq<OpView>|
        parts.len() == settings::relay_overrides::page_rows(0, overrides.len()).len()
            && #[trigger] divides_into_rows(
            area,
            settings::relay_overrides::page_rows(
                rows_of(settings::relay_overrides::description(), false, area.width) as u16,
                overrides.len(),
            ),
            parts,
        ) && #[trigger] settings::relay_overrides::draws_footer(
            footer,
            parts[parts.len() - 1],
            app.focused,
        ) && ops == settings::relay_overrides::body_ops(parts, app) + footer;
    override_rows_register_their_own(parts, overrides, overrides.len() as int, app.focused);
}

// ---- Status ----

/// Every widget that the Status page registers belongs to it.
pub proof fn status_registers_its_own(
    ops: Seq<OpView>,
    area: Rect,
    full: Rect,
    app: App,
    now: Timestamp,
    tick: u64,
)
    requires
        status::view::draws_page(ops, area, full, app, now, tick),
    ensures
        registers_only(ops, Owner::Status),
{
}

// ---- The location filter ----

proof fn glyph_rows_register_their_own(
    ops: Seq<OpView>,
    rows: Seq<select_location_filter::GlyphRowView>,
    focused: Option<WidgetId>,
)
    requires
        select_location_filter::draws_glyph_rows(ops, rows, focused),
        forall|i: int|
            0 <= i < rows.len() && (#[trigger] rows[i]).id is Some ==> belongs_to(
                rows[i].id->0,
                Owner::SelectLocationFilter,
            ),
    ensures
        registers_only(ops, Owner::SelectLocationFilter),
{
    let pieces = choose|pieces: Seq<Seq<OpView>>|
        pieces.len() == rows.len() && select_location_filter::draw_glyph_rows(
            pieces,
            rows,
            focused,
        ) && ops == #[trigger] joined(pieces);
    assert forall|i: int| 0 <= i < pieces.len() implies registers_only(
        #[trigger] pieces[i],
        Owner::SelectLocationFilter,
    ) by {
        let row = rows[i];
        assert(select_location_filter::draws_glyph_row(pieces[i], row, focused));
    }
    joined_registers_only(pieces, Owner::SelectLocationFilter);
}

/// Every widget that the location filter page registers belongs to it.
pub proof fn filter_registers_its_own(
    ops: Seq<OpView>,
    area: Rect,
    state: crate::app::filter::PageStateView,
    focused: Option<WidgetId>,
)
    requires
        select_location_filter::draws_page(ops, area, state, focused),
    ensures
        registers_only(ops, Owner::SelectLocationFilter),
{
    let (parts, areas, owners, hosts) = choose|
        parts: Seq<Rect>,
        areas: Seq<Rect>,
        owners: Seq<OpView>,
        hosts: Seq<OpView>,
    |
        #[trigger] divides_into_rows(area, select_location_filter::page_rows(), parts)
            && #[trigger] divides_into_rows(parts[7], single_rows(15), areas)
            && #[trigger] select_location_filter::draws_glyph_rows(
            owners,
            select_location_filter::ownership_rows(parts, state),
            focused,
        ) && #[trigger] select_location_filter::draws_glyph_rows(
            hosts,
            select_location_filter::provider_rows(parts[6], areas, state),
            focused,
        ) && ops == seq![label_op(parts[0], "Ownership"@)] + owners + seq![
            label_op(parts[5], "Providers"@),
        ] + hosts;
    glyph_rows_register_their_own(
        owners,
        select_location_filter::ownership_rows(parts, state),
        focused,
    );
    glyph_rows_register_their_own(
        hosts,
        select_location_filter::provider_rows(parts[6], areas, state),
        focused,
    );
}

// ---- Select location ----

proof fn row_registers_its_own(
    ops: Seq<OpView>,
    rows: Seq<RowView>,
    i: int,
    offset: int,
    areas: Seq<Rect>,
    selection: SelectionView,
    taken: Option<SelectionView>,
    focused: Option<WidgetId>,
)
    requires
        view::draws_and_registers(ops, rows, i, offset, areas, selection, taken, focused),
    ensures
        registers_only(ops, Owner::SelectLocation),
{
    let area = view::area_of_row(i, offset, areas);
    let registered = view::register_row_ops(rows[i], area);
    assert(registers_only(registered, Owner::SelectLocation));
    if offset <= i < offset + areas.len() {
        let drawn = choose|drawn: Seq<OpView>|
            #[trigger] view::draws_row(drawn, area, rows[i], selection, taken, focused) && ops
                == drawn + registered;
        assert(registers_only(drawn, Owner::SelectLocation));
    }
}

proof fn tree_registers_its_own(
    ops: Seq<OpView>,
    area: Rect,
    rows: Seq<RowView>,
    offset: usize,
    selection: SelectionView,
    taken: Option<SelectionView>,
    focused: Option<WidgetId>,
)
    requires
        view::draws_tree(ops, area, rows, offset, selection, taken, focused),
    ensures
        registers_only(ops, Owner::SelectLocation),
{
    let content = beside_scrollbar(area, rows.len() as int, area.height as int).0;
    let bar = beside_scrollbar(area, rows.len() as int, area.height as int).1;
    let (areas, drawn) = choose|areas: Seq<Rect>, drawn: Seq<OpView>|
        #[trigger] view::window_areas(
            content,
            view::window(rows.len() as int, offset as int, content.height as int),
            areas,
        ) && #[trigger] view::draws_rows(
            drawn,
            rows,
            offset as int,
            areas,
            selection,
            taken,
            focused,
        ) && ops == (seq![OpView::BeginScrollGroup] + drawn).push(OpView::EndScrollGroup)
            + view::scrollbar_ops(bar, rows.len() as usize, offset, content.height as usize);
    let pieces = choose|pieces: Seq<Seq<OpView>>|
        pieces.len() == rows.len() && view::draw_rows(
            pieces,
            rows,
            offset as int,
            areas,
            selection,
            taken,
            focused,
        ) && drawn == #[trigger] joined(pieces);
    assert forall|i: int| 0 <= i < pieces.len() implies registers_only(
        #[trigger] pieces[i],
        Owner::SelectLocation,
    ) by {
        row_registers_its_own(
            pieces[i],
            rows,
            i,
            offset as int,
            areas,
            selection,
            taken,
            focused,
        );
    }
    joined_registers_only(pieces, Owner::SelectLocation);
}

proof fn body_registers_its_own(ops: Seq<OpView>, area: Rect, app: App, after: PageStateView)
    requires
        view::draws_body(ops, area, app, after),
    ensures
        registers_only(ops, Owner::SelectLocation),
{
    let mode = select_location::effective(app);
    let state = app.select_location_state@.with_mode(mode);
    if !(mode == NodeKind::Entry && app.daita_picks_entry()) {
        let rows = visible_rows(tree_in(app, state), state.tree(), filtering(state));
        let (parts, search, tree) = choose|
            parts: Seq<Rect>,
            search: Seq<OpView>,
            tree: Seq<OpView>,
        |
            #[trigger] divides_into_rows(area, view::page_rows(), parts)
                && #[trigger] view::draws_search_row(
                search,
                parts[0],
                state.query,
                app.focused,
            ) && #[trigger] view::draws_tree(
                tree,
                parts[1],
                rows,
                after.tree().scroll_offset,
                app.selection(mode),
                view::taken_selection(app, mode),
                app.focused,
            ) && after == view::state_after_frame(
                state,
                rows,
                app.focused,
                beside_scrollbar(
                    parts[1],
                    rows.len() as int,
                    parts[1].height as int,
                ).0.height as int,
            ) && ops == search + tree;
        tree_registers_its_own(
            tree,
            parts[1],
            rows,
            after.tree().scroll_offset,
            app.selection(mode),
            view::taken_selection(app, mode),
            app.focused,
        );
    }
}

/// Every widget that the Select-location page registers belongs to it.
pub proof fn select_location_registers_its_own(
    ops: Seq<OpView>,
    area: Rect,
    app: App,
    after: PageStateView,
)
    requires
        view::draws_page(ops, area, app, after),
    ensures
        registers_only(ops, Owner::SelectLocation),
{
    if app.multihop() {
        let (parts, tabs, body) = choose|parts: Seq<Rect>, tabs: Seq<OpView>, body: Seq<OpView>|
            #[trigger] divides_into_rows(area, view::page_rows(), parts)
                && #[trigger] view::draws_tabs(
                tabs,
                parts[0],
                select_location::effective(app),
                app.focused,
            ) && #[trigger] view::draws_body(body, parts[1], app, after) && ops == tabs + body;
        body_registers_its_own(body, parts[1], app, after);
    } else {
        body_registers_its_own(ops, area, app, after);
    }
}

} // verus!
