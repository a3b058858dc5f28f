//! The Custom DNS page.

use crate::app::App;
use crate::components::{less, minus};
use crate::focus::{id_in, row_id_or_none, WidgetId};
use crate::geometry::{
    a_last_row_is_at_the_bottom, divides_into_rows, fits, on_screen, one_cell_each, rect,
    rows_inside, single_rows, split_rows, Constraint, Rect,
};
use crate::pages::settings::rows::{render_status_toggle_row, status_toggle_ops};
use crate::pages::settings::{dns_addresses, widgets};
use crate::scene::{
    block_op, button_op, centered_op, label_op, raw_line, Look, OpView, Scene, SpanView, TextBlock,
    TextLine, Wrap,
};
use crate::text::cat;
use crate::wrap::{row_count, rows_of, WIDEST};
use vstd::prelude::*;

verus! {

/// What the page is for.
pub const DESCRIPTION: &'static str = "Use one or more DNS servers of your choice instead of Mullvad's default. Disable to fall back to Mullvad's resolvers.";

/// The description, as lines.
pub open spec fn description() -> Seq<Seq<SpanView>> {
    seq![raw_line(DESCRIPTION@)]
}

/// Whether the custom servers are in use.
pub open spec fn custom_on(app: App) -> bool {
    app.settings is Some && app.settings->0.dns.custom
}

/// A row `<address>    [Edit] [Remove]`. A row past the last id has no buttons.
pub open spec fn address_row_ops(
    area: Rect,
    address: Seq<char>,
    index: int,
    focused: Option<WidgetId>,
) -> Seq<OpView> {
    let label = "    "@ + address;
    if index < widgets::CUSTOM_DNS_REMOVE_MAX {
        let width = less(area.width, 16);
        seq![
            label_op(rect(area.x, area.y, width, 1), label),
            button_op(
                rect((area.x + width + 1) as u16, area.y, 6, 1),
                "Edit"@,
                WidgetId((widgets::CUSTOM_DNS_EDIT_BASE + index) as u32),
                focused,
            ),
            button_op(
                rect((area.x + width + 8) as u16, area.y, 8, 1),
                "Remove"@,
                WidgetId((widgets::CUSTOM_DNS_REMOVE_BASE + index) as u32),
                focused,
            ),
            OpView::EndRow,
        ]
    } else {
        seq![label_op(area, label)]
    }
}

fn render_row(area: Rect, address: &str, index: usize, focused: Option<WidgetId>) -> (scene: Scene)
    requires
        on_screen(area),
    ensures
        scene@ == address_row_ops(area, address@, index as int, focused),
{
    let label = cat("    ", address);
    let mut scene = Scene::new();
    if index < widgets::CUSTOM_DNS_REMOVE_MAX as usize {
        let width: u16 = minus(area.width, 16);
        scene.label(Rect::new(area.x, area.y, width, 1), label.as_str());
        scene.button(
            Rect::new(area.x + width + 1, area.y, 6, 1),
            "Edit",
            WidgetId(widgets::CUSTOM_DNS_EDIT_BASE + index as u32),
            focused,
        );
        scene.button(
            Rect::new(area.x + width + 8, area.y, 8, 1),
            "Remove",
            WidgetId(widgets::CUSTOM_DNS_REMOVE_BASE + index as u32),
            focused,
        );
        scene.end_row();
    } else {
        scene.label(area, label.as_str());
    }
    assert(scene@ =~= address_row_ops(area, address@, index as int, focused));
    scene
}

/// The first `n` address rows.
pub open spec fn address_rows_ops(
    parts: Seq<Rect>,
    addresses: Seq<String>,
    n: int,
    focused: Option<WidgetId>,
) -> Seq<OpView>
    decreases n,
{
    if n <= 0 {
        Seq::empty()
    } else {
        address_rows_ops(parts, addresses, n - 1, focused) + address_row_ops(
            parts[7 + n - 1],
            addresses[n - 1]@,
            n - 1,
            focused,
        )
    }
}

/// The rows of the page: title, description, status, the list, and at the bottom
/// the button.
pub open spec fn page_rows(height: u16, addresses: nat) -> Seq<Constraint> {
    seq![
        Constraint::Length(1),
        Constraint::Length(1),
        Constraint::Length(height),
        Constraint::Length(1),
        Constraint::Length(1),
        Constraint::Length(1),
        Constraint::Length(1),
    ] + single_rows(
        if addresses == 0 {
            1
        } else {
            addresses
        },
    ) + seq![Constraint::Min(1), Constraint::Length(1)]
}

/// What the page shows.
pub open spec fn page_ops(parts: Seq<Rect>, app: App) -> Seq<OpView> {
    let addresses = dns_addresses(app);
    let list = if addresses.len() == 0 {
        seq![label_op(parts[7], "    (no servers configured)"@)]
    } else {
        address_rows_ops(parts, addresses, addresses.len() as int, app.focused)
    };
    (seq![
        label_op(parts[0], "Custom DNS server"@),
        block_op(parts[2], description(), Wrap::Keep),
    ] + status_toggle_ops(
        parts[4],
        custom_on(app),
        WidgetId(widgets::CUSTOM_DNS_TOGGLE),
        app.focused,
    ) + seq![label_op(parts[6], "Servers:"@)] + list).push(
        centered_op(
            parts[parts.len() - 1],
            "Add address"@,
            WidgetId(widgets::CUSTOM_DNS_ADD_ADDRESS),
            app.focused,
            Look::Plain,
        ),
    )
}

/// `ops` draws the page in `area`.
pub open spec fn draws_page(ops: Seq<OpView>, area: Rect, app: App) -> bool {
    exists|parts: Seq<Rect>|
        parts.len() == page_rows(0, dns_addresses(app).len()).len()
            && #[trigger] divides_into_rows(
            area,
            page_rows(
                rows_of(description(), false, area.width) as u16,
                dns_addresses(app).len(),
            ),
            parts,
        ) && ops == page_ops(parts, app)
}

/// Draw the page in `area`: whether custom servers are in use, the servers, and
/// at the bottom a button to add one.
///
/// `area` is the page's column, as [`crate::pages::page_area`] gives it.
pub fn render(area: Rect, app: &App) -> (scene: Scene)
    requires
        on_screen(area),
        area.width <= WIDEST,
    ensures
        draws_page(scene@, area, *app),
{
    let focused = app.focused;
    let text = TextBlock::of(TextLine::raw(DESCRIPTION));
    let rows: usize = row_count(&text, false, area.width);
    #[verifier::truncate]
    let height: u16 = rows as u16;
    let (enabled, count) = match &app.settings {
        Some(s) => (s.dns.custom, s.dns.addresses.len()),
        None => (false, 0),
    };
    let mut constraints: Vec<Constraint> = vec![
        Constraint::Length(1),
        Constraint::Length(1),
        Constraint::Length(height),
        Constraint::Length(1),
        Constraint::Length(1),
        Constraint::Length(1),
        Constraint::Length(1),
    ];
    let mut list_rows = one_cell_each(
        if count == 0 {
            1
        } else {
            count
        },
    );
    constraints.append(&mut list_rows);
    constraints.push(Constraint::Min(1));
    constraints.push(Constraint::Length(1));
    assert(constraints@ =~= page_rows(height, count as nat));
    let parts = split_rows(area, &constraints);
    let mut scene = Scene::new();
    scene.label(parts[0], "Custom DNS server");
    scene.block(parts[2], text, Wrap::Keep);
    assert(scene@ =~= seq![
        label_op(parts@[0], "Custom DNS server"@),
        block_op(parts@[2], description(), Wrap::Keep),
    ]);
    scene.append(
        render_status_toggle_row(
            parts[4],
            enabled,
            WidgetId(widgets::CUSTOM_DNS_TOGGLE),
            focused,
        ),
    );
    let ghost above = scene@;
    scene.label(parts[6], "Servers:");
    assert(scene@ =~= above + seq![label_op(parts@[6], "Servers:"@)]);
    let ghost above = scene@;
    if count == 0 {
        scene.label(parts[7], "    (no servers configured)");
        assert(scene@ =~= above + seq![label_op(parts@[7], "    (no servers configured)"@)]);
    } else if let Some(s) = &app.settings {
        let mut i: usize = 0;
        assert(scene@ =~= above + address_rows_ops(parts@, s.dns.addresses@, 0, focused));
        while i < s.dns.addresses.len()
            invariant
                i <= s.dns.addresses.len(),
                on_screen(area),
                rows_inside(parts@, area),
                parts@.len() == s.dns.addresses@.len() + 9,
                scene@ == above + address_rows_ops(parts@, s.dns.addresses@, i as int, focused),
            decreases s.dns.addresses.len() - i,
        {
            assert(parts@.len() == parts.len());
            let ghost done = address_rows_ops(parts@, s.dns.addresses@, i as int, focused);
            let row = render_row(parts[7 + i], s.dns.addresses[i].as_str(), i, focused);
            let ghost r = row@;
            scene.append(row);
            assert(scene@ =~= above + (done + r));
            i = i + 1;
        }
    }
    scene.centered_button(
        parts[parts.len() - 1],
        "Add address",
        WidgetId(widgets::CUSTOM_DNS_ADD_ADDRESS),
        focused,
        Look::Plain,
    );
    assert(dns_addresses(*app).len() == count);
    assert(parts@.len() == page_rows(0, count as nat).len());
    assert(scene@ =~= page_ops(parts@, *app));
    scene
}

/// Where the area has room for the page, `[Add address]` stands in its last row.
pub proof fn adding_is_at_the_bottom(ops: Seq<OpView>, area: Rect, app: App)
    requires
        draws_page(ops, area, app),
        fits(
            page_rows(
                rows_of(description(), false, area.width) as u16,
                dns_addresses(app).len(),
            ),
            area.y,
            area.height,
        ),
    ensures
        ops.last() == centered_op(
            Rect {
                x: area.x,
                y: (area.y + area.height - 1) as u16,
                width: area.width,
                height: 1,
            },
            "Add address"@,
            WidgetId(widgets::CUSTOM_DNS_ADD_ADDRESS),
            app.focused,
            Look::Plain,
        ),
{
    let rows = page_rows(
        rows_of(description(), false, area.width) as u16,
        dns_addresses(app).len(),
    );
    let parts = choose|parts: Seq<Rect>|
        parts.len() == page_rows(0, dns_addresses(app).len()).len()
            && #[trigger] divides_into_rows(area, rows, parts) && ops == page_ops(parts, app);
    assert(rows[rows.len() - 2] is Min);
    a_last_row_is_at_the_bottom(area, rows, parts);
}

} // verus!
