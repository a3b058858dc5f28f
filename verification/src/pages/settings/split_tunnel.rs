//! The Split tunneling page.

use crate::app::App;
use crate::focus::{id_in, row_id_or_none, WidgetId};
use crate::geometry::{
    a_last_row_is_at_the_bottom, divides_into_rows, fits, on_screen, one_cell_each, rows_inside,
    single_rows, split_rows, Constraint, Rect,
};
use crate::pages::settings::rows::{
    remove_row_ops, render_remove_row, render_status_toggle_row, status_toggle_ops,
};
use crate::pages::settings::{
    excluded_apps, excluded_pids, split_tunnel_app_at, split_tunnel_pid_at, widgets,
};
use crate::scene::{
    block_op, centered_op, label_op, raw_line, Look, OpView, Scene, SpanView, TextBlock, Wrap,
};
use crate::text::{cat, signed_decimal, signed_digits};
use crate::wrap::{row_count, rows_of, WIDEST};
use vstd::prelude::*;

verus! {

/// What stands above the list. `linux` says whether processes, and not
/// applications, are excluded.
pub open spec fn header(linux: bool) -> Seq<Seq<SpanView>> {
    seq![
        raw_line("Split tunneling"@),
        raw_line(""@),
        raw_line("Route specific apps (or processes) outside the VPN tunnel."@),
        raw_line(
            if linux {
                "On Linux: by PID. Use [Add PID] to exclude a running process."@
            } else {
                "On Windows/macOS: by app path. Use [Add path] to exclude a binary."@
            },
        ),
    ]
}

/// Whether split tunneling is on.
pub open spec fn split_on(app: App) -> bool {
    app.settings is Some && app.settings->0.split_tunnel.enabled
}

/// The number of rows of the list.
pub open spec fn list_len(app: App, linux: bool) -> nat {
    if linux {
        excluded_pids(app).len()
    } else {
        excluded_apps(app).len()
    }
}

/// The label of row `i` of the list.
pub open spec fn list_label(app: App, linux: bool, i: int) -> Seq<char> {
    if linux {
        "    "@ + signed_digits(excluded_pids(app)[i] as int)
    } else {
        "    "@ + excluded_apps(app)[i]@
    }
}

/// The ids of the list's buttons start here.
pub open spec fn list_base(linux: bool) -> u32 {
    if linux {
        widgets::SPLIT_TUNNEL_REMOVE_PID_BASE
    } else {
        widgets::SPLIT_TUNNEL_REMOVE_APP_BASE
    }
}

/// The first `n` rows of the list.
pub open spec fn list_ops(parts: Seq<Rect>, app: App, linux: bool, n: int) -> Seq<OpView>
    decreases n,
{
    if n <= 0 {
        Seq::empty()
    } else {
        list_ops(parts, app, linux, n - 1) + remove_row_ops(
            parts[5 + n - 1],
            list_label(app, linux, n - 1),
            id_in(n - 1, list_base(linux), widgets::SPLIT_TUNNEL_REMOVE_MAX),
            app.focused,
        )
    }
}

/// The rows of the page, with a header that takes `height` rows.
pub open spec fn page_rows(height: u16, entries: nat) -> Seq<Constraint> {
    seq![Constraint::Length(height)] + single_rows(4) + single_rows(
        if entries == 0 {
            1
        } else {
            entries
        },
    ) + seq![Constraint::Min(1), Constraint::Length(1)]
}

/// What the page shows.
pub open spec fn page_ops(parts: Seq<Rect>, app: App, linux: bool) -> Seq<OpView> {
    let n = list_len(app, linux);
    let list = if n == 0 {
        seq![label_op(parts[5], "    (none)"@)]
    } else {
        list_ops(parts, app, linux, n as int)
    };
    (seq![block_op(parts[0], header(linux), Wrap::Keep)] + status_toggle_ops(
        parts[2],
        split_on(app),
        WidgetId(widgets::SPLIT_TUNNEL_TOGGLE),
        app.focused,
    ) + seq![
        label_op(
            parts[4],
            if linux {
                "Excluded PIDs:"@
            } else {
                "Excluded apps:"@
            },
        ),
    ] + list).push(
        centered_op(
            parts[parts.len() - 1],
            if linux {
                "Add PID"@
            } else {
                "Add path"@
            },
            WidgetId(
                if linux {
                    widgets::SPLIT_TUNNEL_ADD_PID
                } else {
                    widgets::SPLIT_TUNNEL_ADD_APP
                },
            ),
            app.focused,
            Look::Plain,
        ),
    )
}

/// `ops` draws the page in `area`.
pub open spec fn draws_page(ops: Seq<OpView>, area: Rect, app: App, linux: bool) -> bool {
    exists|parts: Seq<Rect>|
        parts.len() == page_rows(0, list_len(app, linux)).len() && #[trigger] divides_into_rows(
            area,
            page_rows(rows_of(header(linux), false, area.width) as u16, list_len(app, linux)),
            parts,
        ) && ops == page_ops(parts, app, linux)
}

fn entry_label(app: &App, linux: bool, i: usize) -> (r: String)
    requires
        i < list_len(*app, linux),
    ensures
        r@ == list_label(*app, linux, i as int),
{
    if linux {
        match split_tunnel_pid_at(app, i) {
            Some(pid) => cat("    ", signed_decimal(pid).as_str()),
            None => String::new(),
        }
    } else {
        match split_tunnel_app_at(app, i) {
            Some(path) => cat("    ", path.as_str()),
            None => String::new(),
        }
    }
}

/// Draw the page in `area`: whether split tunneling is on, what is excluded, and
/// a button to exclude more.
///
/// `area` is the page's column, as [`crate::pages::page_area`] gives it.
pub fn render_split_tunnel(area: Rect, app: &App, linux: bool) -> (scene: Scene)
    requires
        on_screen(area),
        area.width <= WIDEST,
    ensures
        draws_page(scene@, area, *app, linux),
{
    let focused = app.focused;
    let mut text = TextBlock::new();
    text.push_raw("Split tunneling");
    text.push_raw("");
    text.push_raw("Route specific apps (or processes) outside the VPN tunnel.");
    text.push_raw(
        if linux {
            "On Linux: by PID. Use [Add PID] to exclude a running process."
        } else {
            "On Windows/macOS: by app path. Use [Add path] to exclude a binary."
        },
    );
    assert(text@ =~= header(linux));
    let rows: usize = row_count(&text, false, area.width);
    #[verifier::truncate]
    let height: u16 = rows as u16;
    let enabled = match &app.settings {
        Some(s) => s.split_tunnel.enabled,
        None => false,
    };
    let count: usize = if linux {
        match &app.split_tunnel_pids {
            Some(pids) => pids.len(),
            None => 0,
        }
    } else {
        match &app.settings {
            Some(s) => s.split_tunnel.apps.len(),
            None => 0,
        }
    };
    let mut constraints: Vec<Constraint> = vec![Constraint::Length(height)];
    let mut above_list = one_cell_each(4);
    constraints.append(&mut above_list);
    let mut list_rows = one_cell_each(
        if count == 0 {
            1
        } else {
            count
        },
    );
    constraints.append(&mut list_rows);
    constraints.push(Constraint::Min(1));
    constraints.push(Constraint::Length(1));
    assert(constraints@ =~= page_rows(height, count as nat));
    let parts = split_rows(area, &constraints);
    let mut scene = Scene::new();
    scene.block(parts[0], text, Wrap::Keep);
    assert(scene@ =~= seq![block_op(parts@[0], header(linux), Wrap::Keep)]);
    scene.append(
        render_status_toggle_row(
            parts[2],
            enabled,
            WidgetId(widgets::SPLIT_TUNNEL_TOGGLE),
            focused,
        ),
    );
    scene.label(
        parts[4],
        if linux {
            "Excluded PIDs:"
        } else {
            "Excluded apps:"
        },
    );
    let ghost above = scene@;
    if count == 0 {
        scene.label(parts[5], "    (none)");
    } else {
        let base: u32 = if linux {
            widgets::SPLIT_TUNNEL_REMOVE_PID_BASE
        } else {
            widgets::SPLIT_TUNNEL_REMOVE_APP_BASE
        };
        let mut i: usize = 0;
        assert(scene@ =~= above + list_ops(parts@, *app, linux, 0));
        while i < count
            invariant
                i <= count,
                count == list_len(*app, linux),
                base == list_base(linux),
                focused == app.focused,
                on_screen(area),
                rows_inside(parts@, area),
                parts@.len() == count + 7,
                scene@ == above + list_ops(parts@, *app, linux, i as int),
            decreases count - i,
        {
            assert(parts@.len() == parts.len());
            let label = entry_label(app, linux, i);
            let id = row_id_or_none(i, widgets::SPLIT_TUNNEL_REMOVE_MAX, base);
            let ghost done = list_ops(parts@, *app, linux, i as int);
            let row = render_remove_row(parts[5 + i], label.as_str(), id, focused);
            let ghost r = row@;
            scene.append(row);
            assert(scene@ =~= above + (done + r));
            i = i + 1;
        }
    }
    if linux {
        scene.centered_button(
            parts[parts.len() - 1],
            "Add PID",
            WidgetId(widgets::SPLIT_TUNNEL_ADD_PID),
            focused,
            Look::Plain,
        );
    } else {
        scene.centered_button(
            parts[parts.len() - 1],
            "Add path",
            WidgetId(widgets::SPLIT_TUNNEL_ADD_APP),
            focused,
            Look::Plain,
        );
    }
    assert(parts@.len() == page_rows(0, count as nat).len());
    assert(scene@ =~= page_ops(parts@, *app, linux));
    scene
}

/// A row's button leads back to the row: activating `[Remove]` of row `i` asks
/// for what row `i` shows to be removed.
pub proof fn remove_buttons_lead_back_to_their_rows(linux: bool, i: int)
    requires
        0 <= i < widgets::SPLIT_TUNNEL_REMOVE_MAX,
    ensures
        crate::focus::index_in(
            id_in(i, list_base(linux), widgets::SPLIT_TUNNEL_REMOVE_MAX)->0,
            list_base(linux),
            widgets::SPLIT_TUNNEL_REMOVE_MAX,
        ) == Some(i as usize),
{
}

/// Where the area has room for the page, the button that excludes more stands in
/// its last row.
pub proof fn excluding_more_is_at_the_bottom(
    ops: Seq<OpView>,
    area: Rect,
    app: App,
    linux: bool,
)
    requires
        draws_page(ops, area, app, linux),
        fits(
            page_rows(rows_of(header(linux), false, area.width) as u16, list_len(app, linux)),
            area.y,
            area.height,
        ),
    ensures
        ops.last() == centered_op(
            Rect {
                x: area.x,
                y: (area.y + area.height - 1) as u16,
                width: area.width,
                height: 1,
            },
            if linux {
                "Add PID"@
            } else {
                "Add path"@
            },
            WidgetId(
                if linux {
                    widgets::SPLIT_TUNNEL_ADD_PID
                } else {
                    widgets::SPLIT_TUNNEL_ADD_APP
                },
            ),
            app.focused,
            Look::Plain,
        ),
{
    let rows = page_rows(
        rows_of(header(linux), false, area.width) as u16,
        list_len(app, linux),
    );
    let parts = choose|parts: Seq<Rect>|
        parts.len() == page_rows(0, list_len(app, linux)).len() && #[trigger] divides_into_rows(
            area,
            rows,
            parts,
        ) && ops == page_ops(parts, app, linux);
    assert(rows[rows.len() - 2] is Min);
    a_last_row_is_at_the_bottom(area, rows, parts);
}

} // verus!
