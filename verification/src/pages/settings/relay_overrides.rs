//! The Server IP overrides page.

use crate::app::App;
use crate::daemon::RelayOverride;
use crate::focus::{id_in, row_id_or_none, WidgetId};
use crate::geometry::{
    divides_into_columns, divides_into_rows, one_cell_each, single_rows, split_columns, split_rows,
    Constraint, Rect,
};
use crate::pages::settings::{overrides_of, widgets};
use crate::scene::{
    block_op, button_op, label_button_op, label_op, raw_line, Look, Op, OpView, Scene, SpanView,
    TextBlock, TextLine, Wrap,
};
use crate::text::{cat, owned};
use crate::wrap::{row_count, rows_of, WIDEST};
use vstd::prelude::*;

verus! {

/// What the page is for.
pub const DESCRIPTION: &'static str = "Override the IPv4/IPv6 in-address of a specific relay when the upstream-published address is blocked or unreachable.";

/// The description, as lines.
pub open spec fn description() -> Seq<Seq<SpanView>> {
    seq![raw_line(DESCRIPTION@)]
}

/// An address, or a dash where there is none.
pub open spec fn address_text(address: Option<String>) -> Seq<char> {
    match address {
        Some(a) => a@,
        None => "\u{2014}"@,
    }
}

fn address_label(prefix: &str, address: &Option<String>) -> (r: String)
    ensures
        r@ == prefix@ + address_text(*address),
{
    match address {
        Some(a) => cat(prefix, a.as_str()),
        None => cat(prefix, "\u{2014}"),
    }
}

/// The three rows of an override: its relay with a `[Remove]` button, and its
/// two addresses. A relay past the last id has no button.
pub open spec fn override_ops(
    parts: Seq<Rect>,
    at: int,
    ov: RelayOverride,
    index: int,
    focused: Option<WidgetId>,
) -> Seq<OpView> {
    let head = match id_in(
        index,
        widgets::RELAY_OVERRIDE_REMOVE_BASE,
        widgets::RELAY_OVERRIDE_REMOVE_MAX,
    ) {
        Some(id) => label_button_op(parts[at], ov.hostname@, "Remove"@, id, focused),
        None => label_op(parts[at], ov.hostname@),
    };
    seq![
        head,
        label_op(parts[at + 1], "    v4 "@ + address_text(ov.ipv4_addr_in)),
        label_op(parts[at + 2], "    v6 "@ + address_text(ov.ipv6_addr_in)),
    ]
}

fn render_override_block(
    parts: &Vec<Rect>,
    at: usize,
    ov: &RelayOverride,
    index: usize,
    focused: Option<WidgetId>,
) -> (scene: Scene)
    requires
        at + 3 <= parts@.len(),
    ensures
        scene@ == override_ops(parts@, at as int, *ov, index as int, focused),
{
    assert(parts@.len() == parts.len());
    let mut scene = Scene::new();
    match row_id_or_none(
        index,
        widgets::RELAY_OVERRIDE_REMOVE_MAX,
        widgets::RELAY_OVERRIDE_REMOVE_BASE,
    ) {
        Some(id) => scene.label_button_row(
            parts[at],
            ov.hostname.as_str(),
            "Remove",
            id,
            focused,
        ),
        None => scene.label(parts[at], ov.hostname.as_str()),
    }
    scene.label(parts[at + 1], address_label("    v4 ", &ov.ipv4_addr_in).as_str());
    scene.label(parts[at + 2], address_label("    v6 ", &ov.ipv6_addr_in).as_str());
    assert(scene@ =~= override_ops(parts@, at as int, *ov, index as int, focused));
    scene
}

/// The first `n` overrides, with a free row between each two.
pub open spec fn overrides_ops(
    parts: Seq<Rect>,
    overrides: Seq<RelayOverride>,
    n: int,
    focused: Option<WidgetId>,
) -> Seq<OpView>
    decreases n,
{
    if n <= 0 {
        Seq::empty()
    } else {
        overrides_ops(parts, overrides, n - 1, focused) + override_ops(
            parts,
            6 + 4 * (n - 1),
            overrides[n - 1],
            n - 1,
            focused,
        )
    }
}

/// The rows that `n` overrides take: three each, and one between each two. One
/// row says that there are none.
pub open spec fn list_rows(n: nat) -> nat {
    if n == 0 {
        1
    } else {
        (4 * n - 1) as nat
    }
}

/// The rows of the page, with a description that takes `height` rows.
pub open spec fn page_rows(height: u16, n: nat) -> Seq<Constraint> {
    seq![Constraint::Length(1), Constraint::Length(1), Constraint::Length(height)]
        + single_rows(3) + single_rows(list_rows(n)) + seq![
        Constraint::Min(1),
        Constraint::Length(1),
    ]
}

/// The columns of the last row.
pub open spec fn footer_columns() -> Seq<Constraint> {
    seq![Constraint::Length(15), Constraint::Min(1), Constraint::Length(11)]
}

/// `ops` draws the last row: a button at each end.
pub open spec fn draws_footer(ops: Seq<OpView>, area: Rect, focused: Option<WidgetId>) -> bool {
    exists|columns: Seq<Rect>|
        #[trigger] divides_into_columns(area, footer_columns(), columns) && ops == seq![
            button_op(
                columns[0],
                "Add override\u{2026}"@,
                WidgetId(widgets::RELAY_OVERRIDE_ADD),
                focused,
            ),
            OpView::Button {
                area: columns[2],
                label: "Clear all"@,
                id: WidgetId(widgets::RELAY_OVERRIDE_CLEAR_ALL),
                focused: focused == Some(WidgetId(widgets::RELAY_OVERRIDE_CLEAR_ALL)),
                look: Look::Danger,
            },
            OpView::EndRow,
        ]
}

fn render_footer(area: Rect, focused: Option<WidgetId>) -> (scene: Scene)
    ensures
        draws_footer(scene@, area, focused),
{
    let constraints: Vec<Constraint> = vec![
        Constraint::Length(15),
        Constraint::Min(1),
        Constraint::Length(11),
    ];
    assert(constraints@ =~= footer_columns());
    let columns = split_columns(area, &constraints);
    let mut scene = Scene::new();
    scene.button(columns[0], "Add override\u{2026}", WidgetId(widgets::RELAY_OVERRIDE_ADD), focused);
    let clear = WidgetId(widgets::RELAY_OVERRIDE_CLEAR_ALL);
    scene.push(
        Op::Button {
            area: columns[2],
            label: owned("Clear all"),
            id: clear,
            focused: crate::focus::is_focused(focused, clear),
            look: Look::Danger,
        },
    );
    scene.end_row();
    assert(scene@ =~= seq![
        button_op(
            columns@[0],
            "Add override\u{2026}"@,
            WidgetId(widgets::RELAY_OVERRIDE_ADD),
            focused,
        ),
        OpView::Button {
            area: columns@[2],
            label: "Clear all"@,
            id: clear,
            focused: focused == Some(clear),
            look: Look::Danger,
        },
        OpView::EndRow,
    ]);
    scene
}

/// What the page shows above its last row. The overrides form one scroll group.
pub open spec fn body_ops(parts: Seq<Rect>, app: App) -> Seq<OpView> {
    let overrides = overrides_of(app);
    seq![
        label_op(parts[0], "Server IP overrides"@),
        block_op(parts[2], description(), Wrap::Keep),
        label_op(parts[4], "Configured overrides:"@),
    ] + if overrides.len() == 0 {
        seq![label_op(parts[6], "    (no overrides configured)"@)]
    } else {
        (seq![OpView::BeginScrollGroup] + overrides_ops(
            parts,
            overrides,
            overrides.len() as int,
            app.focused,
        )).push(OpView::EndScrollGroup)
    }
}

/// `ops` draws the page in `area`.
pub open spec fn draws_page(ops: Seq<OpView>, area: Rect, app: App) -> bool {
    exists|parts: Seq<Rect>, footer: Seq<OpView>|
        parts.len() == page_rows(0, overrides_of(app).len()).len() && #[trigger] divides_into_rows(
            area,
            page_rows(
                rows_of(description(), false, area.width) as u16,
                overrides_of(app).len(),
            ),
            parts,
        ) && #[trigger] draws_footer(footer, parts[parts.len() - 1], app.focused) && ops
            == body_ops(parts, app) + footer
}

/// The overrides, three rows each.
fn override_rows(count: usize) -> (r: Vec<Constraint>)
    ensures
        r@ == single_rows(list_rows(count as nat)),
{
    if count == 0 {
        return one_cell_each(1);
    }
    let mut r: Vec<Constraint> = one_cell_each(3);
    let mut i: usize = 1;
    while i < count
        invariant
            1 <= i <= count,
            r@ =~= single_rows((4 * i - 1) as nat),
        decreases count - i,
    {
        let mut block = one_cell_each(4);
        r.append(&mut block);
        i = i + 1;
    }
    r
}

fn render_overrides(parts: &Vec<Rect>, app: &App) -> (scene: Scene)
    requires
        overrides_of(*app).len() > 0,
        parts@.len() == 8 + list_rows(overrides_of(*app).len()),
    ensures
        scene@ == overrides_ops(
            parts@,
            overrides_of(*app),
            overrides_of(*app).len() as int,
            app.focused,
        ),
{
    let mut scene = Scene::new();
    let focused = app.focused;
    if let Some(s) = &app.settings {
        let overrides = &s.relay_overrides;
        let mut i: usize = 0;
        let mut at: usize = 6;
        while i < overrides.len()
            invariant
                i <= overrides.len(),
                overrides.len() > 0,
                at == 6 + 4 * i,
                parts@.len() == 8 + list_rows(overrides@.len()),
                scene@ == overrides_ops(parts@, overrides@, i as int, focused),
            decreases overrides.len() - i,
        {
            assert(parts@.len() == parts.len());
            scene.append(render_override_block(parts, at, &overrides[i], i, focused));
            i = i + 1;
            at = at + 4;
        }
    }
    scene
}

/// Draw the page in `area`: the overrides, and at the bottom a button to add one
/// and a button to clear them all.
///
/// `area` is the page's column, as [`crate::pages::page_area`] gives it.
pub fn render(area: Rect, app: &App) -> (scene: Scene)
    requires
        area.width <= WIDEST,
    ensures
        draws_page(scene@, area, *app),
{
    let focused = app.focused;
    let text = TextBlock::of(TextLine::raw(DESCRIPTION));
    let rows: usize = row_count(&text, false, area.width);
    #[verifier::truncate]
    let height: u16 = rows as u16;
    let count: usize = match &app.settings {
        Some(s) => s.relay_overrides.len(),
        None => 0,
    };
    let mut constraints: Vec<Constraint> = vec![
        Constraint::Length(1),
        Constraint::Length(1),
        Constraint::Length(height),
    ];
    let mut above_list = one_cell_each(3);
    constraints.append(&mut above_list);
    let mut list = override_rows(count);
    constraints.append(&mut list);
    constraints.push(Constraint::Min(1));
    constraints.push(Constraint::Length(1));
    assert(constraints@ =~= page_rows(height, count as nat));
    let parts = split_rows(area, &constraints);
    assert(parts@.len() == page_rows(0, count as nat).len());
    let mut scene = Scene::new();
    scene.label(parts[0], "Server IP overrides");
    scene.block(parts[2], text, Wrap::Keep);
    scene.label(parts[4], "Configured overrides:");
    if count == 0 {
        scene.label(parts[6], "    (no overrides configured)");
    } else {
        scene.push(Op::BeginScrollGroup);
        scene.append(render_overrides(&parts, app));
        scene.push(Op::EndScrollGroup);
    }
    assert(scene@ =~= body_ops(parts@, *app));
    let footer = render_footer(parts[parts.len() - 1], focused);
    let ghost f = footer@;
    scene.append(footer);
    assert(draws_footer(f, parts@[parts@.len() - 1], focused));
    scene
}

} // verus!
