//! The Multihop page.

use crate::app::App;
use crate::focus::WidgetId;
use crate::geometry::{divides_into_rows, on_screen, split_rows, Constraint, Rect};
use crate::pages::settings::rows::{render_status_toggle_row, status_toggle_ops};
use crate::pages::settings::widgets;
use crate::scene::{block_op, label_op, raw_line, OpView, Scene, SpanView, TextBlock, TextLine, Wrap};
use crate::wrap::{row_count, rows_of, WIDEST};
use vstd::prelude::*;

verus! {

/// What multihop is.
pub const DESCRIPTION: &'static str = "Multihop routes your traffic into one WireGuard server and out another, making it harder to trace. This results in increased latency but increases anonymity online.";

/// The description, as lines.
pub open spec fn description() -> Seq<Seq<SpanView>> {
    seq![raw_line(DESCRIPTION@)]
}

/// The rows of the page, with a description that takes `height` rows.
pub open spec fn page_rows(height: u16) -> Seq<Constraint> {
    seq![
        Constraint::Length(1),
        Constraint::Length(1),
        Constraint::Length(height),
        Constraint::Min(1),
        Constraint::Length(1),
        Constraint::Min(1),
    ]
}

/// `ops` draws the page in `area`.
pub open spec fn draws_page(ops: Seq<OpView>, area: Rect, app: App) -> bool {
    exists|parts: Seq<Rect>|
        #[trigger] divides_into_rows(
            area,
            page_rows(rows_of(description(), false, area.width) as u16),
            parts,
        ) && ops == seq![
            label_op(parts[0], "Multihop"@),
            block_op(parts[2], description(), Wrap::Keep),
        ] + status_toggle_ops(
            parts[4],
            app.multihop(),
            WidgetId(widgets::MULTIHOP_TOGGLE),
            app.focused,
        )
}

/// Draw the page in `area`: what multihop is, and a checkbox for it.
///
/// `area` is the page's column, as [`crate::pages::page_area`] gives it.
pub fn render_multihop(area: Rect, app: &App) -> (scene: Scene)
    requires
        on_screen(area),
        area.width <= WIDEST,
    ensures
        draws_page(scene@, area, *app),
{
    let text = TextBlock::of(TextLine::raw(DESCRIPTION));
    let rows: usize = row_count(&text, false, area.width);
    #[verifier::truncate]
    let height: u16 = rows as u16;
    let constraints: Vec<Constraint> = vec![
        Constraint::Length(1),
        Constraint::Length(1),
        Constraint::Length(height),
        Constraint::Min(1),
        Constraint::Length(1),
        Constraint::Min(1),
    ];
    assert(constraints@ =~= page_rows(height));
    let parts = split_rows(area, &constraints);
    let mut scene = Scene::new();
    scene.label(parts[0], "Multihop");
    scene.block(parts[2], text, Wrap::Keep);
    assert(scene@ =~= seq![
        label_op(parts@[0], "Multihop"@),
        block_op(parts@[2], description(), Wrap::Keep),
    ]);
    scene.append(
        render_status_toggle_row(
            parts[4],
            app.is_multihop_enabled(),
            WidgetId(widgets::MULTIHOP_TOGGLE),
            app.focused,
        ),
    );
    scene
}

} // verus!
