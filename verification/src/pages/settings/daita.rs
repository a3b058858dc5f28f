//! The DAITA page.

use crate::app::{App, DAITA_BLURB_PAGES};
use crate::components::{
    check_mark, checkbox_label, less, minus, most, max_of, on_off, on_off_label,
};
use crate::focus::WidgetId;
use crate::geometry::{
    divides_into_columns, divides_into_rows, on_screen, rect, split_columns, split_rows,
    Constraint, Rect,
};
use crate::pages::settings::root::daita_on;
use crate::pages::settings::rows::{render_status_toggle_row, status_toggle_ops};
use crate::pages::settings::widgets;
use crate::scene::{
    block_op, button_op, label_button_op, label_op, raw_line, OpView, Scene, SpanView, TextBlock,
    Wrap,
};
use crate::text::{cat, decimal, decimal_digits, owned};
use crate::wrap::{row_count, rows_of, WIDEST};
use vstd::prelude::*;

verus! {

/// What DAITA is: the first page.
pub const FIRST_A: &'static str = "Attention: This increases network traffic and will also negatively affect speed, latency, and battery usage. Use with caution on limited plans.";

pub const FIRST_B: &'static str = "DAITA (Defense against AI-guided Traffic Analysis) hides patterns in your encrypted VPN traffic.";

pub const FIRST_C: &'static str = "By using sophisticated AI it's possible to analyze the traffic of data packets going in and out of your device (even if the traffic is encrypted).";

/// What DAITA is: the second page.
pub const SECOND_A: &'static str = "If an observer monitors these data packets, DAITA makes it significantly harder for them to identify which websites you are visiting or with whom you are communicating.";

pub const SECOND_B: &'static str = "DAITA does this by carefully adding network noise and making all network packets the same size.";

pub const SECOND_C: &'static str = "Not all our servers are DAITA-enabled. Therefore, we use multihop automatically to enable DAITA with any server.";

/// Three paragraphs with a blank line between them.
pub open spec fn paragraphs(a: Seq<char>, b: Seq<char>, c: Seq<char>) -> Seq<Seq<SpanView>> {
    seq![raw_line(a), raw_line(""@), raw_line(b), raw_line(""@), raw_line(c)]
}

/// A page of the description.
pub open spec fn blurb(page: int) -> Seq<Seq<SpanView>> {
    if page == 0 {
        paragraphs(FIRST_A@, FIRST_B@, FIRST_C@)
    } else {
        paragraphs(SECOND_A@, SECOND_B@, SECOND_C@)
    }
}

fn three_paragraphs(a: &str, b: &str, c: &str) -> (r: TextBlock)
    ensures
        r@ == paragraphs(a@, b@, c@),
{
    let mut r = TextBlock::new();
    r.push_raw(a);
    r.push_raw("");
    r.push_raw(b);
    r.push_raw("");
    r.push_raw(c);
    assert(r@ =~= paragraphs(a@, b@, c@));
    r
}

fn blurb_text(page: usize) -> (r: TextBlock)
    ensures
        r@ == blurb(page as int),
{
    if page == 0 {
        three_paragraphs(FIRST_A, FIRST_B, FIRST_C)
    } else {
        three_paragraphs(SECOND_A, SECOND_B, SECOND_C)
    }
}

/// The rows that the longer page of the description takes. What is below it
/// does not move when the page is turned.
pub open spec fn blurb_height(width: u16) -> u16 {
    most(rows_of(blurb(0), false, width) as u16, rows_of(blurb(1), false, width) as u16)
}

// ---- The pager ----

/// The columns of the pager.
pub open spec fn pager_columns() -> Seq<Constraint> {
    seq![
        Constraint::Min(1),
        Constraint::Length(3),
        Constraint::Min(1),
        Constraint::Length(3),
        Constraint::Min(1),
    ]
}

/// `Page 1/2`.
pub open spec fn page_indicator(page: int, total: int) -> Seq<char> {
    "Page "@ + decimal_digits((page + 1) as nat) + "/"@ + decimal_digits(total as nat)
}

/// What the pager shows: the page in the middle, and a button on each side on
/// which there is a page to turn to.
pub open spec fn pager_ops(
    columns: Seq<Rect>,
    page: int,
    total: int,
    focused: Option<WidgetId>,
) -> Seq<OpView> {
    let text = page_indicator(page, total);
    let previous = if page > 0 {
        seq![button_op(columns[1], "<"@, WidgetId(widgets::DAITA_BLURB_PREV), focused)]
    } else {
        Seq::empty()
    };
    let next = if page + 1 < total {
        seq![button_op(columns[3], ">"@, WidgetId(widgets::DAITA_BLURB_NEXT), focused)]
    } else {
        Seq::empty()
    };
    let shown = label_op(
        rect(
            (columns[2].x + less(columns[2].width, text.len() as u16) / 2) as u16,
            columns[2].y,
            text.len() as u16,
            1,
        ),
        text,
    );
    (previous.push(shown) + next).push(OpView::EndRow)
}

/// `ops` draws the pager in `area`.
pub open spec fn draws_pager(
    ops: Seq<OpView>,
    area: Rect,
    page: int,
    total: int,
    focused: Option<WidgetId>,
) -> bool {
    exists|columns: Seq<Rect>|
        #[trigger] divides_into_columns(area, pager_columns(), columns) && ops == pager_ops(
            columns,
            page,
            total,
            focused,
        )
}

fn render_blurb_pager(area: Rect, page: usize, total: usize, focused: Option<WidgetId>) -> (scene:
    Scene)
    requires
        on_screen(area),
        page < total < 1000,
    ensures
        draws_pager(scene@, area, page as int, total as int, focused),
{
    let constraints: Vec<Constraint> = vec![
        Constraint::Min(1),
        Constraint::Length(3),
        Constraint::Min(1),
        Constraint::Length(3),
        Constraint::Min(1),
    ];
    assert(constraints@ =~= pager_columns());
    let columns = split_columns(area, &constraints);
    let mut scene = Scene::new();
    if page > 0 {
        scene.button(columns[1], "<", WidgetId(widgets::DAITA_BLURB_PREV), focused);
    }
    let mut text = owned("Page ");
    text.append(decimal((page + 1) as u64).as_str());
    text.append("/");
    text.append(decimal(total as u64).as_str());
    let count: usize = text.as_str().unicode_len();
    #[verifier::truncate]
    let width: u16 = count as u16;
    let x: u16 = columns[2].x + minus(columns[2].width, width) / 2;
    scene.label(Rect::new(x, columns[2].y, width, 1), text.as_str());
    if page + 1 < total {
        scene.button(columns[3], ">", WidgetId(widgets::DAITA_BLURB_NEXT), focused);
    }
    scene.end_row();
    assert(scene@ =~= pager_ops(columns@, page as int, total as int, focused));
    scene
}

// ---- The page ----

/// Whether DAITA may not route through a relay of its own choice.
pub open spec fn direct_only(app: App) -> bool {
    app.settings is Some && !app.settings->0.daita.use_multihop_if_necessary
}

/// The rows of the page, with a description that takes `height` rows.
pub open spec fn page_rows(height: u16) -> Seq<Constraint> {
    seq![
        Constraint::Length(1),
        Constraint::Length(1),
        Constraint::Length(height),
        Constraint::Length(1),
        Constraint::Length(1),
        Constraint::Min(1),
        Constraint::Length(1),
        Constraint::Length(1),
        Constraint::Min(1),
    ]
}

/// The page of the description that is shown.
pub open spec fn shown_page(app: App) -> int {
    if app.settings_state.daita_blurb_page < DAITA_BLURB_PAGES {
        app.settings_state.daita_blurb_page as int
    } else {
        DAITA_BLURB_PAGES - 1
    }
}

/// `ops` draws the page in `area`.
pub open spec fn draws_page(ops: Seq<OpView>, area: Rect, app: App) -> bool {
    let page = shown_page(app);
    exists|parts: Seq<Rect>, pager: Seq<OpView>|
        #[trigger] divides_into_rows(area, page_rows(blurb_height(area.width)), parts)
            && #[trigger] draws_pager(
            pager,
            parts[4],
            page,
            DAITA_BLURB_PAGES as int,
            app.focused,
        ) && ops == (seq![
            label_op(parts[0], "DAITA"@),
            block_op(parts[2], blurb(page), Wrap::Keep),
        ] + pager + status_toggle_ops(
            parts[6],
            daita_on(app),
            WidgetId(widgets::DAITA_TOGGLE),
            app.focused,
        )).push(
            label_button_op(
                parts[7],
                "Direct only: "@ + on_off(direct_only(app)),
                check_mark(direct_only(app)),
                WidgetId(widgets::DAITA_DIRECT_ONLY_TOGGLE),
                app.focused,
            ),
        )
}

/// Draw the page in `area`: what DAITA is, page by page, and two checkboxes.
///
/// `area` is the page's column, as [`crate::pages::page_area`] gives it.
pub fn render_daita(area: Rect, app: &App) -> (scene: Scene)
    requires
        on_screen(area),
        area.width <= WIDEST,
    ensures
        draws_page(scene@, area, *app),
{
    let focused = app.focused;
    let (enabled, direct) = match &app.settings {
        Some(s) => (s.daita.enabled, !s.daita.use_multihop_if_necessary),
        None => (false, false),
    };
    let first: usize = row_count(&blurb_text(0), false, area.width);
    let second: usize = row_count(&blurb_text(1), false, area.width);
    #[verifier::truncate]
    let first: u16 = first as u16;
    #[verifier::truncate]
    let second: u16 = second as u16;
    let height: u16 = max_of(first, second);
    let page: usize = if app.settings_state.daita_blurb_page < DAITA_BLURB_PAGES {
        app.settings_state.daita_blurb_page
    } else {
        DAITA_BLURB_PAGES - 1
    };
    let constraints: Vec<Constraint> = vec![
        Constraint::Length(1),
        Constraint::Length(1),
        Constraint::Length(height),
        Constraint::Length(1),
        Constraint::Length(1),
        Constraint::Min(1),
        Constraint::Length(1),
        Constraint::Length(1),
        Constraint::Min(1),
    ];
    assert(constraints@ =~= page_rows(blurb_height(area.width)));
    let parts = split_rows(area, &constraints);
    let mut scene = Scene::new();
    scene.label(parts[0], "DAITA");
    scene.block(parts[2], blurb_text(page), Wrap::Keep);
    assert(scene@ =~= seq![
        label_op(parts@[0], "DAITA"@),
        block_op(parts@[2], blurb(page as int), Wrap::Keep),
    ]);
    let pager = render_blurb_pager(parts[4], page, DAITA_BLURB_PAGES, focused);
    let ghost p = pager@;
    scene.append(pager);
    scene.append(
        render_status_toggle_row(parts[6], enabled, WidgetId(widgets::DAITA_TOGGLE), focused),
    );
    let label = cat("Direct only: ", on_off_label(direct));
    scene.label_button_row(
        parts[7],
        label.as_str(),
        checkbox_label(direct),
        WidgetId(widgets::DAITA_DIRECT_ONLY_TOGGLE),
        focused,
    );
    assert(draws_pager(p, parts@[4], page as int, DAITA_BLURB_PAGES as int, focused));
    scene
}

/// The pager offers a button only towards a page that is there.
pub proof fn the_pager_leads_somewhere(columns: Seq<Rect>, page: int, focused: Option<WidgetId>)
    requires
        0 <= page < DAITA_BLURB_PAGES,
    ensures
        pager_ops(columns, page, DAITA_BLURB_PAGES as int, focused).contains(
            button_op(columns[1], "<"@, WidgetId(widgets::DAITA_BLURB_PREV), focused),
        ) <==> page > 0,
        pager_ops(columns, page, DAITA_BLURB_PAGES as int, focused).contains(
            button_op(columns[3], ">"@, WidgetId(widgets::DAITA_BLURB_NEXT), focused),
        ) <==> page + 1 < DAITA_BLURB_PAGES,
{
    let ops = pager_ops(columns, page, DAITA_BLURB_PAGES as int, focused);
    if page > 0 {
        assert(ops[0] == button_op(
            columns[1],
            "<"@,
            WidgetId(widgets::DAITA_BLURB_PREV),
            focused,
        ));
    } else {
        assert(ops[1] == button_op(
            columns[3],
            ">"@,
            WidgetId(widgets::DAITA_BLURB_NEXT),
            focused,
        ));
    }
}

/// Turning the page of the description moves neither checkbox: however the page
/// is drawn, it can be drawn with another page of the description and the same
/// two rows of checkboxes.
pub proof fn turning_the_page_moves_no_checkbox(
    ops: Seq<OpView>,
    area: Rect,
    app: App,
    turned: App,
)
    requires
        draws_page(ops, area, app),
        turned == (App { settings_state: turned.settings_state, ..app }),
    ensures
        exists|other: Seq<OpView>| #[trigger]
            draws_page(other, area, turned) && other.len() >= 4 && ops.len() >= 4
                && other.skip(other.len() - 4) == ops.skip(ops.len() - 4),
{
    let total = DAITA_BLURB_PAGES as int;
    let rows = page_rows(blurb_height(area.width));
    let toggles = |parts: Seq<Rect>|
        status_toggle_ops(
            parts[6],
            daita_on(app),
            WidgetId(widgets::DAITA_TOGGLE),
            app.focused,
        ).push(
            label_button_op(
                parts[7],
                "Direct only: "@ + on_off(direct_only(app)),
                check_mark(direct_only(app)),
                WidgetId(widgets::DAITA_DIRECT_ONLY_TOGGLE),
                app.focused,
            ),
        );
    let (parts, pager) = choose|parts: Seq<Rect>, pager: Seq<OpView>|
        #[trigger] divides_into_rows(area, rows, parts) && #[trigger] draws_pager(
            pager,
            parts[4],
            shown_page(app),
            total,
            app.focused,
        ) && ops == (seq![
            label_op(parts[0], "DAITA"@),
            block_op(parts[2], blurb(shown_page(app)), Wrap::Keep),
        ] + pager + status_toggle_ops(
            parts[6],
            daita_on(app),
            WidgetId(widgets::DAITA_TOGGLE),
            app.focused,
        )).push(
            label_button_op(
                parts[7],
                "Direct only: "@ + on_off(direct_only(app)),
                check_mark(direct_only(app)),
                WidgetId(widgets::DAITA_DIRECT_ONLY_TOGGLE),
                app.focused,
            ),
        );
    let columns = choose|columns: Seq<Rect>|
        #[trigger] divides_into_columns(parts[4], pager_columns(), columns) && pager == pager_ops(
            columns,
            shown_page(app),
            total,
            app.focused,
        );
    let above = seq![
        label_op(parts[0], "DAITA"@),
        block_op(parts[2], blurb(shown_page(app)), Wrap::Keep),
    ] + pager;
    let other_pager = pager_ops(columns, shown_page(turned), total, app.focused);
    let other_above = seq![
        label_op(parts[0], "DAITA"@),
        block_op(parts[2], blurb(shown_page(turned)), Wrap::Keep),
    ] + other_pager;
    let other = other_above + toggles(parts);
    assert(draws_pager(other_pager, parts[4], shown_page(turned), total, app.focused));
    assert(ops =~= above + toggles(parts));
    assert(other =~= (other_above + status_toggle_ops(
        parts[6],
        daita_on(turned),
        WidgetId(widgets::DAITA_TOGGLE),
        app.focused,
    )).push(
        label_button_op(
            parts[7],
            "Direct only: "@ + on_off(direct_only(turned)),
            check_mark(direct_only(turned)),
            WidgetId(widgets::DAITA_DIRECT_ONLY_TOGGLE),
            app.focused,
        ),
    ));
    assert(draws_page(other, area, turned));
    assert(other.skip(other.len() - 4) =~= ops.skip(ops.len() - 4));
}

/// The page that is shown is the one turned to, and the indicator counts from one.
pub proof fn the_indicator_counts_from_one(app: App)
    ensures
        app.settings_state.daita_blurb_page < DAITA_BLURB_PAGES ==> shown_page(app)
            == app.settings_state.daita_blurb_page,
        0 <= shown_page(app) < DAITA_BLURB_PAGES,
        page_indicator(shown_page(app), DAITA_BLURB_PAGES as int) == "Page "@ + decimal_digits(
            (shown_page(app) + 1) as nat,
        ) + "/"@ + decimal_digits(2),
        blurb(0)[0] == raw_line(FIRST_A@) && blurb(0)[2] == raw_line(FIRST_B@) && blurb(0)[4]
            == raw_line(FIRST_C@),
        blurb(1)[0] == raw_line(SECOND_A@) && blurb(1)[2] == raw_line(SECOND_B@) && blurb(1)[4]
            == raw_line(SECOND_C@),
{
}

} // verus!
