//! The API access page.

use crate::app::App;
use crate::components::{check_mark, checkbox_label};
use crate::daemon::AccessMethodSetting;
use crate::focus::WidgetId;
use crate::geometry::{
    divides_into_columns, divides_into_rows, one_cell_each, single_rows, split_columns, split_rows,
    Constraint, Rect,
};
use crate::pages::settings::widgets;
use crate::scene::{
    block_op, button_op, joined, joined_push, label_op, raw_line, OpView, Scene, SpanView,
    TextBlock, TextLine, Wrap,
};
use crate::text::{cat, text_eq};
use crate::wrap::{row_count, rows_of, WIDEST};
use vstd::prelude::*;

verus! {

/// The API access methods.
pub open spec fn methods_of(app: App) -> Seq<AccessMethodSetting> {
    match app.settings {
        Some(s) => s.api_access_methods@,
        None => Seq::empty(),
    }
}

/// The id of the method in row `index`.
pub open spec fn method_id(app: App, index: int) -> Option<Seq<char>> {
    if 0 <= index < methods_of(app).len() {
        Some(methods_of(app)[index].id@)
    } else {
        None
    }
}

/// The id of the method in row `index`. There is none past the end of the list,
/// nor before the settings are known.
pub fn method_id_at(app: &App, index: usize) -> (r: Option<String>)
    ensures
        match r {
            Some(id) => method_id(*app, index as int) == Some(id@),
            None => method_id(*app, index as int) is None,
        },
{
    match &app.settings {
        Some(s) => if index < s.api_access_methods.len() {
            Some(s.api_access_methods[index].id.clone())
        } else {
            None
        },
        None => None,
    }
}

// ---- Drawing ----

/// What the page is for.
pub const DESCRIPTION: &'static str = "Manage and add custom methods to access the Mullvad API.";

/// The description, as lines.
pub open spec fn description() -> Seq<Seq<SpanView>> {
    seq![raw_line(DESCRIPTION@)]
}

/// Whether `id` is the method that the daemon uses.
pub open spec fn is_active(app: App, id: Seq<char>) -> bool {
    app.api_access_id is Some && app.api_access_id->0@ == id
}

/// What a row says: the method's name, marked if the daemon uses it.
pub open spec fn method_label(app: App, method: AccessMethodSetting) -> Seq<char> {
    (if is_active(app, method.id@) {
        "* "@
    } else {
        "  "@
    }) + method.name@
}

/// The columns of a row: name, checkbox and button, with gaps between.
pub open spec fn row_columns() -> Seq<Constraint> {
    seq![
        Constraint::Min(0),
        Constraint::Length(1),
        Constraint::Length(3),
        Constraint::Length(1),
        Constraint::Length(5),
    ]
}

/// `ops` draws the row of a method. A row past the last id has no buttons.
pub open spec fn draws_method_row(
    ops: Seq<OpView>,
    area: Rect,
    app: App,
    method: AccessMethodSetting,
    index: int,
) -> bool {
    if index < widgets::API_ACCESS_MAX {
        exists|columns: Seq<Rect>|
            #[trigger] divides_into_columns(area, row_columns(), columns) && ops == seq![
                label_op(columns[0], method_label(app, method)),
                button_op(
                    columns[2],
                    check_mark(method.enabled),
                    WidgetId((widgets::API_ACCESS_TOGGLE_BASE + index) as u32),
                    app.focused,
                ),
                button_op(
                    columns[4],
                    "Use"@,
                    WidgetId((widgets::API_ACCESS_USE_BASE + index) as u32),
                    app.focused,
                ),
                OpView::EndRow,
            ]
    } else {
        ops == seq![label_op(area, method_label(app, method))]
    }
}

fn render_row(area: Rect, app: &App, method: &AccessMethodSetting, index: usize) -> (scene: Scene)
    ensures
        draws_method_row(scene@, area, *app, *method, index as int),
{
    let active = match &app.api_access_id {
        Some(id) => text_eq(id.as_str(), method.id.as_str()),
        None => false,
    };
    let label = cat(
        if active {
            "* "
        } else {
            "  "
        },
        method.name.as_str(),
    );
    let mut scene = Scene::new();
    if index < widgets::API_ACCESS_MAX as usize {
        let constraints: Vec<Constraint> = vec![
            Constraint::Min(0),
            Constraint::Length(1),
            Constraint::Length(3),
            Constraint::Length(1),
            Constraint::Length(5),
        ];
        assert(constraints@ =~= row_columns());
        let columns = split_columns(area, &constraints);
        scene.label(columns[0], label.as_str());
        scene.button(
            columns[2],
            checkbox_label(method.enabled),
            WidgetId(widgets::API_ACCESS_TOGGLE_BASE + index as u32),
            app.focused,
        );
        scene.button(
            columns[4],
            "Use",
            WidgetId(widgets::API_ACCESS_USE_BASE + index as u32),
            app.focused,
        );
        scene.end_row();
        assert(scene@ =~= seq![
            label_op(columns@[0], method_label(*app, *method)),
            button_op(
                columns@[2],
                check_mark(method.enabled),
                WidgetId((widgets::API_ACCESS_TOGGLE_BASE + index) as u32),
                app.focused,
            ),
            button_op(
                columns@[4],
                "Use"@,
                WidgetId((widgets::API_ACCESS_USE_BASE + index) as u32),
                app.focused,
            ),
            OpView::EndRow,
        ]);
    } else {
        scene.label(area, label.as_str());
        assert(scene@ =~= seq![label_op(area, method_label(*app, *method))]);
    }
    scene
}

/// Whether `pieces` draw the rows of the methods, one piece for each.
pub open spec fn draw_methods(pieces: Seq<Seq<OpView>>, parts: Seq<Rect>, app: App) -> bool {
    forall|i: int|
        0 <= i < pieces.len() ==> draws_method_row(
            #[trigger] pieces[i],
            parts[4 + i],
            app,
            methods_of(app)[i],
            i,
        )
}

/// `ops` draws the list of methods.
pub open spec fn draws_list(ops: Seq<OpView>, parts: Seq<Rect>, app: App) -> bool {
    if methods_of(app).len() == 0 {
        ops == seq![label_op(parts[4], "    (loading methods…)"@)]
    } else {
        exists|pieces: Seq<Seq<OpView>>|
            pieces.len() == methods_of(app).len() && draw_methods(pieces, parts, app) && ops
                == #[trigger] joined(pieces)
    }
}

/// The rows of the page, with a description that takes `height` rows.
pub open spec fn page_rows(height: u16, methods: nat) -> Seq<Constraint> {
    (seq![
        Constraint::Length(1),
        Constraint::Length(1),
        Constraint::Length(height),
        Constraint::Length(1),
    ] + single_rows(
        if methods == 0 {
            1
        } else {
            methods
        },
    )).push(Constraint::Min(0))
}

/// `ops` draws the page in `area`.
pub open spec fn draws_page(ops: Seq<OpView>, area: Rect, app: App) -> bool {
    exists|parts: Seq<Rect>, list: Seq<OpView>|
        #[trigger] divides_into_rows(
            area,
            page_rows(
                rows_of(description(), false, area.width) as u16,
                methods_of(app).len(),
            ),
            parts,
        ) && #[trigger] draws_list(list, parts, app) && ops == seq![
            label_op(parts[0], "API access"@),
            block_op(parts[2], description(), Wrap::Keep),
        ] + list
}

fn render_list(parts: &Vec<Rect>, app: &App, count: usize) -> (scene: Scene)
    requires
        count == methods_of(*app).len(),
        parts@.len() >= count + 5,
    ensures
        draws_list(scene@, parts@, *app),
{
    let mut scene = Scene::new();
    if count == 0 {
        scene.label(parts[4], "    (loading methods…)");
        assert(scene@ =~= seq![label_op(parts@[4], "    (loading methods…)"@)]);
        return scene;
    }
    let ghost mut pieces: Seq<Seq<OpView>> = Seq::empty();
    if let Some(s) = &app.settings {
        let mut i: usize = 0;
        while i < s.api_access_methods.len()
            invariant
                i <= s.api_access_methods.len(),
                app.settings == Some(*s),
                parts@.len() >= s.api_access_methods@.len() + 5,
                pieces.len() == i,
                draw_methods(pieces, parts@, *app),
                scene@ == joined(pieces),
            decreases s.api_access_methods.len() - i,
        {
            assert(parts@.len() == parts.len());
            let piece = render_row(parts[4 + i], app, &s.api_access_methods[i], i);
            proof {
                joined_push(pieces, piece@);
                pieces = pieces.push(piece@);
            }
            scene.append(piece);
            i = i + 1;
        }
    }
    assert(scene@ == joined(pieces));
    scene
}

/// Draw the page in `area`: one row for each method, or a word that they are not
/// known yet.
///
/// `area` is the page's column, as [`crate::pages::page_area`] gives it.
pub fn render(area: Rect, app: &App) -> (scene: Scene)
    requires
        area.width <= WIDEST,
    ensures
        draws_page(scene@, area, *app),
{
    let text = TextBlock::of(TextLine::raw(DESCRIPTION));
    let rows: usize = row_count(&text, false, area.width);
    #[verifier::truncate]
    let height: u16 = rows as u16;
    let count: usize = match &app.settings {
        Some(s) => s.api_access_methods.len(),
        None => 0,
    };
    let mut constraints: Vec<Constraint> = vec![
        Constraint::Length(1),
        Constraint::Length(1),
        Constraint::Length(height),
        Constraint::Length(1),
    ];
    let mut list_rows = one_cell_each(
        if count == 0 {
            1
        } else {
            count
        },
    );
    constraints.append(&mut list_rows);
    constraints.push(Constraint::Min(0));
    assert(constraints@ =~= page_rows(height, count as nat));
    let parts = split_rows(area, &constraints);
    let mut scene = Scene::new();
    scene.label(parts[0], "API access");
    scene.block(parts[2], text, Wrap::Keep);
    assert(scene@ =~= seq![
        label_op(parts@[0], "API access"@),
        block_op(parts@[2], description(), Wrap::Keep),
    ]);
    let list = render_list(&parts, app, count);
    let ghost l = list@;
    scene.append(list);
    assert(draws_list(l, parts@, *app));
    scene
}

} // verus!
