//! The root menu of the Settings pages.

use crate::app::App;
use crate::components::{least, min_of, on_off, on_off_label};
use crate::geometry::{
    a_last_row_is_at_the_bottom, divides_into_rows, growing, on_screen, rect, split_rows, total,
    Constraint, Rect,
};
use crate::focus::WidgetId;
use crate::pages::settings::rows::{is_label, menu_button_ops, render_menu_button};
use crate::pages::settings::{disconnect_and_quit_label, quit_label, widgets};
use crate::scene::{centered_op, label_op, raw_line, Look, OpView, Scene};
use vstd::prelude::*;
use vstd::utf8::encode_utf8;

verus! {

/// Where the project lives.
pub const REPO_URL: &'static str = "https://github.com/d10n/mullvad-tui";

/// The versions that the page shows.
pub struct Versions<'a> {
    /// This program.
    pub tui: &'a str,
    /// The daemon release that this program was built for.
    pub targeted_daemon: &'a str,
}

/// The length of a text in bytes, as far as it is a coordinate.
pub open spec fn byte_width(text: Seq<char>) -> u16 {
    encode_utf8(text).len() as usize as u16
}

fn width_in_bytes(text: &str) -> (r: u16)
    ensures
        r == byte_width(text@),
{
    #[verifier::truncate]
    (text.len() as u16)
}

/// `label        value`, the value at the right end, if there is room for it.
pub open spec fn value_row_ops(area: Rect, label: Seq<char>, value: Seq<char>) -> Seq<OpView> {
    let label_width = byte_width(label);
    let value_width = byte_width(value);
    let left = seq![
        label_op(rect(area.x, area.y, least(label_width, area.width), 1), label),
    ];
    if area.width > label_width + value_width + 1 {
        left.push(
            label_op(
                rect((area.x + area.width - value_width) as u16, area.y, value_width, 1),
                value,
            ),
        )
    } else {
        left
    }
}

fn render_app_info_value_row(area: Rect, label: &str, value: &str) -> (scene: Scene)
    requires
        on_screen(area),
    ensures
        scene@ == value_row_ops(area, label@, value@),
{
    let label_width: u16 = width_in_bytes(label);
    let value_width: u16 = width_in_bytes(value);
    let mut scene = Scene::new();
    scene.label(Rect::new(area.x, area.y, min_of(label_width, area.width), 1), label);
    if area.width as u32 > label_width as u32 + value_width as u32 + 1 {
        let x: u16 = area.x + (area.width - value_width);
        scene.label(Rect::new(x, area.y, value_width, 1), value);
    }
    assert(scene@ =~= value_row_ops(area, label@, value@));
    scene
}

/// The rows of the app info block.
pub open spec fn info_rows() -> Seq<Constraint> {
    seq![
        Constraint::Length(1),
        Constraint::Length(1),
        Constraint::Length(1),
        Constraint::Length(1),
        Constraint::Length(1),
    ]
}

/// The daemon's version, or a dash while it is not known.
pub open spec fn daemon_version_text(app: App) -> Seq<char> {
    match app.daemon_version {
        Some(v) => v@,
        None => "-"@,
    }
}

/// `ops` draws the app info block in `area`.
pub open spec fn draws_app_info(
    ops: Seq<OpView>,
    area: Rect,
    tui: Seq<char>,
    targeted: Seq<char>,
    running: Seq<char>,
) -> bool {
    exists|parts: Seq<Rect>|
        #[trigger] divides_into_rows(area, info_rows(), parts) && ops == seq![
            label_op(parts[0], "App info"@),
            label_op(parts[1], REPO_URL@),
        ] + value_row_ops(parts[2], "mullvad-tui"@, tui) + value_row_ops(
            parts[3],
            "Targeted daemon"@,
            targeted,
        ) + value_row_ops(parts[4], "mullvad-daemon"@, running)
}

fn render_app_info(area: Rect, app: &App, versions: &Versions<'_>) -> (scene: Scene)
    requires
        on_screen(area),
    ensures
        draws_app_info(
            scene@,
            area,
            versions.tui@,
            versions.targeted_daemon@,
            daemon_version_text(*app),
        ),
{
    let constraints: Vec<Constraint> = vec![
        Constraint::Length(1),
        Constraint::Length(1),
        Constraint::Length(1),
        Constraint::Length(1),
        Constraint::Length(1),
    ];
    assert(constraints@ =~= info_rows());
    let parts = split_rows(area, &constraints);
    let running: &str = match &app.daemon_version {
        Some(v) => v.as_str(),
        None => "-",
    };
    let mut scene = Scene::new();
    scene.label(parts[0], "App info");
    scene.label(parts[1], REPO_URL);
    assert(scene@ =~= seq![label_op(parts@[0], "App info"@), label_op(parts@[1], REPO_URL@)]);
    scene.append(render_app_info_value_row(parts[2], "mullvad-tui", versions.tui));
    scene.append(render_app_info_value_row(parts[3], "Targeted daemon", versions.targeted_daemon));
    scene.append(render_app_info_value_row(parts[4], "mullvad-daemon", running));
    scene
}

/// The rows of the page: five entries, a gap, the app info, a gap, and the last
/// button.
pub open spec fn page_rows() -> Seq<Constraint> {
    seq![
        Constraint::Length(1),
        Constraint::Length(1),
        Constraint::Length(1),
        Constraint::Length(1),
        Constraint::Length(1),
        Constraint::Min(1),
        Constraint::Length(5),
        Constraint::Length(1),
        Constraint::Length(1),
    ]
}

/// Whether DAITA is on.
pub open spec fn daita_on(app: App) -> bool {
    app.settings is Some && app.settings->0.daita.enabled
}

/// The entries of the menu.
pub open spec fn entry_ops(parts: Seq<Rect>, app: App) -> Seq<OpView> {
    menu_button_ops(
        parts[0],
        "DAITA"@,
        Some(on_off(daita_on(app))),
        WidgetId(widgets::DAITA),
        app.focused,
    ) + menu_button_ops(
        parts[1],
        "Multihop"@,
        Some(on_off(app.multihop())),
        WidgetId(widgets::MULTIHOP),
        app.focused,
    ) + menu_button_ops(
        parts[2],
        "VPN settings"@,
        None,
        WidgetId(widgets::VPN_SETTINGS),
        app.focused,
    ) + menu_button_ops(
        parts[3],
        "Split tunneling"@,
        None,
        WidgetId(widgets::SPLIT_TUNNELING),
        app.focused,
    ) + menu_button_ops(
        parts[4],
        "API access"@,
        None,
        WidgetId(widgets::API_ACCESS),
        app.focused,
    )
}

/// `ops` draws the page in `area`.
pub open spec fn draws_page(
    ops: Seq<OpView>,
    area: Rect,
    app: App,
    tui: Seq<char>,
    targeted: Seq<char>,
) -> bool {
    exists|parts: Seq<Rect>, info: Seq<OpView>|
        #[trigger] divides_into_rows(area, page_rows(), parts) && #[trigger] draws_app_info(
            info,
            parts[6],
            tui,
            targeted,
            daemon_version_text(app),
        ) && ops == (entry_ops(parts, app) + info).push(
            centered_op(
                parts[8],
                quit_label(app.connection),
                WidgetId(widgets::DISCONNECT_AND_QUIT),
                app.focused,
                Look::Danger,
            ),
        )
}

proof fn labels_are_labels()
    ensures
        is_label("DAITA"@),
        is_label("Multihop"@),
        is_label("VPN settings"@),
        is_label("Split tunneling"@),
        is_label("API access"@),
        forall|b: bool| is_label(#[trigger] on_off(b)),
{
    reveal_strlit("DAITA");
    reveal_strlit("Multihop");
    reveal_strlit("VPN settings");
    reveal_strlit("Split tunneling");
    reveal_strlit("API access");
    reveal_strlit("On");
    reveal_strlit("Off");
}

/// Draw the root menu in `area`: five entries, what versions are at work, and at
/// the bottom the way out.
///
/// `area` is the page's column, as [`crate::pages::page_area`] gives it.
pub fn render(area: Rect, app: &App, versions: &Versions<'_>) -> (scene: Scene)
    requires
        on_screen(area),
    ensures
        draws_page(scene@, area, *app, versions.tui@, versions.targeted_daemon@),
{
    let focused = app.focused;
    let multihop_state = on_off_label(app.is_multihop_enabled());
    let daita_state = on_off_label(
        match &app.settings {
            Some(s) => s.daita.enabled,
            None => false,
        },
    );
    let constraints: Vec<Constraint> = vec![
        Constraint::Length(1),
        Constraint::Length(1),
        Constraint::Length(1),
        Constraint::Length(1),
        Constraint::Length(1),
        Constraint::Min(1),
        Constraint::Length(5),
        Constraint::Length(1),
        Constraint::Length(1),
    ];
    assert(constraints@ =~= page_rows());
    let parts = split_rows(area, &constraints);
    proof {
        labels_are_labels();
    }
    let mut scene = render_menu_button(
        parts[0],
        "DAITA",
        Some(daita_state),
        WidgetId(widgets::DAITA),
        focused,
    );
    scene.append(
        render_menu_button(
            parts[1],
            "Multihop",
            Some(multihop_state),
            WidgetId(widgets::MULTIHOP),
            focused,
        ),
    );
    scene.append(
        render_menu_button(
            parts[2],
            "VPN settings",
            None,
            WidgetId(widgets::VPN_SETTINGS),
            focused,
        ),
    );
    scene.append(
        render_menu_button(
            parts[3],
            "Split tunneling",
            None,
            WidgetId(widgets::SPLIT_TUNNELING),
            focused,
        ),
    );
    scene.append(
        render_menu_button(parts[4], "API access", None, WidgetId(widgets::API_ACCESS), focused),
    );
    assert(scene@ == entry_ops(parts@, *app));
    let info = render_app_info(parts[6], app, versions);
    let ghost i = info@;
    scene.append(info);
    let connection = match &app.connection {
        Some(c) => Some(c),
        None => None,
    };
    scene.centered_button(
        parts[8],
        disconnect_and_quit_label(connection),
        WidgetId(widgets::DISCONNECT_AND_QUIT),
        focused,
        Look::Danger,
    );
    assert(draws_app_info(
        i,
        parts@[6],
        versions.tui@,
        versions.targeted_daemon@,
        daemon_version_text(*app),
    ));
    scene
}

/// Where the area has room for the page, the way out stands in its last row.
pub proof fn the_way_out_is_at_the_bottom(
    ops: Seq<OpView>,
    area: Rect,
    app: App,
    tui: Seq<char>,
    targeted: Seq<char>,
)
    requires
        draws_page(ops, area, app, tui, targeted),
        area.height >= 13,
        area.y + area.height <= u16::MAX,
    ensures
        ops.last() == centered_op(
            Rect {
                x: area.x,
                y: (area.y + area.height - 1) as u16,
                width: area.width,
                height: 1,
            },
            quit_label(app.connection),
            WidgetId(widgets::DISCONNECT_AND_QUIT),
            app.focused,
            Look::Danger,
        ),
{
    let (parts, info) = choose|parts: Seq<Rect>, info: Seq<OpView>|
        #[trigger] divides_into_rows(area, page_rows(), parts) && #[trigger] draws_app_info(
            info,
            parts[6],
            tui,
            targeted,
            daemon_version_text(app),
        ) && ops == (entry_ops(parts, app) + info).push(
            centered_op(
                parts[8],
                quit_label(app.connection),
                WidgetId(widgets::DISCONNECT_AND_QUIT),
                app.focused,
                Look::Danger,
            ),
        );
    reveal_with_fuel(total, 10);
    reveal_with_fuel(growing, 10);
    assert(page_rows()[5] is Min);
    a_last_row_is_at_the_bottom(area, page_rows(), parts);
}

/// The app info names the three versions, each beside what it is the version of,
/// where there is room for both.
pub proof fn versions_stand_beside_their_names(area: Rect, label: Seq<char>, value: Seq<char>)
    ensures
        ({
            let ops = value_row_ops(area, label, value);
            let room = area.width > byte_width(label) + byte_width(value) + 1;
            &&& ops.len() == if room {
                2int
            } else {
                1int
            }
            &&& ops[0] is Text && ops[0]->text == seq![raw_line(label)]
            &&& room ==> ops[1] is Text && ops[1]->text == seq![raw_line(value)]
        }),
{
}

/// The daemon's version is what the daemon reports, or a dash until it does.
pub proof fn the_version_is_the_one_reported(app: App)
    ensures
        daemon_version_text(app) == match app.daemon_version {
            Some(v) => v@,
            None => "-"@,
        },
{
}

} // verus!
