//! How the Account page and the Manage-devices page are drawn.

use crate::app::{App, RequestView};
use crate::daemon::{Device, DeviceState};
use crate::focus::WidgetId;
use crate::geometry::{
    a_last_row_is_at_the_bottom, divides_into_rows, growing, one_cell_each, single_rows,
    single_rows_ask_for_one_cell_each, split_rows, total, totals_add_up, Constraint, Rect,
};
use crate::pages::account::{
    collect_other_devices, current_account_number, format_account_expiry, format_account_number,
    format_created_date, grouped, number_of, other_devices, pointed, step, widgets,
};
use crate::pages::status::expiry_of;
use crate::scene::{
    block_op, centered_op, label_button_op, label_op, raw_line, Look, OpView, Scene, SpanView,
    TextBlock, Wrap,
};
use crate::text::{cat, owned};
use crate::time::{reads_locally, valid, DATE, DATE_AND_TIME};
use vstd::prelude::*;

verus! {

// ---- The Account page ----

/// Whether a device is logged in.
pub open spec fn logged_in(app: App) -> bool {
    app.device() is Some
}

/// `text` says when the account runs out, or that this is not known yet.
pub open spec fn is_expiry_text(text: Seq<char>, app: App) -> bool {
    match expiry_of(app) {
        Some(expiry) => reads_locally(text, expiry, DATE_AND_TIME@),
        None => text == "(loading…)"@,
    }
}

/// What is shown of the account number.
pub open spec fn number_text(app: App) -> Seq<char> {
    match number_of(app) {
        Some(number) => if app.account_state.account_number_visible {
            grouped(number)
        } else {
            "**** **** **** ****"@
        },
        None => "(unknown)"@,
    }
}

/// The rows of the page: one cell each, but for the gap above the last.
pub open spec fn page_rows() -> Seq<Constraint> {
    single_rows(15) + seq![Constraint::Min(1), Constraint::Length(1)]
}

/// What the page shows to who is logged in. `expiry` says when the account runs
/// out.
pub open spec fn logged_in_ops(parts: Seq<Rect>, app: App, expiry: Seq<char>) -> Seq<OpView> {
    let focused = app.focused;
    seq![
        label_button_op(
            parts[0],
            "Device name"@,
            "Manage devices"@,
            WidgetId(widgets::MANAGE_DEVICES),
            focused,
        ),
        label_op(
            parts[2],
            "  "@ + match app.device() {
                Some(d) => d.pretty_name@,
                None => "(unknown)"@,
            },
        ),
        label_op(parts[4], "Account number"@),
        label_button_op(
            parts[6],
            "  "@ + number_text(app),
            if app.account_state.account_number_visible {
                "Hide"@
            } else {
                "Show"@
            },
            WidgetId(widgets::SHOW_ACCOUNT),
            focused,
        ),
        label_op(parts[8], "Paid until"@),
        label_op(parts[10], "  "@ + expiry),
        centered_op(
            parts[12],
            "Buy more credit..."@,
            WidgetId(widgets::BUY_CREDIT),
            focused,
            Look::Plain,
        ),
        centered_op(
            parts[14],
            "Redeem voucher"@,
            WidgetId(widgets::REDEEM_VOUCHER),
            focused,
            Look::Plain,
        ),
        centered_op(parts[16], "Log out"@, WidgetId(widgets::LOG_OUT), focused, Look::Danger),
    ]
}

/// Why nobody is logged in.
pub open spec fn logged_out_hint(app: App) -> Seq<char> {
    match app.account {
        Some(info) => match info.device {
            DeviceState::Revoked => {
                "Device was revoked from this account. Log in to register a new one."@
            },
            _ => "Not logged in. Press the button below to enter your account number."@,
        },
        None => "Account state not yet loaded - waiting for the daemon."@,
    }
}

/// The rows of the page while nobody is logged in.
pub open spec fn logged_out_rows() -> Seq<Constraint> {
    single_rows(3).push(Constraint::Min(1))
}

/// `ops` draws the page in `area`.
pub open spec fn draws_page(ops: Seq<OpView>, area: Rect, app: App) -> bool {
    if logged_in(app) {
        exists|parts: Seq<Rect>, expiry: Seq<char>|
            #[trigger] divides_into_rows(area, page_rows(), parts) && #[trigger] is_expiry_text(
                expiry,
                app,
            ) && ops == logged_in_ops(parts, app, expiry)
    } else {
        exists|parts: Seq<Rect>|
            #[trigger] divides_into_rows(area, logged_out_rows(), parts) && ops == seq![
                label_op(parts[0], logged_out_hint(app)),
                centered_op(
                    parts[2],
                    "Log in"@,
                    WidgetId(widgets::LOG_IN),
                    app.focused,
                    Look::Plain,
                ),
            ]
    }
}

/// Draw the Account page in `area`: the account of who is logged in, or a way to
/// log in.
///
/// `area` is the page's column, as [`crate::pages::page_area`] gives it.
pub fn render(area: Rect, app: &App) -> (scene: Scene)
    requires
        expiry_of(*app) is Some ==> valid(expiry_of(*app)->0),
    ensures
        draws_page(scene@, area, *app),
{
    if app.current_device().is_some() {
        render_logged_in(area, app)
    } else {
        render_logged_out(area, app)
    }
}

fn render_logged_in(area: Rect, app: &App) -> (scene: Scene)
    requires
        logged_in(*app),
        expiry_of(*app) is Some ==> valid(expiry_of(*app)->0),
    ensures
        draws_page(scene@, area, *app),
{
    let focused = app.focused;
    let expiry: String = match &app.account {
        Some(info) => match &info.data {
            Some(data) => format_account_expiry(data),
            None => owned("(loading…)"),
        },
        None => owned("(loading…)"),
    };
    assert(is_expiry_text(expiry@, *app));
    let mut constraints = one_cell_each(15);
    constraints.push(Constraint::Min(1));
    constraints.push(Constraint::Length(1));
    assert(constraints@ =~= page_rows());
    let parts = split_rows(area, &constraints);
    let mut scene = Scene::new();
    scene.label_button_row(
        parts[0],
        "Device name",
        "Manage devices",
        WidgetId(widgets::MANAGE_DEVICES),
        focused,
    );
    let name: &str = match app.current_device() {
        Some(d) => d.pretty_name.as_str(),
        None => "(unknown)",
    };
    scene.label(parts[2], cat("  ", name).as_str());
    scene.label(parts[4], "Account number");
    let visible = app.account_state.account_number_visible;
    let number: String = match current_account_number(app) {
        Some(number) => if visible {
            format_account_number(number.as_str())
        } else {
            owned("**** **** **** ****")
        },
        None => owned("(unknown)"),
    };
    scene.label_button_row(
        parts[6],
        cat("  ", number.as_str()).as_str(),
        if visible {
            "Hide"
        } else {
            "Show"
        },
        WidgetId(widgets::SHOW_ACCOUNT),
        focused,
    );
    scene.label(parts[8], "Paid until");
    scene.label(parts[10], cat("  ", expiry.as_str()).as_str());
    scene.centered_button(
        parts[12],
        "Buy more credit...",
        WidgetId(widgets::BUY_CREDIT),
        focused,
        Look::Plain,
    );
    scene.centered_button(
        parts[14],
        "Redeem voucher",
        WidgetId(widgets::REDEEM_VOUCHER),
        focused,
        Look::Plain,
    );
    scene.centered_button(
        parts[16],
        "Log out",
        WidgetId(widgets::LOG_OUT),
        focused,
        Look::Danger,
    );
    assert(scene@ =~= logged_in_ops(parts@, *app, expiry@));
    scene
}

fn render_logged_out(area: Rect, app: &App) -> (scene: Scene)
    requires
        !logged_in(*app),
    ensures
        draws_page(scene@, area, *app),
{
    let mut constraints = one_cell_each(3);
    constraints.push(Constraint::Min(1));
    assert(constraints@ =~= logged_out_rows());
    let parts = split_rows(area, &constraints);
    let hint: &str = match &app.account {
        Some(info) => match &info.device {
            DeviceState::Revoked => {
                "Device was revoked from this account. Log in to register a new one."
            },
            _ => "Not logged in. Press the button below to enter your account number.",
        },
        None => "Account state not yet loaded - waiting for the daemon.",
    };
    let mut scene = Scene::new();
    scene.label(parts[0], hint);
    scene.centered_button(
        parts[2],
        "Log in",
        WidgetId(widgets::LOG_IN),
        app.focused,
        Look::Plain,
    );
    assert(scene@ =~= seq![
        label_op(parts@[0], logged_out_hint(*app)),
        centered_op(parts@[2], "Log in"@, WidgetId(widgets::LOG_IN), app.focused, Look::Plain),
    ]);
    scene
}

// ---- The Manage-devices page ----

/// What the page says of the device list while it is not there.
pub open spec fn list_notice(app: App) -> Seq<Seq<SpanView>> {
    match app.account_state.devices_error {
        Some(error) => seq![
            raw_line("Could not load devices: "@ + error@),
            raw_line(""@),
        ],
        None => if app.account_state.devices_loading {
            seq![raw_line("(loading device list…)"@), raw_line(""@)]
        } else {
            Seq::empty()
        },
    }
}

/// What stands above the list. `created` is the day the current device was
/// created.
pub open spec fn devices_header(app: App, created: Seq<char>) -> Seq<Seq<SpanView>> {
    seq![
        raw_line("Manage devices"@),
        raw_line(""@),
        raw_line("You can have up to 5 devices on one account."@),
        raw_line(""@),
    ] + list_notice(app) + seq![raw_line("Current device:"@), raw_line(""@)] + match app.device() {
        Some(d) => seq![
            raw_line("  - "@ + d.pretty_name@),
            raw_line("    Created: "@ + created),
        ],
        None => seq![raw_line("    (unknown)"@)],
    }
}

/// Whether `created` is the day the current device was created, if there is one.
pub open spec fn is_created_text(created: Seq<char>, app: App) -> bool {
    app.device() is Some ==> reads_locally(created, app.device()->0.created, DATE@)
}

/// Whether `dates` are the days on which `devices` were created.
pub open spec fn are_dates(dates: Seq<Seq<char>>, devices: Seq<Device>) -> bool {
    dates.len() == devices.len() && forall|i: int|
        0 <= i < devices.len() ==> reads_locally(#[trigger] dates[i], devices[i].created, DATE@)
}

/// The rows of the page: the header, four rows, two for each other device.
pub open spec fn devices_rows(header: nat, devices: nat) -> Seq<Constraint> {
    (seq![Constraint::Length(header as u16)] + single_rows(4) + single_rows(2 * devices)).push(
        Constraint::Min(0),
    )
}

/// The rows of the first `n` other devices.
pub open spec fn device_rows_ops(
    parts: Seq<Rect>,
    devices: Seq<Device>,
    dates: Seq<Seq<char>>,
    n: int,
    focused: Option<WidgetId>,
) -> Seq<OpView>
    decreases n,
{
    if n <= 0 {
        Seq::empty()
    } else {
        device_rows_ops(parts, devices, dates, n - 1, focused).push(
            label_button_op(
                parts[5 + 2 * (n - 1)],
                "  - "@ + devices[n - 1].pretty_name@,
                "Remove"@,
                WidgetId((widgets::REMOVE_DEVICE_BASE + n - 1) as u32),
                focused,
            ),
        ).push(label_op(parts[6 + 2 * (n - 1)], "    Created: "@ + dates[n - 1]))
    }
}

/// The other devices that are shown: as many as there are ids for.
pub open spec fn shown_devices(devices: nat) -> int {
    if devices < widgets::REMOVE_DEVICE_MAX {
        devices as int
    } else {
        widgets::REMOVE_DEVICE_MAX as int
    }
}

/// What the page shows.
pub open spec fn devices_ops(
    parts: Seq<Rect>,
    app: App,
    created: Seq<char>,
    dates: Seq<Seq<char>>,
) -> Seq<OpView> {
    let rotate = if app.device() is Some {
        seq![
            centered_op(
                parts[1],
                "Rotate WireGuard key"@,
                WidgetId(widgets::ROTATE_KEY),
                app.focused,
                Look::Plain,
            ),
        ]
    } else {
        Seq::empty()
    };
    seq![block_op(parts[0], devices_header(app, created), Wrap::Cut)] + rotate + seq![
        label_op(parts[3], "Other devices:"@),
    ] + device_rows_ops(
        parts,
        other_devices(app),
        dates,
        shown_devices(other_devices(app).len()),
        app.focused,
    )
}

/// `ops` draws the page in `area`.
pub open spec fn draws_devices(ops: Seq<OpView>, area: Rect, app: App) -> bool {
    exists|parts: Seq<Rect>, created: Seq<char>, dates: Seq<Seq<char>>|
        #[trigger] divides_into_rows(
            area,
            devices_rows(devices_header(app, created).len(), other_devices(app).len()),
            parts,
        ) && #[trigger] is_created_text(created, app) && #[trigger] are_dates(
            dates,
            other_devices(app),
        ) && ops == devices_ops(parts, app, created, dates)
}

/// Whether the dates of all devices are ones that the calendar reaches.
pub open spec fn dates_are_valid(app: App) -> bool {
    &&& app.device() is Some ==> valid(app.device()->0.created)
    &&& forall|i: int|
        0 <= i < other_devices(app).len() ==> valid((#[trigger] other_devices(app)[i]).created)
}

fn header_text(app: &App, created: &str) -> (text: TextBlock)
    ensures
        text@ == devices_header(*app, created@),
{
    let mut text = TextBlock::new();
    text.push_raw("Manage devices");
    text.push_raw("");
    text.push_raw("You can have up to 5 devices on one account.");
    text.push_raw("");
    match &app.account_state.devices_error {
        Some(error) => {
            text.push_raw(cat("Could not load devices: ", error.as_str()).as_str());
            text.push_raw("");
        },
        None => if app.account_state.devices_loading {
            text.push_raw("(loading device list…)");
            text.push_raw("");
        },
    }
    text.push_raw("Current device:");
    text.push_raw("");
    match app.current_device() {
        Some(d) => {
            text.push_raw(cat("  - ", d.pretty_name.as_str()).as_str());
            text.push_raw(cat("    Created: ", created).as_str());
        },
        None => {
            text.push_raw("    (unknown)");
        },
    }
    assert(text@ =~= devices_header(*app, created@));
    text
}

/// The texts in `dates`.
pub open spec fn date_views(dates: Seq<String>) -> Seq<Seq<char>> {
    dates.map_values(|d: String| d@)
}

fn created_dates(devices: &Vec<&Device>) -> (dates: Vec<String>)
    requires
        forall|i: int|
            0 <= i < devices@.len() ==> valid((#[trigger] pointed(devices@)[i]).created),
    ensures
        are_dates(date_views(dates@), pointed(devices@)),
{
    let mut dates: Vec<String> = Vec::new();
    let mut i: usize = 0;
    while i < devices.len()
        invariant
            i <= devices.len(),
            forall|i: int|
                0 <= i < devices@.len() ==> valid((#[trigger] pointed(devices@)[i]).created),
            dates@.len() == i,
            forall|k: int|
                0 <= k < i ==> reads_locally(
                    #[trigger] date_views(dates@)[k],
                    pointed(devices@)[k].created,
                    DATE@,
                ),
        decreases devices.len() - i,
    {
        assert(pointed(devices@)[i as int] == *devices@[i as int]);
        let date = format_created_date(devices[i].created);
        let ghost before = dates@;
        dates.push(date);
        assert forall|k: int| 0 <= k < i + 1 implies reads_locally(
            #[trigger] date_views(dates@)[k],
            pointed(devices@)[k].created,
            DATE@,
        ) by {
            if k < i {
                assert(date_views(dates@)[k] == date_views(before)[k]);
            }
        }
        i = i + 1;
    }
    dates
}

/// Draw the Manage-devices page in `area`: the current device, and the others
/// with a button to remove each.
///
/// `area` is the page's column, as [`crate::pages::page_area`] gives it.
pub fn render_devices(area: Rect, app: &App) -> (scene: Scene)
    requires
        dates_are_valid(*app),
    ensures
        draws_devices(scene@, area, *app),
{
    let focused = app.focused;
    let current = app.current_device();
    let created: String = match current {
        Some(d) => format_created_date(d.created),
        None => String::new(),
    };
    assert(is_created_text(created@, *app));
    let text = header_text(app, created.as_str());
    let cached = match &app.account_state.devices {
        Some(devices) => Some(devices),
        None => None,
    };
    let devices = collect_other_devices(cached, current);
    assert(pointed(devices@) == other_devices(*app));
    let dates = created_dates(&devices);
    let header: usize = text.lines.len();
    assert(text@.len() == header);
    #[verifier::truncate]
    let header_rows: u16 = header as u16;
    let mut constraints: Vec<Constraint> = vec![Constraint::Length(header_rows)];
    let mut four = one_cell_each(4);
    constraints.append(&mut four);
    let mut i: usize = 0;
    let ghost above = constraints@;
    while i < devices.len()
        invariant
            i <= devices.len(),
            constraints@ =~= above + single_rows(2 * i as nat),
        decreases devices.len() - i,
    {
        constraints.push(Constraint::Length(1));
        constraints.push(Constraint::Length(1));
        i = i + 1;
    }
    constraints.push(Constraint::Min(0));
    assert(constraints@ =~= devices_rows(
        devices_header(*app, created@).len(),
        other_devices(*app).len(),
    ));
    let parts = split_rows(area, &constraints);
    let mut scene = Scene::new();
    scene.block(parts[0], text, Wrap::Cut);
    if current.is_some() {
        scene.centered_button(
            parts[1],
            "Rotate WireGuard key",
            WidgetId(widgets::ROTATE_KEY),
            focused,
            Look::Plain,
        );
    }
    scene.label(parts[3], "Other devices:");
    let ghost head = scene@;
    let ghost all = other_devices(*app);
    let ghost d = date_views(dates@);
    let mut k: usize = 0;
    assert(scene@ =~= head + device_rows_ops(parts@, all, d, 0, focused));
    while k < devices.len() && k < widgets::REMOVE_DEVICE_MAX as usize
        invariant
            k <= devices.len(),
            k <= widgets::REMOVE_DEVICE_MAX,
            all == pointed(devices@),
            d == date_views(dates@),
            dates@.len() == devices@.len(),
            parts@.len() == 6 + 2 * devices@.len(),
            scene@ == head + device_rows_ops(parts@, all, d, k as int, focused),
        decreases devices.len() - k,
    {
        assert(parts@.len() == parts.len());
        assert(all[k as int] == *devices@[k as int]);
        assert(d[k as int] == dates@[k as int]@);
        let ghost done = device_rows_ops(parts@, all, d, k as int, focused);
        scene.label_button_row(
            parts[5 + 2 * k],
            cat("  - ", devices[k].pretty_name.as_str()).as_str(),
            "Remove",
            WidgetId(widgets::REMOVE_DEVICE_BASE + k as u32),
            focused,
        );
        scene.label(parts[6 + 2 * k], cat("    Created: ", dates[k].as_str()).as_str());
        assert(scene@ =~= head + device_rows_ops(parts@, all, d, k + 1, focused));
        k = k + 1;
    }
    assert(are_dates(d, all));
    assert(scene@ =~= devices_ops(parts@, *app, created@, d));
    scene
}

proof fn row_of_device(
    parts: Seq<Rect>,
    devices: Seq<Device>,
    dates: Seq<Seq<char>>,
    n: int,
    focused: Option<WidgetId>,
    i: int,
)
    requires
        0 <= i < n,
    ensures
        device_rows_ops(parts, devices, dates, n, focused).len() == 2 * n,
        device_rows_ops(parts, devices, dates, n, focused)[2 * i] == label_button_op(
            parts[5 + 2 * i],
            "  - "@ + devices[i].pretty_name@,
            "Remove"@,
            WidgetId((widgets::REMOVE_DEVICE_BASE + i) as u32),
            focused,
        ),
    decreases n,
{
    if n > 1 {
        row_of_device(
            parts,
            devices,
            dates,
            n - 1,
            focused,
            if i < n - 1 {
                i
            } else {
                0
            },
        );
    } else {
        assert(device_rows_ops(parts, devices, dates, 0, focused).len() == 0);
    }
}

/// The button in the row of a device removes that device.
pub proof fn remove_buttons_lead_to_their_devices(
    app: App,
    parts: Seq<Rect>,
    dates: Seq<Seq<char>>,
    i: int,
)
    requires
        0 <= i < shown_devices(other_devices(app).len()),
    ensures
        ({
            let button = WidgetId((widgets::REMOVE_DEVICE_BASE + i) as u32);
            let device = other_devices(app)[i];
            &&& device_rows_ops(
                parts,
                other_devices(app),
                dates,
                shown_devices(other_devices(app).len()),
                app.focused,
            )[2 * i] == label_button_op(
                parts[5 + 2 * i],
                "  - "@ + device.pretty_name@,
                "Remove"@,
                button,
                app.focused,
            )
            &&& step(app, button).request == Some(RequestView::RemoveDevice { id: device.id@ })
        }),
{
    row_of_device(
        parts,
        other_devices(app),
        dates,
        shown_devices(other_devices(app).len()),
        app.focused,
        i,
    );
}

/// Where the area has room for the page, `[Log out]` stands in its last row.
pub proof fn logging_out_is_at_the_bottom(ops: Seq<OpView>, area: Rect, app: App)
    requires
        draws_page(ops, area, app),
        logged_in(app),
        area.height >= 17,
        area.y + area.height <= u16::MAX,
    ensures
        ops.last() == centered_op(
            Rect {
                x: area.x,
                y: (area.y + area.height - 1) as u16,
                width: area.width,
                height: 1,
            },
            "Log out"@,
            WidgetId(widgets::LOG_OUT),
            app.focused,
            Look::Danger,
        ),
{
    let (parts, expiry) = choose|parts: Seq<Rect>, expiry: Seq<char>|
        #[trigger] divides_into_rows(area, page_rows(), parts) && #[trigger] is_expiry_text(
            expiry,
            app,
        ) && ops == logged_in_ops(parts, app, expiry);
    let gap = seq![Constraint::Min(1), Constraint::Length(1)];
    totals_add_up(single_rows(15), gap);
    single_rows_ask_for_one_cell_each(15);
    reveal_with_fuel(total, 3);
    reveal_with_fuel(growing, 3);
    assert(gap.drop_last().drop_last() =~= Seq::empty());
    assert(page_rows()[15] is Min);
    a_last_row_is_at_the_bottom(area, page_rows(), parts);
}

} // verus!
