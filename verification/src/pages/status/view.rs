//! How the Status page is drawn.

use crate::app::{App, Operation, OperationStatus};
use crate::components::{
    centered, centered_horizontal, least, less, max_of, min_of, minus, most,
};
use crate::daemon::{Timestamp, TunnelState};
use crate::focus::{is_focused, WidgetId};
use crate::geometry::{
    divides_into_columns, divides_into_rows, on_screen, rect, split_columns, split_rows,
    Constraint, Rect,
};
use crate::pages::status::details::{connection_details, details_text, texts_of};
use crate::pages::status::features::{
    collect_features, features_of, features_text, format_features_lines,
};
use crate::pages::status::{
    account_device_line, classify, connect_button_label, connect_text, device_text, error_state_summary,
    error_text, expiry_of, kind_color, kind_of, kind_text, location_line, location_marker,
    marker_of, place_text, relay_line, relay_line_text, state_of, status_color,
    status_label_text, time_left_line, time_left_text, widgets, StatusKind,
};
use crate::scene::{
    block_op, button_op, fg_style, focus_style, raw_line, raw_span, span, styled_span, Color, Op,
    OpView, Scene, SpanView, Style, TextBlock, TextLine, TextSpan, Wrap,
};
use crate::text::owned;
use crate::time::valid;
use crate::wrap::{held, hold, row_count, rows_of, WIDEST};
use vstd::prelude::*;

verus! {

// ---- Text below the status ----

/// Whether lockdown mode is on.
pub open spec fn locked(app: App) -> bool {
    app.settings is Some && app.settings->0.lockdown_mode
}

fn lockdown_enabled(app: &App) -> (r: bool)
    ensures
        r == locked(*app),
{
    match &app.settings {
        Some(s) => s.lockdown_mode,
        None => false,
    }
}

/// Each text as a line of its own.
pub open spec fn as_lines(texts: Seq<Seq<char>>) -> Seq<Seq<SpanView>> {
    texts.map_values(|t: Seq<char>| raw_line(t))
}

/// One line in one style.
pub open spec fn styled_line(text: Seq<char>, style: Style) -> Seq<SpanView> {
    seq![styled_span(text, style)]
}

/// The lines below the status. On a tunnel that is up: place, relay, features,
/// and the details if they are open. On one that is coming up: place and relay.
/// On one that is going down: that it is. On a blocked one: why.
pub open spec fn below_status(app: App, width: u16) -> Seq<Seq<SpanView>> {
    let state = app.connection;
    let expanded = app.status_state.connection_details_expanded;
    match kind_of(state) {
        StatusKind::Connected => {
            let lines = seq![raw_line(place_text(state)), raw_line(relay_line_text(app, state))]
                + features_text(features_of(app), expanded, width);
            if expanded {
                lines.push(raw_line(""@)) + as_lines(details_text(state))
            } else {
                lines
            }
        },
        StatusKind::Connecting => seq![
            raw_line(place_text(state)),
            styled_line(relay_line_text(app, state), fg_style(Color::DarkGray)),
        ],
        StatusKind::Disconnecting => seq![
            styled_line("Tearing down…"@, fg_style(Color::DarkGray)),
        ],
        StatusKind::Disconnected => Seq::empty(),
        StatusKind::Blocked => {
            let cause = match state {
                Some(TunnelState::Error(err)) => seq![
                    styled_line(error_text(err), fg_style(kind_color(StatusKind::Blocked))),
                ],
                _ => Seq::empty(),
            };
            cause.push(
                styled_line(
                    if locked(app) {
                        "Lockdown mode is keeping all traffic blocked."@
                    } else {
                        "All tunnel traffic is currently blocked."@
                    },
                    fg_style(Color::DarkGray),
                ),
            )
        },
    }
}

fn push_lines(block: &mut TextBlock, lines: &Vec<String>)
    ensures
        final(block)@ == old(block)@ + as_lines(texts_of(lines@)),
{
    let ghost before = block@;
    let ghost all = as_lines(texts_of(lines@));
    let mut i: usize = 0;
    assert(block@ =~= before + all.take(0));
    while i < lines.len()
        invariant
            i <= lines.len(),
            all == as_lines(texts_of(lines@)),
            block@ == before + all.take(i as int),
        decreases lines.len() - i,
    {
        block.push_raw(lines[i].as_str());
        assert(before + all.take(i + 1) =~= (before + all.take(i as int)).push(all[i as int]));
        i = i + 1;
    }
    assert(all.take(i as int) =~= all);
}

/// The lines below the status.
pub fn status_block_below_status_row(app: &App, width: u16) -> (block: TextBlock)
    ensures
        block@ == below_status(*app, width),
{
    let state = match &app.connection {
        Some(s) => Some(s),
        None => None,
    };
    let muted = Style::new().fg(Color::DarkGray);
    let mut block = TextBlock::new();
    match classify(state) {
        StatusKind::Connected => {
            let expanded = app.status_state.connection_details_expanded;
            block.push_raw(location_line(state).as_str());
            block.push_raw(relay_line(app, state).as_str());
            block.append(format_features_lines(&collect_features(app), expanded, width));
            if expanded {
                block.push_raw("");
                push_lines(&mut block, &connection_details(state));
            }
        },
        StatusKind::Connecting => {
            block.push_raw(location_line(state).as_str());
            block.push(TextLine::styled(relay_line(app, state).as_str(), muted));
        },
        StatusKind::Disconnecting => {
            block.push(TextLine::styled("Tearing down…", muted));
        },
        StatusKind::Disconnected => {},
        StatusKind::Blocked => {
            if let Some(TunnelState::Error(err)) = state {
                let style = Style::new().fg(status_color(StatusKind::Blocked));
                block.push(TextLine::styled(error_state_summary(err).as_str(), style));
            }
            block.push(
                TextLine::styled(
                    if lockdown_enabled(app) {
                        "Lockdown mode is keeping all traffic blocked."
                    } else {
                        "All tunnel traffic is currently blocked."
                    },
                    muted,
                ),
            );
        },
    }
    assert(block@ =~= below_status(*app, width));
    block
}

// ---- The banner ----

/// The banner above the map.
pub open spec fn banner_lines() -> Seq<Seq<SpanView>> {
    seq![
        seq![styled_span("●"@, fg_style(Color::Yellow)), raw_span(" BLOCKING INTERNET"@)],
        raw_line(
            "Lockdown mode is enabled. Press \"Connect\" or disable lockdown mode to unblock internet."@,
        ),
    ]
}

/// Whether there is a banner: while there is no tunnel and lockdown mode blocks
/// all traffic.
pub open spec fn has_banner(app: App) -> bool {
    kind_of(app.connection) == StatusKind::Disconnected && locked(app)
}

/// The banner above the map, where there is one.
pub fn lockdown_banner(kind: StatusKind, app: &App) -> (r: Option<TextBlock>)
    ensures
        r is Some <==> kind == StatusKind::Disconnected && locked(*app),
        r is Some ==> r->0@ == banner_lines(),
{
    if kind != StatusKind::Disconnected || !lockdown_enabled(app) {
        return None;
    }
    let mut first = TextLine::styled("●", Style::new().fg(Color::Yellow));
    first.push(span(" BLOCKING INTERNET", Style::new()));
    assert(first@ =~= banner_lines()[0]);
    let mut block = TextBlock::of(first);
    block.push_raw(
        "Lockdown mode is enabled. Press \"Connect\" or disable lockdown mode to unblock internet.",
    );
    assert(block@ =~= banner_lines());
    Some(block)
}

// ---- The status block ----

/// The rows of the status block, with `height` rows below the status.
pub open spec fn block_rows(height: u16) -> Seq<Constraint> {
    seq![Constraint::Length(1), Constraint::Length(1), Constraint::Length(height)]
}

/// The columns of the status row while there are details to open.
pub open spec fn status_columns() -> Seq<Constraint> {
    seq![Constraint::Min(0), Constraint::Length(13)]
}

/// The status in words and colour.
pub open spec fn status_span(kind: StatusKind) -> SpanView {
    styled_span(kind_text(kind), fg_style(kind_color(kind)))
}

/// The status row: in transit with a spinner before it.
pub open spec fn status_line(kind: StatusKind, tick: u64) -> Seq<SpanView> {
    if kind == StatusKind::Connecting || kind == StatusKind::Disconnecting {
        seq![
            SpanView::Spinner { tick, style: fg_style(kind_color(kind)) },
            raw_span(" "@),
            status_span(kind),
        ]
    } else {
        seq![status_span(kind)]
    }
}

/// `ops` draws the status row in `area`. While the tunnel is up it ends with the
/// button that opens and closes the details.
pub open spec fn draws_status_row(
    ops: Seq<OpView>,
    area: Rect,
    kind: StatusKind,
    expanded: bool,
    focused: Option<WidgetId>,
    tick: u64,
) -> bool {
    if kind == StatusKind::Connected {
        exists|columns: Seq<Rect>|
            #[trigger] divides_into_columns(area, status_columns(), columns) && ops == seq![
                block_op(columns[0], seq![seq![status_span(kind)]], Wrap::Cut),
                button_op(
                    columns[1],
                    if expanded {
                        "Hide detail"@
                    } else {
                        "Show detail"@
                    },
                    WidgetId(widgets::DETAILS_TOGGLE),
                    focused,
                ),
                OpView::EndRow,
            ]
    } else {
        ops == seq![block_op(area, seq![status_line(kind, tick)], Wrap::Cut)]
    }
}

fn render_status_row(
    area: Rect,
    kind: StatusKind,
    expanded: bool,
    focused: Option<WidgetId>,
    tick: u64,
) -> (scene: Scene)
    ensures
        draws_status_row(scene@, area, kind, expanded, focused, tick),
{
    let style = Style::new().fg(status_color(kind));
    let mut scene = Scene::new();
    if kind.shows_details_toggle() {
        let constraints: Vec<Constraint> = vec![Constraint::Min(0), Constraint::Length(13)];
        assert(constraints@ =~= status_columns());
        let columns = split_columns(area, &constraints);
        let line = TextLine::styled(status_label_text(kind), style);
        scene.block(columns[0], TextBlock::of(line), Wrap::Cut);
        scene.button(
            columns[1],
            if expanded {
                "Hide detail"
            } else {
                "Show detail"
            },
            WidgetId(widgets::DETAILS_TOGGLE),
            focused,
        );
        scene.end_row();
        assert(scene@ =~= seq![
            block_op(columns@[0], seq![seq![status_span(kind)]], Wrap::Cut),
            button_op(
                columns@[1],
                if expanded {
                    "Hide detail"@
                } else {
                    "Show detail"@
                },
                WidgetId(widgets::DETAILS_TOGGLE),
                focused,
            ),
            OpView::EndRow,
        ]);
    } else {
        let mut line = TextLine::new();
        if kind == StatusKind::Connecting || kind == StatusKind::Disconnecting {
            line.push(TextSpan::Spinner { tick, style });
            line.push(span(" ", Style::new()));
        }
        line.push(span(status_label_text(kind), style));
        assert(line@ =~= status_line(kind, tick));
        scene.block(area, TextBlock::of(line), Wrap::Cut);
        assert(scene@ =~= seq![block_op(area, seq![status_line(kind, tick)], Wrap::Cut)]);
    }
    scene
}

/// `ops` draws the status block in `area`: a free row, the status row, and
/// `below`.
pub open spec fn draws_status_block(
    ops: Seq<OpView>,
    area: Rect,
    kind: StatusKind,
    below: Seq<Seq<SpanView>>,
    expanded: bool,
    focused: Option<WidgetId>,
    tick: u64,
) -> bool {
    exists|parts: Seq<Rect>, row: Seq<OpView>|
        #[trigger] divides_into_rows(
            area,
            block_rows(held(rows_of(below, true, area.width))),
            parts,
        ) && #[trigger] draws_status_row(row, parts[1], kind, expanded, focused, tick) && ops
            == row.push(block_op(parts[2], below, Wrap::Trim))
}

fn render_status_block(
    area: Rect,
    kind: StatusKind,
    below: TextBlock,
    expanded: bool,
    focused: Option<WidgetId>,
    tick: u64,
) -> (scene: Scene)
    requires
        area.width <= WIDEST,
    ensures
        draws_status_block(scene@, area, kind, below@, expanded, focused, tick),
{
    let height: u16 = hold(row_count(&below, true, area.width));
    let constraints: Vec<Constraint> = vec![
        Constraint::Length(1),
        Constraint::Length(1),
        Constraint::Length(height),
    ];
    assert(constraints@ =~= block_rows(height));
    let parts = split_rows(area, &constraints);
    let mut scene = render_status_row(parts[1], kind, expanded, focused, tick);
    let ghost row = scene@;
    scene.block(parts[2], below, Wrap::Trim);
    assert(draws_status_row(row, parts@[1], kind, expanded, focused, tick));
    scene
}

// ---- The action rows ----

/// Whether the reconnect button is shown: while the tunnel is up or blocked, and
/// while a reconnect is under way.
pub open spec fn shows_reconnect(kind: StatusKind, reconnecting: bool) -> bool {
    kind == StatusKind::Connected || kind == StatusKind::Blocked || reconnecting
}

/// The width of the reconnect button. A spinner takes two cells more.
pub open spec fn reconnect_width(reconnecting: bool) -> u16 {
    if reconnecting {
        13
    } else {
        11
    }
}

/// The part of the row that the two buttons take: forty cells, as far as there
/// is room, and no less than the buttons need.
pub open spec fn pair_area(area: Rect, reconnecting: bool) -> Rect {
    centered(
        area,
        least(
            most(least(area.width, 40), (17 + 1 + reconnect_width(reconnecting)) as u16),
            area.width,
        ),
    )
}

/// The columns of the two buttons.
pub open spec fn pair_columns(reconnecting: bool) -> Seq<Constraint> {
    seq![
        Constraint::Length(17),
        Constraint::Min(1),
        Constraint::Length(reconnect_width(reconnecting)),
    ]
}

/// What the first action row shows where the location button stands alone.
pub open spec fn location_ops(area: Rect, kind: StatusKind, focused: Option<WidgetId>) -> Seq<
    OpView,
> {
    seq![
        button_op(
            centered(area, 17),
            if kind == StatusKind::Disconnected {
                "Select location"@
            } else {
                "Switch location"@
            },
            WidgetId(widgets::SWITCH_LOCATION),
            focused,
        ),
        OpView::EndRow,
    ]
}

/// `ops` draws the first action row in `area`.
pub open spec fn draws_top_row(
    ops: Seq<OpView>,
    area: Rect,
    kind: StatusKind,
    focused: Option<WidgetId>,
    reconnecting: bool,
    tick: u64,
) -> bool {
    if shows_reconnect(kind, reconnecting) {
        exists|columns: Seq<Rect>|
            #[trigger] divides_into_columns(
                pair_area(area, reconnecting),
                pair_columns(reconnecting),
                columns,
            ) && ops == seq![
                button_op(
                    columns[0],
                    "Switch location"@,
                    WidgetId(widgets::SWITCH_LOCATION),
                    focused,
                ),
                OpView::RunningButton {
                    area: columns[2],
                    label: "Reconnect"@,
                    id: WidgetId(widgets::REFRESH_CONNECTION),
                    style: focus_style(focused == Some(WidgetId(widgets::REFRESH_CONNECTION))),
                    running: reconnecting,
                    tick,
                },
                OpView::EndRow,
            ]
    } else {
        ops == location_ops(area, kind, focused)
    }
}

fn render_top_action_row(
    area: Rect,
    kind: StatusKind,
    focused: Option<WidgetId>,
    reconnecting: bool,
    tick: u64,
) -> (scene: Scene)
    requires
        on_screen(area),
    ensures
        draws_top_row(scene@, area, kind, focused, reconnecting, tick),
{
    let mut scene = Scene::new();
    let show = match kind {
        StatusKind::Connected => true,
        StatusKind::Blocked => true,
        _ => reconnecting,
    };
    if !show {
        scene.button(
            centered_horizontal(area, 17),
            if kind == StatusKind::Disconnected {
                "Select location"
            } else {
                "Switch location"
            },
            WidgetId(widgets::SWITCH_LOCATION),
            focused,
        );
        scene.end_row();
        assert(scene@ =~= location_ops(area, kind, focused));
        return scene;
    }
    let width: u16 = if reconnecting {
        13
    } else {
        11
    };
    let row_width: u16 = min_of(max_of(min_of(area.width, 40), 18 + width), area.width);
    let row = centered_horizontal(area, row_width);
    let constraints: Vec<Constraint> = vec![
        Constraint::Length(17),
        Constraint::Min(1),
        Constraint::Length(width),
    ];
    assert(constraints@ =~= pair_columns(reconnecting));
    assert(row == pair_area(area, reconnecting));
    let columns = split_columns(row, &constraints);
    scene.button(columns[0], "Switch location", WidgetId(widgets::SWITCH_LOCATION), focused);
    let id = WidgetId(widgets::REFRESH_CONNECTION);
    scene.push(
        Op::RunningButton {
            area: columns[2],
            label: owned("Reconnect"),
            id,
            style: Style::focus(is_focused(focused, id)),
            running: reconnecting,
            tick,
        },
    );
    scene.end_row();
    assert(scene@ =~= seq![
        button_op(columns@[0], "Switch location"@, WidgetId(widgets::SWITCH_LOCATION), focused),
        OpView::RunningButton {
            area: columns@[2],
            label: "Reconnect"@,
            id,
            style: focus_style(focused == Some(id)),
            running: reconnecting,
            tick,
        },
        OpView::EndRow,
    ]);
    scene
}

/// The style of the last button: yellow with the focus, else green where it
/// connects, and red where it does not.
pub open spec fn connect_style(kind: StatusKind, focused: Option<WidgetId>) -> Style {
    fg_style(
        if focused == Some(WidgetId(widgets::CONNECT_DISCONNECT)) {
            Color::Yellow
        } else if kind == StatusKind::Disconnected {
            Color::Green
        } else {
            Color::Red
        },
    )
}

/// What the second action row shows: the button that connects or disconnects.
pub open spec fn bottom_ops(
    area: Rect,
    kind: StatusKind,
    focused: Option<WidgetId>,
    running: bool,
    tick: u64,
) -> Seq<OpView> {
    let width = connect_text(kind).len() + 2 + if running {
        2int
    } else {
        0int
    };
    seq![
        OpView::RunningButton {
            area: centered(area, width as u16),
            label: connect_text(kind),
            id: WidgetId(widgets::CONNECT_DISCONNECT),
            style: connect_style(kind, focused),
            running,
            tick,
        },
        OpView::EndRow,
    ]
}

fn render_bottom_action_row(
    area: Rect,
    kind: StatusKind,
    focused: Option<WidgetId>,
    running: bool,
    tick: u64,
) -> (scene: Scene)
    requires
        on_screen(area),
    ensures
        scene@ == bottom_ops(area, kind, focused, running, tick),
{
    let label = connect_button_label(kind);
    proof {
        reveal_strlit("Connect");
        reveal_strlit("Disconnect");
        reveal_strlit("Cancel");
    }
    let spinner: usize = if running {
        2
    } else {
        0
    };
    let width: u16 = (label.unicode_len() + 2 + spinner) as u16;
    let id = WidgetId(widgets::CONNECT_DISCONNECT);
    let color = if is_focused(focused, id) {
        Color::Yellow
    } else if kind == StatusKind::Disconnected {
        Color::Green
    } else {
        Color::Red
    };
    let mut scene = Scene::new();
    scene.push(
        Op::RunningButton {
            area: centered_horizontal(area, width),
            label: owned(label),
            id,
            style: Style::new().fg(color),
            running,
            tick,
        },
    );
    scene.end_row();
    assert(scene@ =~= bottom_ops(area, kind, focused, running, tick));
    scene
}

// ---- The page ----

/// The lines above the map.
pub open spec fn header(app: App, now: Timestamp) -> Seq<Seq<SpanView>> {
    seq![raw_line(device_text(app)), raw_line(time_left_text(app, now)), raw_line(""@)]
}

/// The rows of the page: header, middle, a free row, and two action rows.
pub open spec fn page_rows() -> Seq<Constraint> {
    seq![
        Constraint::Length(3),
        Constraint::Min(1),
        Constraint::Length(1),
        Constraint::Length(2),
    ]
}

/// The rows of the two action rows.
pub open spec fn action_rows() -> Seq<Constraint> {
    seq![Constraint::Length(1), Constraint::Length(1)]
}

/// The height of the status block: two rows, and what is below the status.
pub open spec fn status_height(app: App, width: u16) -> u16 {
    held(held(rows_of(below_status(app, width), true, width)) as nat + 2)
}

/// The rows of the middle: the banner if there is one, the map, and the status
/// block.
pub open spec fn middle_rows(app: App, width: u16) -> Seq<Constraint> {
    let map_and_block = seq![
        Constraint::Min(1),
        Constraint::Length(status_height(app, width)),
    ];
    if has_banner(app) {
        seq![Constraint::Length(held(rows_of(banner_lines(), true, width)))] + map_and_block
    } else {
        map_and_block
    }
}

/// The banner, where there is one.
pub open spec fn banner_ops(parts: Seq<Rect>, app: App) -> Seq<OpView> {
    if has_banner(app) {
        seq![block_op(parts[0], banner_lines(), Wrap::Trim)]
    } else {
        Seq::empty()
    }
}

/// The globe: as high as its part of the page, and as wide as the whole body.
pub open spec fn globe_ops(part: Rect, full: Rect, state: Option<TunnelState>) -> Seq<OpView> {
    let area = rect(full.x, part.y, full.width, part.height);
    if area.width == 0 || area.height == 0 {
        Seq::empty()
    } else {
        seq![OpView::Globe { area, marker: marker_of(state) }]
    }
}

/// Whether the tunnel is being reconnected.
pub open spec fn is_reconnecting(app: App) -> bool {
    app.operation == OperationStatus::Running(Operation::Reconnect)
}

/// Whether the tunnel is being connected, disconnected or reconnected.
pub open spec fn is_busy(app: App) -> bool {
    app.operation == OperationStatus::Running(Operation::Connect) || app.operation
        == OperationStatus::Running(Operation::Disconnect) || is_reconnecting(app)
}

/// The part of the middle that is the map: the one after the banner.
pub open spec fn map_part(app: App) -> int {
    if has_banner(app) {
        1
    } else {
        0
    }
}

/// The part of the middle that is the status block: the one after the map.
pub open spec fn block_part(app: App) -> int {
    map_part(app) + 1
}

/// `ops` draws the page in `area`, with a globe as wide as `full`.
pub open spec fn draws_page(
    ops: Seq<OpView>,
    area: Rect,
    full: Rect,
    app: App,
    now: Timestamp,
    tick: u64,
) -> bool {
    let kind = kind_of(app.connection);
    exists|
        parts: Seq<Rect>,
        middle: Seq<Rect>,
        actions: Seq<Rect>,
        block: Seq<OpView>,
        top: Seq<OpView>,
    |
        #[trigger] divides_into_rows(area, page_rows(), parts) && #[trigger] divides_into_rows(
            parts[1],
            middle_rows(app, area.width),
            middle,
        ) && #[trigger] divides_into_rows(parts[3], action_rows(), actions)
            && #[trigger] draws_status_block(
            block,
            middle[block_part(app)],
            kind,
            below_status(app, area.width),
            app.status_state.connection_details_expanded,
            app.focused,
            tick,
        ) && #[trigger] draws_top_row(
            top,
            actions[0],
            kind,
            app.focused,
            is_reconnecting(app),
            tick,
        ) && ops == seq![block_op(parts[0], header(app, now), Wrap::Cut)] + banner_ops(
            middle,
            app,
        ) + globe_ops(middle[map_part(app)], full, app.connection) + block + top + bottom_ops(
            actions[1],
            kind,
            app.focused,
            is_busy(app),
            tick,
        )
}

/// Draw the page in `area`, with a globe as wide as `body_full_width`. `now` is
/// the time, and `tick` drives the spinners.
pub fn render(
    area: Rect,
    body_full_width: Rect,
    app: &App,
    now: Timestamp,
    tick: u64,
) -> (scene: Scene)
    requires
        on_screen(area),
        area.width <= WIDEST,
        valid(now),
        expiry_of(*app) is Some ==> valid(expiry_of(*app)->0),
    ensures
        draws_page(scene@, area, body_full_width, *app, now, tick),
{
    let focused = app.focused;
    let state = match &app.connection {
        Some(s) => Some(s),
        None => None,
    };
    let kind = classify(state);
    let expanded = app.status_state.connection_details_expanded;
    let mut above = TextBlock::new();
    above.push_raw(account_device_line(app).as_str());
    above.push_raw(time_left_line(app, now).as_str());
    above.push_raw("");
    assert(above@ =~= header(*app, now));
    let below = status_block_below_status_row(app, area.width);
    let below_height: u16 = hold(row_count(&below, true, area.width));
    let block_height: u16 = hold(below_height as usize + 2);
    let banner = lockdown_banner(kind, app);
    let outer: Vec<Constraint> = vec![
        Constraint::Length(3),
        Constraint::Min(1),
        Constraint::Length(1),
        Constraint::Length(2),
    ];
    assert(outer@ =~= page_rows());
    let parts = split_rows(area, &outer);
    let mut scene = Scene::new();
    scene.block(parts[0], above, Wrap::Cut);
    let ghost head = scene@;
    assert(head =~= seq![block_op(parts@[0], header(*app, now), Wrap::Cut)]);
    let mut inner: Vec<Constraint> = Vec::new();
    let map: usize = match &banner {
        Some(text) => {
            inner.push(Constraint::Length(hold(row_count(text, true, area.width))));
            1
        },
        None => 0,
    };
    inner.push(Constraint::Min(1));
    inner.push(Constraint::Length(block_height));
    assert(inner@ =~= middle_rows(*app, area.width));
    let middle = split_rows(parts[1], &inner);
    if let Some(text) = banner {
        scene.block(middle[0], text, Wrap::Trim);
    }
    assert(scene@ =~= head + banner_ops(middle@, *app));
    let ghost before_globe = scene@;
    let globe = Rect::new(
        body_full_width.x,
        middle[map].y,
        body_full_width.width,
        middle[map].height,
    );
    if globe.width > 0 && globe.height > 0 {
        scene.push(Op::Globe { area: globe, marker: location_marker(state) });
    }
    assert(scene@ =~= before_globe + globe_ops(middle@[map as int], body_full_width, app.connection));
    let (busy, reconnecting) = match app.operation {
        OperationStatus::Running(Operation::Connect) => (true, false),
        OperationStatus::Running(Operation::Disconnect) => (true, false),
        OperationStatus::Running(Operation::Reconnect) => (true, true),
        _ => (false, false),
    };
    let block = render_status_block(middle[map + 1], kind, below, expanded, focused, tick);
    let ghost b = block@;
    scene.append(block);
    let rows: Vec<Constraint> = vec![Constraint::Length(1), Constraint::Length(1)];
    assert(rows@ =~= action_rows());
    let actions = split_rows(parts[3], &rows);
    let top = render_top_action_row(actions[0], kind, focused, reconnecting, tick);
    let ghost t = top@;
    scene.append(top);
    scene.append(render_bottom_action_row(actions[1], kind, focused, busy, tick));
    assert(map_part(*app) == map && block_part(*app) == map + 1);
    assert(draws_status_block(
        b,
        middle@[block_part(*app)],
        kind,
        below_status(*app, area.width),
        expanded,
        focused,
        tick,
    ));
    assert(draws_top_row(t, actions@[0], kind, focused, is_reconnecting(*app), tick));
    scene
}

} // verus!
