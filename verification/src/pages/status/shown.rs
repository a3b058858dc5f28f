//! What the Status page draws, said of the tunnel's state and of the settings.

use crate::app::{App, Operation, OperationStatus};
use crate::daemon::{Timestamp, TunnelState};
use crate::focus::WidgetId;
use crate::geometry::{divides_into_rows, Rect};
use crate::pages::settings::shown::{face, is_button, reads};
use crate::pages::status::details::details_text;
use crate::pages::status::features::{features_of, features_text};
use crate::pages::status::view::{
    action_rows, banner_lines, banner_ops, below_status, block_part, bottom_ops, draws_page,
    draws_status_block, draws_status_row, draws_top_row, globe_ops, header, is_busy,
    is_reconnecting, map_part, middle_rows, page_rows,
};
use crate::pages::status::{
    device_text, error_text, kind_of, marker_of, place_text, relay_line_text, time_left_text,
    widgets,
};
use crate::scene::{block_op, Color, OpView, SpanView, Wrap};
use vstd::prelude::*;

verus! {

/// Whether lockdown mode is on.
pub open spec fn locks_down(app: App) -> bool {
    match app.settings {
        Some(s) => s.lockdown_mode,
        None => false,
    }
}

/// The text of a line of one span, and its colour.
pub open spec fn line_is(line: Seq<SpanView>, text: Seq<char>, color: Option<Color>) -> bool {
    &&& line.len() == 1
    &&& line[0] is Styled
    &&& line[0]->Styled_content == text
    &&& line[0]->Styled_style.fg == color
}

// ---- Below the status ----

/// While the tunnel is up: the place, the relay and the features, and the details
/// of the connection only while they are unfolded.
pub proof fn a_connection_is_described(app: App, width: u16)
    requires
        app.connection is Some,
        app.connection->0 is Connected,
    ensures
        ({
            let unfolded = app.status_state.connection_details_expanded;
            let lines = below_status(app, width);
            let features = features_text(features_of(app), unfolded, width);
            let details = details_text(app.connection);
            &&& lines.len() == 2 + features.len() + if unfolded {
                1 + details.len()
            } else {
                0
            }
            &&& line_is(lines[0], place_text(app.connection), None)
            &&& line_is(lines[1], relay_line_text(app, app.connection), None)
            &&& lines.subrange(2, 2 + features.len() as int) == features
            &&& unfolded ==> forall|i: int|
                0 <= i < details.len() ==> line_is(
                    lines[3 + features.len() + i],
                    #[trigger] details[i],
                    None,
                )
        }),
{
    let unfolded = app.status_state.connection_details_expanded;
    let lines = below_status(app, width);
    let features = features_text(features_of(app), unfolded, width);
    assert(lines.subrange(2, 2 + features.len() as int) =~= features);
}

/// While there is no connection: nothing where it is down; where the tunnel comes
/// up the place and the relay; where it goes down that it does; and where it is
/// blocked why, and whether lockdown mode is the reason.
pub proof fn what_is_not_a_connection_is_described(app: App, width: u16)
    ensures
        ({
            let lines = below_status(app, width);
            let state = app.connection;
            &&& state is None || state->0 is Disconnected ==> lines.len() == 0
            &&& state is Some && state->0 is Connecting ==> lines.len() == 2 && line_is(
                lines[0],
                place_text(state),
                None,
            ) && line_is(lines[1], relay_line_text(app, state), Some(Color::DarkGray))
            &&& state is Some && state->0 is Disconnecting ==> lines.len() == 1 && line_is(
                lines[0],
                "Tearing down…"@,
                Some(Color::DarkGray),
            )
            &&& state is Some && state->0 is Error ==> lines.len() == 2 && line_is(
                lines[0],
                error_text(state->0->Error_0),
                Some(Color::Indexed(202)),
            ) && line_is(
                lines[1],
                if locks_down(app) {
                    "Lockdown mode is keeping all traffic blocked."@
                } else {
                    "All tunnel traffic is currently blocked."@
                },
                Some(Color::DarkGray),
            )
        }),
{
}

// ---- The whole page ----

/// Where each part of the page stands among its operations.
pub open spec fn is_drawn_as(
    ops: Seq<OpView>,
    app: App,
    now: Timestamp,
    tick: u64,
    area: Rect,
    full: Rect,
    parts: Seq<Rect>,
    middle: Seq<Rect>,
    actions: Seq<Rect>,
    block: Seq<OpView>,
    top: Seq<OpView>,
) -> bool {
    let kind = kind_of(app.connection);
    &&& draws_status_block(
        block,
        middle[block_part(app)],
        kind,
        below_status(app, area.width),
        app.status_state.connection_details_expanded,
        app.focused,
        tick,
    )
    &&& draws_top_row(top, actions[0], kind, app.focused, is_reconnecting(app), tick)
    &&& ops == seq![block_op(parts[0], header(app, now), Wrap::Cut)] + banner_ops(middle, app)
        + globe_ops(middle[map_part(app)], full, app.connection) + block + top + bottom_ops(
        actions[1],
        kind,
        app.focused,
        is_busy(app),
        tick,
    )
}

proof fn parts_of_the_page(
    ops: Seq<OpView>,
    area: Rect,
    full: Rect,
    app: App,
    now: Timestamp,
    tick: u64,
) -> (r: (Seq<Rect>, Seq<Rect>, Seq<Rect>, Seq<OpView>, Seq<OpView>))
    requires
        draws_page(ops, area, full, app, now, tick),
    ensures
        ({
            let (parts, middle, actions, block, top) = r;
            is_drawn_as(ops, app, now, tick, area, full, parts, middle, actions, block, top)
        }),
{
    let kind = kind_of(app.connection);
    choose|
        parts: Seq<Rect>,
        middle: Seq<Rect>,
        actions: Seq<Rect>,
        block: Seq<OpView>,
        top: Seq<OpView>,
    |
        #[trigger] divides_into_rows(area, page_rows(), parts) && #[trigger] divides_into_rows(
            parts[1],
            middle_rows(app, area.width),
            middle,
        ) && #[trigger] divides_into_rows(parts[3], action_rows(), actions)
            && #[trigger] draws_status_block(
            block,
            middle[block_part(app)],
            kind,
            below_status(app, area.width),
            app.status_state.connection_details_expanded,
            app.focused,
            tick,
        ) && #[trigger] draws_top_row(
            top,
            actions[0],
            kind,
            app.focused,
            is_reconnecting(app),
            tick,
        ) && is_drawn_as(ops, app, now, tick, area, full, parts, middle, actions, block, top)
}

/// Whether a running button with the id `id` reads `text`, and shows rightly
/// whether its operation runs.
pub open spec fn runs_as(op: OpView, id: u32, text: Seq<char>, running: bool) -> bool {
    &&& op is RunningButton
    &&& is_button(op, id)
    &&& face(op) == text
    &&& op->running == running
}

/// The page begins with the device and the time left, and ends with the button
/// that takes the tunnel down or up. That button spins while either is under way.
pub proof fn the_page_begins_and_ends_as_it_should(
    ops: Seq<OpView>,
    area: Rect,
    full: Rect,
    app: App,
    now: Timestamp,
    tick: u64,
)
    requires
        draws_page(ops, area, full, app, now, tick),
    ensures
        ({
            let state = app.connection;
            let last = ops[ops.len() - 2];
            let text = if state is None || state->0 is Disconnected || state->0 is Disconnecting {
                "Connect"@
            } else if state->0 is Connecting {
                "Cancel"@
            } else {
                "Disconnect"@
            };
            let under_way = app.operation == OperationStatus::Running(Operation::Connect)
                || app.operation == OperationStatus::Running(Operation::Disconnect)
                || app.operation == OperationStatus::Running(Operation::Reconnect);
            &&& ops.len() > 2
            &&& ops[0] is Text
            &&& ops[0]->text.len() == 3
            &&& line_is(ops[0]->text[0], device_text(app), None)
            &&& line_is(ops[0]->text[1], time_left_text(app, now), None)
            &&& runs_as(last, widgets::CONNECT_DISCONNECT, text, under_way)
            &&& app.focused != Some(WidgetId(widgets::CONNECT_DISCONNECT))
                ==> last->RunningButton_style.fg == Some(
                if state is None || state->0 is Disconnected {
                    Color::Green
                } else {
                    Color::Red
                },
            )
            &&& app.focused == Some(WidgetId(widgets::CONNECT_DISCONNECT))
                ==> last->RunningButton_style.fg == Some(Color::Yellow)
        }),
{
    let (parts, middle, actions, block, top) = parts_of_the_page(ops, area, full, app, now, tick);
    let bottom = bottom_ops(actions[1], kind_of(app.connection), app.focused, is_busy(app), tick);
    assert(ops[ops.len() - 2] == bottom[0]);
    assert(ops[0] == block_op(parts[0], header(app, now), Wrap::Cut));
}

/// Whether an operation draws the banner that says the internet is blocked.
pub open spec fn is_banner(op: OpView) -> bool {
    op is Text && op->text.len() == 2 && op->text[0].len() == 2 && op->text[0][1] is Styled
        && op->text[0][1]->Styled_content == " BLOCKING INTERNET"@
}

/// Below the header stands the banner exactly where nothing is up and lockdown
/// mode blocks all, and below that the globe with its marker, where there is
/// room.
pub proof fn the_banner_warns_of_lockdown(
    ops: Seq<OpView>,
    area: Rect,
    full: Rect,
    app: App,
    now: Timestamp,
    tick: u64,
)
    requires
        draws_page(ops, area, full, app, now, tick),
    ensures
        ({
            let down = app.connection is None || app.connection->0 is Disconnected;
            let globe: int = if down && locks_down(app) {
                2
            } else {
                1
            };
            &&& down && locks_down(app) ==> ops.len() > 1 && is_banner(ops[1])
            &&& !(down && locks_down(app)) ==> ops.len() > 1 && (ops[1] is Globe || !is_banner(
                ops[1],
            ))
            &&& globe < ops.len() && ops[globe] is Globe ==> ops[globe]->marker == marker_of(
                app.connection,
            )
        }),
{
    let (parts, middle, actions, block, top) = parts_of_the_page(ops, area, full, app, now, tick);
    let down = app.connection is None || app.connection->0 is Disconnected;
    let state = app.connection;
    reveal_strlit(" BLOCKING INTERNET");
    reveal_strlit("DISCONNECTED");
    reveal_strlit("CONNECTED");
    if down && locks_down(app) {
        assert(ops[1] == block_op(middle[0], banner_lines(), Wrap::Trim));
    } else {
        let globe = globe_ops(middle[map_part(app)], full, state);
        if globe.len() > 0 {
            assert(ops[1] == globe[0]);
        } else {
            assert(ops[1] == block[0]);
        }
    }
}

/// The status stands in its own colour, with a spinner exactly while it changes;
/// only a connection has details to show or hide.
pub proof fn the_status_spins_while_it_changes(
    ops: Seq<OpView>,
    area: Rect,
    state: Option<TunnelState>,
    expanded: bool,
    focused: Option<WidgetId>,
    tick: u64,
)
    requires
        draws_status_row(ops, area, kind_of(state), expanded, focused, tick),
    ensures
        ({
            let changes = state is Some && (state->0 is Connecting || state->0 is Disconnecting);
            let up = state is Some && state->0 is Connected;
            &&& ops.len() > 0 && ops[0] is Text && ops[0]->text.len() == 1
            &&& changes <==> ops[0]->text[0][0] is Spinner
            &&& up <==> ops.len() > 1
            &&& up ==> is_button(ops[1], widgets::DETAILS_TOGGLE) && face(ops[1]) == if expanded {
                "Hide detail"@
            } else {
                "Show detail"@
            }
        }),
{
}

/// A connection can be renewed while it is up or blocked, or while that is under
/// way; the location can be changed at any time.
pub proof fn the_top_row_offers_what_can_be_done(
    ops: Seq<OpView>,
    area: Rect,
    state: Option<TunnelState>,
    focused: Option<WidgetId>,
    renewing: bool,
    tick: u64,
)
    requires
        draws_top_row(ops, area, kind_of(state), focused, renewing, tick),
    ensures
        ({
            let can_renew = renewing || state is Some && (state->0 is Connected
                || state->0 is Error);
            &&& ops.len() > 1
            &&& is_button(ops[0], widgets::SWITCH_LOCATION)
            &&& can_renew <==> runs_as(
                ops[1],
                widgets::REFRESH_CONNECTION,
                "Reconnect"@,
                renewing,
            )
            &&& !can_renew ==> ops.len() == 2
            &&& !can_renew && (state is None || state->0 is Disconnected) ==> face(ops[0])
                == "Select location"@
            &&& can_renew || state is Some && !(state->0 is Disconnected) ==> face(ops[0])
                == "Switch location"@
        }),
{
}

} // verus!
