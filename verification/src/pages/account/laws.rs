//! What the Account pages do and show, said of the account itself.

use crate::app::{
    Answer, App, ConfirmActionView, InputView, NotificationView, PageId, RequestView, Return,
};
use crate::daemon::{AccountAndDevice, Device, DeviceState};
use crate::focus::{index_in, WidgetId};
use crate::geometry::Rect;
use crate::pages::account::view::{
    are_dates, devices_ops, draws_page, is_created_text, is_expiry_text, list_notice, logged_in,
    number_text,
};
use crate::pages::account::{
    answer_notice, app_after, grouped, other_devices, others, step, widgets, Step,
    BUY_CREDIT_MESSAGE, LOG_OUT_QUESTION, ROTATE_KEY_QUESTION, STALE_DEVICE_MESSAGE,
};
use crate::pages::settings::shown::{face, is_button, reads};
use crate::scene::{raw_line, OpView};
use crate::time::{reads_locally, DATE, DATE_AND_TIME};
use vstd::prelude::*;

verus! {

/// The device that is logged in, and the number of its account.
pub open spec fn who(app: App) -> Option<AccountAndDevice> {
    match app.account {
        Some(info) => match info.device {
            DeviceState::LoggedIn(both) => Some(both),
            _ => None,
        },
        None => None,
    }
}

// ---- What a widget does ----

/// Each thing that can be done has its own widget, and each widget does one thing.
pub proof fn each_action_has_its_own_widget(app: App, widget: WidgetId)
    ensures
        ({
            let done = step(app, widget);
            let asks = done.overlay is Some && done.overlay->0 is Confirm;
            let index = index_in(widget, widgets::REMOVE_DEVICE_BASE, widgets::REMOVE_DEVICE_MAX);
            &&& done.page == Some(PageId::AccountDevices) <==> widget == WidgetId(
                widgets::MANAGE_DEVICES,
            )
            &&& done.page is Some ==> done.page == Some(PageId::AccountDevices)
            &&& done.request == Some(RequestView::ListDevices) <==> widget == WidgetId(
                widgets::MANAGE_DEVICES,
            )
            &&& done.toggles_number <==> widget == WidgetId(widgets::SHOW_ACCOUNT)
            &&& done.input == Some(InputView::VoucherInput) <==> widget == WidgetId(
                widgets::REDEEM_VOUCHER,
            )
            &&& done.input == Some(InputView::AccountInput) <==> widget == WidgetId(widgets::LOG_IN)
            &&& done.input is Some ==> done.input == Some(InputView::VoucherInput) || done.input
                == Some(InputView::AccountInput)
            &&& done.overlay is Some <==> widget == WidgetId(widgets::LOG_OUT) || widget
                == WidgetId(widgets::ROTATE_KEY)
            &&& done.overlay is Some ==> asks && done.overlay->0->return_focus == app.focused
            &&& asks && done.overlay->0->action == ConfirmActionView::Logout <==> widget
                == WidgetId(widgets::LOG_OUT)
            &&& asks && done.overlay->0->action == ConfirmActionView::RotateWireGuardKey
                <==> widget == WidgetId(widgets::ROTATE_KEY)
            &&& widget == WidgetId(widgets::LOG_OUT) ==> done.overlay->0->title
                == "Confirm logout"@ && done.overlay->0->message == LOG_OUT_QUESTION@
            &&& widget == WidgetId(widgets::ROTATE_KEY) ==> done.overlay->0->title
                == "Rotate WireGuard key"@ && done.overlay->0->message == ROTATE_KEY_QUESTION@
            &&& done.request is Some && done.request->0 is RemoveDevice <==> index is Some
                && index->0 < other_devices(app).len()
            &&& done.message == Some(BUY_CREDIT_MESSAGE@) || widget != WidgetId(widgets::BUY_CREDIT)
            &&& done.message is Some <==> widget == WidgetId(widgets::BUY_CREDIT) || index is Some
                && index->0 >= other_devices(app).len()
            &&& index is Some && done.message is Some ==> done.message == Some(
                STALE_DEVICE_MESSAGE@,
            )
            &&& done.request is Some ==> done.request->0 is RemoveDevice || done.request->0
                == RequestView::ListDevices
        }),
{
}

/// A remove button asks for the removal of the device at its place among the
/// others, and of no other device; so two buttons of two devices with different
/// ids never ask for the same.
pub proof fn removal_is_of_the_device_at_that_place(app: App, i: int)
    requires
        0 <= i < other_devices(app).len(),
        i < widgets::REMOVE_DEVICE_MAX,
    ensures
        step(app, WidgetId((widgets::REMOVE_DEVICE_BASE + i) as u32)).request == Some(
            RequestView::RemoveDevice { id: other_devices(app)[i].id@ },
        ),
        app.account_state.devices is Some,
        who(app) is Some ==> other_devices(app)[i].id@ != who(app)->0.device.id@,
{
    let devices = app.account_state.devices->0@;
    if who(app) is Some {
        let current = who(app)->0.device;
        assert(others(devices, Some(current)).contains(other_devices(app)[i]));
        crate::pages::account::the_current_device_is_not_listed(
            devices,
            current,
            other_devices(app)[i],
        );
    }
}

/// The other devices are all that the daemon listed, in its order, but for the one
/// that is logged in.
pub proof fn the_others_are_all_but_the_current(app: App)
    ensures
        app.account_state.devices is None ==> other_devices(app).len() == 0,
        app.account_state.devices is Some && who(app) is None ==> other_devices(app)
            == app.account_state.devices->0@.filter(|d: Device| true),
        app.account_state.devices is Some && who(app) is Some ==> other_devices(app)
            == app.account_state.devices->0@.filter(|d: Device| d.id@ != who(app)->0.device.id@),
{
    if app.account_state.devices is Some {
        let current = app.device();
        let mine = |d: Device| crate::pages::account::is_other(d, current);
        if who(app) is None {
            assert(mine =~= (|d: Device| true));
        } else {
            assert(mine =~= (|d: Device| d.id@ != who(app)->0.device.id@));
        }
    }
}

/// What a step says is what changes, and all else stays.
pub proof fn steps_change_what_they_say(before: App, after: App, done: Step)
    requires
        app_after(before, after, done),
    ensures
        done.page is Some ==> after.page == done.page->0 && after.returns@ == before.returns@.push(
            Return { page: before.page, focused: before.focused },
        ),
        done.page is None ==> after.page == before.page && after.returns == before.returns,
        done.message is Some ==> after.notification is Some && after.notification->0@
            == NotificationView::Message(done.message->0),
        done.message is None ==> after.notification == before.notification,
        after.account_state.account_number_visible <==> (before.account_state.account_number_visible
            <==> !done.toggles_number),
        after.account_state.devices == before.account_state.devices,
        after.settings == before.settings,
        after.focused == before.focused,
        after.account == before.account,
        after.quit == before.quit,
{
}

/// The user is told of every request that failed, by its name and in the daemon's
/// own words, and of nothing else.
pub proof fn failures_are_reported(request: RequestView, answer: Answer)
    ensures
        ({
            let notice = answer_notice(request, answer);
            let of_these_pages = request is RemoveDevice || request == RequestView::ListDevices;
            &&& notice is Some <==> answer is Err && of_these_pages
            &&& notice is Some ==> notice->0 == NotificationView::ActionFailed {
                action: if request is RemoveDevice {
                    "remove device"@
                } else {
                    "list devices"@
                },
                error: answer->Err_0@,
            }
        }),
{
}

// ---- What the pages show ----

/// While the number is hidden, what is shown does not depend on it; while it is
/// not, the number is shown in groups. The button says which it will be.
pub proof fn a_hidden_number_is_not_shown(a: App, b: App)
    requires
        who(a) is Some,
        who(b) is Some,
    ensures
        !a.account_state.account_number_visible && !b.account_state.account_number_visible
            ==> number_text(a) == number_text(b),
        a.account_state.account_number_visible ==> number_text(a) == grouped(who(a)->0.account_number@),
{
}

/// While a device is logged in, the page names it and offers what can be done with
/// its account; else it offers to log in, and says why.
pub proof fn the_page_goes_by_the_login(ops: Seq<OpView>, area: Rect, app: App)
    requires
        draws_page(ops, area, app),
    ensures
        who(app) is Some ==> {
            &&& ops.len() == 9
            &&& is_button(ops[0], widgets::MANAGE_DEVICES) && face(ops[0]) == "Manage devices"@
            &&& reads(ops[1], "  "@ + who(app)->0.device.pretty_name@)
            &&& is_button(ops[3], widgets::SHOW_ACCOUNT)
            &&& face(ops[3]) == if app.account_state.account_number_visible {
                "Hide"@
            } else {
                "Show"@
            }
            &&& ops[3]->LabelButtonRow_label == "  "@ + if app.account_state.account_number_visible {
                grouped(who(app)->0.account_number@)
            } else {
                "**** **** **** ****"@
            }
            &&& is_button(ops[6], widgets::BUY_CREDIT) && face(ops[6]) == "Buy more credit..."@
            &&& is_button(ops[7], widgets::REDEEM_VOUCHER) && face(ops[7]) == "Redeem voucher"@
            &&& is_button(ops[8], widgets::LOG_OUT) && face(ops[8]) == "Log out"@
        },
        who(app) is None ==> {
            &&& ops.len() == 2
            &&& is_button(ops[1], widgets::LOG_IN) && face(ops[1]) == "Log in"@
            &&& reads(
                ops[0],
                if app.account is None {
                    "Account state not yet loaded - waiting for the daemon."@
                } else if app.account->0.device == DeviceState::Revoked {
                    "Device was revoked from this account. Log in to register a new one."@
                } else {
                    "Not logged in. Press the button below to enter your account number."@
                },
            )
        },
{
    assert(logged_in(app) <==> who(app) is Some);
}

/// What stands above the list of devices: an error before all, then that the list
/// is still loading, and else nothing.
pub proof fn the_list_says_what_is_wrong(app: App)
    ensures
        app.account_state.devices_error is Some ==> list_notice(app).len() == 2 && list_notice(
            app,
        )[0] == raw_line("Could not load devices: "@ + app.account_state.devices_error->0@),
        app.account_state.devices_error is None && app.account_state.devices_loading
            ==> list_notice(app).len() == 2 && list_notice(app)[0] == raw_line(
            "(loading device list…)"@,
        ),
        app.account_state.devices_error is None && !app.account_state.devices_loading
            ==> list_notice(app).len() == 0,
{
}

/// What the account is paid until is shown with date and time, what a device was
/// created on with the date; each from its own moment.
pub proof fn dates_are_those_of_the_account(app: App, text: Seq<char>, dates: Seq<Seq<char>>)
    ensures
        app.account is Some && app.account->0.data is Some && is_expiry_text(text, app)
            ==> reads_locally(text, app.account->0.data->0.expiry, DATE_AND_TIME@),
        app.account is None || app.account->0.data is None ==> (is_expiry_text(text, app)
            <==> text == "(loading…)"@),
        who(app) is Some && is_created_text(text, app) ==> reads_locally(
            text,
            who(app)->0.device.created,
            DATE@,
        ),
        are_dates(dates, other_devices(app)) ==> dates.len() == other_devices(app).len() && forall|
            i: int,
        |
            0 <= i < dates.len() ==> reads_locally(
                #[trigger] dates[i],
                other_devices(app)[i].created,
                DATE@,
            ),
{
}

/// The Devices page names the device that is logged in, and offers to rotate its
/// key; without one it does neither.
pub proof fn the_current_device_is_named(
    parts: Seq<Rect>,
    app: App,
    created: Seq<char>,
    dates: Seq<Seq<char>>,
)
    ensures
        ({
            let ops = devices_ops(parts, app, created, dates);
            let lines = ops[0]->text;
            let n = lines.len();
            &&& ops.len() > 1
            &&& ops[0] is Text
            &&& who(app) is Some <==> is_button(ops[1], widgets::ROTATE_KEY)
            &&& who(app) is Some ==> n > 2 && lines[n - 2] == raw_line(
                "  - "@ + who(app)->0.device.pretty_name@,
            ) && lines[n - 1] == raw_line("    Created: "@ + created)
            &&& who(app) is None ==> n > 1 && lines[n - 1] == raw_line("    (unknown)"@)
        }),
{
}

} // verus!
