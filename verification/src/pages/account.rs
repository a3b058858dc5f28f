//! The Account page and the Manage-devices page.

use crate::app::{
    confirm, leads_back, notification_view, request_view, AccountState, Answer, App, ConfirmAction,
    ConfirmActionView, InputMode, InputView, NotificationView, OverlayMode, OverlayView, PageId,
    Request, RequestView,
};
use crate::daemon::{AccountData, Device, DeviceState, Timestamp};
use crate::focus::{decode, index_in, WidgetId};
use crate::text::{chars, from_chars, owned, text_eq};
use crate::time::{format_local, reads_locally, valid, DATE, DATE_AND_TIME};
use vstd::prelude::*;

pub mod laws;
pub mod view;
pub mod widgets;

pub use self::view::{render, render_devices};

verus! {

// ---- Widgets ----

/// A fixed widget of the Account page or the Manage-devices page.
#[derive(Clone, Copy, Debug, PartialEq, Eq, Structural)]
pub enum AccountWidget {
    ManageDevices,
    ShowAccount,
    BuyCredit,
    RedeemVoucher,
    LogOut,
    LogIn,
    RotateKey,
}

impl AccountWidget {
    /// The id of the widget.
    pub open spec fn id(self) -> u32 {
        match self {
            AccountWidget::ManageDevices => widgets::MANAGE_DEVICES,
            AccountWidget::ShowAccount => widgets::SHOW_ACCOUNT,
            AccountWidget::BuyCredit => widgets::BUY_CREDIT,
            AccountWidget::RedeemVoucher => widgets::REDEEM_VOUCHER,
            AccountWidget::LogOut => widgets::LOG_OUT,
            AccountWidget::LogIn => widgets::LOG_IN,
            AccountWidget::RotateKey => widgets::ROTATE_KEY,
        }
    }

    /// The widget with the id `widget`, if it is one of these.
    pub fn from_widget_id(widget: WidgetId) -> (r: Option<AccountWidget>)
        ensures
            r == widget_of(widget),
    {
        if widget.0 == widgets::MANAGE_DEVICES {
            Some(AccountWidget::ManageDevices)
        } else if widget.0 == widgets::SHOW_ACCOUNT {
            Some(AccountWidget::ShowAccount)
        } else if widget.0 == widgets::BUY_CREDIT {
            Some(AccountWidget::BuyCredit)
        } else if widget.0 == widgets::REDEEM_VOUCHER {
            Some(AccountWidget::RedeemVoucher)
        } else if widget.0 == widgets::LOG_OUT {
            Some(AccountWidget::LogOut)
        } else if widget.0 == widgets::LOG_IN {
            Some(AccountWidget::LogIn)
        } else if widget.0 == widgets::ROTATE_KEY {
            Some(AccountWidget::RotateKey)
        } else {
            None
        }
    }
}

/// The fixed widget with the id `widget`, if it is one.
pub open spec fn widget_of(widget: WidgetId) -> Option<AccountWidget> {
    if widget.0 == widgets::MANAGE_DEVICES {
        Some(AccountWidget::ManageDevices)
    } else if widget.0 == widgets::SHOW_ACCOUNT {
        Some(AccountWidget::ShowAccount)
    } else if widget.0 == widgets::BUY_CREDIT {
        Some(AccountWidget::BuyCredit)
    } else if widget.0 == widgets::REDEEM_VOUCHER {
        Some(AccountWidget::RedeemVoucher)
    } else if widget.0 == widgets::LOG_OUT {
        Some(AccountWidget::LogOut)
    } else if widget.0 == widgets::LOG_IN {
        Some(AccountWidget::LogIn)
    } else if widget.0 == widgets::ROTATE_KEY {
        Some(AccountWidget::RotateKey)
    } else {
        None
    }
}

/// Whether `widget` is one of the fixed widgets.
pub fn owns_top_widget(widget: WidgetId) -> (r: bool)
    ensures
        r == (widget_of(widget) is Some),
{
    AccountWidget::from_widget_id(widget).is_some()
}

/// The row of a `[Remove]` in the list of other devices.
pub fn remove_device_index(widget: WidgetId) -> (r: Option<usize>)
    ensures
        r == index_in(widget, widgets::REMOVE_DEVICE_BASE, widgets::REMOVE_DEVICE_MAX),
{
    decode(widget, widgets::REMOVE_DEVICE_BASE, widgets::REMOVE_DEVICE_MAX)
}

/// Whether `widget` is a widget of the Account page or the Manage-devices page.
pub open spec fn is_own(widget: WidgetId) -> bool {
    widget_of(widget) is Some || index_in(
        widget,
        widgets::REMOVE_DEVICE_BASE,
        widgets::REMOVE_DEVICE_MAX,
    ) is Some
}

/// Ids and fixed widgets go together one to one, and no fixed widget is a row of
/// the list.
pub proof fn ids_and_widgets_go_together(widget: AccountWidget, id: WidgetId)
    ensures
        widget_of(id) == Some(widget) <==> id == WidgetId(widget.id()),
        widget_of(id) is Some ==> index_in(
            id,
            widgets::REMOVE_DEVICE_BASE,
            widgets::REMOVE_DEVICE_MAX,
        ) is None,
{
}

// ---- Devices ----

/// Whether `device` is another one than `current`.
pub open spec fn is_other(device: Device, current: Option<Device>) -> bool {
    current is None || device.id@ != current->0.id@
}

/// The devices other than `current`, in their order.
pub open spec fn others(devices: Seq<Device>, current: Option<Device>) -> Seq<Device> {
    devices.filter(|d: Device| is_other(d, current))
}

/// The account's other devices, as far as they are known.
pub open spec fn other_devices(app: App) -> Seq<Device> {
    match app.account_state.devices {
        Some(devices) => others(devices@, app.device()),
        None => Seq::empty(),
    }
}

proof fn others_step(devices: Seq<Device>, current: Option<Device>, n: int)
    requires
        0 <= n < devices.len(),
    ensures
        others(devices.take(n + 1), current) == if is_other(devices[n], current) {
            others(devices.take(n), current).push(devices[n])
        } else {
            others(devices.take(n), current)
        },
{
    reveal(Seq::filter);
    assert(devices.take(n + 1).drop_last() =~= devices.take(n));
}

/// The devices behind the references.
pub open spec fn pointed(devices: Seq<&Device>) -> Seq<Device> {
    devices.map_values(|d: &Device| *d)
}

/// The account's other devices, as far as they are known.
pub fn collect_other_devices<'a>(
    cached: Option<&'a Vec<Device>>,
    current: Option<&Device>,
) -> (r: Vec<&'a Device>)
    ensures
        pointed(r@) == match cached {
            Some(devices) => others(
                devices@,
                match current {
                    Some(c) => Some(*c),
                    None => None,
                },
            ),
            None => Seq::empty(),
        },
{
    let mut found: Vec<&'a Device> = Vec::new();
    let devices: &'a Vec<Device> = match cached {
        Some(devices) => devices,
        None => {
            assert(pointed(found@) =~= Seq::empty());
            return found;
        },
    };
    let ghost cur = match current {
        Some(c) => Some(*c),
        None => None,
    };
    let mut i: usize = 0;
    proof {
        reveal(Seq::filter);
        assert(pointed(found@) =~= others(devices@.take(0), cur));
    }
    while i < devices.len()
        invariant
            i <= devices.len(),
            cur == match current {
                Some(c) => Some(*c),
                None => None,
            },
            pointed(found@) == others(devices@.take(i as int), cur),
        decreases devices.len() - i,
    {
        proof {
            others_step(devices@, cur, i as int);
        }
        let other = match current {
            Some(c) => !text_eq(devices[i].id.as_str(), c.id.as_str()),
            None => true,
        };
        let ghost found0 = found@;
        if other {
            found.push(&devices[i]);
            assert(pointed(found@) =~= pointed(found0).push(devices@[i as int]));
        }
        i = i + 1;
    }
    assert(devices@.take(i as int) =~= devices@);
    found
}

/// The current device is never listed among the others, and every other device
/// is.
pub proof fn the_current_device_is_not_listed(devices: Seq<Device>, current: Device, d: Device)
    ensures
        others(devices, Some(current)).contains(d) <==> devices.contains(d) && d.id@
            != current.id@,
    decreases devices.len(),
{
    reveal(Seq::filter);
    if devices.len() > 0 {
        let init = devices.drop_last();
        the_current_device_is_not_listed(init, current, d);
        let rest = others(init, Some(current));
        let all = others(devices, Some(current));
        if devices.contains(d) {
            let i = devices.index_of(d);
            if i < init.len() {
                assert(init[i] == d);
            } else if is_other(d, Some(current)) {
                assert(all[all.len() - 1] == d);
            }
        }
        if init.contains(d) {
            let i = init.index_of(d);
            assert(devices[i] == d);
        }
        if rest.contains(d) {
            let i = rest.index_of(d);
            assert(all[i] == d);
        }
        if all.contains(d) {
            let i = all.index_of(d);
            if i < rest.len() {
                assert(rest[i] == d);
            } else {
                assert(devices[devices.len() - 1] == d);
            }
        }
    }
}

// ---- Activation ----

/// What the user is told about buying credit.
pub const BUY_CREDIT_MESSAGE: &'static str = "Buy more credit at https://mullvad.net/account/ - sign in with your account number";

/// What the user is told when a device row is gone.
pub const STALE_DEVICE_MESSAGE: &'static str = "Device row no longer in cache; refresh and retry";

/// Asked before the user is logged out.
pub const LOG_OUT_QUESTION: &'static str = "Log out from the current Mullvad account session?";

/// Asked before the key is rotated.
pub const ROTATE_KEY_QUESTION: &'static str = "The daemon will generate a new WireGuard key and register it with Mullvad's API. Connectivity drops briefly while the tunnel swaps onto the new key. Continue?";

/// What activating a widget does.
#[verifier::ext_equal]
pub struct Step {
    /// What the daemon is asked to do.
    pub request: Option<RequestView>,
    /// The text input that opens.
    pub input: Option<InputView>,
    /// The question that is put.
    pub overlay: Option<OverlayView>,
    /// What the user is told.
    pub message: Option<Seq<char>>,
    /// The sub-page that opens.
    pub page: Option<PageId>,
    /// The account number is shown or hidden.
    pub toggles_number: bool,
}

/// Nothing is done.
pub open spec fn nothing() -> Step {
    Step {
        request: None,
        input: None,
        overlay: None,
        message: None,
        page: None,
        toggles_number: false,
    }
}

/// What activating `widget` does.
pub open spec fn step(app: App, widget: WidgetId) -> Step {
    match index_in(widget, widgets::REMOVE_DEVICE_BASE, widgets::REMOVE_DEVICE_MAX) {
        Some(i) => if i < other_devices(app).len() {
            Step {
                request: Some(
                    RequestView::RemoveDevice { id: other_devices(app)[i as int].id@ },
                ),
                ..nothing()
            }
        } else {
            Step { message: Some(STALE_DEVICE_MESSAGE@), ..nothing() }
        },
        None => match widget_of(widget) {
            None => nothing(),
            Some(AccountWidget::ManageDevices) => Step {
                page: Some(PageId::AccountDevices),
                request: Some(RequestView::ListDevices),
                ..nothing()
            },
            Some(AccountWidget::ShowAccount) => Step { toggles_number: true, ..nothing() },
            Some(AccountWidget::BuyCredit) => Step {
                message: Some(BUY_CREDIT_MESSAGE@),
                ..nothing()
            },
            Some(AccountWidget::RedeemVoucher) => Step {
                input: Some(InputView::VoucherInput),
                ..nothing()
            },
            Some(AccountWidget::LogOut) => Step {
                overlay: Some(
                    OverlayView::Confirm {
                        title: "Confirm logout"@,
                        message: LOG_OUT_QUESTION@,
                        action: ConfirmActionView::Logout,
                        return_focus: app.focused,
                    },
                ),
                ..nothing()
            },
            Some(AccountWidget::LogIn) => Step {
                input: Some(InputView::AccountInput),
                ..nothing()
            },
            Some(AccountWidget::RotateKey) => Step {
                overlay: Some(
                    OverlayView::Confirm {
                        title: "Rotate WireGuard key"@,
                        message: ROTATE_KEY_QUESTION@,
                        action: ConfirmActionView::RotateWireGuardKey,
                        return_focus: app.focused,
                    },
                ),
                ..nothing()
            },
        },
    }
}

/// Whether `after` is `before` with `step` done to it.
pub open spec fn app_after(before: App, after: App, step: Step) -> bool {
    &&& match step.message {
        Some(m) => notification_view(after.notification) == Some(NotificationView::Message(m)),
        None => after.notification == before.notification,
    }
    &&& match step.page {
        Some(page) => after.page == page && leads_back(before, after),
        None => after.page == before.page && after.returns == before.returns,
    }
    &&& after.account_state == (AccountState {
        account_number_visible: before.account_state.account_number_visible
            != step.toggles_number,
        ..before.account_state
    })
    &&& after == (App {
        notification: after.notification,
        page: after.page,
        returns: after.returns,
        account_state: after.account_state,
        ..before
    })
}

/// Run the action bound to a widget of the Account page or the Manage-devices
/// page. What only the daemon can do comes back as a request; [`complete`] takes
/// in how it ended.
pub fn activate(
    app: &mut App,
    input_mode: &mut InputMode,
    overlay: &mut OverlayMode,
    widget: WidgetId,
) -> (r: Option<Request>)
    ensures
        ({
            let s = step(*old(app), widget);
            &&& request_view(r) == s.request
            &&& app_after(*old(app), *final(app), s)
            &&& match s.input {
                Some(v) => final(input_mode)@ == v,
                None => *final(input_mode) == *old(input_mode),
            }
            &&& match s.overlay {
                Some(v) => final(overlay)@ == v,
                None => *final(overlay) == *old(overlay),
            }
        }),
{
    if let Some(index) = remove_device_index(widget) {
        let target: Option<String> = {
            let cached = match &app.account_state.devices {
                Some(devices) => Some(devices),
                None => None,
            };
            let listed = collect_other_devices(cached, app.current_device());
            assert(pointed(listed@) == other_devices(*app));
            if index < listed.len() {
                assert(pointed(listed@)[index as int] == *listed@[index as int]);
                Some(listed[index].id.clone())
            } else {
                None
            }
        };
        return match target {
            Some(id) => Some(Request::RemoveDevice { id }),
            None => {
                app.show_notification(STALE_DEVICE_MESSAGE);
                None
            },
        };
    }
    match AccountWidget::from_widget_id(widget) {
        None => None,
        Some(AccountWidget::ManageDevices) => {
            app.enter_sub_page(PageId::AccountDevices);
            Some(Request::ListDevices)
        },
        Some(AccountWidget::ShowAccount) => {
            app.account_state.account_number_visible = !app.account_state.account_number_visible;
            None
        },
        Some(AccountWidget::BuyCredit) => {
            app.show_notification(BUY_CREDIT_MESSAGE);
            None
        },
        Some(AccountWidget::RedeemVoucher) => {
            *input_mode = InputMode::VoucherInput;
            None
        },
        Some(AccountWidget::LogOut) => {
            *overlay = confirm(
                "Confirm logout",
                LOG_OUT_QUESTION,
                ConfirmAction::Logout,
                app.focused,
            );
            None
        },
        Some(AccountWidget::LogIn) => {
            *input_mode = InputMode::AccountInput;
            None
        },
        Some(AccountWidget::RotateKey) => {
            *overlay = confirm(
                "Rotate WireGuard key",
                ROTATE_KEY_QUESTION,
                ConfirmAction::RotateWireGuardKey,
                app.focused,
            );
            None
        },
    }
}

/// What a request of these pages is called when it fails.
pub open spec fn request_name(request: RequestView) -> Option<Seq<char>> {
    match request {
        RequestView::RemoveDevice { .. } => Some("remove device"@),
        RequestView::ListDevices => Some("list devices"@),
        _ => None,
    }
}

/// What the user is told when a request of these pages ended, if anything.
pub open spec fn answer_notice(request: RequestView, answer: Answer) -> Option<NotificationView> {
    match (answer, request_name(request)) {
        (Err(error), Some(action)) => Some(
            NotificationView::ActionFailed { action, error: error@ },
        ),
        _ => None,
    }
}

/// Take in how a request of these pages ended. A failure is reported; all else
/// is left to what the daemon reports.
pub fn complete(app: &mut App, request: &Request, answer: Answer)
    ensures
        match answer_notice(request@, answer) {
            Some(notice) => notification_view(final(app).notification) == Some(notice),
            None => final(app).notification == old(app).notification,
        },
        *final(app) == (App { notification: final(app).notification, ..*old(app) }),
        match (answer, request_name(request@)) {
            (Err(error), Some(action)) => {
                &&& notification_view(final(app).notification) == Some(
                    NotificationView::ActionFailed { action, error: error@ },
                )
                &&& *final(app) == (App { notification: final(app).notification, ..*old(app) })
            },
            _ => *final(app) == *old(app),
        },
{
    let action = match request {
        Request::RemoveDevice { .. } => "remove device",
        Request::ListDevices => "list devices",
        _ => {
            return;
        },
    };
    match answer {
        Err(error) => app.show_failure(action, error),
        Ok(_) => {},
    }
}

// ---- Texts ----

/// The account number, where a device is logged in.
pub open spec fn number_of(app: App) -> Option<Seq<char>> {
    match app.account {
        Some(info) => match info.device {
            DeviceState::LoggedIn(both) => Some(both.account_number@),
            _ => None,
        },
        None => None,
    }
}

/// The account number, where a device is logged in.
pub fn current_account_number(app: &App) -> (r: Option<String>)
    ensures
        match r {
            Some(n) => number_of(*app) == Some(n@),
            None => number_of(*app) is None,
        },
{
    match &app.account {
        Some(info) => match &info.device {
            DeviceState::LoggedIn(both) => Some(both.account_number.clone()),
            _ => None,
        },
        None => None,
    }
}

/// `raw` in blocks of four characters, with a blank between each two blocks.
pub open spec fn grouped(raw: Seq<char>) -> Seq<char>
    decreases raw.len(),
{
    if raw.len() == 0 {
        Seq::empty()
    } else {
        let n = raw.len() - 1;
        let above = grouped(raw.drop_last());
        if n > 0 && n % 4 == 0 {
            above.push(' ').push(raw.last())
        } else {
            above.push(raw.last())
        }
    }
}

/// `raw` in blocks of four characters, with a blank between each two blocks.
pub fn format_account_number(raw: &str) -> (r: String)
    ensures
        r@ == grouped(raw@),
{
    let v = chars(raw);
    let mut out: String = String::new();
    let mut i: usize = 0;
    assert(v@.take(0) =~= Seq::empty());
    while i < v.len()
        invariant
            i <= v.len(),
            out@ == grouped(v@.take(i as int)),
        decreases v.len() - i,
    {
        assert(v@.take(i + 1).drop_last() =~= v@.take(i as int));
        if i > 0 && i % 4 == 0 {
            out.push(' ');
        }
        out.push(v[i]);
        i = i + 1;
    }
    assert(v@.take(i as int) =~= v@);
    out
}

/// Grouping keeps every character, in order: character `i` moves right by one
/// cell for each full block before it, and every fifth cell is blank.
pub proof fn grouping_only_adds_blanks(raw: Seq<char>, i: int)
    requires
        0 <= i < raw.len(),
    ensures
        grouped(raw).len() == raw.len() + (raw.len() - 1) / 4,
        grouped(raw)[i + i / 4] == raw[i],
        i > 0 && i % 4 == 0 ==> grouped(raw)[i + i / 4 - 1] == ' ',
    decreases raw.len(),
{
    let n = raw.len() - 1;
    let init = raw.drop_last();
    if n > 0 {
        grouping_only_adds_blanks(
            init,
            if i < n {
                i
            } else {
                0
            },
        );
        if i < n {
            assert(init[i] == raw[i]);
        }
    } else {
        assert(grouped(init) =~= Seq::empty());
    }
}

/// When the account runs out, in local time.
pub fn format_account_expiry(data: &AccountData) -> (r: String)
    requires
        valid(data.expiry),
    ensures
        reads_locally(r@, data.expiry, DATE_AND_TIME@),
{
    format_local(data.expiry, DATE_AND_TIME)
}

/// When a device was created: the day, in local time.
pub fn format_created_date(created: Timestamp) -> (r: String)
    requires
        valid(created),
    ensures
        reads_locally(r@, created, DATE@),
{
    format_local(created, DATE)
}

} // verus!
