//! The Account page and the Manage-devices page.

use mullvad_tui::app::{
    App, ConfirmAction, InputMode, Notification, OverlayMode, PageId, Request,
};
use mullvad_tui::daemon::{
    AccountAndDevice, AccountData, AccountInfo, Device, DeviceState, Timestamp,
};
use mullvad_tui::focus::WidgetId;
use mullvad_tui::geometry::Rect;
use mullvad_tui::pages::account::{
    activate, collect_other_devices, complete, current_account_number, format_account_expiry,
    format_account_number, format_created_date, owns_top_widget, remove_device_index, render,
    render_devices, widgets, AccountWidget,
};
use mullvad_tui::scene::{Op, Scene, TextSpan};
use mullvad_tui::time::{format_local, DATE, DATE_AND_TIME};

fn at(seconds: i64) -> Timestamp {
    Timestamp { seconds, nanos: 0 }
}

fn device(n: u32) -> Device {
    Device {
        id: format!("d-{n}"),
        pretty_name: format!("Device {n}"),
        created: at(1_700_000_000 + 86_400 * i64::from(n)),
    }
}

fn app() -> App {
    let mut app = App::new();
    app.page = PageId::Account;
    app.account = Some(AccountInfo {
        device: DeviceState::LoggedIn(AccountAndDevice {
            account_number: "1234567890123456".to_string(),
            device: device(1),
        }),
        data: Some(AccountData { expiry: at(1_806_582_840) }),
    });
    app.account_state.devices = Some(vec![device(0), device(1), device(2)]);
    app
}

struct Outcome {
    app: App,
    input: InputMode,
    overlay: OverlayMode,
    request: Option<Request>,
}

fn press(mut app: App, id: u32) -> Outcome {
    let mut input = InputMode::Normal;
    let mut overlay = OverlayMode::Hidden;
    let request = activate(&mut app, &mut input, &mut overlay, WidgetId(id));
    Outcome { app, input, overlay, request }
}

fn notice(app: &App) -> String {
    match &app.notification {
        None => String::new(),
        Some(Notification::Message(m)) => m.clone(),
        Some(Notification::ActionFailed { action, error }) => format!("{action}: {error}"),
    }
}

#[test]
fn widget_ids_decode() {
    assert!(owns_top_widget(WidgetId(widgets::MANAGE_DEVICES)));
    assert!(owns_top_widget(WidgetId(widgets::ROTATE_KEY)));
    assert!(!owns_top_widget(WidgetId(widgets::REMOVE_DEVICE_BASE)));
    assert!(!owns_top_widget(WidgetId(0x1f)));
    assert_eq!(remove_device_index(WidgetId(widgets::REMOVE_DEVICE_BASE)), Some(0));
    assert_eq!(remove_device_index(WidgetId(widgets::REMOVE_DEVICE_BASE + 15)), Some(15));
    assert_eq!(remove_device_index(WidgetId(widgets::REMOVE_DEVICE_BASE + 16)), None);
    assert_eq!(remove_device_index(WidgetId(widgets::ROTATE_KEY)), None);
    assert_eq!(
        AccountWidget::from_widget_id(WidgetId(widgets::LOG_IN)),
        Some(AccountWidget::LogIn),
    );
}

#[test]
fn account_numbers_come_in_blocks_of_four() {
    assert_eq!(format_account_number("1234567890123456"), "1234 5678 9012 3456");
    assert_eq!(format_account_number("12345"), "1234 5");
    assert_eq!(format_account_number("1234"), "1234");
    assert_eq!(format_account_number(""), "");
    assert_eq!(format_account_number("ab-déf"), "ab-d éf");
}

#[test]
fn the_number_is_known_while_logged_in() {
    assert_eq!(current_account_number(&app()).as_deref(), Some("1234567890123456"));
    assert_eq!(current_account_number(&App::new()), None);
}

#[test]
fn other_devices_leave_out_the_current_one() {
    let devices = vec![device(0), device(1), device(2)];
    let current = device(1);
    let names = |current: Option<&Device>| -> Vec<String> {
        collect_other_devices(Some(&devices), current).iter().map(|d| d.id.clone()).collect()
    };
    assert_eq!(names(Some(&current)), vec!["d-0", "d-2"]);
    assert_eq!(names(None), vec!["d-0", "d-1", "d-2"]);
    assert!(collect_other_devices(None, Some(&current)).is_empty());
}

#[test]
fn a_remove_row_removes_the_device_it_shows() {
    for (row, id) in [(0, "d-0"), (1, "d-2")] {
        match press(app(), widgets::REMOVE_DEVICE_BASE + row).request {
            Some(Request::RemoveDevice { id: removed }) => assert_eq!(removed, id),
            other => panic!("unexpected request {other:?}"),
        }
    }
    let outcome = press(app(), widgets::REMOVE_DEVICE_BASE + 2);
    assert!(outcome.request.is_none());
    assert_eq!(notice(&outcome.app), "Device row no longer in cache; refresh and retry");
    let outcome = press(App::new(), widgets::REMOVE_DEVICE_BASE);
    assert_eq!(notice(&outcome.app), "Device row no longer in cache; refresh and retry");
}

#[test]
fn buttons_do_what_they_say() {
    let mut outcome = press(app(), widgets::MANAGE_DEVICES);
    assert_eq!(outcome.app.page, PageId::AccountDevices);
    assert!(matches!(outcome.request, Some(Request::ListDevices)));
    outcome.app.leave_sub_page();
    assert_eq!(outcome.app.page, PageId::Account);
    let shown = press(app(), widgets::SHOW_ACCOUNT).app;
    assert!(shown.account_state.account_number_visible);
    let hidden = press(shown, widgets::SHOW_ACCOUNT).app;
    assert!(!hidden.account_state.account_number_visible);
    assert_eq!(
        notice(&press(app(), widgets::BUY_CREDIT).app),
        "Buy more credit at https://mullvad.net/account/ - sign in with your account number",
    );
    assert!(matches!(press(app(), widgets::REDEEM_VOUCHER).input, InputMode::VoucherInput));
    assert!(matches!(press(app(), widgets::LOG_IN).input, InputMode::AccountInput));
    match press(app(), widgets::LOG_OUT).overlay {
        OverlayMode::Confirm { title, message, action, return_focus } => {
            assert_eq!(title, "Confirm logout");
            assert_eq!(message, "Log out from the current Mullvad account session?");
            assert!(matches!(action, ConfirmAction::Logout));
            assert_eq!(return_focus, None);
        }
        OverlayMode::Hidden => panic!("a question is expected"),
    }
    match press(app(), widgets::ROTATE_KEY).overlay {
        OverlayMode::Confirm { title, message, action, .. } => {
            assert_eq!(title, "Rotate WireGuard key");
            assert_eq!(
                message,
                "The daemon will generate a new WireGuard key and register it with Mullvad's API. Connectivity drops briefly while the tunnel swaps onto the new key. Continue?",
            );
            assert!(matches!(action, ConfirmAction::RotateWireGuardKey));
        }
        OverlayMode::Hidden => panic!("a question is expected"),
    }
}

#[test]
fn failures_are_reported() {
    let mut a = app();
    complete(&mut a, &Request::ListDevices, Err("offline".to_string()));
    assert_eq!(notice(&a), "list devices: offline");
    complete(&mut a, &Request::RemoveDevice { id: "d-0".to_string() }, Err("offline".to_string()));
    assert_eq!(notice(&a), "remove device: offline");
    let mut a = app();
    complete(&mut a, &Request::ListDevices, Ok(true));
    assert_eq!(notice(&a), "");
}

#[test]
fn dates_are_local() {
    let data = AccountData { expiry: at(1_806_582_840) };
    assert_eq!(format_account_expiry(&data), format_local(at(1_806_582_840), DATE_AND_TIME));
    assert_eq!(format_created_date(at(1_700_000_000)), format_local(at(1_700_000_000), DATE));
}

fn rows(scene: &Scene) -> Vec<(u16, String)> {
    let mut rows: Vec<(u16, String)> = Vec::new();
    for op in &scene.ops {
        match op {
            Op::Text { area, text, .. } => {
                for (i, line) in text.lines.iter().enumerate() {
                    let content: String = line
                        .spans
                        .iter()
                        .map(|span| match span {
                            TextSpan::Styled { content, .. } => content.as_str(),
                            _ => "",
                        })
                        .collect();
                    rows.push((area.y + i as u16, content));
                }
            }
            Op::CenteredButton { area, label, .. } => rows.push((area.y, format!("[{label}]"))),
            Op::LabelButtonRow { area, label, button, .. } => {
                rows.push((area.y, format!("{label} [{button}]")))
            }
            _ => {}
        }
    }
    rows
}

#[test]
fn the_page_shows_the_account() {
    let mut a = app();
    let area = Rect::new(0, 0, 50, 24);
    let shown = rows(&render(area, &a));
    let expiry = format_local(at(1_806_582_840), DATE_AND_TIME);
    assert_eq!(
        shown,
        vec![
            (0, "Device name [Manage devices]".to_string()),
            (2, "  Device 1".to_string()),
            (4, "Account number".to_string()),
            (6, "  **** **** **** **** [Show]".to_string()),
            (8, "Paid until".to_string()),
            (10, format!("  {expiry}")),
            (12, "[Buy more credit...]".to_string()),
            (14, "[Redeem voucher]".to_string()),
            (23, "[Log out]".to_string()),
        ],
    );
    a.account_state.account_number_visible = true;
    assert_eq!(rows(&render(area, &a))[3].1, "  1234 5678 9012 3456 [Hide]");
    if let Some(info) = &mut a.account {
        info.data = None;
    }
    assert_eq!(rows(&render(area, &a))[5].1, "  (loading…)");
}

#[test]
fn the_page_offers_a_login() {
    let area = Rect::new(0, 0, 70, 10);
    let mut a = App::new();
    assert_eq!(
        rows(&render(area, &a)),
        vec![
            (0, "Account state not yet loaded - waiting for the daemon.".to_string()),
            (2, "[Log in]".to_string()),
        ],
    );
    a.account = Some(AccountInfo { device: DeviceState::LoggedOut, data: None });
    assert_eq!(
        rows(&render(area, &a))[0].1,
        "Not logged in. Press the button below to enter your account number.",
    );
    a.account = Some(AccountInfo { device: DeviceState::Revoked, data: None });
    assert_eq!(
        rows(&render(area, &a))[0].1,
        "Device was revoked from this account. Log in to register a new one.",
    );
}

#[test]
fn the_devices_are_listed() {
    let area = Rect::new(0, 0, 50, 30);
    let date = |n: u32| format_local(device(n).created, DATE);
    assert_eq!(
        rows(&render_devices(area, &app())),
        vec![
            (0, "Manage devices".to_string()),
            (1, String::new()),
            (2, "You can have up to 5 devices on one account.".to_string()),
            (3, String::new()),
            (4, "Current device:".to_string()),
            (5, String::new()),
            (6, "  - Device 1".to_string()),
            (7, format!("    Created: {}", date(1))),
            (8, "[Rotate WireGuard key]".to_string()),
            (10, "Other devices:".to_string()),
            (12, "  - Device 0 [Remove]".to_string()),
            (13, format!("    Created: {}", date(0))),
            (14, "  - Device 2 [Remove]".to_string()),
            (15, format!("    Created: {}", date(2))),
        ],
    );
}

#[test]
fn a_list_that_is_not_there_is_explained() {
    let area = Rect::new(0, 0, 50, 30);
    let mut a = App::new();
    a.account_state.devices_loading = true;
    let shown = rows(&render_devices(area, &a));
    assert_eq!(shown[4].1, "(loading device list…)");
    assert!(shown.iter().any(|row| row.1 == "    (unknown)"));
    assert!(!shown.iter().any(|row| row.1 == "[Rotate WireGuard key]"));
    a.account_state.devices_error = Some("offline".to_string());
    assert_eq!(rows(&render_devices(area, &a))[4].1, "Could not load devices: offline");
}

#[test]
fn no_more_rows_than_ids() {
    let mut a = App::new();
    a.account_state.devices = Some((0..20).map(device).collect());
    let shown = rows(&render_devices(Rect::new(0, 0, 50, 60), &a));
    assert_eq!(shown.iter().filter(|row| row.1.ends_with("[Remove]")).count(), 16);
}
