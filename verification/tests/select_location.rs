//! The Select-location page: its tree, its search and its arrow keys.

use mullvad_tui::app::select_location::NodeKind;
use mullvad_tui::app::{App, Notification, PageId, Request};
use mullvad_tui::daemon::{
    DaitaSettings, DnsBlockers, DnsSettings, LocationConstraint, ObfuscationSettings,
    RelayLocation, RelaySettings, SelectedObfuscation, Settings, SplitTunnelSettings,
};
use mullvad_tui::focus::{ArrowDir, WidgetId};
use mullvad_tui::pages::select_location::rows::{
    centered_scroll_offset, collect_visible_rows, first_child_row_index, parent_row_index,
};
use mullvad_tui::pages::select_location::tree::{filter_tree, hostname_matches, project_tree};
use mullvad_tui::pages::select_location::widgets::{
    CITY_CHEVRON_BASE, CITY_MAX, CITY_RADIO_BASE, COUNTRY_CHEVRON_BASE, COUNTRY_MAX,
    COUNTRY_RADIO_BASE, ENTRY_TAB, EXIT_TAB, FILTER_BUTTON, RELAY_MAX, RELAY_RADIO_BASE,
    SEARCH_ANCHOR,
};
use mullvad_tui::pages::select_location::{
    activate, city_chevron_index, city_radio_index, complete, country_chevron_index,
    country_radio_index, enter_with_current_selection_focused, handle_tree_arrow, owns_tree_row, owns_widget,
    project_filtered_tree, relay_radio_index,
};

fn default_settings() -> Settings {
    Settings {
        relay_settings: RelaySettings::Normal {
            exit: LocationConstraint::Country("se".to_string()),
            entry: LocationConstraint::Country("se".to_string()),
        },
        use_multihop: false,
        ip_version: None,
        allow_lan: false,
        lockdown_mode: false,
        auto_connect: false,
        enable_ipv6: true,
        quantum_resistant: true,
        mtu: None,
        daita: DaitaSettings { enabled: false, use_multihop_if_necessary: true },
        obfuscation_settings: ObfuscationSettings {
            selected_obfuscation: SelectedObfuscation::Auto,
            udp2tcp_port: None,
            shadowsocks_port: None,
            wireguard_port: None,
        },
        dns: DnsSettings {
            custom: false,
            addresses: Vec::new(),
            blockers: DnsBlockers {
                ads: false,
                trackers: false,
                malware: false,
                adult_content: false,
                gambling: false,
                social_media: false,
            },
        },
        split_tunnel: SplitTunnelSettings { enabled: false, apps: Vec::new() },
        api_access_methods: Vec::new(),
        relay_overrides: Vec::new(),
    }
}

fn settings_with_location(location: LocationConstraint) -> Settings {
    let mut settings = default_settings();
    settings.relay_settings = RelaySettings::Normal {
        exit: location,
        entry: LocationConstraint::Country("se".to_string()),
    };
    settings
}

fn relay(hostname: &str, country: (&str, &str), city: (&str, &str)) -> RelayLocation {
    RelayLocation {
        hostname: hostname.to_string(),
        country_code: country.0.to_string(),
        country_name: country.1.to_string(),
        city_code: city.0.to_string(),
        city_name: city.1.to_string(),
    }
}

fn test_app_with_relays() -> App {
    let mut app = App::new();
    app.relay_locations = vec![
        relay("se-got-wg-001", ("se", "Sweden"), ("got", "Gothenburg")),
        relay("us-nyc-wg-001", ("us", "USA"), ("nyc", "New York")),
        relay("us-lax-wg-001", ("us", "USA"), ("lax", "Los Angeles")),
    ];
    app
}

fn test_app_with_many_relays() -> App {
    let mut app = App::new();
    app.relay_locations = vec![
        relay("ar-bue-wg-001", ("ar", "Argentina"), ("bue", "Buenos Aires")),
        relay("au-bne-wg-301", ("au", "Australia"), ("bne", "Brisbane")),
        relay("au-syd-wg-001", ("au", "Australia"), ("syd", "Sydney")),
        relay("de-fra-wg-001", ("de", "Germany"), ("fra", "Frankfurt")),
        relay("se-got-wg-001", ("se", "Sweden"), ("got", "Gothenburg")),
        relay("us-lax-wg-001", ("us", "USA"), ("lax", "Los Angeles")),
        relay("us-nyc-wg-001", ("us", "USA"), ("nyc", "New York")),
        relay("us-nyc-wg-002", ("us", "USA"), ("nyc", "New York")),
    ];
    app
}

fn focus_country_radio(app: &mut App, country_idx: u32) {
    app.focused = Some(WidgetId(COUNTRY_RADIO_BASE + country_idx));
}

fn focus_city_radio(app: &mut App, city_idx: u32) {
    app.focused = Some(WidgetId(CITY_RADIO_BASE + city_idx));
}

fn focus_relay_radio(app: &mut App, relay_idx: u32) {
    app.focused = Some(WidgetId(RELAY_RADIO_BASE + relay_idx));
}

fn dispatch(app: &mut App, dir: ArrowDir) -> bool {
    let focused = app.focused.expect("focus set in test setup");
    handle_tree_arrow(app, focused, dir)
}

#[test]
fn widget_id_decoders_are_disjoint() {
    let country_radio = WidgetId(COUNTRY_RADIO_BASE + 5);
    assert_eq!(country_radio_index(country_radio), Some(5));
    assert_eq!(city_radio_index(country_radio), None);
    assert_eq!(relay_radio_index(country_radio), None);

    let city_radio = WidgetId(CITY_RADIO_BASE + 12);
    assert_eq!(city_radio_index(city_radio), Some(12));
    assert_eq!(country_radio_index(city_radio), None);
    assert_eq!(relay_radio_index(city_radio), None);

    let relay_radio = WidgetId(RELAY_RADIO_BASE + 100);
    assert_eq!(relay_radio_index(relay_radio), Some(100));
    assert_eq!(country_radio_index(relay_radio), None);
    assert_eq!(city_radio_index(relay_radio), None);
}

#[test]
fn owns_widget_recognizes_static_and_dynamic_ids() {
    assert!(owns_widget(WidgetId(SEARCH_ANCHOR)));
    assert!(owns_widget(WidgetId(FILTER_BUTTON)));
    assert!(owns_widget(WidgetId(ENTRY_TAB)));
    assert!(owns_widget(WidgetId(EXIT_TAB)));
    assert!(owns_widget(WidgetId(COUNTRY_RADIO_BASE)));
    assert!(owns_widget(WidgetId(RELAY_RADIO_BASE + RELAY_MAX - 1)));
    assert!(owns_widget(WidgetId(COUNTRY_CHEVRON_BASE)));
    assert!(owns_widget(WidgetId(CITY_CHEVRON_BASE + CITY_MAX - 1)));
    assert!(!owns_widget(WidgetId(0x40)));
    assert!(!owns_widget(WidgetId(CITY_CHEVRON_BASE + CITY_MAX)));
}

#[test]
fn empty_query_is_passthrough_and_keeps_full_tree() {
    let app = test_app_with_relays();
    let unfiltered = project_tree(&app);
    let filtered = filter_tree(project_tree(&app), "");
    assert_eq!(unfiltered.len(), filtered.len());
    assert_eq!(
        unfiltered.iter().map(|c| c.code).collect::<Vec<_>>(),
        filtered.iter().map(|c| c.code).collect::<Vec<_>>(),
    );
}

#[test]
fn filter_by_country_name_keeps_full_relay_lists_without_force_expanding() {
    let app = test_app_with_relays();
    let filtered = filter_tree(project_tree(&app), "usa");
    let codes: Vec<&str> = filtered.iter().map(|c| c.code).collect();
    assert_eq!(codes, vec!["us"]);
    let us = &filtered[0];
    let city_codes: Vec<&str> = us.cities.iter().map(|c| c.code).collect();
    assert_eq!(city_codes, vec!["lax", "nyc"]);
    for city in &us.cities {
        assert!(
            !city.force_expand_under_filter,
            "country match should not force-expand {:?}",
            city.code,
        );
        assert!(
            !city.relays.is_empty(),
            "city {:?} should keep its full relay list for manual expansion",
            city.code,
        );
    }
}

#[test]
fn filter_by_city_name_keeps_only_matching_subtree() {
    let app = test_app_with_relays();
    let filtered = filter_tree(project_tree(&app), "gothen");
    assert_eq!(filtered.len(), 1, "only Sweden survives");
    let se = &filtered[0];
    assert_eq!(se.code, "se");
    let cities: Vec<&str> = se.cities.iter().map(|c| c.code).collect();
    assert_eq!(cities, vec!["got"]);
}

#[test]
fn filter_by_relay_hostname_keeps_only_matching_relay() {
    let app = test_app_with_relays();
    let filtered = filter_tree(project_tree(&app), "lax");
    assert_eq!(filtered.len(), 1);
    let us = &filtered[0];
    assert_eq!(
        us.cities.len(),
        1,
        "only Los Angeles survives, not New York"
    );
    let lax = &us.cities[0];
    let hosts: Vec<&str> = lax.relays.iter().map(|r| r.hostname.as_str()).collect();
    assert_eq!(hosts, vec!["us-lax-wg-001"]);
}

#[test]
fn filter_with_no_matches_yields_empty_tree() {
    let app = test_app_with_relays();
    let filtered = filter_tree(project_tree(&app), "zzz-no-such-relay");
    assert!(filtered.is_empty());
}

#[test]
fn filter_with_single_letter_inside_wg_only_does_not_match_wireguard_relay() {
    let mut app = App::new();
    app.relay_locations = vec![RelayLocation {
        hostname: "fr-mrs-wg-001".to_string(),
        country_name: "France".to_string(),
        country_code: "fr".to_string(),
        city_name: "Marseille".to_string(),
        city_code: "mrs".to_string(),
    }];
    for piece in ["france", "fr", "marseille", "mrs"] {
        assert!(!piece.contains('w') && !piece.contains('g'));
    }

    for needle in ["w", "g", "wg"] {
        let filtered = filter_tree(project_tree(&app), needle);
        let total: usize = filtered
            .iter()
            .map(|c| c.cities.iter().map(|ci| ci.relays.len()).sum::<usize>())
            .sum();
        assert_eq!(
            total, 0,
            "needle {needle:?} should not match a relay whose only \
             `w`/`g` characters live inside `-wg-`; got {total} relay(s)",
        );
    }
}

#[test]
fn filter_with_query_wg_does_not_trivially_match_every_wireguard_relay() {
    let app = test_app_with_relays();
    let filtered = filter_tree(project_tree(&app), "wg");
    assert!(
        filtered.is_empty(),
        "`wg` shouldn't match every WireGuard relay; got {} country(ies) back",
        filtered.len(),
    );
}

#[test]
fn filter_still_matches_hostnames_outside_the_protocol_segment() {
    let app = test_app_with_relays();
    let filtered = filter_tree(project_tree(&app), "001");
    let count: usize = filtered
        .iter()
        .map(|c| c.cities.iter().map(|ci| ci.relays.len()).sum::<usize>())
        .sum();
    assert_eq!(
        count, 3,
        "`001` should match the relay-number suffix on every fixture relay",
    );
}

#[test]
fn hostname_matches_rejects_query_entirely_inside_wg_segment() {
    assert!(!hostname_matches("se-got-wg-001", "wg"));
    assert!(!hostname_matches("se-got-wg-001", "-wg"));
    assert!(!hostname_matches("se-got-wg-001", "wg-"));
    assert!(!hostname_matches("se-got-wg-001", "-wg-"));
}

#[test]
fn hostname_matches_accepts_query_that_extends_beyond_wg_segment() {
    assert!(hostname_matches("se-got-wg-001", "got-wg"));
    assert!(hostname_matches("se-got-wg-001", "wg-001"));
    assert!(hostname_matches("se-got-wg-001", "got"));
    assert!(hostname_matches("se-got-wg-001", "001"));
    assert!(hostname_matches("se-got-wg-001", "se-got-wg-001"));
}

#[test]
fn hostname_matches_is_case_insensitive() {
    assert!(hostname_matches("US-LAX-WG-001", "lax"));
    assert!(!hostname_matches("US-LAX-WG-001", "wg"));
}

#[test]
fn hostname_matches_falls_back_to_plain_substring_without_wg_segment() {
    assert!(hostname_matches("ovpn-bridge-12", "bridge"));
    assert!(!hostname_matches("ovpn-bridge-12", "wg"));
}

#[test]
fn enter_with_country_selection_focuses_country_row_without_expansions() {
    let mut app = test_app_with_relays();
    app.settings = Some(settings_with_location(LocationConstraint::Country("us".to_string())));

    enter_with_current_selection_focused(&mut app);
    let tree = project_tree(&app);
    let us_idx = tree.iter().position(|c| c.code == "us").unwrap();
    assert_eq!(
        app.focused,
        Some(WidgetId(COUNTRY_RADIO_BASE + us_idx as u32))
    );
    assert!(!app.select_location_state.is_country_expanded("us"));
}

#[test]
fn enter_with_city_selection_expands_country_and_focuses_city_row() {
    let mut app = test_app_with_many_relays();
    app.settings = Some(settings_with_location(LocationConstraint::City {
        country: "au".to_string(),
        city: "syd".to_string(),
    }));

    enter_with_current_selection_focused(&mut app);
    assert!(app.select_location_state.is_country_expanded("au"));
    assert_eq!(
        app.focused,
        Some(WidgetId(CITY_RADIO_BASE + 1))
    );
}

#[test]
fn enter_with_hostname_selection_expands_country_and_city_and_focuses_relay() {
    let mut app = test_app_with_many_relays();
    app.settings = Some(settings_with_location(LocationConstraint::Hostname(
        "us-nyc-wg-002".to_string(),
    )));

    enter_with_current_selection_focused(&mut app);

    let state = app.select_location_state;
    assert!(state.is_country_expanded("us"));
    assert!(state.is_city_expanded("us", "nyc"));
    assert_eq!(
        app.focused,
        Some(WidgetId(RELAY_RADIO_BASE + 1))
    );
}

#[test]
fn enter_with_no_concrete_selection_leaves_focus_for_default_snap() {
    let mut app = test_app_with_relays();
    app.settings = Some(settings_with_location(LocationConstraint::Any));
    app.focused = Some(WidgetId(SEARCH_ANCHOR));

    enter_with_current_selection_focused(&mut app);

    assert_eq!(app.focused, Some(WidgetId(SEARCH_ANCHOR)));
    assert!(!app.select_location_state.is_country_expanded("se"));
    assert!(!app.select_location_state.is_country_expanded("us"));
}

#[test]
fn entering_then_leaving_select_location_restores_status_button_focus() {
    let mut app = test_app_with_relays();
    app.settings = Some(settings_with_location(LocationConstraint::Country("us".to_string())));
    let activating = WidgetId(0x10 + 1);
    app.focused = Some(activating);

    enter_with_current_selection_focused(&mut app);
    let tree = project_tree(&app);
    let us_idx = tree.iter().position(|c| c.code == "us").unwrap();
    assert_eq!(
        app.focused,
        Some(WidgetId(COUNTRY_RADIO_BASE + us_idx as u32))
    );
    app.leave_sub_page();
    assert_eq!(app.focused, Some(activating));
}

#[test]
fn centered_scroll_offset_places_focus_at_window_midline() {
    assert_eq!(centered_scroll_offset(Some(50), 100, 11), 45);
}

#[test]
fn centered_scroll_offset_clamps_at_top_and_bottom() {
    assert_eq!(centered_scroll_offset(Some(2), 100, 11), 0);
    assert_eq!(centered_scroll_offset(Some(98), 100, 11), 89);
}

#[test]
fn centered_scroll_offset_returns_zero_when_list_fits() {
    assert_eq!(centered_scroll_offset(Some(3), 5, 10), 0);
    assert_eq!(centered_scroll_offset(None, 100, 11), 0);
    assert_eq!(centered_scroll_offset(Some(50), 100, 0), 0);
}

#[test]
fn project_tree_groups_by_country_then_city() {
    let mut app = App::new();
    app.relay_locations = vec![
        RelayLocation {
            hostname: "se-got-wg-001".to_string(),
            country_name: "Sweden".to_string(),
            country_code: "se".to_string(),
            city_name: "Gothenburg".to_string(),
            city_code: "got".to_string(),
        },
        RelayLocation {
            hostname: "us-nyc-wg-001".to_string(),
            country_name: "USA".to_string(),
            country_code: "us".to_string(),
            city_name: "New York".to_string(),
            city_code: "nyc".to_string(),
        },
        RelayLocation {
            hostname: "se-got-wg-002".to_string(),
            country_name: "Sweden".to_string(),
            country_code: "se".to_string(),
            city_name: "Gothenburg".to_string(),
            city_code: "got".to_string(),
        },
    ];
    let tree = project_tree(&app);
    assert_eq!(tree.len(), 2);
    assert_eq!(tree[0].code, "se");
    assert_eq!(tree[0].cities.len(), 1);
    assert_eq!(tree[0].cities[0].relays.len(), 2);
    assert_eq!(tree[1].code, "us");
}

#[test]
fn right_on_collapsed_city_under_country_name_match_expands_it() {
    let mut app = test_app_with_many_relays();
    for ch in "us".chars() {
        app.select_location_state.query.push(ch);
    }
    let tree = project_filtered_tree(&app);
    let au = tree
        .iter()
        .find(|c| c.code == "au")
        .expect("Australia kept by country-name match");
    let bne = au
        .cities
        .iter()
        .find(|c| c.code == "bne")
        .expect("Brisbane kept under Australia");
    assert!(
        !bne.force_expand_under_filter,
        "Brisbane has no hostname match for `us` (and the country match \
         would shadow it anyway), so it should not force-expand",
    );
    focus_city_radio(&mut app, 0);

    let consumed = dispatch(&mut app, ArrowDir::Right);

    assert!(consumed);
    assert!(
        app.select_location_state.is_city_expanded("au", "bne"),
        "Right should toggle the city's manual-expand state",
    );
}

#[test]
fn left_on_manually_expanded_city_under_country_name_match_collapses_it() {
    let mut app = test_app_with_many_relays();
    for ch in "us".chars() {
        app.select_location_state.query.push(ch);
    }
    app.select_location_state.expand_city("au", "bne");
    focus_city_radio(&mut app, 0);

    let consumed = dispatch(&mut app, ArrowDir::Left);

    assert!(consumed);
    assert!(
        !app.select_location_state.is_city_expanded("au", "bne"),
        "Left should collapse a manually-expanded name-only-matched city",
    );
}

#[test]
fn left_on_force_expanded_city_does_not_collapse() {
    let mut app = test_app_with_many_relays();
    for ch in "lax".chars() {
        app.select_location_state.query.push(ch);
    }
    focus_city_radio(&mut app, 0);

    let consumed = dispatch(&mut app, ArrowDir::Left);

    assert!(consumed);
    assert!(
        !app.select_location_state.is_city_expanded("us", "lax"),
        "Left must not toggle the manual-collapse state of a force-expanded city",
    );
}

#[test]
fn right_on_collapsed_country_expands_it() {
    let mut app = test_app_with_many_relays();
    focus_country_radio(&mut app, 1);
    let before = app.focused;

    let consumed = dispatch(&mut app, ArrowDir::Right);

    assert!(consumed);
    assert!(app.select_location_state.is_country_expanded("au"));
    assert_eq!(
        app.focused,
        before,
        "focus stays on the country it just expanded",
    );
}

#[test]
fn right_on_expanded_country_focuses_first_city() {
    let mut app = test_app_with_many_relays();
    app.select_location_state.expand_country("au");
    focus_country_radio(&mut app, 1);

    let consumed = dispatch(&mut app, ArrowDir::Right);

    assert!(consumed);
    assert_eq!(
        app.focused,
        Some(WidgetId(CITY_RADIO_BASE)),
        "focus moved to first child city",
    );
}

#[test]
fn right_on_collapsed_city_expands_it() {
    let mut app = test_app_with_many_relays();
    app.select_location_state.expand_country("au");
    focus_city_radio(&mut app, 0);

    let consumed = dispatch(&mut app, ArrowDir::Right);

    assert!(consumed);
    assert!(
        app.select_location_state.is_city_expanded("au", "bne")
    );
}

#[test]
fn right_on_expanded_city_focuses_first_relay() {
    let mut app = test_app_with_many_relays();
    app.select_location_state.expand_country("au");
    app.select_location_state.expand_city("au", "bne");
    focus_city_radio(&mut app, 0);

    let consumed = dispatch(&mut app, ArrowDir::Right);

    assert!(consumed);
    assert_eq!(app.focused, Some(WidgetId(RELAY_RADIO_BASE)));
}

#[test]
fn right_on_relay_falls_through_to_down() {
    let mut app = test_app_with_many_relays();
    app.select_location_state.expand_country("us");
    app.select_location_state.expand_city("us", "nyc");
    focus_relay_radio(&mut app, 0);
    let before = app.focused;

    let consumed = dispatch(&mut app, ArrowDir::Right);

    assert!(!consumed, "leaf relay falls through so run loop runs Down");
    assert_eq!(
        app.focused,
        before,
        "handle_tree_arrow doesn't move focus on pass-through",
    );
}

#[test]
fn left_on_expanded_country_collapses_it() {
    let mut app = test_app_with_many_relays();
    app.select_location_state.expand_country("au");
    focus_country_radio(&mut app, 1);
    let before = app.focused;

    let consumed = dispatch(&mut app, ArrowDir::Left);

    assert!(consumed);
    assert!(!app.select_location_state.is_country_expanded("au"));
    assert_eq!(app.focused, before);
}

#[test]
fn left_on_expanded_city_collapses_it() {
    let mut app = test_app_with_many_relays();
    app.select_location_state.expand_country("au");
    app.select_location_state.expand_city("au", "bne");
    focus_city_radio(&mut app, 0);
    let before = app.focused;

    let consumed = dispatch(&mut app, ArrowDir::Left);

    assert!(consumed);
    assert!(
        !app.select_location_state.is_city_expanded("au", "bne")
    );
    assert_eq!(app.focused, before);
}

#[test]
fn left_on_collapsed_city_focuses_parent_country() {
    let mut app = test_app_with_many_relays();
    app.select_location_state.expand_country("au");
    focus_city_radio(&mut app, 0);

    let consumed = dispatch(&mut app, ArrowDir::Left);

    assert!(consumed);
    assert_eq!(
        app.focused,
        Some(WidgetId(COUNTRY_RADIO_BASE + 1)),
        "focus moves to parent country (au)",
    );
}

#[test]
fn left_on_relay_focuses_parent_city() {
    let mut app = test_app_with_many_relays();
    app.select_location_state.expand_country("au");
    app.select_location_state.expand_city("au", "bne");
    focus_relay_radio(&mut app, 0);

    let consumed = dispatch(&mut app, ArrowDir::Left);

    assert!(consumed);
    assert_eq!(app.focused, Some(WidgetId(CITY_RADIO_BASE)));
    assert!(
        app.select_location_state.is_city_expanded("au", "bne"),
        "city stays expanded; we only moved focus, not collapsed",
    );
}

#[test]
fn left_on_collapsed_top_level_country_is_noop() {
    let mut app = test_app_with_many_relays();
    focus_country_radio(&mut app, 1);
    let before = app.focused;

    let consumed = dispatch(&mut app, ArrowDir::Left);

    assert!(consumed, "key consumed so generic Left doesn't fire");
    assert!(!app.select_location_state.is_country_expanded("au"));
    assert_eq!(app.focused, before);
}

#[test]
fn arrows_on_search_anchor_are_not_consumed_by_tree_handler() {
    assert!(!owns_tree_row(WidgetId(SEARCH_ANCHOR)));
    assert!(!owns_tree_row(WidgetId(FILTER_BUTTON)));
    assert!(owns_tree_row(WidgetId(COUNTRY_RADIO_BASE)));
    assert!(owns_tree_row(WidgetId(CITY_RADIO_BASE)));
    assert!(owns_tree_row(WidgetId(RELAY_RADIO_BASE)));
}

#[test]
fn under_filter_left_on_country_does_not_collapse_persisted_bit() {
    let mut app = test_app_with_many_relays();
    app.select_location_state.expand_country("au");
    app.select_location_state.query.push('a');
    app.select_location_state.query.push('u');
    focus_country_radio(&mut app, 0);

    let consumed = dispatch(&mut app, ArrowDir::Left);

    assert!(consumed);
    assert!(
        app.select_location_state.is_country_expanded("au"),
        "<- under filter does not clear the persisted bit",
    );
}

#[test]
fn under_filter_right_on_country_focuses_first_child() {
    let mut app = test_app_with_many_relays();
    app.select_location_state.query.push('a');
    app.select_location_state.query.push('u');
    focus_country_radio(&mut app, 0);

    let consumed = dispatch(&mut app, ArrowDir::Right);

    assert!(consumed);
    assert!(
        !app.select_location_state.is_country_expanded("au"),
        "persisted bit unchanged under filter",
    );
    assert_eq!(
        app.focused,
        Some(WidgetId(CITY_RADIO_BASE)),
        "focus moved to first city (force-expand treats it as already expanded)",
    );
}

#[test]
fn chevron_widget_id_decoders_are_disjoint_from_radio_ids() {
    let cc = WidgetId(COUNTRY_CHEVRON_BASE + 3);
    assert_eq!(country_chevron_index(cc), Some(3));
    assert_eq!(country_radio_index(cc), None);
    assert_eq!(city_radio_index(cc), None);
    assert_eq!(relay_radio_index(cc), None);

    let cy = WidgetId(CITY_CHEVRON_BASE + 7);
    assert_eq!(city_chevron_index(cy), Some(7));
    assert_eq!(country_chevron_index(cy), None);
    assert_eq!(city_radio_index(cy), None);
}

#[test]
fn owns_widget_recognizes_chevron_ids() {
    assert!(owns_widget(WidgetId(COUNTRY_CHEVRON_BASE)));
    assert!(owns_widget(WidgetId(CITY_CHEVRON_BASE)));
    assert!(owns_widget(WidgetId(
        COUNTRY_CHEVRON_BASE + COUNTRY_MAX - 1
    )));
    assert!(!owns_widget(WidgetId(CITY_CHEVRON_BASE + CITY_MAX)));
}

#[test]
fn chevron_click_on_collapsed_country_expands_it_and_focuses_radio() {
    let mut app = test_app_with_many_relays();
    assert!(!app.select_location_state.is_country_expanded("au"));

    let request = activate(&mut app, WidgetId(COUNTRY_CHEVRON_BASE + 1));
    assert!(request.is_none());

    assert!(app.select_location_state.is_country_expanded("au"));
    assert_eq!(
        app.focused,
        Some(WidgetId(COUNTRY_RADIO_BASE + 1)),
        "focus snaps to the row's radio so subsequent arrow nav makes sense",
    );
}

#[test]
fn chevron_click_on_expanded_country_collapses_it() {
    let mut app = test_app_with_many_relays();
    app.select_location_state.expand_country("au");

    let request = activate(&mut app, WidgetId(COUNTRY_CHEVRON_BASE + 1));
    assert!(request.is_none());

    assert!(!app.select_location_state.is_country_expanded("au"));
    assert_eq!(
        app.focused,
        Some(WidgetId(COUNTRY_RADIO_BASE + 1)),
    );
}

#[test]
fn chevron_click_on_force_expanded_country_under_filter_is_noop() {
    let mut app = test_app_with_many_relays();
    app.select_location_state.query.push('a');
    app.select_location_state.query.push('u');
    assert!(!app.select_location_state.is_country_expanded("au"));

    let request = activate(&mut app, WidgetId(COUNTRY_CHEVRON_BASE));
    assert!(request.is_none());

    assert!(
        !app.select_location_state.is_country_expanded("au"),
        "click on a force-expanded country must not flip the persisted bit",
    );
}

#[test]
fn chevron_click_on_collapsed_city_expands_it() {
    let mut app = test_app_with_many_relays();
    app.select_location_state.expand_country("au");
    assert!(
        !app.select_location_state.is_city_expanded("au", "bne")
    );

    let request = activate(&mut app, WidgetId(CITY_CHEVRON_BASE));
    assert!(request.is_none());

    assert!(
        app.select_location_state.is_city_expanded("au", "bne")
    );
    assert_eq!(app.focused, Some(WidgetId(CITY_RADIO_BASE)),);
}

#[test]
fn chevron_click_on_expanded_city_collapses_it() {
    let mut app = test_app_with_many_relays();
    app.select_location_state.expand_country("au");
    app.select_location_state.expand_city("au", "bne");

    let request = activate(&mut app, WidgetId(CITY_CHEVRON_BASE));
    assert!(request.is_none());

    assert!(
        !app.select_location_state.is_city_expanded("au", "bne")
    );
}

#[test]
fn chevron_click_on_force_expanded_city_under_filter_is_noop() {
    let mut app = test_app_with_many_relays();
    for ch in "301".chars() {
        app.select_location_state.query.push(ch);
    }
    assert!(
        !app.select_location_state.is_city_expanded("au", "bne")
    );

    let request = activate(&mut app, WidgetId(CITY_CHEVRON_BASE));
    assert!(request.is_none());

    assert!(
        !app.select_location_state.is_city_expanded("au", "bne"),
        "click on a force-expanded city must not flip the persisted bit",
    );
}

#[test]
fn filtering_twice_is_filtering_once() {
    let app = test_app_with_many_relays();
    let once = filter_tree(project_tree(&app), "us");
    let codes: Vec<String> = once.iter().map(|c| c.code.to_string()).collect();
    let twice = filter_tree(once, "us");
    assert_eq!(codes, vec!["au", "us"]);
    assert_eq!(twice.iter().map(|c| c.code).collect::<Vec<_>>(), codes);
}

#[test]
fn a_search_ignores_case() {
    let app = test_app_with_many_relays();
    for query in ["SWEDEN", "sweden", "SwEdEn"] {
        let tree = filter_tree(project_tree(&app), query);
        assert_eq!(tree.iter().map(|c| c.code).collect::<Vec<_>>(), vec!["se"], "{query}");
    }
}

#[test]
fn every_relay_stands_under_its_city() {
    let app = test_app_with_many_relays();
    let tree = project_tree(&app);
    let mut listed: Vec<(String, String, String)> = Vec::new();
    for country in &tree {
        for city in &country.cities {
            for relay in &city.relays {
                assert_eq!(relay.country_code, country.code);
                assert_eq!(relay.city_code, city.code);
                listed.push((
                    country.code.to_string(),
                    city.code.to_string(),
                    relay.hostname.clone(),
                ));
            }
        }
    }
    assert_eq!(listed.len(), app.relay_locations.len());
    let mut sorted = listed.clone();
    sorted.sort();
    assert_eq!(listed, sorted);
}

#[test]
fn a_chevron_clicked_twice_changes_nothing() {
    let mut app = test_app_with_many_relays();
    let _ = activate(&mut app, WidgetId(COUNTRY_CHEVRON_BASE + 1));
    let _ = activate(&mut app, WidgetId(COUNTRY_CHEVRON_BASE + 1));
    assert!(!app.select_location_state.is_country_expanded("au"));
    app.select_location_state.expand_country("au");
    let _ = activate(&mut app, WidgetId(CITY_CHEVRON_BASE + 1));
    let _ = activate(&mut app, WidgetId(CITY_CHEVRON_BASE + 1));
    assert!(!app.select_location_state.is_city_expanded("au", "syd"));
}

#[test]
fn a_row_picks_the_place_it_shows() {
    let mut app = test_app_with_many_relays();
    match activate(&mut app, WidgetId(COUNTRY_RADIO_BASE + 3)) {
        Some(Request::SelectCountry { node: NodeKind::Exit, country }) => assert_eq!(country, "se"),
        other => panic!("unexpected request {other:?}"),
    }
    app.select_location_state.expand_country("us");
    match activate(&mut app, WidgetId(CITY_RADIO_BASE + 1)) {
        Some(Request::SelectCity { node: NodeKind::Exit, country, city }) => {
            assert_eq!((country.as_str(), city.as_str()), ("us", "nyc"))
        }
        other => panic!("unexpected request {other:?}"),
    }
    app.select_location_state.expand_city("us", "nyc");
    match activate(&mut app, WidgetId(RELAY_RADIO_BASE + 1)) {
        Some(Request::SelectRelay { node: NodeKind::Exit, hostname }) => {
            assert_eq!(hostname, "us-nyc-wg-002")
        }
        other => panic!("unexpected request {other:?}"),
    }
    assert!(activate(&mut app, WidgetId(RELAY_RADIO_BASE + 2)).is_none());
    assert!(activate(&mut app, WidgetId(COUNTRY_RADIO_BASE + 5)).is_none());
}

#[test]
fn both_ends_may_not_share_a_location() {
    let mut app = test_app_with_many_relays();
    let mut settings = default_settings();
    settings.use_multihop = true;
    app.settings = Some(settings);
    let request = activate(&mut app, WidgetId(COUNTRY_RADIO_BASE + 3));
    assert!(request.is_none());
    match &app.notification {
        Some(Notification::Message(m)) => {
            assert_eq!(m, "Can't use the same location for entry and exit")
        }
        other => panic!("unexpected notification {other:?}"),
    }
    assert!(activate(&mut app, WidgetId(COUNTRY_RADIO_BASE)).is_some());
}

#[test]
fn picking_the_exit_closes_the_page_and_picking_the_entry_turns_to_the_exit() {
    let mut app = test_app_with_many_relays();
    let mut settings = default_settings();
    settings.use_multihop = true;
    app.settings = Some(settings);
    enter_with_current_selection_focused(&mut app);
    app.select_location_state.set_node_mode(NodeKind::Entry);
    let request = activate(&mut app, WidgetId(COUNTRY_RADIO_BASE)).expect("a request");
    assert!(matches!(&request, Request::SelectCountry { node: NodeKind::Entry, .. }));
    complete(&mut app, &request, Ok(true));
    assert_eq!(app.page, PageId::SelectLocation);
    assert_eq!(app.select_location_state.node_mode, NodeKind::Exit);
    assert_eq!(app.focused, Some(WidgetId(COUNTRY_RADIO_BASE + 3)));
    let request = activate(&mut app, WidgetId(COUNTRY_RADIO_BASE)).expect("a request");
    complete(&mut app, &request, Err("gone".to_string()));
    assert_eq!(app.page, PageId::SelectLocation);
    match &app.notification {
        Some(Notification::ActionFailed { action, error }) => {
            assert_eq!((action.as_str(), error.as_str()), ("select country", "gone"))
        }
        other => panic!("unexpected notification {other:?}"),
    }
    complete(&mut app, &request, Ok(true));
    assert_eq!(app.page, PageId::Status);
}

#[test]
fn tabs_turn_to_their_end() {
    let mut app = test_app_with_many_relays();
    let mut settings = default_settings();
    settings.use_multihop = true;
    app.settings = Some(settings);
    assert!(activate(&mut app, WidgetId(ENTRY_TAB)).is_none());
    assert_eq!(app.select_location_state.node_mode, NodeKind::Entry);
    assert_eq!(app.focused, Some(WidgetId(COUNTRY_RADIO_BASE + 3)));
    assert!(activate(&mut app, WidgetId(EXIT_TAB)).is_none());
    assert_eq!(app.select_location_state.node_mode, NodeKind::Exit);
    if let Some(settings) = &mut app.settings {
        settings.daita.enabled = true;
    }
    let _ = activate(&mut app, WidgetId(ENTRY_TAB));
    assert_eq!(app.focused, Some(WidgetId(ENTRY_TAB)));
}

#[test]
fn the_filter_button_opens_the_filter_page() {
    let mut app = test_app_with_relays();
    app.page = PageId::SelectLocation;
    app.focused = Some(WidgetId(FILTER_BUTTON));
    assert!(activate(&mut app, WidgetId(FILTER_BUTTON)).is_none());
    assert_eq!(app.page, PageId::SelectLocationFilter);
    app.leave_sub_page();
    assert_eq!(app.page, PageId::SelectLocation);
    assert_eq!(app.focused, Some(WidgetId(FILTER_BUTTON)));
}

#[test]
fn a_city_of_another_country_with_the_same_code_may_be_picked() {
    let mut app = App::new();
    app.relay_locations = vec![
        relay("ca-van-wg-001", ("ca", "Canada"), ("van", "Vancouver")),
        relay("us-van-wg-001", ("us", "USA"), ("van", "Vancouver")),
    ];
    let mut settings = default_settings();
    settings.use_multihop = true;
    settings.relay_settings = RelaySettings::Normal {
        exit: LocationConstraint::Any,
        entry: LocationConstraint::City { country: "us".to_string(), city: "van".to_string() },
    };
    app.settings = Some(settings);
    app.select_location_state.expand_country("ca");
    app.select_location_state.expand_country("us");
    match activate(&mut app, WidgetId(CITY_RADIO_BASE)) {
        Some(Request::SelectCity { node: NodeKind::Exit, country, city }) => {
            assert_eq!((country.as_str(), city.as_str()), ("ca", "van"))
        }
        other => panic!("unexpected request {other:?}"),
    }
    assert!(app.notification.is_none());
    assert!(activate(&mut app, WidgetId(CITY_RADIO_BASE + 1)).is_none());
    match &app.notification {
        Some(Notification::Message(m)) => {
            assert_eq!(m, "Can't use the same location for entry and exit")
        }
        other => panic!("unexpected notification {other:?}"),
    }
}

#[test]
fn arrows_on_a_chevron_are_not_used_up() {
    let mut app = test_app_with_many_relays();
    app.select_location_state.expand_country("au");
    for chevron in [COUNTRY_CHEVRON_BASE, COUNTRY_CHEVRON_BASE + 1, CITY_CHEVRON_BASE] {
        for dir in [ArrowDir::Left, ArrowDir::Right] {
            app.focused = Some(WidgetId(chevron));
            assert!(!dispatch(&mut app, dir));
            assert_eq!(app.focused, Some(WidgetId(chevron)));
            assert!(app.select_location_state.is_country_expanded("au"));
            assert!(!app.select_location_state.is_country_expanded("ar"));
            assert!(!app.select_location_state.is_city_expanded("au", "bne"));
        }
    }
}

#[test]
fn left_undoes_right() {
    let mut app = test_app_with_many_relays();
    focus_country_radio(&mut app, 1);
    assert!(dispatch(&mut app, ArrowDir::Right));
    assert!(dispatch(&mut app, ArrowDir::Left));
    assert!(!app.select_location_state.is_country_expanded("au"));
    app.select_location_state.expand_country("au");
    assert!(dispatch(&mut app, ArrowDir::Right));
    assert_eq!(app.focused, Some(WidgetId(CITY_RADIO_BASE)));
    assert!(dispatch(&mut app, ArrowDir::Left));
    assert_eq!(app.focused, Some(WidgetId(COUNTRY_RADIO_BASE + 1)));
    focus_city_radio(&mut app, 1);
    assert!(dispatch(&mut app, ArrowDir::Right));
    assert!(app.select_location_state.is_city_expanded("au", "syd"));
    assert!(dispatch(&mut app, ArrowDir::Left));
    assert!(!app.select_location_state.is_city_expanded("au", "syd"));
}

#[test]
fn rows_know_their_parent_and_their_first_child() {
    let mut app = test_app_with_many_relays();
    app.select_location_state.expand_country("au");
    app.select_location_state.expand_country("us");
    app.select_location_state.expand_city("us", "nyc");
    let tree = project_tree(&app);
    let rows = collect_visible_rows(&tree, app.select_location_state.tree(), false);
    assert_eq!(rows.len(), 11);
    let parents: Vec<Option<usize>> = (0..12).map(|i| parent_row_index(&rows, i)).collect();
    assert_eq!(
        parents,
        vec![
            None,
            None,
            Some(1),
            Some(1),
            None,
            None,
            None,
            Some(6),
            Some(6),
            Some(8),
            Some(8),
            None,
        ],
    );
    let children: Vec<Option<usize>> = (0..11).map(|i| first_child_row_index(&rows, i)).collect();
    assert_eq!(
        children,
        vec![None, Some(2), None, None, None, None, Some(7), None, Some(9), None, None],
    );
}
