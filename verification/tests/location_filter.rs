//! The location filter page.

use mullvad_tui::app::filter::Ownership;
use mullvad_tui::app::App;
use mullvad_tui::focus::WidgetId;
use mullvad_tui::pages::select_location_filter::widgets::{
    OWNERSHIP_ANY, OWNERSHIP_MULLVAD_OWNED, OWNERSHIP_RENTED, PROVIDERS_ALL,
};
use mullvad_tui::pages::select_location_filter::{
    activate, owns_widget, provider_at, provider_index, providers, PROVIDER_MAX,
    PROVIDER_RADIO_BASE,
};

#[test]
fn provider_index_decodes_in_range() {
    assert_eq!(provider_index(WidgetId(PROVIDER_RADIO_BASE)), Some(0));
    assert_eq!(provider_index(WidgetId(PROVIDER_RADIO_BASE + 5)), Some(5));
    assert_eq!(
        provider_index(WidgetId(PROVIDER_RADIO_BASE + PROVIDER_MAX - 1)),
        Some((PROVIDER_MAX - 1) as usize),
    );
}

#[test]
fn provider_index_returns_none_outside_range() {
    assert_eq!(provider_index(WidgetId(PROVIDER_RADIO_BASE - 1)), None);
    assert_eq!(
        provider_index(WidgetId(PROVIDER_RADIO_BASE + PROVIDER_MAX)),
        None,
    );
}

#[test]
fn owns_widget_recognizes_static_and_dynamic() {
    assert!(owns_widget(WidgetId(OWNERSHIP_ANY)));
    assert!(owns_widget(WidgetId(OWNERSHIP_MULLVAD_OWNED)));
    assert!(owns_widget(WidgetId(OWNERSHIP_RENTED)));
    assert!(owns_widget(WidgetId(PROVIDERS_ALL)));
    assert!(owns_widget(WidgetId(PROVIDER_RADIO_BASE)));
    assert!(!owns_widget(WidgetId(0x40)));
}

#[test]
fn providers_are_listed_in_order() {
    assert_eq!(providers().len(), 15);
    assert_eq!(provider_at(0), Some("100TB"));
    assert_eq!(provider_at(14), Some("Zenlayer"));
    assert_eq!(provider_at(15), None);
}

#[test]
fn ownership_is_one_of_three() {
    let mut app = App::new();
    activate(&mut app, WidgetId(OWNERSHIP_RENTED));
    assert_eq!(app.filter_state.ownership, Ownership::Rented);
    activate(&mut app, WidgetId(OWNERSHIP_MULLVAD_OWNED));
    assert_eq!(app.filter_state.ownership, Ownership::MullvadOwned);
    activate(&mut app, WidgetId(OWNERSHIP_ANY));
    assert_eq!(app.filter_state.ownership, Ownership::Any);
}

#[test]
fn a_provider_toggles_and_toggles_back() {
    let mut app = App::new();
    assert!(app.filter_state.all_providers_selected());
    activate(&mut app, WidgetId(PROVIDER_RADIO_BASE + 2));
    assert!(!app.filter_state.is_provider_selected("Blix"));
    assert!(app.filter_state.is_provider_selected("Creanova"));
    assert!(!app.filter_state.all_providers_selected());
    activate(&mut app, WidgetId(PROVIDER_RADIO_BASE + 2));
    assert!(app.filter_state.is_provider_selected("Blix"));
    assert!(app.filter_state.all_providers_selected());
}

#[test]
fn all_providers_toggle_together() {
    let mut app = App::new();
    activate(&mut app, WidgetId(PROVIDERS_ALL));
    for provider in providers() {
        assert!(!app.filter_state.is_provider_selected(provider));
    }
    activate(&mut app, WidgetId(PROVIDERS_ALL));
    assert!(app.filter_state.all_providers_selected());
    activate(&mut app, WidgetId(PROVIDER_RADIO_BASE));
    activate(&mut app, WidgetId(PROVIDERS_ALL));
    assert!(app.filter_state.all_providers_selected());
}

#[test]
fn an_id_past_the_last_provider_does_nothing() {
    let mut app = App::new();
    activate(&mut app, WidgetId(PROVIDER_RADIO_BASE + 15));
    assert!(app.filter_state.all_providers_selected());
    assert_eq!(app.filter_state.ownership, Ownership::Any);
}
