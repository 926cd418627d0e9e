use stellar_dominion::panels::format_building_name;
use stellar_dominion::types::BuildingType;
use stellar_dominion::ui_state::{DisplayOptions, PanelStates, UIState};

#[test]
fn test_ui_state_new() {
    let state = UIState::new();
    assert_eq!(state.selected_planet, None);
    assert_eq!(state.selected_ship, None);
    assert!(!state.paused);
    assert!(state.display.show_orbits);
    assert!(state.panels.resource_panel_open);
    assert!(!state.panels.planet_panel_open);
    assert!(state.validate_state());
}

#[test]
fn test_planet_selection() {
    let mut state = UIState::new();
    state.select_planet(Some(42));
    assert_eq!(state.selected_planet, Some(42));
    assert_eq!(state.selected_ship, None);
    assert!(state.panels.planet_panel_open);
    assert!(!state.panels.ship_panel_open);
    assert!(state.validate_state());
}

#[test]
fn test_ship_selection() {
    let mut state = UIState::new();
    state.select_ship(Some(123));
    assert_eq!(state.selected_ship, Some(123));
    assert_eq!(state.selected_planet, None);
    assert!(state.panels.ship_panel_open);
    assert!(!state.panels.planet_panel_open);
    assert!(state.validate_state());
}

#[test]
fn test_clear_selection() {
    let mut state = UIState::new();
    state.select_planet(Some(42));
    state.clear_selection();
    assert_eq!(state.selected_planet, None);
    assert_eq!(state.selected_ship, None);
    assert_eq!(state.selected_building_type, None);
    assert!(!state.panels.planet_panel_open);
    assert!(!state.panels.ship_panel_open);
    assert!(state.validate_state());
}

#[test]
fn test_toggle_functions() {
    let mut state = UIState::new();
    let initial_pause = state.paused;
    state.toggle_pause();
    assert_ne!(state.paused, initial_pause);
    let initial_orbits = state.display.show_orbits;
    state.toggle_orbits();
    assert_ne!(state.display.show_orbits, initial_orbits);
    let initial_paths = state.display.show_ship_paths;
    state.toggle_ship_paths();
    assert_ne!(state.display.show_ship_paths, initial_paths);
    assert!(state.validate_state());
}

#[test]
fn test_editing_state() {
    let mut state = UIState::new();
    assert!(!state.is_editing());
    state.start_resource_transfer_edit(Some(42));
    assert!(state.is_editing());
    state.clear_temp_state();
    assert!(!state.is_editing());
    assert!(state.validate_state());
}

#[test]
fn test_state_validation() {
    let mut state = UIState::new();
    assert!(state.validate_state());
    state.select_planet(Some(42));
    assert!(state.validate_state());
    state.selected_planet = None;
    assert!(!state.validate_state());
    state.panels.planet_panel_open = false;
    assert!(state.validate_state());
}

#[test]
fn test_panel_state_consistency() {
    let mut state = UIState::new();
    state.select_planet(Some(42));
    assert!(state.panels.planet_panel_open);
    assert!(!state.panels.ship_panel_open);
    assert!(!state.panels.build_menu_open);
    state.select_ship(Some(123));
    assert!(!state.panels.planet_panel_open);
    assert!(state.panels.ship_panel_open);
    assert!(!state.panels.build_menu_open);
    state.clear_selection();
    assert!(!state.panels.planet_panel_open);
    assert!(!state.panels.ship_panel_open);
    assert!(!state.panels.build_menu_open);
    assert!(state.panels.resource_panel_open);
}

#[test]
fn test_building_name_formatting() {
    assert_eq!(format_building_name(BuildingType::Mine), "Mining Facility");
    assert_eq!(format_building_name(BuildingType::Farm), "Agricultural Complex");
    assert_eq!(format_building_name(BuildingType::PowerPlant), "Power Generation Plant");
    assert_eq!(format_building_name(BuildingType::Habitat), "Residential Habitat");
}

#[test]
fn panels_close_except_resources_and_report_editing() {
    let mut panels = PanelStates {
        planet_panel_open: true,
        ship_panel_open: true,
        resource_panel_open: true,
        build_menu_open: true,
        settings_panel_open: true,
    };
    assert!(panels.has_editing_panel_open());
    panels.close_all_except_resource();
    assert_eq!(
        panels,
        PanelStates {
            planet_panel_open: false,
            ship_panel_open: false,
            resource_panel_open: true,
            build_menu_open: false,
            settings_panel_open: false,
        }
    );
    assert!(!panels.has_editing_panel_open());
    assert_eq!(PanelStates::default().resource_panel_open, false);
}

#[test]
fn default_display_hides_only_resource_flows() {
    let d = DisplayOptions::default();
    assert!(d.show_orbits && d.show_ship_paths && d.show_detailed_tooltips);
    assert!(!d.show_resource_flows);
}

#[test]
fn build_menu_needs_a_planet_and_keeps_consistency() {
    let mut state = UIState::new();
    state.toggle_build_menu();
    assert!(!state.panels.build_menu_open);
    state.select_planet(Some(3));
    state.set_selected_building(Some(BuildingType::Farm));
    state.toggle_build_menu();
    assert!(state.panels.build_menu_open);
    assert_eq!(state.selected_building_type, None);
    assert!(state.is_editing());
    state.toggle_ship_panel();
    assert!(!state.panels.ship_panel_open);
    state.toggle_planet_panel();
    assert!(!state.panels.planet_panel_open);
    assert!(state.validate_state());
    state.select_ship(None);
    assert!(!state.has_selection());
    assert!(state.validate_state());
}
