use stellar_dominion::events::{EventBus, GameEvent, PlayerCommand};
use stellar_dominion::panels::Panel;
use stellar_dominion::planet_panel::{controller_label, count_operational, slot_usage, PanelTab, PlanetPanel};
use stellar_dominion::types::{
    Building, BuildingType, Demographics, GameError, Planet, ResourceBundle, ResourceStorage, WorkerAllocation,
};

type Bus = EventBus<(i32, i32), u32>;
type Rect = (u8, u8);

fn create_test_planet() -> Planet<()> {
    Planet {
        id: 1,
        position: (),
        resources: ResourceStorage {
            current: ResourceBundle { minerals: 1000, food: 500, energy: 750, alloys: 100, components: 50, fuel: 200 },
            capacity: ResourceBundle { minerals: 2000, food: 1000, energy: 1500, alloys: 500, components: 250, fuel: 400 },
        },
        population: Demographics {
            total: 10000,
            allocation: WorkerAllocation {
                agriculture: 3000,
                mining: 2000,
                industry: 1500,
                research: 1000,
                military: 500,
                unassigned: 2000,
            },
        },
        developments: vec![
            Building { building_type: BuildingType::Mine, tier: 1, operational: true },
            Building { building_type: BuildingType::Farm, tier: 2, operational: false },
        ],
        controller: Some(0),
    }
}

#[test]
fn test_panel_creation() {
    let panel: PlanetPanel<Rect> = PlanetPanel::new();
    assert!(!panel.is_visible());
    assert_eq!(panel.get_selected_planet(), None);
    assert_eq!(panel.active_tab(), PanelTab::Overview);
}

#[test]
fn test_show_hide_functionality() {
    let mut panel: PlanetPanel<Rect> = PlanetPanel::new();
    panel.show_planet(1);
    assert!(panel.is_visible());
    assert_eq!(panel.get_selected_planet(), Some(1));
    panel.close();
    assert!(!panel.is_visible());
    assert_eq!(panel.get_selected_planet(), None);
}

#[test]
fn test_render_with_valid_planet() {
    let mut panel: PlanetPanel<Rect> = PlanetPanel::new();
    let planet = create_test_planet();
    let mut events: Bus = EventBus::new();
    panel.show_planet(planet.id);
    assert!(panel.render(&planet, 17, &mut events).is_ok());
}

#[test]
fn test_render_with_wrong_planet() {
    let mut panel: PlanetPanel<Rect> = PlanetPanel::new();
    let planet = create_test_planet();
    let mut events: Bus = EventBus::new();
    panel.show_planet(999);
    assert!(panel.render(&planet, 17, &mut events).is_err());
}

#[test]
fn test_tab_switching() {
    let mut panel: PlanetPanel<Rect> = PlanetPanel::new();
    let mut events: Bus = EventBus::new();
    panel.show_planet(1);
    assert_eq!(panel.active_tab(), PanelTab::Overview);
    panel.handle_button_action("tab_1", &mut events).unwrap();
    assert_eq!(panel.active_tab(), PanelTab::Workers);
    panel.handle_button_action("tab_2", &mut events).unwrap();
    assert_eq!(panel.active_tab(), PanelTab::Buildings);
    panel.handle_button_action("tab_3", &mut events).unwrap();
    assert_eq!(panel.active_tab(), PanelTab::Resources);
}

#[test]
fn test_button_cache_management() {
    let mut panel: PlanetPanel<Rect> = PlanetPanel::new();
    let planet = create_test_planet();
    let mut events: Bus = EventBus::new();
    panel.show_planet(planet.id);
    assert!(panel.is_cache_dirty());
    panel.render(&planet, 17, &mut events).unwrap();
    assert!(!panel.is_cache_dirty());
    panel.close();
    assert!(panel.cached_buttons().is_empty());
    assert!(panel.is_cache_dirty());
}

#[test]
fn test_worker_allocation_editing() {
    let mut panel: PlanetPanel<Rect> = PlanetPanel::new();
    let mut events: Bus = EventBus::new();
    panel.show_planet(1);
    assert!(!panel.is_allocation_editing());
    panel.handle_button_action("edit_workers", &mut events).unwrap();
    assert!(panel.is_allocation_editing());
    panel.handle_button_action("edit_workers", &mut events).unwrap();
    assert!(!panel.is_allocation_editing());
}

#[test]
fn test_event_emission() {
    let mut panel: PlanetPanel<Rect> = PlanetPanel::new();
    let mut events: Bus = EventBus::new();
    panel.show_planet(1);
    panel.handle_button_action("build_structure", &mut events).unwrap();
    assert!(!events.queued_events().is_empty());
    if let Some(GameEvent::PlayerCommand(PlayerCommand::BuildStructure { planet, building_type })) =
        events.queued_events().front()
    {
        assert_eq!(*planet, 1);
        assert_eq!(*building_type, BuildingType::Mine);
    } else {
        panic!("Expected BuildStructure command");
    }
}

#[test]
fn test_panel_trait_implementation() {
    let mut panel: PlanetPanel<Rect> = PlanetPanel::new();
    assert!(!panel.is_visible());
    panel.show();
    assert!(panel.is_visible());
    panel.close();
    assert!(!panel.is_visible());
    panel.toggle();
    assert!(panel.is_visible());
    panel.toggle();
    assert!(!panel.is_visible());
}

#[test]
fn test_edge_case_zero_population() {
    let mut panel: PlanetPanel<Rect> = PlanetPanel::new();
    let mut planet = create_test_planet();
    let mut events: Bus = EventBus::new();
    planet.population.total = 0;
    planet.population.allocation = WorkerAllocation::default();
    panel.show_planet(planet.id);
    assert!(panel.render(&planet, 17, &mut events).is_ok());
}

#[test]
fn test_resource_display_completeness() {
    let _panel: PlanetPanel<Rect> = PlanetPanel::new();
    let planet = create_test_planet();
    assert!(planet.resources.current.minerals >= 0);
    assert!(planet.resources.current.food >= 0);
    assert!(planet.resources.current.energy >= 0);
    assert!(planet.resources.current.alloys >= 0);
    assert!(planet.resources.current.components >= 0);
    assert!(planet.resources.current.fuel >= 0);
}

#[test]
fn wrong_planet_message_names_both_planets() {
    let mut panel: PlanetPanel<Rect> = PlanetPanel::new();
    let planet = create_test_planet();
    let mut events: Bus = EventBus::new();
    panel.show_planet(999);
    match panel.render(&planet, 0, &mut events) {
        Err(GameError::InvalidOperation(m)) => {
            assert_eq!(m, "Panel displaying wrong planet: expected Some(999), got 1")
        },
        _ => panic!("expected a refusal"),
    }
    let mut hidden: PlanetPanel<Rect> = PlanetPanel::new();
    assert!(hidden.render(&planet, 0, &mut events).is_ok());
}

#[test]
fn inconsistent_planets_are_not_drawn() {
    let mut panel: PlanetPanel<Rect> = PlanetPanel::new();
    let mut events: Bus = EventBus::new();
    let mut planet = create_test_planet();
    planet.population.allocation.unassigned = 1999;
    panel.show_planet(1);
    assert!(matches!(panel.render(&planet, 0, &mut events), Err(GameError::InvalidOperation(_))));
    let mut full = create_test_planet();
    full.resources.current.food = 1001;
    assert!(matches!(panel.render(&full, 0, &mut events), Err(GameError::InvalidOperation(_))));
}

#[test]
fn buttons_are_forgotten_when_the_planet_changes() {
    let mut panel: PlanetPanel<Rect> = PlanetPanel::new();
    let planet = create_test_planet();
    let mut events: Bus = EventBus::new();
    panel.show_planet(1);
    panel.render(&planet, 5, &mut events).unwrap();
    panel.insert_button("close".to_string(), (1, 1));
    panel.insert_button("tab_0".to_string(), (2, 2));
    panel.insert_button("close".to_string(), (3, 3));
    assert_eq!(panel.cached_buttons().len(), 2);
    assert_eq!(panel.cached_buttons()[0].1, (3, 3));
    panel.render(&planet, 5, &mut events).unwrap();
    assert_eq!(panel.cached_buttons().len(), 2);
    panel.render(&planet, 6, &mut events).unwrap();
    assert!(panel.cached_buttons().is_empty());
    panel.insert_button("close".to_string(), (1, 1));
    panel.show_planet(1);
    assert_eq!(panel.cached_buttons().len(), 1);
    panel.show_planet(2);
    assert!(panel.cached_buttons().is_empty());
}

#[test]
fn buttons_do_nothing_without_a_planet_and_close_the_panel() {
    let mut panel: PlanetPanel<Rect> = PlanetPanel::new();
    let mut events: Bus = EventBus::new();
    panel.handle_button_action("tab_2", &mut events).unwrap();
    assert_eq!(panel.active_tab(), PanelTab::Overview);
    panel.show_planet(4);
    panel.handle_button_action("transfer_resources", &mut events).unwrap();
    match events.queued_events().front() {
        Some(GameEvent::PlayerCommand(PlayerCommand::TransferResources { from, to, resources })) => {
            assert_eq!((*from, *to), (4, 4));
            assert_eq!(*resources, ResourceBundle::default());
        },
        _ => panic!("expected a transfer"),
    }
    panel.handle_button_action("no_such_button", &mut events).unwrap();
    assert_eq!(events.queued_events().len(), 1);
    panel.handle_button_action("close", &mut events).unwrap();
    assert!(!panel.is_visible());
    assert_eq!(panel.get_selected_planet(), None);
}

#[test]
fn slot_and_building_figures() {
    let planet = create_test_planet();
    assert_eq!(count_operational(&planet.developments), 1);
    assert_eq!(slot_usage(&planet), (2, 11, 9));
    assert_eq!(controller_label(Some(0)), "Player Controlled");
    assert_eq!(controller_label(Some(3)), "Enemy Controlled");
    assert_eq!(controller_label(None), "Uncontrolled");
}
