use stellar_dominion::events::{EventBus, GameEvent, PlayerCommand};
use stellar_dominion::faction_manager::FactionManager;
use stellar_dominion::list_menus::{
    cargo_text, list_class_name, planet_owner_text, ship_owner_text, PlanetListMenu, ShipListMenu,
};
use stellar_dominion::planet_manager::PlanetManager;
use stellar_dominion::toolbar::{format_change_indicator, ResourceDisplay, Toolbar};
use stellar_dominion::types::{AIPersonality, CargoHold, GameError, Planet, ResourceBundle, Ship, ShipClass};

type Bus = EventBus<(i32, i32), u32>;

fn ship(id: u32, class: ShipClass, owner: u8) -> Ship<()> {
    Ship { id, ship_class: class, motion: (), cargo: CargoHold::default(), owner }
}

#[test]
fn planet_list_filters_and_selects() {
    let mut pm: PlanetManager<u8> = PlanetManager::new();
    pm.create_planet(0, Some(0)).unwrap();
    pm.create_planet(0, Some(2)).unwrap();
    pm.create_planet(0, None).unwrap();
    pm.create_planet(0, Some(0)).unwrap();
    let planets: Vec<Planet<u8>> = pm.get_all_planets_cloned().unwrap();
    let mut menu: PlanetListMenu<u8> = PlanetListMenu::new(0);
    assert!(!menu.open);
    assert_eq!(menu.visible_planets(&planets), vec![0, 1, 2, 3]);
    menu.toggle_filter();
    assert_eq!(menu.visible_planets(&planets), vec![0, 3]);
    let mut bus: Bus = EventBus::new();
    menu.select(3, &mut bus);
    assert_eq!(menu.selected_planet, Some(3));
    assert!(matches!(bus.queued_events().front(), Some(GameEvent::PlayerCommand(PlayerCommand::SelectPlanet(3)))));
    menu.open = true;
    menu.close();
    assert!(!menu.open);
    assert!(!menu.is_mouse_over());
}

#[test]
fn ship_list_groups_by_class_keeping_order() {
    let ships = vec![
        ship(0, ShipClass::Warship, 0),
        ship(1, ShipClass::Scout, 1),
        ship(2, ShipClass::Colony, 0),
        ship(3, ShipClass::Scout, 0),
        ship(4, ShipClass::Transport, 0),
        ship(5, ShipClass::Warship, 0),
    ];
    let mut menu: ShipListMenu<u8> = ShipListMenu::new(0);
    assert_eq!(menu.visible_ships(&ships), vec![0, 1, 2, 3, 4, 5]);
    menu.toggle_grouping();
    assert_eq!(menu.visible_ships(&ships), vec![1, 3, 4, 0, 5, 2]);
    menu.toggle_filter();
    assert_eq!(menu.visible_ships(&ships), vec![3, 4, 0, 5, 2]);
    let mut bus: Bus = EventBus::new();
    menu.select(5, &mut bus);
    assert_eq!(menu.selected_ship, Some(5));
    assert!(matches!(bus.queued_events().front(), Some(GameEvent::PlayerCommand(PlayerCommand::SelectShip(5)))));
}

#[test]
fn list_entries_name_owners_and_cargo() {
    assert_eq!(planet_owner_text(Some(0)), "Player");
    assert_eq!(planet_owner_text(Some(4)), "Faction 4");
    assert_eq!(planet_owner_text(None), "Neutral");
    assert_eq!(ship_owner_text(0), "Player");
    assert_eq!(ship_owner_text(12), "Enemy 12");
    assert_eq!(list_class_name(ShipClass::Colony), "Colony");
    let mut cargo = CargoHold::default();
    assert_eq!(cargo_text(&cargo), None);
    cargo.resources.minerals = 40;
    assert_eq!(cargo_text(&cargo), Some("Cargo: 40min".to_string()));
    cargo.population = 7;
    assert_eq!(cargo_text(&cargo), Some("Cargo: 7pop".to_string()));
}

#[test]
fn toolbar_keeps_one_dropdown_open() {
    let mut bar: Toolbar<u8> = Toolbar::new(40);
    assert!(bar.resources_panel_open);
    bar.click_planets();
    assert!(bar.planets_menu_open);
    bar.click_ships();
    assert!(bar.ships_menu_open && !bar.planets_menu_open);
    bar.click_settings();
    assert!(bar.settings_menu_open && !bar.ships_menu_open);
    bar.click_settings();
    assert!(!bar.settings_menu_open);
    bar.click_ships();
    bar.close_all_dropdowns();
    assert!(!bar.ships_menu_open && bar.resources_panel_open);
    bar.note_hovered();
    assert!(bar.is_mouse_over());
    bar.begin_frame();
    assert!(!bar.is_mouse_over());
}

#[test]
fn resource_bar_measures_change_over_windows() {
    let mut fm = FactionManager::new();
    let mut pm: PlanetManager<u8> = PlanetManager::new();
    let mut display = ResourceDisplay::new();
    match display.calculate_empire_resources(&fm, &pm) {
        Err(GameError::InvalidOperation(m)) => assert_eq!(m, "No player faction found"),
        _ => panic!("expected a refusal"),
    }
    assert_eq!(display.calculate_empire_population(&fm, &pm), 0);
    fm.create_faction("Rivals".to_string(), false, AIPersonality::Aggressive).unwrap();
    fm.create_faction("Home".to_string(), true, AIPersonality::Balanced).unwrap();
    let home = pm.create_planet(0, Some(1)).unwrap();
    pm.create_planet(0, Some(0)).unwrap();
    pm.add_resources(home, ResourceBundle { minerals: 100, ..Default::default() }).unwrap();
    pm.update_population(home, 50).unwrap();
    display.update_240_tick_tracking(10, &fm, &pm).unwrap();
    assert_eq!(display.resource_changes(), ResourceBundle::default());
    pm.add_resources(home, ResourceBundle { minerals: 25, ..Default::default() }).unwrap();
    pm.update_population(home, 5).unwrap();
    display.update_240_tick_tracking(100, &fm, &pm).unwrap();
    assert_eq!(display.resource_changes().minerals, 0);
    display.update_240_tick_tracking(250, &fm, &pm).unwrap();
    assert_eq!(display.resource_changes().minerals, 25);
    assert_eq!(display.population_change(), 5);
    assert_eq!(display.calculate_empire_population(&fm, &pm), 55);
    pm.add_resources(home, ResourceBundle { minerals: 1, ..Default::default() }).unwrap();
    assert_eq!(display.get_cached_empire_resources(253, &fm, &pm).unwrap().minerals, 125);
    assert_eq!(display.get_cached_empire_resources(256, &fm, &pm).unwrap().minerals, 126);
    assert_eq!(format_change_indicator(5), "+5");
    assert_eq!(format_change_indicator(-3), "-3");
    assert_eq!(format_change_indicator(0), "0");
}
