use stellar_dominion::events::{EventBus, EventType, GameEvent, PlayerCommand, StateChange, SystemId};
use stellar_dominion::faction_manager::FactionManager;
use stellar_dominion::game_initializer::GameConfiguration;
use stellar_dominion::input_handler::{InputHandler, KeyCommand, KeyPresses, SpeedPreset};
use stellar_dominion::panels::Panel;
use stellar_dominion::planet_manager::PlanetManager;
use stellar_dominion::save_system::{apply_save_data, build_save_data};
use stellar_dominion::ship_manager::ShipManager;
use stellar_dominion::ship_panel::{trajectory_eta, ShipPanel};
use stellar_dominion::time_manager::TickClock;
use stellar_dominion::types::{
    AIPersonality, BuildingType, CargoHold, Demographics, Faction, GameError, Planet, ResourceBundle,
    ResourceStorage, ResourceType, Ship, ShipClass, WorkerAllocation,
};
use stellar_dominion::ui_renderer::{
    controller_ownership, planet_indicators, ship_class_name, Ownership, ScreenKeys, UIRenderer,
};

type Bus = EventBus<(i32, i32), u32>;
type Ev = GameEvent<(i32, i32), u32>;

fn ship(id: u32, capacity: i32) -> Ship<u8> {
    Ship {
        id,
        ship_class: ShipClass::Transport,
        motion: 0,
        cargo: CargoHold { resources: ResourceBundle::default(), population: 0, capacity },
        owner: 0,
    }
}

fn planet(id: u32, controller: Option<u8>, minerals: i32) -> Planet<u8> {
    Planet {
        id,
        position: 0,
        resources: ResourceStorage {
            current: ResourceBundle { minerals, food: 2, energy: 3, alloys: 4, components: 5, fuel: 6 },
            capacity: ResourceBundle { minerals: 10000, food: 100, energy: 100, alloys: 100, components: 100, fuel: 100 },
        },
        population: Demographics { total: 0, allocation: WorkerAllocation::default() },
        developments: vec![],
        controller,
    }
}

fn no_keys() -> KeyPresses {
    KeyPresses {
        key1: false,
        key2: false,
        key3: false,
        key4: false,
        space: false,
        ctrl_held: false,
        s: false,
        l: false,
        escape: false,
        delete: false,
    }
}

#[test]
fn ship_panel_offers_buttons_by_ship() {
    let mut panel: ShipPanel<u8> = ShipPanel::new();
    assert!(!panel.is_visible());
    panel.show(7);
    assert_eq!(panel.selected_ship_id(), Some(7));
    panel.place_action_buttons(&ship(7, 0), false, 1, 2, 3);
    let mut bus: Bus = EventBus::new();
    assert!(panel.handle_click(&ship(7, 0), false, true, true, Some((1, 1)), &mut bus).is_ok());
    assert!(bus.queued_events().is_empty());
    panel.place_action_buttons(&ship(7, 50), true, 1, 2, 3);
    match panel.handle_click(&ship(7, 50), true, true, true, Some((1, 1)), &mut bus) {
        Err(GameError::InvalidOperation(m)) => assert_eq!(m, "Move destination selection not implemented"),
        _ => panic!("expected a refusal"),
    }
    match panel.handle_click(&ship(7, 50), false, true, true, Some((1, 1)), &mut bus) {
        Err(GameError::InvalidOperation(m)) => assert_eq!(m, "Cargo management not implemented"),
        _ => panic!("expected a refusal"),
    }
    match panel.handle_click(&ship(7, 50), false, false, true, None, &mut bus) {
        Err(GameError::InvalidOperation(m)) => assert_eq!(m, "Cannot recall ship without trajectory"),
        _ => panic!("expected a refusal"),
    }
    panel.handle_click(&ship(7, 50), false, false, true, Some((4, 5)), &mut bus).unwrap();
    match bus.queued_events().front() {
        Some(GameEvent::PlayerCommand(PlayerCommand::MoveShip { ship, target })) => {
            assert_eq!((*ship, *target), (7, (4, 5)))
        },
        _ => panic!("expected a recall"),
    }
    Panel::close(&mut panel);
    assert!(!panel.is_visible());
    assert_eq!(panel.selected_ship_id(), None);
}

#[test]
fn trip_length_needs_arrival_after_departure() {
    assert_eq!(trajectory_eta(10, 25).unwrap(), 15);
    assert_eq!(trajectory_eta(10, 10).unwrap(), 0);
    match trajectory_eta(25, 10) {
        Err(GameError::SystemError(m)) => assert_eq!(m, "Invalid trajectory: arrival time before departure"),
        _ => panic!("expected a refusal"),
    }
}

#[test]
fn clicks_select_and_order() {
    let mut input: InputHandler<()> = InputHandler::new(());
    let mut bus: Bus = EventBus::new();
    input.handle_right_click(None, None, (9, 9), &mut bus);
    assert!(bus.queued_events().is_empty());
    input.handle_left_click(Some(3), Some(8), &mut bus);
    assert_eq!(input.selected_ship(), Some(3));
    assert_eq!(input.selected_planet(), None);
    input.handle_right_click(Some(3), None, (9, 9), &mut bus);
    assert_eq!(bus.queued_events().len(), 1);
    input.handle_right_click(Some(4), None, (9, 9), &mut bus);
    input.handle_right_click(None, Some(8), (9, 9), &mut bus);
    input.handle_right_click(None, None, (9, 9), &mut bus);
    let q: Vec<Ev> = bus.take_queued_events();
    assert!(matches!(q[0], GameEvent::PlayerCommand(PlayerCommand::SelectShip(3))));
    assert!(matches!(q[1], GameEvent::PlayerCommand(PlayerCommand::AttackTarget { attacker: 3, target: 4 })));
    assert!(matches!(q[2], GameEvent::PlayerCommand(PlayerCommand::ColonizePlanet { ship: 3, planet: 8 })));
    assert!(matches!(q[3], GameEvent::PlayerCommand(PlayerCommand::MoveShip { ship: 3, target: (9, 9) })));
    input.handle_left_click(None, Some(8), &mut bus);
    assert_eq!(input.selected_planet(), Some(8));
    assert_eq!(input.selected_ship(), None);
    input.handle_left_click(None, None, &mut bus);
    assert_eq!(input.selected_planet(), None);
}

#[test]
fn keys_give_commands_in_order() {
    let mut input: InputHandler<()> = InputHandler::new(());
    let keys = KeyPresses { key1: true, key4: true, space: true, ctrl_held: true, s: true, l: true, ..no_keys() };
    let out = input.update_keyboard_input(keys);
    assert_eq!(
        out,
        vec![
            KeyCommand::SetSpeed(SpeedPreset::Half),
            KeyCommand::SetSpeed(SpeedPreset::Quadruple),
            KeyCommand::Pause(true),
            KeyCommand::Save,
            KeyCommand::Load,
        ]
    );
    assert!(input.is_paused());
    let out = input.update_keyboard_input(KeyPresses { space: true, s: true, ..no_keys() });
    assert_eq!(out, vec![KeyCommand::Pause(false)]);
    let mut bus: Bus = EventBus::new();
    input.handle_left_click(Some(2), None, &mut bus);
    input.update_keyboard_input(KeyPresses { delete: true, ..no_keys() });
    assert_eq!(input.selected_ship(), None);
    input.handle_left_click(None, Some(5), &mut bus);
    input.update_keyboard_input(KeyPresses { escape: true, ..no_keys() });
    assert_eq!(input.selected_planet(), None);
    input.set_pause_state(true);
    assert!(input.is_paused());
}

#[test]
fn screen_reacts_to_events_keys_and_buttons() {
    let mut ui: UIRenderer<()> = UIRenderer::new(());
    assert!(ui.orbits_shown());
    assert!(!ui.is_paused());
    ui.set_selected_planet(Some(2));
    ui.set_selected_ship(Some(5));
    let e: Ev = GameEvent::StateChanged(StateChange::PlanetUpdated(3));
    ui.handle_event(&e).unwrap();
    assert!(!ui.is_planet_panel_open());
    let e: Ev = GameEvent::StateChanged(StateChange::PlanetUpdated(2));
    ui.handle_event(&e).unwrap();
    assert!(ui.is_planet_panel_open());
    let e: Ev = GameEvent::StateChanged(StateChange::ShipUpdated(5));
    ui.handle_event(&e).unwrap();
    assert!(ui.is_ship_panel_open());
    let e: Ev = GameEvent::PlayerCommand(PlayerCommand::PauseGame(true));
    ui.handle_event(&e).unwrap();
    assert!(ui.is_paused());
    let keys = ScreenKeys { space: true, key1: false, key2: true, key3: true, o: true, p: true, b: true };
    let out = ui.handle_keyboard_input(keys);
    assert_eq!(
        out,
        vec![KeyCommand::Pause(false), KeyCommand::SetSpeed(SpeedPreset::Normal), KeyCommand::SetSpeed(SpeedPreset::Double)]
    );
    assert!(ui.is_paused());
    assert!(!ui.orbits_shown());
    assert!(!ui.is_planet_panel_open());
    assert!(ui.is_build_menu_open());
    assert_eq!(ui.panels_to_draw(), (false, true, true));
    ui.choose_building(BuildingType::Farm);
    assert_eq!(ui.chosen_building(), Some(BuildingType::Farm));
    ui.close_build_menu();
    ui.close_ship_panel();
    assert_eq!(ui.panels_to_draw(), (false, false, false));
    let mut bus: Bus = EventBus::new();
    ui.handle_right_click((3, 4), &mut bus);
    assert!(matches!(
        bus.queued_events().front(),
        Some(GameEvent::PlayerCommand(PlayerCommand::MoveShip { ship: 5, target: (3, 4) }))
    ));
}

#[test]
fn empire_resources_add_up_the_player_planets() {
    let ui: UIRenderer<()> = UIRenderer::new(());
    let planets = vec![planet(0, Some(0), 10), planet(1, Some(1), 1000), planet(2, None, 7), planet(3, Some(0), 600)];
    let total = ui.calculate_empire_resources(&planets).unwrap();
    assert_eq!(total, ResourceBundle { minerals: 610, food: 4, energy: 6, alloys: 8, components: 10, fuel: 12 });
    assert_eq!(planet_indicators(&planets[3]), (false, true, false));
    assert_eq!(controller_ownership(Some(0)), Ownership::Player);
    assert_eq!(controller_ownership(Some(2)), Ownership::Enemy);
    assert_eq!(controller_ownership(None), Ownership::Unowned);
    assert_eq!(ship_class_name(ShipClass::Colony), "Colony Ship");
    let _ = ResourceType::Minerals;
}

#[test]
fn game_systems_subscribe_to_their_events() {
    let mut bus: Bus = EventBus::new();
    bus.subscribe_game_systems();
    assert_eq!(
        bus.systems_to_notify(EventType::StateChanged),
        vec![SystemId::UIRenderer, SystemId::PlanetManager]
    );
    assert_eq!(
        bus.systems_to_notify(EventType::SimulationEvent),
        vec![
            SystemId::PhysicsEngine,
            SystemId::ResourceSystem,
            SystemId::PopulationSystem,
            SystemId::CombatResolver,
            SystemId::PlanetManager,
        ]
    );
    assert_eq!(
        bus.systems_to_notify(EventType::PlayerCommand),
        vec![
            SystemId::PhysicsEngine,
            SystemId::ResourceSystem,
            SystemId::PopulationSystem,
            SystemId::CombatResolver,
            SystemId::TimeManager,
            SystemId::PlanetManager,
            SystemId::ShipManager,
            SystemId::SaveSystem,
        ]
    );
}

#[test]
fn a_save_loads_back_into_a_fresh_game() {
    let mut clock = TickClock::new();
    clock.set_tick(40).unwrap();
    let mut pm: PlanetManager<u8> = PlanetManager::new();
    pm.create_planet(3, Some(0)).unwrap();
    pm.create_planet(4, None).unwrap();
    let mut sm: ShipManager<u8> = ShipManager::new();
    sm.create_ship(ShipClass::Scout, 9, 0).unwrap();
    let mut fm = FactionManager::new();
    fm.create_faction("Sol".to_string(), true, AIPersonality::Balanced).unwrap();
    let config = GameConfiguration::default();
    let data = build_save_data("slot", 123, &clock, &pm, &sm, &fm, &config);
    assert_eq!(data.version, 1);
    assert_eq!(data.save_name, "slot");
    assert_eq!((data.timestamp, data.tick), (123, 40));

    let mut clock2 = TickClock::new();
    let mut pm2: PlanetManager<u8> = PlanetManager::new();
    let mut sm2: ShipManager<u8> = ShipManager::new();
    let mut fm2 = FactionManager::new();
    apply_save_data(&mut clock2, &mut pm2, &mut sm2, &mut fm2, data).unwrap();
    assert_eq!(clock2.get_current_tick(), 40);
    assert_eq!(pm2.get_all_planets().len(), 2);
    assert_eq!(pm2.get_planet(1).unwrap().position, 4);
    assert_eq!(sm2.get_ship(0).unwrap().motion, 9);
    assert_eq!(fm2.get_all_factions()[0].name, "Sol");

    let mut bad = build_save_data("slot", 1, &clock, &pm, &sm, &fm, &config);
    bad.tick = u64::MAX;
    let mut clock3 = TickClock::new();
    assert!(matches!(
        apply_save_data(&mut clock3, &mut pm2, &mut sm2, &mut fm2, bad),
        Err(GameError::InvalidOperation(_))
    ));
    assert_eq!(clock3.get_current_tick(), 0);
    let mut twice = build_save_data("slot", 1, &clock, &pm, &sm, &fm, &config);
    twice.factions.push(Faction { id: 0, name: "Other".to_string(), is_player: false, ai_type: AIPersonality::Balanced, score: 0 });
    match apply_save_data(&mut clock3, &mut pm2, &mut sm2, &mut fm2, twice) {
        Err(GameError::InvalidOperation(m)) => assert_eq!(m, "Duplicate faction ID: 0"),
        _ => panic!("expected a refusal"),
    }
}

#[test]
fn test_set_tick_validation() {
    let mut time_manager = TickClock::new();
    let result = time_manager.set_tick(1000);
    assert!(result.is_ok());
    assert_eq!(time_manager.get_current_tick(), 1000);
    let result = time_manager.set_tick(u64::MAX - 500);
    assert!(result.is_err());
    assert_eq!(time_manager.get_current_tick(), 1000);
}
