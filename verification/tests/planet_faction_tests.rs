use stellar_dominion::events::{GameEvent, PlayerCommand, SimulationEvent, StateChange};
use stellar_dominion::faction_manager::FactionManager;
use stellar_dominion::planet_manager::PlanetManager;
use stellar_dominion::types::{AIPersonality, BuildingType, Faction, GameError, ResourceBundle, WorkerAllocation};
use stellar_dominion::validation::{check_collection_size, validate_id_bounds, validate_name, validate_numeric_bounds};

type Ev = GameEvent<(i32, i32), u32>;

fn res(m: i32, f: i32) -> ResourceBundle {
    ResourceBundle { minerals: m, food: f, ..Default::default() }
}

#[test]
fn new_planets_get_ids_in_order_and_empty_stores() {
    let mut pm: PlanetManager<u8> = PlanetManager::new();
    assert_eq!(pm.create_planet(7, Some(1)).unwrap(), 0);
    assert_eq!(pm.create_planet(8, None).unwrap(), 1);
    let p = pm.get_planet(1).unwrap();
    assert_eq!(p.position, 8);
    assert_eq!(p.controller, None);
    assert_eq!(p.resources.current, ResourceBundle::default());
    assert_eq!(p.resources.capacity.minerals, 10000);
    assert_eq!(p.resources.capacity.food, 5000);
    assert_eq!(pm.get_planets_by_faction(1).len(), 1);
    match pm.get_planet(5) {
        Err(GameError::InvalidTarget(m)) => assert_eq!(m, "Planet 5 not found"),
        _ => panic!("expected a missing planet"),
    }
}

#[test]
fn adding_then_removing_resources_restores_the_stores() {
    let mut pm: PlanetManager<u8> = PlanetManager::new();
    let id = pm.create_planet(0, None).unwrap();
    pm.add_resources(id, res(300, 40)).unwrap();
    let before = pm.get_planet(id).unwrap().resources.current;
    pm.add_resources(id, res(50, 5)).unwrap();
    pm.remove_resources(id, res(50, 5)).unwrap();
    assert_eq!(pm.get_planet(id).unwrap().resources.current, before);
    match pm.remove_resources(id, res(301, 0)) {
        Err(GameError::InsufficientResources { required, available }) => {
            assert_eq!(required.minerals, 301);
            assert_eq!(available.minerals, 300);
        },
        _ => panic!("expected a refusal"),
    }
    match pm.add_resources(id, res(9701, 0)) {
        Err(GameError::InvalidOperation(m)) => assert_eq!(m, "Storage capacity exceeded"),
        _ => panic!("expected a refusal"),
    }
    pm.upgrade_storage(id, res(1, 0)).unwrap();
    assert!(pm.add_resources(id, res(9701, 0)).is_ok());
}

#[test]
fn population_and_workers() {
    let mut pm: PlanetManager<u8> = PlanetManager::new();
    let id = pm.create_planet(0, None).unwrap();
    pm.update_population(id, 100).unwrap();
    match pm.update_population(id, -101) {
        Err(GameError::InvalidOperation(m)) => assert_eq!(m, "Population cannot be negative"),
        _ => panic!("expected a refusal"),
    }
    let good = WorkerAllocation { agriculture: 30, mining: 30, industry: 20, research: 5, military: 5, unassigned: 10 };
    assert!(pm.set_worker_allocation(id, good).is_ok());
    let too_few_idle = WorkerAllocation { unassigned: 9, military: 6, ..good };
    assert!(matches!(pm.set_worker_allocation(id, too_few_idle), Err(GameError::InvalidOperation(_))));
    let wrong_total = WorkerAllocation { unassigned: 11, ..good };
    assert!(pm.set_worker_allocation(id, wrong_total).is_err());
    assert_eq!(pm.get_planet(id).unwrap().population.allocation, good);
}

#[test]
fn building_slots_are_ten_plus_one_per_ten_thousand() {
    let mut pm: PlanetManager<u8> = PlanetManager::new();
    let id = pm.create_planet(0, None).unwrap();
    assert_eq!(pm.get_available_building_slots(id).unwrap(), 10);
    for _ in 0..10 {
        pm.add_building(id, BuildingType::Mine).unwrap();
    }
    assert!(matches!(pm.add_building(id, BuildingType::Farm), Err(GameError::InvalidOperation(_))));
    pm.update_population(id, 20000).unwrap();
    assert_eq!(pm.get_available_building_slots(id).unwrap(), 2);
    pm.add_building(id, BuildingType::Farm).unwrap();
    assert_eq!(pm.get_building_count(id, BuildingType::Mine).unwrap(), 10);
    assert_eq!(pm.get_building_count(id, BuildingType::Farm).unwrap(), 1);
    let b = pm.get_planet(id).unwrap().developments[10];
    assert_eq!((b.tier, b.operational), (1, true));
}

#[test]
fn planet_events_are_carried_out() {
    let mut pm: PlanetManager<u8> = PlanetManager::new();
    let id = pm.create_planet(0, None).unwrap();
    let build: Ev = GameEvent::PlayerCommand(PlayerCommand::BuildStructure { planet: id, building_type: BuildingType::Farm });
    pm.handle_event(&build).unwrap();
    assert_eq!(pm.get_building_count(id, BuildingType::Farm).unwrap(), 1);
    let conquered: Ev = GameEvent::SimulationEvent(SimulationEvent::PlanetConquered { planet: id, new_owner: 3 });
    pm.handle_event(&conquered).unwrap();
    assert_eq!(pm.get_planet(id).unwrap().controller, Some(3));
    let updated: Ev = GameEvent::StateChanged(StateChange::PlanetUpdated(id));
    assert!(pm.handle_event(&updated).is_ok());
    let missing: Ev = GameEvent::StateChanged(StateChange::PlanetUpdated(9));
    assert!(matches!(pm.handle_event(&missing), Err(GameError::InvalidTarget(_))));
    let done: Ev = GameEvent::SimulationEvent(SimulationEvent::ConstructionCompleted { planet: 9, building: BuildingType::Farm });
    assert!(pm.handle_event(&done).is_err());
}

#[test]
fn loaded_planets_replace_the_old_ones() {
    let mut pm: PlanetManager<u8> = PlanetManager::new();
    pm.create_planet(1, None).unwrap();
    let mut other: PlanetManager<u8> = PlanetManager::new();
    other.create_planet(2, None).unwrap();
    other.create_planet(3, None).unwrap();
    other.create_planet(4, None).unwrap();
    let planets = other.get_all_planets_cloned().unwrap();
    pm.load_planets(planets).unwrap();
    assert_eq!(pm.get_all_planets().len(), 3);
    assert_eq!(pm.get_planet(2).unwrap().position, 4);
    assert_eq!(pm.create_planet(5, None).unwrap(), 3);
}

#[test]
fn factions_get_distinct_ids_and_names() {
    let mut fm = FactionManager::new();
    assert_eq!(fm.create_faction("Alpha".to_string(), true, AIPersonality::Balanced).unwrap(), 0);
    assert_eq!(fm.create_faction("Beta".to_string(), false, AIPersonality::Economic).unwrap(), 1);
    match fm.create_faction("Alpha".to_string(), false, AIPersonality::Aggressive) {
        Err(GameError::InvalidOperation(m)) => assert_eq!(m, "Faction with name 'Alpha' already exists"),
        _ => panic!("expected a refusal"),
    }
    match fm.create_faction("   ".to_string(), false, AIPersonality::Aggressive) {
        Err(GameError::InvalidOperation(m)) => assert_eq!(m, "Faction name cannot be empty"),
        _ => panic!("expected a refusal"),
    }
    assert_eq!(fm.count(), 2);
    assert_eq!(fm.get_faction(1).unwrap().name, "Beta");
    assert_eq!(fm.find_by_name("Alpha").unwrap().id, 0);
    assert!(fm.find_by_name("Gamma").is_none());
    assert_eq!(fm.get_player_faction().unwrap().id, 0);
    match fm.get_faction(4) {
        Err(GameError::InvalidTarget(m)) => assert_eq!(m, "Faction 4 not found"),
        _ => panic!("expected a missing faction"),
    }
}

#[test]
fn scores_are_set_and_added_with_saturation() {
    let mut fm = FactionManager::new();
    let id = fm.create_faction("Alpha".to_string(), true, AIPersonality::Balanced).unwrap();
    fm.update_score(id, 10).unwrap();
    assert!(matches!(fm.update_score(id, -1), Err(GameError::InvalidOperation(_))));
    fm.add_score(id, 5).unwrap();
    assert_eq!(fm.get_faction(id).unwrap().score, 15);
    fm.add_score(id, i32::MAX).unwrap();
    assert_eq!(fm.get_faction(id).unwrap().score, i32::MAX);
    assert!(fm.add_score(3, 1).is_err());
}

#[test]
fn loading_factions_checks_them_and_renumbers() {
    let mut fm = FactionManager::new();
    let a = Faction { id: 4, name: "A".to_string(), is_player: true, ai_type: AIPersonality::Balanced, score: 0 };
    let b = Faction { id: 9, name: "B".to_string(), is_player: false, ai_type: AIPersonality::Economic, score: 3 };
    fm.load_factions(vec![a.clone(), b.clone()]).unwrap();
    assert_eq!(fm.count(), 2);
    assert_eq!(fm.create_faction("C".to_string(), false, AIPersonality::Aggressive).unwrap(), 10);
    let dup = Faction { id: 4, name: "Z".to_string(), ..b.clone() };
    assert!(fm.load_factions(vec![a.clone(), dup]).is_err());
    let negative = Faction { score: -1, ..b.clone() };
    assert!(fm.load_factions(vec![negative]).is_err());
    assert_eq!(fm.count(), 3);
    let winner: Ev = GameEvent::StateChanged(StateChange::GameOver(9));
    assert!(fm.handle_event(&winner).is_ok());
    let nobody: Ev = GameEvent::StateChanged(StateChange::FactionUpdated(1));
    assert!(fm.handle_event(&nobody).is_err());
}

#[test]
fn validation_helpers_report_their_limits() {
    assert!(validate_id_bounds(9, 10).is_ok());
    match validate_id_bounds(10, 10) {
        Err(GameError::InvalidTarget(m)) => assert_eq!(m, "ID 10 exceeds maximum allowed entities (10)"),
        _ => panic!("expected a refusal"),
    }
    assert!(validate_name("  Terra  ", "Planet").is_ok());
    match validate_name("  ", "Planet") {
        Err(GameError::InvalidOperation(m)) => assert_eq!(m, "Planet name cannot be empty"),
        _ => panic!("expected a refusal"),
    }
    match validate_name(&"x".repeat(101), "Ship") {
        Err(GameError::InvalidOperation(m)) => assert_eq!(m, "Ship name too long (max 100 characters)"),
        _ => panic!("expected a refusal"),
    }
    match validate_name("bad\u{7}name", "Ship") {
        Err(GameError::InvalidOperation(m)) => assert_eq!(m, "Ship name contains invalid characters"),
        _ => panic!("expected a refusal"),
    }
    assert!(validate_name("tab\tok", "Ship").is_ok());
    match validate_numeric_bounds(-3, 0, 10, "Fuel") {
        Err(GameError::InvalidOperation(m)) => assert_eq!(m, "Fuel value -3 out of bounds (0 to 10)"),
        _ => panic!("expected a refusal"),
    }
    let v = vec![1, 2, 3];
    assert!(check_collection_size(&v, 4, "Ship").is_ok());
    match check_collection_size(&v, 3, "Ship") {
        Err(GameError::SystemError(m)) => assert_eq!(m, "Ship collection at maximum capacity (3)"),
        _ => panic!("expected a refusal"),
    }
}
