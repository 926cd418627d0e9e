use stellar_dominion::entity_manager::EntityManager;
use stellar_dominion::events::{GameEvent, SimulationEvent, StateChange};
use stellar_dominion::faction_manager::FactionManager;
use stellar_dominion::types::{AIPersonality, Building, BuildingType, Demographics, Faction, GameError, ResourceBundle, ResourceStorage, WorkerAllocation};

type Ev = GameEvent<(i32, i32), u32>;

fn faction(id: u8, name: &str, score: i32) -> Faction {
    Faction { id, name: name.to_string(), is_player: false, ai_type: AIPersonality::Balanced, score }
}

#[test]
fn planets_need_an_existing_controller() {
    let mut em: EntityManager<u8> = EntityManager::new();
    match em.create_planet(1, Some(0)) {
        Err(GameError::InvalidTarget(m)) => assert_eq!(m, "Faction 0 not found"),
        _ => panic!("expected a refusal"),
    }
    em.create_faction("Alpha".to_string(), true, AIPersonality::Balanced).unwrap();
    assert_eq!(em.create_planet(1, Some(0)).unwrap(), 0);
    assert_eq!(em.create_planet(2, None).unwrap(), 1);
    let p = em.get_planet(0).unwrap();
    assert_eq!(p.resources.capacity, ResourceBundle::default());
    assert_eq!(em.planet_count(), 2);
    assert!(em.get_planet(7).is_none());
}

#[test]
fn building_slots_follow_the_population() {
    let mut em: EntityManager<u8> = EntityManager::new();
    let id = em.create_planet(0, None).unwrap();
    let b = Building { building_type: BuildingType::Mine, tier: 2, operational: false };
    for _ in 0..10 {
        em.add_building(id, b).unwrap();
    }
    match em.add_building(id, b) {
        Err(GameError::InvalidOperation(m)) => assert_eq!(m, "Planet 0 has no available building slots"),
        _ => panic!("expected a refusal"),
    }
    em.update_planet_population(id, Demographics { total: 10000, allocation: WorkerAllocation::default() }).unwrap();
    em.add_building(id, b).unwrap();
    assert_eq!(em.get_planet(id).unwrap().developments.len(), 11);
    assert_eq!(em.get_planet(id).unwrap().developments[10], b);
    let stores = ResourceStorage { current: ResourceBundle { food: 3, ..Default::default() }, capacity: ResourceBundle { food: 9, ..Default::default() } };
    em.update_planet_resources(id, stores).unwrap();
    assert_eq!(em.get_planet(id).unwrap().resources, stores);
    assert!(em.update_planet_resources(5, stores).is_err());
}

#[test]
fn loading_planets_checks_controllers_and_workers() {
    let mut em: EntityManager<u8> = EntityManager::new();
    em.create_faction("Alpha".to_string(), true, AIPersonality::Balanced).unwrap();
    let mut other: EntityManager<u8> = EntityManager::new();
    other.create_faction("Beta".to_string(), true, AIPersonality::Balanced).unwrap();
    other.create_faction("Gamma".to_string(), false, AIPersonality::Balanced).unwrap();
    other.create_planet(4, Some(1)).unwrap();
    let planets = other.get_all_planets().to_vec();
    match em.load_planets(planets) {
        Err(GameError::InvalidOperation(m)) => assert_eq!(m, "Planet 0 references non-existent faction 1"),
        _ => panic!("expected a refusal"),
    }
    assert!(em.load_planets(vec![]).is_ok());
    assert_eq!(em.create_planet(0, None).unwrap(), 0);
    let mut third: EntityManager<u8> = EntityManager::new();
    for _ in 0..3 {
        third.create_planet(9, None).unwrap();
    }
    em.load_planets(third.get_all_planets().to_vec()).unwrap();
    assert_eq!(em.create_planet(0, None).unwrap(), 3);
}

#[test]
fn scores_reject_negatives_before_looking() {
    let mut em: EntityManager<u8> = EntityManager::new();
    match em.update_score(3, -1) {
        Err(GameError::InvalidOperation(m)) => assert_eq!(m, "Faction score cannot be negative"),
        _ => panic!("expected a refusal"),
    }
    assert!(matches!(em.update_score(3, 1), Err(GameError::InvalidTarget(_))));
    em.create_faction("Alpha".to_string(), true, AIPersonality::Balanced).unwrap();
    em.update_score(0, 4).unwrap();
    em.add_score(0, 6).unwrap();
    assert_eq!(em.get_faction(0).unwrap().score, 10);
    assert_eq!(em.find_faction_by_name("Alpha").unwrap().id, 0);
    assert!(em.get_player_faction().is_some());
    assert_eq!(em.faction_count(), 1);
    assert_eq!(em.get_all_factions().len(), 1);
}

#[test]
fn faction_loading_reports_the_first_problem() {
    let mut fm = FactionManager::new();
    match fm.load_factions(vec![faction(1, "A", 0), faction(2, " ", 0), faction(3, "C", -1)]) {
        Err(GameError::InvalidOperation(m)) => assert_eq!(m, "Loaded faction has empty name"),
        _ => panic!("expected a refusal"),
    }
    match fm.load_factions(vec![faction(1, "A", 0), faction(3, "C", -1)]) {
        Err(GameError::InvalidOperation(m)) => assert_eq!(m, "Loaded faction has negative score"),
        _ => panic!("expected a refusal"),
    }
    match fm.load_factions(vec![faction(1, "A", 0), faction(2, "B", 0), faction(2, "A", 0)]) {
        Err(GameError::InvalidOperation(m)) => assert_eq!(m, "Duplicate faction ID: 2"),
        _ => panic!("expected a refusal"),
    }
    let mut em: EntityManager<u8> = EntityManager::new();
    match em.load_factions(vec![faction(1, "A", 0), faction(2, "A", 0)]) {
        Err(GameError::InvalidOperation(m)) => assert_eq!(m, "Duplicate faction name: A"),
        _ => panic!("expected a refusal"),
    }
    em.load_factions(vec![faction(7, "A", 0)]).unwrap();
    assert_eq!(em.create_faction("B".to_string(), false, AIPersonality::Economic).unwrap(), 8);
}

#[test]
fn entity_events_check_what_they_name() {
    let mut em: EntityManager<u8> = EntityManager::new();
    em.create_faction("Alpha".to_string(), true, AIPersonality::Balanced).unwrap();
    em.create_planet(0, None).unwrap();
    let ok: Ev = GameEvent::SimulationEvent(SimulationEvent::PlanetConquered { planet: 0, new_owner: 0 });
    assert!(em.handle_event(&ok).is_ok());
    let bad_owner: Ev = GameEvent::SimulationEvent(SimulationEvent::PlanetConquered { planet: 0, new_owner: 5 });
    match em.handle_event(&bad_owner) {
        Err(GameError::InvalidTarget(m)) => assert_eq!(m, "Faction 5 not found"),
        _ => panic!("expected a refusal"),
    }
    let bad_planet: Ev = GameEvent::StateChanged(StateChange::PlanetUpdated(3));
    match em.handle_event(&bad_planet) {
        Err(GameError::InvalidTarget(m)) => assert_eq!(m, "Planet 3 not found"),
        _ => panic!("expected a refusal"),
    }
    let loaded: Ev = GameEvent::StateChanged(StateChange::GameLoaded);
    assert!(em.handle_event(&loaded).is_ok());
}
