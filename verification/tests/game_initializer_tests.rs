use stellar_dominion::faction_manager::FactionManager;
use stellar_dominion::game_initializer::{GalaxySize, GameConfiguration, GameInitializer};
use stellar_dominion::planet_manager::PlanetManager;
use stellar_dominion::ship_manager::ShipManager;
use stellar_dominion::types::{AIPersonality, GameError, ResourceBundle, ShipClass};

#[test]
fn test_default_configuration() {
    let config = GameConfiguration::default();
    assert_eq!(config.planet_count, 3);
    assert_eq!(config.starting_population, 1000);
    assert_eq!(config.ai_opponents, 1);
}

#[test]
fn test_galaxy_size_ranges() {
    assert_eq!(GalaxySize::Small.planet_range(), (5, 10));
    assert_eq!(GalaxySize::Medium.planet_range(), (10, 20));
    assert_eq!(GalaxySize::Large.planet_range(), (20, 50));
}

#[test]
fn test_game_initializer_creation() {
    let config = GameConfiguration::default();
    let initializer = GameInitializer::new(config.clone());
    assert_eq!(initializer.get_configuration().planet_count, config.planet_count);
}

#[test]
fn test_faction_creation() {
    let config = GameConfiguration { ai_opponents: 2, ..Default::default() };
    let initializer = GameInitializer::new(config);
    let mut faction_manager = FactionManager::new();
    initializer.create_factions(&mut faction_manager).unwrap();
    let factions = faction_manager.get_all_factions();
    assert_eq!(factions.len(), 3);
}

#[test]
fn test_planet_creation() {
    let config = GameConfiguration { planet_count: 5, ai_opponents: 2, ..Default::default() };
    let initializer = GameInitializer::new(config);
    let mut planet_manager: PlanetManager<u8> = PlanetManager::new();
    let positions: Vec<u8> = vec![10, 11, 12, 13, 14];
    let planet_ids = initializer.create_planets(&mut planet_manager, &positions).unwrap();
    assert_eq!(planet_ids.len(), 5);
    let planets = planet_manager.get_all_planets_cloned().unwrap();
    assert!(planets[0].controller == Some(0));
    assert!(planets[1].controller == Some(1));
    assert!(planets[2].controller == Some(2));
    assert!(planets[3].controller.is_none());
    assert!(planets[4].controller.is_none());
    assert_eq!(planets[3].position, 13);
}

#[test]
fn factions_are_named_and_typed_in_order() {
    let config = GameConfiguration { ai_opponents: 4, ..Default::default() };
    let initializer = GameInitializer::new(config);
    let mut fm = FactionManager::new();
    initializer.create_factions(&mut fm).unwrap();
    let fs = fm.get_all_factions();
    assert_eq!(fs[0].name, "Player Empire");
    assert!(fs[0].is_player);
    assert_eq!(fs[0].ai_type, AIPersonality::Balanced);
    assert_eq!(fs[1].name, "Stellar Federation");
    assert_eq!(fs[1].ai_type, AIPersonality::Aggressive);
    assert_eq!(fs[2].name, "Cosmic Republic");
    assert_eq!(fs[2].ai_type, AIPersonality::Economic);
    assert_eq!(fs[3].ai_type, AIPersonality::Balanced);
    assert_eq!(fs[4].name, "Star Alliance");
    assert_eq!(fs[4].ai_type, AIPersonality::Aggressive);
    assert!(fs.iter().enumerate().all(|(i, f)| f.id as usize == i && f.score == 0));
}

#[test]
fn ten_opponents_repeat_a_name_and_fail() {
    let config = GameConfiguration { ai_opponents: 10, ..Default::default() };
    let initializer = GameInitializer::new(config);
    let mut fm = FactionManager::new();
    let r = initializer.create_factions(&mut fm);
    assert!(matches!(r, Err(GameError::InvalidOperation(_))));
    assert_eq!(fm.count(), 10);
    assert_eq!(fm.get_all_factions()[9].name, "AI Empire");
}

#[test]
fn initialize_game_sets_up_everything() {
    let config = GameConfiguration::default();
    let initializer = GameInitializer::new(config);
    let mut pm: PlanetManager<u8> = PlanetManager::new();
    let mut sm: ShipManager<u16> = ShipManager::new();
    let mut fm = FactionManager::new();
    initializer.initialize_game(&mut pm, &mut sm, &mut fm, &vec![1, 2, 3], &vec![100, 200, 300]).unwrap();
    assert_eq!(fm.count(), 2);
    let planets = pm.get_all_planets();
    assert_eq!(planets.len(), 3);
    assert_eq!(planets[0].resources.current.minerals, 1000);
    assert_eq!(planets[0].population.total, 1000);
    let a = planets[0].population.allocation;
    assert_eq!((a.agriculture, a.mining, a.industry, a.research, a.military, a.unassigned), (225, 225, 150, 150, 90, 160));
    assert_eq!(planets[1].controller, Some(1));
    assert_eq!(planets[1].population.total, 1000);
    assert_eq!(planets[2].controller, None);
    assert_eq!(planets[2].population.total, 0);
    assert_eq!(planets[2].resources.current, ResourceBundle::default());
    let ships = sm.get_all_ships();
    assert_eq!(ships.len(), 2);
    assert_eq!(ships[0].ship_class, ShipClass::Scout);
    assert_eq!(ships[0].owner, 0);
    assert_eq!(ships[0].motion, 100);
    assert_eq!(ships[1].ship_class, ShipClass::Warship);
    assert_eq!(ships[1].owner, 1);
    assert_eq!(ships[1].motion, 200);
}

#[test]
fn initialize_game_refuses_negative_population() {
    let config = GameConfiguration { starting_population: -5, ..Default::default() };
    let initializer = GameInitializer::new(config);
    let mut pm: PlanetManager<u8> = PlanetManager::new();
    let mut sm: ShipManager<u16> = ShipManager::new();
    let mut fm = FactionManager::new();
    let r = initializer.initialize_game(&mut pm, &mut sm, &mut fm, &vec![1, 2, 3], &vec![1, 2, 3]);
    match r {
        Err(GameError::InvalidOperation(m)) => assert_eq!(m, "Population cannot be negative"),
        _ => panic!("expected a refusal"),
    }
    assert_eq!(pm.get_all_planets()[0].resources.current.minerals, 1000);
    assert_eq!(pm.get_all_planets()[1].resources.current.minerals, 0);
}

#[test]
fn initialize_game_refuses_stores_beyond_capacity() {
    let mut config = GameConfiguration { planet_count: 1, ..Default::default() };
    config.starting_resources.energy = 1001;
    let initializer = GameInitializer::new(config);
    let mut pm: PlanetManager<u8> = PlanetManager::new();
    let mut sm: ShipManager<u16> = ShipManager::new();
    let mut fm = FactionManager::new();
    let r = initializer.initialize_game(&mut pm, &mut sm, &mut fm, &vec![1], &vec![1]);
    match r {
        Err(GameError::InvalidOperation(m)) => assert_eq!(m, "Storage capacity exceeded"),
        _ => panic!("expected a refusal"),
    }
    assert_eq!(pm.get_all_planets()[0].resources.current.minerals, 0);
}

#[test]
fn configuration_can_be_replaced() {
    let mut initializer = GameInitializer::new(GameConfiguration::default());
    let config = GameConfiguration { planet_count: 7, galaxy_size: GalaxySize::Large, ..Default::default() };
    initializer.set_configuration(config);
    assert_eq!(initializer.get_configuration().planet_count, 7);
    assert_eq!(initializer.get_configuration().galaxy_size, GalaxySize::Large);
}
