use stellar_dominion::game_initializer::GameConfiguration;
use stellar_dominion::events::{EventBus, GameEvent, PlayerCommand, SimulationEvent};
use stellar_dominion::planet_manager::PlanetManager;
use stellar_dominion::save_system::{sort_saves_newest_first, SaveData, SaveInfo, SaveSystem};
use stellar_dominion::time_manager::{validate_game_state, TickClock, MAX_SAFE_TICK};
use stellar_dominion::types::{AIPersonality, Faction, GameError, Planet, Ship};

fn save(version: u32, planets: Vec<Planet<u8>>, factions: Vec<Faction>) -> SaveData<u8, u8> {
    SaveData {
        version,
        save_name: "slot1".to_string(),
        timestamp: 77,
        tick: 12,
        planets,
        ships: Vec::<Ship<u8>>::new(),
        factions,
        game_configuration: GameConfiguration::default(),
    }
}

fn one_planet() -> Vec<Planet<u8>> {
    let mut pm: PlanetManager<u8> = PlanetManager::new();
    pm.create_planet(0, None).unwrap();
    pm.get_all_planets_cloned().unwrap()
}

fn one_faction() -> Vec<Faction> {
    vec![Faction { id: 0, name: "A".to_string(), is_player: true, ai_type: AIPersonality::Balanced, score: 0 }]
}

#[test]
fn save_checks_version_contents_and_planets() {
    let sys = SaveSystem::new();
    assert!(sys.validate_save_integrity(&save(1, one_planet(), one_faction())).is_ok());
    match sys.validate_save_integrity(&save(2, one_planet(), one_faction())) {
        Err(GameError::SaveError(m)) => assert_eq!(m, "Unsupported save version: 2"),
        _ => panic!("expected a refusal"),
    }
    match sys.validate_save_integrity(&save(1, vec![], one_faction())) {
        Err(GameError::SaveError(m)) => assert_eq!(m, "Save file contains no planets"),
        _ => panic!("expected a refusal"),
    }
    match sys.validate_save_integrity(&save(1, one_planet(), vec![])) {
        Err(GameError::SaveError(m)) => assert_eq!(m, "Save file contains no factions"),
        _ => panic!("expected a refusal"),
    }
    let mut bad = one_planet();
    bad[0].population.total = 5;
    assert!(matches!(sys.validate_save_integrity(&save(1, bad, one_faction())), Err(GameError::InvalidOperation(_))));
}

#[test]
fn save_summary_and_slots() {
    let data = save(1, one_planet(), one_faction());
    let info = SaveInfo::from_save_data(&data);
    assert_eq!(info.name, "slot1");
    assert_eq!((info.timestamp, info.tick, info.planets, info.ships, info.factions), (77, 12, 1, 0, 1));
    let mut sys = SaveSystem::new();
    assert_eq!(sys.save_directory, "saves");
    assert_eq!(sys.save_slot(), "quicksave");
    assert_eq!(sys.load_slot(), "quicksave");
    sys.record_saved("campaign");
    assert_eq!(sys.save_slot(), "campaign");
    assert_eq!(sys.save_file_name("campaign"), "campaign.sav");
}

#[test]
fn saves_are_listed_newest_first() {
    let info = |name: &str, timestamp: u64| SaveInfo { name: name.to_string(), timestamp, tick: 0, planets: 0, ships: 0, factions: 0 };
    let sorted = sort_saves_newest_first(vec![info("a", 5), info("b", 9), info("c", 5), info("d", 7)]);
    let names: Vec<String> = sorted.iter().map(|s| s.name.clone()).collect();
    assert_eq!(names, vec!["b", "d", "a", "c"]);
}

#[test]
fn the_clock_counts_ticks_and_refuses_the_top() {
    let mut clock = TickClock::new();
    let mut bus: EventBus<(i32, i32), u32> = EventBus::new();
    clock.advance(&mut bus).unwrap();
    clock.advance(&mut bus).unwrap();
    assert_eq!(clock.get_current_tick(), 2);
    let es = bus.take_queued_events();
    assert!(matches!(es[1], GameEvent::SimulationEvent(SimulationEvent::TickCompleted(2))));
    assert!(clock.validate().is_ok());
    match clock.set_tick(MAX_SAFE_TICK) {
        Err(GameError::InvalidOperation(m)) => {
            assert_eq!(m, "Tick value 18446744073709550615 too large, maximum allowed: 18446744073709550615")
        },
        _ => panic!("expected a refusal"),
    }
    clock.set_tick(MAX_SAFE_TICK - 1).unwrap();
    clock.advance(&mut bus).unwrap();
    match clock.advance(&mut bus) {
        Err(GameError::SystemError(m)) => assert_eq!(m, "Tick counter approaching overflow limit"),
        _ => panic!("expected a refusal"),
    }
    assert_eq!(clock.get_current_tick(), MAX_SAFE_TICK);
    assert!(clock.validate().is_err());
}

#[test]
fn game_state_tick_must_stay_clear_of_the_top() {
    assert!(validate_game_state(0).is_ok());
    assert!(validate_game_state(u64::MAX - 10000).is_ok());
    match validate_game_state(u64::MAX - 9999) {
        Err(GameError::SystemError(m)) => assert_eq!(m, "Tick counter approaching overflow: 18446744073709541616"),
        _ => panic!("expected a refusal"),
    }
}

#[test]
fn pause_commands_pause_and_resume_the_clock() {
    let mut clock = TickClock::new();
    assert!(!clock.is_paused());
    let pause: GameEvent<(i32, i32), u32> = GameEvent::PlayerCommand(PlayerCommand::PauseGame(true));
    clock.handle_event(&pause).unwrap();
    assert!(clock.is_paused());
    let other: GameEvent<(i32, i32), u32> = GameEvent::PlayerCommand(PlayerCommand::SaveGame);
    clock.handle_event(&other).unwrap();
    assert!(clock.is_paused());
    let resume: GameEvent<(i32, i32), u32> = GameEvent::PlayerCommand(PlayerCommand::PauseGame(false));
    clock.handle_event(&resume).unwrap();
    assert!(!clock.is_paused());
    assert_eq!(clock.get_current_tick(), 0);
}
