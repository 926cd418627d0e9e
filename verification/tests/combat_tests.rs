use stellar_dominion::combat_resolver::CombatResolver;
use stellar_dominion::events::{EventBus, GameEvent, PlayerCommand, SimulationEvent};

type Point = (i32, i32);
type Ev = GameEvent<Point, u32>;

#[test]
fn test_create_combat_resolver() {
    let resolver: CombatResolver<Point> = CombatResolver::new((0, 0));
    assert_eq!(resolver.get_active_battle_count(), 0);
    assert!(!resolver.has_active_battles());
}

#[test]
fn test_initiate_combat() {
    let mut resolver: CombatResolver<Point> = CombatResolver::new((0, 0));
    assert_eq!(resolver.get_active_battle_count(), 0);
    resolver.initiate_combat(1, 2).unwrap();
    assert_eq!(resolver.get_active_battle_count(), 1);
    assert!(resolver.has_active_battles());
}

#[test]
fn test_planetary_invasion() {
    let mut resolver: CombatResolver<Point> = CombatResolver::new((0, 0));
    let location = (100, 200);
    resolver.initiate_planetary_invasion(1, 5, location).unwrap();
    assert_eq!(resolver.get_active_battle_count(), 1);
    assert!(resolver.has_active_battles());
}

#[test]
fn test_resolve_battles_clears_active() {
    let mut resolver: CombatResolver<Point> = CombatResolver::new((0, 0));
    let mut event_bus: EventBus<Point, u32> = EventBus::new();
    resolver.initiate_combat(1, 2).unwrap();
    assert_eq!(resolver.get_active_battle_count(), 1);
    resolver.update(&mut event_bus).unwrap();
    assert_eq!(resolver.get_active_battle_count(), 0);
    assert!(!event_bus.queued_events().is_empty());
}

#[test]
fn battles_are_handed_over_oldest_first() {
    let mut resolver: CombatResolver<Point> = CombatResolver::new((0, 0));
    let attack: Ev = GameEvent::PlayerCommand(PlayerCommand::AttackTarget { attacker: 3, target: 4 });
    resolver.handle_event(&attack).unwrap();
    let arrival: Ev = GameEvent::SimulationEvent(SimulationEvent::ShipArrived { ship: 3, destination: (1, 1) });
    resolver.handle_event(&arrival).unwrap();
    resolver.initiate_planetary_invasion(7, 9, (5, 5)).unwrap();
    let b = resolver.active_battles();
    assert_eq!((b[0].attacker, b[0].defender, b[0].location, b[0].planet_id), (3, 4, (0, 0), None));
    assert_eq!((b[1].attacker, b[1].defender, b[1].location, b[1].planet_id), (7, 0, (5, 5), Some(9)));
    let mut bus: EventBus<Point, u32> = EventBus::new();
    resolver.update(&mut bus).unwrap();
    let q = bus.take_queued_events();
    assert_eq!(q.len(), 2);
    assert!(matches!(q[0], GameEvent::PlayerCommand(PlayerCommand::AttackTarget { attacker: 3, target: 4 })));
    assert!(matches!(q[1], GameEvent::PlayerCommand(PlayerCommand::AttackTarget { attacker: 7, target: 0 })));
    assert!(!resolver.has_active_battles());
}
