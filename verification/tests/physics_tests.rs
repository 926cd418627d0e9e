use stellar_dominion::events::{EventBus, GameEvent, SimulationEvent, StateChange};
use stellar_dominion::physics_engine::{PhysicsEngine, Trajectory};
use stellar_dominion::types::GameError;

type Point = (i32, i32);
type Engine = PhysicsEngine<Point, u32>;
type Ev = GameEvent<Point, u32>;

fn trip(arrival: u64) -> Trajectory<Point, u32> {
    Trajectory { origin: (0, 0), destination: (arrival as i32, 1), departure_time: 0, arrival_time: arrival, fuel_cost: 1 }
}

fn tick(t: u64) -> Ev {
    GameEvent::SimulationEvent(SimulationEvent::TickCompleted(t))
}

#[test]
fn ticks_only_move_forward() {
    let mut engine: Engine = PhysicsEngine::new();
    assert_eq!(engine.current_tick(), 0);
    engine.handle_event(&tick(5)).unwrap();
    assert_eq!(engine.current_tick(), 5);
    assert!(engine.needs_tick_processing());
    match engine.handle_event(&tick(3)) {
        Err(GameError::InvalidOperation(m)) => assert_eq!(m, "Tick went backwards: 3 < 5"),
        _ => panic!("expected a refusal"),
    }
    assert_eq!(engine.current_tick(), 5);
}

#[test]
fn arrivals_are_reported_and_trips_end() {
    let mut engine: Engine = PhysicsEngine::new();
    engine.insert_trajectory(1, trip(10));
    engine.insert_trajectory(2, trip(4));
    engine.insert_trajectory(1, trip(3));
    assert_eq!(engine.get_active_trajectories().len(), 2);
    engine.handle_event(&tick(4)).unwrap();
    let mut bus: EventBus<Point, u32> = EventBus::new();
    engine.update(&vec![], &mut bus).unwrap();
    assert!(!engine.needs_tick_processing());
    assert_eq!(engine.get_active_trajectories().len(), 0);
    let q = bus.take_queued_events();
    assert_eq!(q.len(), 7);
    for (i, e) in q.iter().take(5).enumerate() {
        assert!(matches!(e, GameEvent::StateChanged(StateChange::PlanetUpdated(p)) if *p == i as u32));
    }
    assert!(matches!(q[5], GameEvent::SimulationEvent(SimulationEvent::ShipArrived { ship: 1, destination: (3, 1) })));
    assert!(matches!(q[6], GameEvent::SimulationEvent(SimulationEvent::ShipArrived { ship: 2, destination: (4, 1) })));
    engine.update(&vec![], &mut bus).unwrap();
    assert!(bus.queued_events().is_empty());
    engine.insert_trajectory(9, trip(100));
    let arrived: Ev = GameEvent::SimulationEvent(SimulationEvent::ShipArrived { ship: 9, destination: (0, 0) });
    engine.handle_event(&arrived).unwrap();
    assert!(engine.get_active_trajectories().is_empty());
}

#[test]
fn transfer_windows_open_every_25_ticks_for_30() {
    let mut engine: Engine = PhysicsEngine::new();
    let mut bus: EventBus<Point, u32> = EventBus::new();
    engine.handle_event(&tick(25)).unwrap();
    engine.update(&vec![(0, 1), (2, 4), (1, 0), (3, 9)], &mut bus).unwrap();
    assert_eq!(engine.get_transfer_window_count(), 2);
    assert!(engine.is_transfer_window_open(1, 0));
    assert!(engine.is_transfer_window_open(2, 4));
    assert!(!engine.is_transfer_window_open(0, 2));
    let q = bus.take_queued_events();
    assert!(matches!(q[5], GameEvent::SimulationEvent(SimulationEvent::TransferWindowOpen { from: 0, to: 1 })));
    assert!(matches!(q[6], GameEvent::SimulationEvent(SimulationEvent::TransferWindowOpen { from: 2, to: 4 })));
    engine.handle_event(&tick(50)).unwrap();
    engine.update(&vec![(0, 1), (0, 2)], &mut bus).unwrap();
    assert_eq!(engine.get_transfer_window_count(), 3);
    engine.handle_event(&tick(56)).unwrap();
    engine.update(&vec![(0, 3)], &mut bus).unwrap();
    assert_eq!(engine.get_transfer_window_count(), 1);
    assert!(engine.is_transfer_window_open(0, 2));
    assert!(!engine.is_transfer_window_open(0, 3));
}

#[test]
fn test_new_physics_engine() {
    let physics: Engine = PhysicsEngine::new();
    assert_eq!(physics.get_transfer_window_count(), 0);
    assert_eq!(physics.get_active_trajectories().len(), 0);
}

#[test]
fn test_tick_progression_validation() {
    let mut physics: Engine = PhysicsEngine::new();
    let tick1 = GameEvent::SimulationEvent(SimulationEvent::TickCompleted(100));
    assert!(physics.handle_event(&tick1).is_ok());
    let backwards_tick = GameEvent::SimulationEvent(SimulationEvent::TickCompleted(50));
    assert!(physics.handle_event(&backwards_tick).is_err());
    let forward_tick = GameEvent::SimulationEvent(SimulationEvent::TickCompleted(150));
    assert!(physics.handle_event(&forward_tick).is_ok());
}
