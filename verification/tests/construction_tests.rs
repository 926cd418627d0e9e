use stellar_dominion::construction::ConstructionSystem;
use stellar_dominion::events::{EventBus, GameEvent, PlayerCommand, SimulationEvent};
use stellar_dominion::types::{BuildingType, ResourceBundle, ShipClass};

#[test]
fn test_construction_system_creation() {
    let system = ConstructionSystem::new();
    assert_eq!(system.current_tick, 0);
    assert!(system.building_queue.is_empty());
    assert!(system.ship_queue.is_empty());
    for building_type in [
        BuildingType::Mine,
        BuildingType::Farm,
        BuildingType::PowerPlant,
        BuildingType::Factory,
        BuildingType::ResearchLab,
        BuildingType::Spaceport,
        BuildingType::DefensePlatform,
        BuildingType::StorageFacility,
        BuildingType::Habitat,
    ] {
        assert!(system.get_building_cost(building_type).is_some());
    }
    for ship_class in [ShipClass::Scout, ShipClass::Transport, ShipClass::Colony, ShipClass::Warship] {
        assert!(system.get_ship_cost(ship_class).is_some());
    }
}

#[test]
fn test_building_construction_request() {
    let mut system = ConstructionSystem::new();
    let result = system.request_building_construction(1, BuildingType::Mine);
    assert!(result.is_ok());
    let queue = system.get_building_queue(1);
    assert_eq!(queue.len(), 1);
    assert_eq!(queue[0].building_type, BuildingType::Mine);
    assert_eq!(queue[0].planet_id, 1);
}

#[test]
fn test_ship_construction_request() {
    let mut system = ConstructionSystem::new();
    let result = system.request_ship_construction(1, ShipClass::Scout);
    assert!(result.is_ok());
    let queue = system.get_ship_queue(1);
    assert_eq!(queue.len(), 1);
    assert_eq!(queue[0].ship_class, ShipClass::Scout);
    assert_eq!(queue[0].planet_id, 1);
}

#[test]
fn test_construction_completion() {
    let mut system = ConstructionSystem::new();
    let mut event_bus: EventBus<(i32, i32), u32> = EventBus::new();
    system.request_building_construction(1, BuildingType::Mine).unwrap();
    system.current_tick = 15;
    system.process_building_completions(&mut event_bus).unwrap();
    let queue = system.get_building_queue(1);
    assert_eq!(queue.len(), 0);
    assert_eq!(event_bus.queued_events().len(), 1);
}

#[test]
fn test_queue_cancellation() {
    let mut system = ConstructionSystem::new();
    system.request_building_construction(1, BuildingType::Mine).unwrap();
    system.request_ship_construction(1, ShipClass::Scout).unwrap();
    let cancelled_building = system.cancel_building(1, 0);
    assert!(cancelled_building.is_ok());
    assert_eq!(cancelled_building.unwrap().building_type, BuildingType::Mine);
    let cancelled_ship = system.cancel_ship(1, 0);
    assert!(cancelled_ship.is_ok());
    assert_eq!(cancelled_ship.unwrap().ship_class, ShipClass::Scout);
    assert_eq!(system.get_building_queue(1).len(), 0);
    assert_eq!(system.get_ship_queue(1).len(), 0);
}

#[test]
fn test_validation() {
    let system = ConstructionSystem::new();
    let result = system.validate();
    assert!(result.is_ok());
}

#[test]
fn mine_costs_and_completes_after_ten_ticks() {
    let mut system = ConstructionSystem::new();
    let (cost, time) = *system.get_building_cost(BuildingType::Mine).unwrap();
    assert_eq!(time, 10);
    assert_eq!(cost.minerals, 100);
    assert_eq!(cost.alloys, 20);
    system.current_tick = 5;
    system.request_building_construction(3, BuildingType::Mine).unwrap();
    let order = system.get_building_queue(3)[0].clone();
    assert_eq!(order.start_tick, 5);
    assert_eq!(order.completion_tick, 15);
    let mut bus: EventBus<(i32, i32), u32> = EventBus::new();
    system.current_tick = 14;
    system.process_building_completions(&mut bus).unwrap();
    assert_eq!(system.get_building_queue(3).len(), 1);
    assert_eq!(bus.queued_events().len(), 0);
    system.current_tick = 15;
    system.process_building_completions(&mut bus).unwrap();
    assert_eq!(system.get_building_queue(3).len(), 0);
    match &bus.queued_events()[0] {
        GameEvent::SimulationEvent(SimulationEvent::ConstructionCompleted { planet, building }) => {
            assert_eq!(*planet, 3);
            assert_eq!(*building, BuildingType::Mine);
        },
        _ => panic!("expected a completed construction"),
    }
}

#[test]
fn warship_completion_raises_ship_event_with_placeholder_id() {
    let mut system = ConstructionSystem::new();
    let (cost, time) = *system.get_ship_cost(ShipClass::Warship).unwrap();
    assert_eq!(time, 25);
    assert_eq!(cost.alloys, 120);
    system.request_ship_construction(2, ShipClass::Warship).unwrap();
    system.current_tick = 25;
    let mut bus: EventBus<(i32, i32), u32> = EventBus::new();
    system.update(&mut bus).unwrap();
    assert_eq!(system.get_ship_queue(2).len(), 0);
    match &bus.queued_events()[0] {
        GameEvent::SimulationEvent(SimulationEvent::ShipCompleted { planet, ship }) => {
            assert_eq!(*planet, 2);
            assert_eq!(*ship, 0);
        },
        _ => panic!("expected a completed ship"),
    }
}

#[test]
fn cancelling_a_missing_order_fails() {
    let mut system = ConstructionSystem::new();
    assert!(system.cancel_building(1, 0).is_err());
    system.request_building_construction(1, BuildingType::Farm).unwrap();
    assert!(system.cancel_building(1, 1).is_err());
    assert!(system.cancel_ship(9, 0).is_err());
    assert_eq!(system.get_total_queue_length(1), 1);
}

#[test]
fn construction_events_queue_and_follow_the_tick() {
    let mut system = ConstructionSystem::new();
    let build: GameEvent<(i32, i32), u32> =
        GameEvent::PlayerCommand(PlayerCommand::BuildStructure { planet: 4, building_type: BuildingType::Farm });
    system.handle_event(&build).unwrap();
    let tick: GameEvent<(i32, i32), u32> = GameEvent::SimulationEvent(SimulationEvent::TickCompleted(7));
    system.handle_event(&tick).unwrap();
    assert_eq!(system.current_tick, 7);
    let ship: GameEvent<(i32, i32), u32> =
        GameEvent::PlayerCommand(PlayerCommand::ConstructShip { planet: 4, ship_class: ShipClass::Colony });
    system.handle_event(&ship).unwrap();
    assert_eq!(system.get_building_queue(4)[0].start_tick, 0);
    assert_eq!(system.get_ship_queue(4)[0].start_tick, 7);
    assert_eq!(system.get_ship_queue(4)[0].completion_tick, 27);
    assert_eq!(system.get_total_queue_length(4), 2);
    let _unused = ResourceBundle::default();
}

#[test]
fn orders_stay_valid_through_a_session() {
    let mut system = ConstructionSystem::new();
    let mut bus: EventBus<(i32, i32), u32> = EventBus::new();
    assert!(system.validate().is_ok());
    system.request_building_construction(1, BuildingType::Mine).unwrap();
    system.request_ship_construction(1, ShipClass::Scout).unwrap();
    system.request_building_construction(2, BuildingType::Habitat).unwrap();
    assert!(system.validate().is_ok());
    system.cancel_building(1, 0).unwrap();
    assert!(system.validate().is_ok());
    let tick: GameEvent<(i32, i32), u32> = GameEvent::SimulationEvent(SimulationEvent::TickCompleted(9));
    system.handle_event(&tick).unwrap();
    system.update(&mut bus).unwrap();
    assert!(system.validate().is_ok());
    let build: GameEvent<(i32, i32), u32> =
        GameEvent::PlayerCommand(PlayerCommand::BuildStructure { planet: 3, building_type: BuildingType::Farm });
    system.handle_event(&build).unwrap();
    assert!(system.validate().is_ok());
    assert_eq!(system.get_total_queue_length(2), 1);
    assert_eq!(system.get_total_queue_length(3), 1);
}
