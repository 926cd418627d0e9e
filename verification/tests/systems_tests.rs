use stellar_dominion::events::{EventBus, EventType, GameEvent, PlayerCommand, SimulationEvent, StateChange, SystemId};
use stellar_dominion::planet_manager::PlanetManager;
use stellar_dominion::population_system::{MigrationOrder, PopulationSystem};
use stellar_dominion::resource_system::ResourceSystem;
use stellar_dominion::ship_manager::ShipManager;
use stellar_dominion::types::{
    Building, BuildingType, GameError, ResourceBundle, ResourceType, ShipClass, WorkerAllocation,
};

type Ev = GameEvent<(i32, i32), u32>;
type Bus = EventBus<(i32, i32), u32>;

fn planet_with(allocation: WorkerAllocation, buildings: Vec<Building>) -> stellar_dominion::types::Planet<u8> {
    let mut pm: PlanetManager<u8> = PlanetManager::new();
    let id = pm.create_planet(0, Some(0)).unwrap();
    let p = pm.get_planet_mut(id).unwrap();
    p.population.allocation = allocation;
    p.developments = buildings;
    pm.get_all_planets_cloned().unwrap().remove(0)
}

#[test]
fn production_counts_workers_and_operational_buildings_by_tier() {
    let rs = ResourceSystem::new();
    let workers = WorkerAllocation { agriculture: 10, mining: 5, industry: 3, research: 0, military: 0, unassigned: 2 };
    let buildings = vec![
        Building { building_type: BuildingType::Mine, tier: 2, operational: true },
        Building { building_type: BuildingType::Factory, tier: 1, operational: true },
        Building { building_type: BuildingType::PowerPlant, tier: 1, operational: false },
        Building { building_type: BuildingType::Habitat, tier: 3, operational: true },
    ];
    let p = planet_with(workers, buildings);
    let prod = rs.calculate_planet_production(&p).unwrap();
    assert_eq!(prod.minerals, 5 * 2 + 10 * 2 - 5);
    assert_eq!(prod.food, 30);
    assert_eq!(prod.energy, 3 - 4 - 3);
    assert_eq!(prod.alloys, 5);
    assert_eq!(prod.components, 0);
}

#[test]
fn shortages_are_listed_in_resource_order() {
    let rs = ResourceSystem::new();
    let current = ResourceBundle { food: 2, energy: 1, fuel: 0, ..Default::default() };
    let production = ResourceBundle { food: -3, energy: -1, fuel: -1, minerals: 4, ..Default::default() };
    assert_eq!(rs.detect_resource_shortages(&current, &production), vec![ResourceType::Food, ResourceType::Fuel]);
}

#[test]
fn effective_production_is_capped_by_room() {
    let rs = ResourceSystem::new();
    let current = ResourceBundle { minerals: 95, food: 10, ..Default::default() };
    let capacity = ResourceBundle { minerals: 100, food: 100, energy: 0, ..Default::default() };
    let production = ResourceBundle { minerals: 20, food: -4, energy: 3, ..Default::default() };
    let eff = rs.calculate_effective_production(&current, &capacity, &production).unwrap();
    assert_eq!(eff.minerals, 5);
    assert_eq!(eff.food, -4);
    assert_eq!(eff.energy, 0);
}

#[test]
fn processing_production_records_and_raises_events() {
    let mut rs = ResourceSystem::new();
    let mut bus: Bus = EventBus::new();
    let workers = WorkerAllocation { agriculture: 0, mining: 1, industry: 0, research: 0, military: 0, unassigned: 0 };
    let p = planet_with(workers, vec![Building { building_type: BuildingType::Farm, tier: 1, operational: true }]);
    rs.process_production(&[p], &mut bus).unwrap();
    let recorded = *rs.get_consumption_for_planet(0).unwrap();
    assert_eq!(recorded, ResourceBundle { minerals: 2, food: 8, energy: -1, ..Default::default() });
    let events = bus.take_queued_events();
    assert_eq!(events.len(), 3);
    assert!(matches!(events[0], GameEvent::SimulationEvent(SimulationEvent::ResourceShortage { planet: 0, resource: ResourceType::Energy })));
    match &events[1] {
        GameEvent::SimulationEvent(SimulationEvent::ResourcesProduced { planet, resources }) => {
            assert_eq!(*planet, 0);
            assert_eq!(resources.minerals, 2);
            assert_eq!(resources.energy, -1);
        },
        _ => panic!("expected the production"),
    }
    assert!(matches!(events[2], GameEvent::StateChanged(StateChange::PlanetUpdated(0))));
    assert!(rs.get_consumption_for_planet(1).is_none());
    let produced: Ev = GameEvent::SimulationEvent(SimulationEvent::ResourcesProduced { planet: 4, resources: ResourceBundle { fuel: 9, ..Default::default() } });
    rs.handle_event(&produced).unwrap();
    assert_eq!(rs.get_consumption_for_planet(4).unwrap().fuel, 9);
}

#[test]
fn transfers_are_checked_against_source_and_room() {
    let rs = ResourceSystem::new();
    let mut pm: PlanetManager<u8> = PlanetManager::new();
    let a = pm.create_planet(0, None).unwrap();
    let b = pm.create_planet(0, None).unwrap();
    pm.add_resources(a, ResourceBundle { minerals: 500, energy: 900, ..Default::default() }).unwrap();
    pm.add_resources(b, ResourceBundle { energy: 950, ..Default::default() }).unwrap();
    let src = pm.get_planet(a).unwrap().clone();
    let dst = pm.get_planet(b).unwrap().clone();
    let ask = ResourceBundle { minerals: 100, ..Default::default() };
    assert_eq!(rs.validate_transfer(&src, &dst, ask).unwrap(), ask);
    let capped = rs.validate_transfer(&src, &dst, ResourceBundle { minerals: 10, energy: 100, ..Default::default() }).unwrap();
    assert_eq!(capped, ResourceBundle { minerals: 10, energy: 50, ..Default::default() });
    match rs.validate_transfer(&src, &dst, ResourceBundle { minerals: 501, ..Default::default() }) {
        Err(GameError::InsufficientResources { required, available }) => {
            assert_eq!(required.minerals, 501);
            assert_eq!(available.minerals, 500);
        },
        _ => panic!("expected a refusal"),
    }
    let mut pm2: PlanetManager<u8> = PlanetManager::new();
    let c = pm2.create_planet(0, None).unwrap();
    pm2.add_resources(c, ResourceBundle { energy: 1000, ..Default::default() }).unwrap();
    let full = pm2.get_planet(c).unwrap().clone();
    match rs.validate_transfer(&src, &full, ResourceBundle { energy: 10, ..Default::default() }) {
        Err(GameError::InvalidOperation(m)) => assert_eq!(m, "Destination has no storage capacity"),
        _ => panic!("expected a refusal"),
    }
}

#[test]
fn cargo_checks_pass_on_docking_refusals() {
    let rs = ResourceSystem::new();
    let mut pm: PlanetManager<u8> = PlanetManager::new();
    let id = pm.create_planet(0, None).unwrap();
    pm.add_resources(id, ResourceBundle { minerals: 100, food: 100, ..Default::default() }).unwrap();
    let planet = pm.get_planet(id).unwrap().clone();
    let mut sm: ShipManager<u8> = ShipManager::new();
    let s = sm.create_ship(ShipClass::Transport, 0, 1).unwrap();
    sm.get_ship_mut(s).unwrap().cargo.capacity = 30;
    let ship = sm.get_ship(s).unwrap().clone();
    let far = Err(GameError::InvalidOperation("too far".to_string()));
    assert!(matches!(rs.validate_cargo_loading(&ship, &planet, ResourceBundle::default(), far), Err(GameError::InvalidOperation(m)) if m == "too far"));
    let ask = ResourceBundle { minerals: 20, food: 20, ..Default::default() };
    let capped = rs.validate_cargo_loading(&ship, &planet, ask, Ok(())).unwrap();
    assert_eq!(capped, ResourceBundle { minerals: 20, food: 20, ..Default::default() });
    let small = ResourceBundle { minerals: 10, ..Default::default() };
    assert_eq!(rs.validate_cargo_loading(&ship, &planet, small, Ok(())).unwrap(), small);
    let unloaded = rs.validate_cargo_unloading(&ship, &planet, Ok(())).unwrap();
    assert_eq!(unloaded, ResourceBundle::default());
}

#[test]
fn growth_needs_a_fifth_more_food_than_eaten() {
    let mut ps = PopulationSystem::new();
    let mut bus: Bus = EventBus::new();
    ps.process_planet_growth(1, 1000, 1201, &mut bus).unwrap();
    let es = bus.take_queued_events();
    assert_eq!(es.len(), 3);
    assert!(matches!(es[1], GameEvent::SimulationEvent(SimulationEvent::PopulationGrowth { planet: 1, amount: 20 })));
    assert_eq!(ps.get_growth_rate(1), Some(2));
    ps.process_planet_growth(1, 1000, 1200, &mut bus).unwrap();
    let es = bus.take_queued_events();
    assert_eq!(es.len(), 1);
    assert!(matches!(es[0], GameEvent::PlayerCommand(PlayerCommand::TransferResources { from: 1, to: 1, resources }) if resources.food == 1000));
    assert_eq!(ps.get_growth_rate(1), None);
    ps.process_planet_growth(2, 10, 9, &mut bus).unwrap();
    let es = bus.take_queued_events();
    assert!(matches!(es[0], GameEvent::SimulationEvent(SimulationEvent::ResourceShortage { planet: 2, resource: ResourceType::Food })));
    ps.process_planet_growth(3, 49, 1000, &mut bus).unwrap();
    assert_eq!(bus.take_queued_events().len(), 0);
    ps.process_planet_growth(3, 0, -5, &mut bus).unwrap();
    match ps.process_planet_growth(3, 5, -1, &mut bus) {
        Err(GameError::InvalidOperation(m)) => assert_eq!(m, "Food availability cannot be negative"),
        _ => panic!("expected a refusal"),
    }
}

#[test]
fn population_events_and_migrations() {
    let mut ps = PopulationSystem::new();
    let order = |ship: u32, created: u64| MigrationOrder { from: 1, to: 2, population: 10, ship_id: ship, created_tick: created };
    ps.queue_migration(order(5, 0));
    ps.queue_migration(order(6, 100));
    ps.queue_migration(order(5, 200));
    let arrived: Ev = GameEvent::SimulationEvent(SimulationEvent::ShipArrived { ship: 5, destination: (0, 0) });
    ps.handle_event(&arrived).unwrap();
    assert_eq!(ps.pending_migrations(), 2);
    let tick: Ev = GameEvent::SimulationEvent(SimulationEvent::TickCompleted(1150));
    ps.handle_event(&tick).unwrap();
    ps.update().unwrap();
    assert_eq!(ps.pending_migrations(), 1);
    let bad: Ev = GameEvent::PlayerCommand(PlayerCommand::AllocateWorkers {
        planet: 1,
        allocation: WorkerAllocation { agriculture: 50, mining: 40, industry: 5, research: 0, military: 0, unassigned: 5 },
    });
    match ps.handle_event(&bad) {
        Err(GameError::InvalidOperation(m)) => {
            assert_eq!(m, "Must maintain at least 10% unassigned workers. Required: 10, Provided: 5")
        },
        _ => panic!("expected a refusal"),
    }
    let same: Ev = GameEvent::PlayerCommand(PlayerCommand::TransferResources { from: 3, to: 3, resources: ResourceBundle::default() });
    match ps.handle_event(&same) {
        Err(GameError::InvalidOperation(m)) => assert_eq!(m, "Cannot transfer resources to the same planet"),
        _ => panic!("expected a refusal"),
    }
}

#[test]
fn the_bus_queues_in_order_and_remembers_the_last_hundred() {
    let mut bus: Bus = EventBus::new();
    for t in 0..150u64 {
        bus.queue_event(GameEvent::SimulationEvent(SimulationEvent::TickCompleted(t)));
    }
    assert_eq!(bus.queued_events().len(), 150);
    assert_eq!(bus.event_history().len(), 100);
    assert!(matches!(bus.event_history()[0], GameEvent::SimulationEvent(SimulationEvent::TickCompleted(50))));
    let taken = bus.take_queued_events();
    assert!(matches!(taken[0], GameEvent::SimulationEvent(SimulationEvent::TickCompleted(0))));
    assert!(matches!(taken[149], GameEvent::SimulationEvent(SimulationEvent::TickCompleted(149))));
    assert_eq!(bus.queued_events().len(), 0);
    bus.queue_event(GameEvent::StateChanged(StateChange::GameLoaded));
    bus.clear();
    assert_eq!(bus.queued_events().len(), 0);
    assert_eq!(bus.event_history().len(), 100);
}

#[test]
fn systems_are_notified_in_update_order_then_by_subscription() {
    let mut bus: Bus = EventBus::new();
    bus.subscribe(SystemId::PlanetManager, EventType::PlayerCommand);
    bus.subscribe(SystemId::PlanetManager, EventType::StateChanged);
    bus.subscribe(SystemId::TimeManager, EventType::PlayerCommand);
    bus.subscribe(SystemId::ShipManager, EventType::PlayerCommand);
    bus.subscribe(SystemId::ResourceSystem, EventType::PlayerCommand);
    bus.subscribe(SystemId::UIRenderer, EventType::StateChanged);
    assert_eq!(
        bus.systems_to_notify(EventType::PlayerCommand),
        vec![SystemId::ResourceSystem, SystemId::TimeManager, SystemId::PlanetManager, SystemId::ShipManager]
    );
    assert_eq!(bus.systems_to_notify(EventType::StateChanged), vec![SystemId::UIRenderer, SystemId::PlanetManager]);
    assert!(bus.systems_to_notify(EventType::SimulationEvent).is_empty());
    assert_eq!(bus.update_order().len(), 7);
}
