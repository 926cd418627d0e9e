use stellar_dominion::events::{GameEvent, PlayerCommand, SimulationEvent};
use stellar_dominion::ship_manager::{Navigate, ShipManager};
use stellar_dominion::types::{CombatOutcome, GameError, GameResult, ResourceBundle, ShipClass};

#[derive(Debug, Clone, Copy, PartialEq)]
struct Motion {
    x: f32,
    fuel: f32,
    target: Option<f32>,
}

impl Navigate<f32> for Motion {
    fn plan_course(&mut self, ship_class: ShipClass, target: f32) -> GameResult<()> {
        let per = match ship_class {
            ShipClass::Scout => 200.0,
            ShipClass::Transport => 100.0,
            ShipClass::Warship => 80.0,
            ShipClass::Colony => 60.0,
        };
        if (target - self.x).abs() / per > self.fuel {
            return Err(GameError::InsufficientResources {
                required: ResourceBundle::default(),
                available: ResourceBundle::default(),
            });
        }
        self.target = Some(target);
        Ok(())
    }
}

fn motion() -> Motion {
    Motion { x: 0.0, fuel: 100.0, target: None }
}

#[test]
fn test_create_ship() {
    let mut manager: ShipManager<Motion> = ShipManager::new();
    let ship_id = manager.create_ship(ShipClass::Scout, motion(), 1).unwrap();
    assert_eq!(ship_id, 0);
    let ship = manager.get_ship(ship_id).unwrap();
    assert_eq!(ship.ship_class, ShipClass::Scout);
    assert_eq!(ship.owner, 1);
    assert_eq!(ship.motion.fuel, 100.0);
}

#[test]
fn test_cargo_capacity_validation() {
    let mut manager: ShipManager<Motion> = ShipManager::new();
    let transport_id = manager.create_ship(ShipClass::Transport, motion(), 1).unwrap();
    let scout_id = manager.create_ship(ShipClass::Scout, motion(), 1).unwrap();
    {
        let transport = manager.get_ship_mut(transport_id).unwrap();
        transport.cargo.capacity = 100;
    }
    let resources = ResourceBundle { minerals: 50, food: 30, ..Default::default() };
    assert!(manager.load_cargo(transport_id, resources).is_ok());
    assert!(manager.load_cargo(scout_id, resources).is_err());
}

#[test]
fn test_destroy_ship() {
    let mut manager: ShipManager<Motion> = ShipManager::new();
    let ship1_id = manager.create_ship(ShipClass::Scout, motion(), 1).unwrap();
    let ship2_id = manager.create_ship(ShipClass::Transport, motion(), 1).unwrap();
    assert_eq!(manager.get_all_ships().len(), 2);
    assert!(manager.destroy_ship(ship1_id).is_ok());
    assert_eq!(manager.get_all_ships().len(), 1);
    assert!(manager.get_ship(ship1_id).is_err());
    assert!(manager.get_ship(ship2_id).is_ok());
}

#[test]
fn cargo_errors_say_why() {
    let mut manager: ShipManager<Motion> = ShipManager::new();
    let transport = manager.create_ship(ShipClass::Transport, motion(), 1).unwrap();
    let scout = manager.create_ship(ShipClass::Scout, motion(), 1).unwrap();
    manager.get_ship_mut(transport).unwrap().cargo.capacity = 10;
    let load = ResourceBundle { fuel: 11, ..Default::default() };
    match manager.load_cargo(transport, load) {
        Err(GameError::InvalidOperation(m)) => assert_eq!(m, "Cargo capacity exceeded"),
        _ => panic!("expected a refusal"),
    }
    match manager.load_cargo(scout, load) {
        Err(GameError::InvalidOperation(m)) => assert_eq!(m, "Only transport ships can carry cargo"),
        _ => panic!("expected a refusal"),
    }
    match manager.load_cargo(77, load) {
        Err(GameError::InvalidTarget(m)) => assert_eq!(m, "Ship 77 not found"),
        _ => panic!("expected a refusal"),
    }
}

#[test]
fn unloading_returns_the_cargo_and_empties_the_hold() {
    let mut manager: ShipManager<Motion> = ShipManager::new();
    let t = manager.create_ship(ShipClass::Transport, motion(), 2).unwrap();
    manager.get_ship_mut(t).unwrap().cargo.capacity = 100;
    let load = ResourceBundle { minerals: 40, alloys: 5, ..Default::default() };
    manager.load_cargo(t, load).unwrap();
    manager.load_cargo(t, load).unwrap();
    assert_eq!(*manager.get_cargo_contents(t).unwrap(), ResourceBundle { minerals: 80, alloys: 10, ..Default::default() });
    let unloaded = manager.unload_cargo(t).unwrap();
    assert_eq!(unloaded.minerals, 80);
    assert_eq!(*manager.get_cargo_contents(t).unwrap(), ResourceBundle::default());
    assert_eq!(manager.get_cargo_capacity(t).unwrap(), 100);
}

#[test]
fn queries_by_owner_and_class_keep_creation_order() {
    let mut manager: ShipManager<Motion> = ShipManager::new();
    let a = manager.create_ship(ShipClass::Scout, motion(), 1).unwrap();
    let b = manager.create_ship(ShipClass::Warship, motion(), 2).unwrap();
    let c = manager.create_ship(ShipClass::Scout, motion(), 2).unwrap();
    assert_eq!(manager.get_ships_by_owner(2), vec![b, c]);
    assert_eq!(manager.get_ships_by_class(ShipClass::Scout), vec![a, c]);
    assert!(manager.get_ships_by_owner(9).is_empty());
}

#[test]
fn combat_losses_are_destroyed() {
    let mut manager: ShipManager<Motion> = ShipManager::new();
    let a = manager.create_ship(ShipClass::Scout, motion(), 1).unwrap();
    let b = manager.create_ship(ShipClass::Warship, motion(), 2).unwrap();
    let c = manager.create_ship(ShipClass::Warship, motion(), 2).unwrap();
    let outcome = CombatOutcome { winner: 2, attacker_losses: vec![a, 99], defender_losses: vec![c] };
    manager.handle_combat_resolved(&outcome).unwrap();
    let left: Vec<u32> = manager.get_all_ships().iter().map(|s| s.id).collect();
    assert_eq!(left, vec![b]);
}

#[test]
fn move_orders_go_to_the_motion() {
    let mut manager: ShipManager<Motion> = ShipManager::new();
    let s = manager.create_ship(ShipClass::Scout, motion(), 1).unwrap();
    let order: GameEvent<f32, f32> = GameEvent::PlayerCommand(PlayerCommand::MoveShip { ship: s, target: 300.0 });
    manager.handle_event(&order).unwrap();
    assert_eq!(manager.get_ship(s).unwrap().motion.target, Some(300.0));
    let far: GameEvent<f32, f32> = GameEvent::PlayerCommand(PlayerCommand::MoveShip { ship: s, target: 1.0e9 });
    assert!(matches!(manager.handle_event(&far), Err(GameError::InsufficientResources { .. })));
    let missing: GameEvent<f32, f32> = GameEvent::PlayerCommand(PlayerCommand::MoveShip { ship: 5, target: 1.0 });
    assert!(matches!(manager.handle_event(&missing), Err(GameError::InvalidTarget(_))));
    let other: GameEvent<f32, f32> = GameEvent::SimulationEvent(SimulationEvent::TickCompleted(3));
    assert!(manager.handle_event(&other).is_ok());
}

#[test]
fn loaded_ships_continue_numbering_after_the_largest_id() {
    let mut manager: ShipManager<Motion> = ShipManager::new();
    manager.create_ship(ShipClass::Scout, motion(), 1).unwrap();
    let mut other: ShipManager<Motion> = ShipManager::new();
    other.create_ship(ShipClass::Scout, motion(), 1).unwrap();
    other.create_ship(ShipClass::Scout, motion(), 1).unwrap();
    let ships = other.get_all_ships_cloned().unwrap();
    manager.load_ships(ships).unwrap();
    assert_eq!(manager.get_all_ships().len(), 2);
    let next = manager.create_ship(ShipClass::Colony, motion(), 3).unwrap();
    assert_eq!(next, 2);
}
