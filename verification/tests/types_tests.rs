use stellar_dominion::config::{is_resource_value_safe, is_tick_value_safe, MAX_RESOURCE_VALUE, MAX_SAFE_TICK_VALUE};
use stellar_dominion::text::{is_blank, text_with_number, trim_bounds};
use stellar_dominion::types::{CargoHold, GameError, ResourceBundle, ResourceStorage, WorkerAllocation};

fn bundle(m: i32, f: i32, e: i32, a: i32, c: i32, u: i32) -> ResourceBundle {
    ResourceBundle { minerals: m, food: f, energy: e, alloys: a, components: c, fuel: u }
}

#[test]
fn paying_then_receiving_restores_the_bundle() {
    let start = bundle(100, 50, 20, 10, 5, 1);
    let cost = bundle(30, 50, 0, 10, 1, 0);
    let mut b = start;
    b.subtract(&cost).unwrap();
    assert_eq!(b, bundle(70, 0, 20, 0, 4, 1));
    b.add(&cost).unwrap();
    assert_eq!(b, start);
}

#[test]
fn paying_too_much_is_refused_and_changes_nothing() {
    let mut b = bundle(10, 10, 10, 10, 10, 10);
    let cost = bundle(11, 0, 0, 0, 0, 0);
    match b.subtract(&cost) {
        Err(GameError::InsufficientResources { required, available }) => {
            assert_eq!(required, cost);
            assert_eq!(available, bundle(10, 10, 10, 10, 10, 10));
        },
        _ => panic!("expected a refusal"),
    }
    assert_eq!(b, bundle(10, 10, 10, 10, 10, 10));
    assert!(b.can_afford(&bundle(10, 10, 10, 10, 10, 10)));
    assert!(!b.can_afford(&cost));
}

#[test]
fn adding_saturates_and_totals_do_not_overflow() {
    let mut b = bundle(i32::MAX, i32::MIN, 0, 0, 0, 0);
    b.add(&bundle(1, -1, 5, 0, 0, 0)).unwrap();
    assert_eq!(b, bundle(i32::MAX, i32::MIN, 5, 0, 0, 0));
    assert_eq!(bundle(i32::MAX, i32::MAX, 0, 0, 0, 0).total(), 2 * (i32::MAX as i64));
    assert!(bundle(0, -1, 0, 0, 0, 0).validate_non_negative().is_err());
    match bundle(0, -1, 0, 0, 0, 0).validate_non_negative() {
        Err(GameError::InvalidOperation(m)) => assert_eq!(m, "Resources cannot be negative"),
        _ => panic!("expected a refusal"),
    }
}

#[test]
fn bundle_operators_work_field_by_field() {
    let a = bundle(1, 2, 3, 4, 5, 6);
    let b = bundle(6, 5, 4, 3, 2, 1);
    assert_eq!(a + b, bundle(7, 7, 7, 7, 7, 7));
    assert_eq!(a - b, bundle(-5, -3, -1, 1, 3, 5));
    let mut c = a;
    c += b;
    assert_eq!(c, bundle(7, 7, 7, 7, 7, 7));
    c -= b;
    assert_eq!(c, a);
}

#[test]
fn storage_room_and_validity() {
    let s = ResourceStorage { current: bundle(5, 0, 0, 0, 0, 0), capacity: bundle(10, 10, 0, 0, 0, 0) };
    assert_eq!(s.available_space(), bundle(5, 10, 0, 0, 0, 0));
    assert!(s.can_store(&bundle(5, 10, 0, 0, 0, 0)));
    assert!(!s.can_store(&bundle(6, 0, 0, 0, 0, 0)));
    assert!(s.validate().is_ok());
    let over = ResourceStorage { current: bundle(11, 0, 0, 0, 0, 0), capacity: bundle(10, 0, 0, 0, 0, 0) };
    match over.validate() {
        Err(GameError::InvalidOperation(m)) => assert_eq!(m, "Current resources exceed capacity"),
        _ => panic!("expected a refusal"),
    }
}

#[test]
fn worker_allocations_must_add_up() {
    let a = WorkerAllocation { agriculture: 1, mining: 2, industry: 3, research: 4, military: 5, unassigned: 6 };
    assert!(a.validate(21).is_ok());
    match a.validate(20) {
        Err(GameError::InvalidOperation(m)) => assert_eq!(m, "Worker allocation 21 doesn't match total 20"),
        _ => panic!("expected a refusal"),
    }
    match a.validate(-3) {
        Err(GameError::InvalidOperation(m)) => assert_eq!(m, "Worker allocation 21 doesn't match total -3"),
        _ => panic!("expected a refusal"),
    }
    let neg = WorkerAllocation { agriculture: -1, ..a };
    match neg.validate(19) {
        Err(GameError::InvalidOperation(m)) => assert_eq!(m, "Worker allocations cannot be negative"),
        _ => panic!("expected a refusal"),
    }
}

#[test]
fn cargo_holds_count_resources_and_people() {
    let hold = CargoHold { resources: bundle(10, 5, 0, 0, 0, 0), population: 3, capacity: 20 };
    assert_eq!(hold.current_load(), 18);
    assert_eq!(hold.available_space(), 2);
    assert!(hold.can_load(&bundle(1, 0, 0, 0, 0, 0), 1));
    assert!(!hold.can_load(&bundle(1, 0, 0, 0, 0, 0), 2));
    assert!(hold.validate().is_ok());
    let over = CargoHold { capacity: 17, ..hold };
    assert!(over.validate().is_err());
}

#[test]
fn config_bounds() {
    assert!(is_resource_value_safe(0));
    assert!(is_resource_value_safe(MAX_RESOURCE_VALUE));
    assert!(!is_resource_value_safe(MAX_RESOURCE_VALUE + 1));
    assert!(!is_resource_value_safe(-1));
    assert_eq!(MAX_SAFE_TICK_VALUE, i64::MAX - 10000);
    assert!(is_tick_value_safe(0));
    assert!(is_tick_value_safe(1000));
    assert!(is_tick_value_safe(MAX_SAFE_TICK_VALUE));
    assert!(!is_tick_value_safe(MAX_SAFE_TICK_VALUE + 1));
    assert!(!is_tick_value_safe(-1));
}

#[test]
fn names_are_trimmed_like_str_trim() {
    assert_eq!(trim_bounds("  ab c \t"), (2, 6));
    assert!(is_blank(" \u{3000}\n"));
    assert!(!is_blank(" x "));
    assert_eq!(text_with_number("Planet ", -12, " found"), "Planet -12 found");
}
