//! Gameplay configuration constants and the bounds checks built on them.
use vstd::prelude::*;

verus! {

/// Number of planets the simulation supports.
pub const MAX_PLANETS: usize = 100;

/// Number of ships the simulation supports.
pub const MAX_SHIPS: usize = 500;

/// Number of factions that can exist at once.
pub const MAX_FACTIONS: u8 = 8;

/// Building slots every planet has.
pub const BASE_BUILDING_SLOTS: i32 = 10;

/// Extra building slots per 10,000 inhabitants.
pub const BUILDING_SLOTS_PER_10K_POP: i32 = 1;

/// Largest safe resource value, a buffer of 1000 below `i32::MAX`.
pub const MAX_RESOURCE_VALUE: i32 = 2147482647;

/// Smallest safe resource value.
pub const MIN_RESOURCE_VALUE: i32 = 0;

/// Smallest valid tick value.
pub const MIN_TICK_VALUE: i64 = 0;

/// Largest safe tick value, a buffer of 10000 below `i64::MAX`.
pub const MAX_SAFE_TICK_VALUE: i64 = 9223372036854765807;

/// Longest name for a player or a faction.
pub const MAX_NAME_LENGTH: usize = 32;

/// Whether a resource value lies within `[MIN_RESOURCE_VALUE, MAX_RESOURCE_VALUE]`.
pub fn is_resource_value_safe(value: i32) -> (r: bool)
    ensures
        r == (MIN_RESOURCE_VALUE <= value && value <= MAX_RESOURCE_VALUE),
{
    value >= MIN_RESOURCE_VALUE && value <= MAX_RESOURCE_VALUE
}

/// Whether a tick value lies within `[MIN_TICK_VALUE, MAX_SAFE_TICK_VALUE]`.
pub fn is_tick_value_safe(tick: i64) -> (r: bool)
    ensures
        r == (MIN_TICK_VALUE <= tick && tick <= MAX_SAFE_TICK_VALUE),
{
    tick >= MIN_TICK_VALUE && tick <= MAX_SAFE_TICK_VALUE
}

} // verus!
