//! Core value types of the simulation: resources, workers, buildings, ships,
//! factions and the error type shared by every operation.
use vstd::prelude::*;
use crate::text::{append_signed_decimal, signed_decimal};

verus! {

/// Identifier of a planet.
pub type PlanetId = u32;

/// Identifier of a ship.
pub type ShipId = u32;

/// Identifier of a faction.
pub type FactionId = u8;

/// Identifier of a player.
pub type PlayerId = u8;

/// Result of every fallible operation of the library.
pub type GameResult<T> = Result<T, GameError>;

/// Errors reported by the simulation.
#[derive(Debug, Clone)]
pub enum GameError {
    InvalidOperation(String),
    InsufficientResources { required: ResourceBundle, available: ResourceBundle },
    InvalidTarget(String),
    SystemError(String),
    SaveError(String),
}

/// The largest value of an `i32`.
pub open spec fn i32_max() -> int {
    0x7fff_ffff
}

/// The smallest value of an `i32`.
pub open spec fn i32_min() -> int {
    -0x8000_0000
}

/// An integer fits in an `i32`.
pub open spec fn fits_i32(x: int) -> bool {
    i32_min() <= x <= i32_max()
}

/// Integer addition clamped to the bounds of `i32`.
pub open spec fn saturate_i32(x: int) -> int {
    if x > i32_max() {
        i32_max()
    } else if x < i32_min() {
        i32_min()
    } else {
        x
    }
}

/// `a + b`, saturating at the bounds of `i32` (the behaviour of `i32::saturating_add`).
pub fn saturating_add_i32(a: i32, b: i32) -> (r: i32)
    ensures
        r == saturate_i32(a + b),
{
    let s: i64 = a as i64 + b as i64;
    if s > 0x7fff_ffff {
        i32::MAX
    } else if s < -0x8000_0000 {
        i32::MIN
    } else {
        s as i32
    }
}

/// Amounts of the six resources of the game.
#[derive(Debug, Clone, Copy, PartialEq, Eq, Structural)]
pub struct ResourceBundle {
    pub minerals: i32,
    pub food: i32,
    pub energy: i32,
    pub alloys: i32,
    pub components: i32,
    pub fuel: i32,
}

impl Default for ResourceBundle {
    fn default() -> (r: Self)
        ensures
            r == ResourceBundle::zero_spec(),
    {
        ResourceBundle { minerals: 0, food: 0, energy: 0, alloys: 0, components: 0, fuel: 0 }
    }
}

impl ResourceBundle {
    /// The bundle holding nothing.
    pub open spec fn zero_spec() -> ResourceBundle {
        ResourceBundle { minerals: 0, food: 0, energy: 0, alloys: 0, components: 0, fuel: 0 }
    }

    /// Every amount is at least zero.
    pub open spec fn is_non_negative(self) -> bool {
        &&& self.minerals >= 0
        &&& self.food >= 0
        &&& self.energy >= 0
        &&& self.alloys >= 0
        &&& self.components >= 0
        &&& self.fuel >= 0
    }

    /// Every amount of `self` is at least the matching amount of `cost`.
    pub open spec fn covers(self, cost: ResourceBundle) -> bool {
        &&& self.minerals >= cost.minerals
        &&& self.food >= cost.food
        &&& self.energy >= cost.energy
        &&& self.alloys >= cost.alloys
        &&& self.components >= cost.components
        &&& self.fuel >= cost.fuel
    }

    /// Every field-wise difference `self - other` fits in an `i32`.
    pub open spec fn minus_fits(self, other: ResourceBundle) -> bool {
        &&& fits_i32(self.minerals - other.minerals)
        &&& fits_i32(self.food - other.food)
        &&& fits_i32(self.energy - other.energy)
        &&& fits_i32(self.alloys - other.alloys)
        &&& fits_i32(self.components - other.components)
        &&& fits_i32(self.fuel - other.fuel)
    }

    /// Every field-wise sum `self + other` fits in an `i32`.
    pub open spec fn plus_fits(self, other: ResourceBundle) -> bool {
        &&& fits_i32(self.minerals + other.minerals)
        &&& fits_i32(self.food + other.food)
        &&& fits_i32(self.energy + other.energy)
        &&& fits_i32(self.alloys + other.alloys)
        &&& fits_i32(self.components + other.components)
        &&& fits_i32(self.fuel + other.fuel)
    }

    /// Field-wise difference (meaningful where `minus_fits` holds).
    pub open spec fn minus(self, other: ResourceBundle) -> ResourceBundle {
        ResourceBundle {
            minerals: (self.minerals - other.minerals) as i32,
            food: (self.food - other.food) as i32,
            energy: (self.energy - other.energy) as i32,
            alloys: (self.alloys - other.alloys) as i32,
            components: (self.components - other.components) as i32,
            fuel: (self.fuel - other.fuel) as i32,
        }
    }

    /// Field-wise sum (meaningful where `plus_fits` holds).
    pub open spec fn plus(self, other: ResourceBundle) -> ResourceBundle {
        ResourceBundle {
            minerals: (self.minerals + other.minerals) as i32,
            food: (self.food + other.food) as i32,
            energy: (self.energy + other.energy) as i32,
            alloys: (self.alloys + other.alloys) as i32,
            components: (self.components + other.components) as i32,
            fuel: (self.fuel + other.fuel) as i32,
        }
    }

    /// Field-wise sum, each field saturating at the bounds of `i32`.
    pub open spec fn saturating_plus(self, other: ResourceBundle) -> ResourceBundle {
        ResourceBundle {
            minerals: saturate_i32(self.minerals + other.minerals) as i32,
            food: saturate_i32(self.food + other.food) as i32,
            energy: saturate_i32(self.energy + other.energy) as i32,
            alloys: saturate_i32(self.alloys + other.alloys) as i32,
            components: saturate_i32(self.components + other.components) as i32,
            fuel: saturate_i32(self.fuel + other.fuel) as i32,
        }
    }

    /// Sum of all six amounts.
    pub open spec fn total_spec(self) -> int {
        self.minerals + self.food + self.energy + self.alloys + self.components + self.fuel
    }

    /// Field-wise minimum of two bundles.
    pub open spec fn min_with(self, other: ResourceBundle) -> ResourceBundle {
        ResourceBundle {
            minerals: if self.minerals <= other.minerals { self.minerals } else { other.minerals },
            food: if self.food <= other.food { self.food } else { other.food },
            energy: if self.energy <= other.energy { self.energy } else { other.energy },
            alloys: if self.alloys <= other.alloys { self.alloys } else { other.alloys },
            components: if self.components <= other.components { self.components } else { other.components },
            fuel: if self.fuel <= other.fuel { self.fuel } else { other.fuel },
        }
    }

    /// Fails with `InvalidOperation` exactly when some amount is negative.
    pub fn validate_non_negative(&self) -> (r: GameResult<()>)
        ensures
            r.is_ok() <==> self.is_non_negative(),
            r matches Err(e) ==> e is InvalidOperation,
            r matches Err(GameError::InvalidOperation(m)) ==> m@ == "Resources cannot be negative"@,
    {
        if self.minerals < 0 || self.food < 0 || self.energy < 0 || self.alloys < 0
            || self.components < 0 || self.fuel < 0 {
            return Err(GameError::InvalidOperation("Resources cannot be negative".to_string()));
        }
        Ok(())
    }

    /// Whether every amount of `self` reaches the matching amount of `cost`.
    pub fn can_afford(&self, cost: &ResourceBundle) -> (r: bool)
        ensures
            r == self.covers(*cost),
    {
        self.minerals >= cost.minerals && self.food >= cost.food && self.energy >= cost.energy
            && self.alloys >= cost.alloys && self.components >= cost.components && self.fuel
            >= cost.fuel
    }

    /// Takes `cost` away when it is affordable; otherwise reports both bundles and
    /// leaves `self` as it was.
    pub fn subtract(&mut self, cost: &ResourceBundle) -> (r: GameResult<()>)
        requires
            old(self).covers(*cost) ==> old(self).minus_fits(*cost),
        ensures
            r.is_ok() <==> old(self).covers(*cost),
            r.is_ok() ==> *final(self) == old(self).minus(*cost),
            r.is_err() ==> *final(self) == *old(self),
            r matches Err(e) ==> e == (GameError::InsufficientResources {
                required: *cost,
                available: *old(self),
            }),
    {
        if !self.can_afford(cost) {
            return Err(GameError::InsufficientResources { required: *cost, available: *self });
        }
        self.minerals = self.minerals - cost.minerals;
        self.food = self.food - cost.food;
        self.energy = self.energy - cost.energy;
        self.alloys = self.alloys - cost.alloys;
        self.components = self.components - cost.components;
        self.fuel = self.fuel - cost.fuel;
        Ok(())
    }

    /// Adds `resources` field by field, each sum saturating at the bounds of `i32`.
    pub fn add(&mut self, resources: &ResourceBundle) -> (r: GameResult<()>)
        ensures
            r.is_ok(),
            *final(self) == old(self).saturating_plus(*resources),
    {
        self.minerals = saturating_add_i32(self.minerals, resources.minerals);
        self.food = saturating_add_i32(self.food, resources.food);
        self.energy = saturating_add_i32(self.energy, resources.energy);
        self.alloys = saturating_add_i32(self.alloys, resources.alloys);
        self.components = saturating_add_i32(self.components, resources.components);
        self.fuel = saturating_add_i32(self.fuel, resources.fuel);
        Ok(())
    }

    /// Sum of all six amounts, computed without overflow.
    pub fn total(&self) -> (r: i64)
        ensures
            r == self.total_spec(),
    {
        self.minerals as i64 + self.food as i64 + self.energy as i64 + self.alloys as i64
            + self.components as i64 + self.fuel as i64
    }
}

impl core::ops::Add for ResourceBundle {
    type Output = ResourceBundle;

    /// Field-wise sum.
    fn add(self, other: ResourceBundle) -> (r: ResourceBundle) {
        ResourceBundle {
            minerals: self.minerals + other.minerals,
            food: self.food + other.food,
            energy: self.energy + other.energy,
            alloys: self.alloys + other.alloys,
            components: self.components + other.components,
            fuel: self.fuel + other.fuel,
        }
    }
}

impl vstd::std_specs::ops::AddSpecImpl for ResourceBundle {
    open spec fn obeys_add_spec() -> bool {
        true
    }

    open spec fn add_req(self, rhs: ResourceBundle) -> bool {
        self.plus_fits(rhs)
    }

    open spec fn add_spec(self, rhs: ResourceBundle) -> ResourceBundle {
        self.plus(rhs)
    }
}

impl core::ops::Sub for ResourceBundle {
    type Output = ResourceBundle;

    /// Field-wise difference.
    fn sub(self, other: ResourceBundle) -> (r: ResourceBundle) {
        ResourceBundle {
            minerals: self.minerals - other.minerals,
            food: self.food - other.food,
            energy: self.energy - other.energy,
            alloys: self.alloys - other.alloys,
            components: self.components - other.components,
            fuel: self.fuel - other.fuel,
        }
    }
}

impl vstd::std_specs::ops::SubSpecImpl for ResourceBundle {
    open spec fn obeys_sub_spec() -> bool {
        true
    }

    open spec fn sub_req(self, rhs: ResourceBundle) -> bool {
        self.minus_fits(rhs)
    }

    open spec fn sub_spec(self, rhs: ResourceBundle) -> ResourceBundle {
        self.minus(rhs)
    }
}

impl core::ops::AddAssign for ResourceBundle {
    /// Adds `other` field by field, wrapping around the range of `i32` (the trait leaves
    /// no room for a precondition).
    fn add_assign(&mut self, other: ResourceBundle)
        ensures
            final(self).minerals == old(self).minerals.wrapping_add(other.minerals),
            final(self).food == old(self).food.wrapping_add(other.food),
            final(self).energy == old(self).energy.wrapping_add(other.energy),
            final(self).alloys == old(self).alloys.wrapping_add(other.alloys),
            final(self).components == old(self).components.wrapping_add(other.components),
            final(self).fuel == old(self).fuel.wrapping_add(other.fuel),
    {
        self.minerals = self.minerals.wrapping_add(other.minerals);
        self.food = self.food.wrapping_add(other.food);
        self.energy = self.energy.wrapping_add(other.energy);
        self.alloys = self.alloys.wrapping_add(other.alloys);
        self.components = self.components.wrapping_add(other.components);
        self.fuel = self.fuel.wrapping_add(other.fuel);
    }
}

impl core::ops::SubAssign for ResourceBundle {
    /// Subtracts `other` field by field, wrapping around the range of `i32` (the trait
    /// leaves no room for a precondition).
    fn sub_assign(&mut self, other: ResourceBundle)
        ensures
            final(self).minerals == old(self).minerals.wrapping_sub(other.minerals),
            final(self).food == old(self).food.wrapping_sub(other.food),
            final(self).energy == old(self).energy.wrapping_sub(other.energy),
            final(self).alloys == old(self).alloys.wrapping_sub(other.alloys),
            final(self).components == old(self).components.wrapping_sub(other.components),
            final(self).fuel == old(self).fuel.wrapping_sub(other.fuel),
    {
        self.minerals = self.minerals.wrapping_sub(other.minerals);
        self.food = self.food.wrapping_sub(other.food);
        self.energy = self.energy.wrapping_sub(other.energy);
        self.alloys = self.alloys.wrapping_sub(other.alloys);
        self.components = self.components.wrapping_sub(other.components);
        self.fuel = self.fuel.wrapping_sub(other.fuel);
    }
}

/// The six kinds of resource.
#[derive(Debug, Clone, Copy, PartialEq, Eq, Structural)]
pub enum ResourceType {
    Minerals,
    Food,
    Energy,
    Alloys,
    Components,
    Fuel,
}

/// Stored resources of a planet and the most it can hold.
#[derive(Debug, Clone, Copy, PartialEq, Eq, Structural)]
pub struct ResourceStorage {
    pub current: ResourceBundle,
    pub capacity: ResourceBundle,
}

impl Default for ResourceStorage {
    fn default() -> (r: Self)
        ensures
            r.current == ResourceBundle::zero_spec(),
            r.capacity == ResourceBundle::zero_spec(),
    {
        ResourceStorage { current: ResourceBundle::default(), capacity: ResourceBundle::default() }
    }
}

impl ResourceStorage {
    /// `capacity - current`, field by field.
    pub open spec fn space_spec(self) -> ResourceBundle {
        self.capacity.minus(self.current)
    }

    /// Room left for each resource: `capacity - current`.
    pub fn available_space(&self) -> (r: ResourceBundle)
        requires
            self.capacity.minus_fits(self.current),
        ensures
            r == self.space_spec(),
    {
        ResourceBundle {
            minerals: self.capacity.minerals - self.current.minerals,
            food: self.capacity.food - self.current.food,
            energy: self.capacity.energy - self.current.energy,
            alloys: self.capacity.alloys - self.current.alloys,
            components: self.capacity.components - self.current.components,
            fuel: self.capacity.fuel - self.current.fuel,
        }
    }

    /// Whether the room left holds `resources`.
    pub fn can_store(&self, resources: &ResourceBundle) -> (r: bool)
        requires
            self.capacity.minus_fits(self.current),
        ensures
            r == self.space_spec().covers(*resources),
    {
        let space = self.available_space();
        space.can_afford(resources)
    }

    /// Both bundles non-negative and the current amounts within capacity.
    pub open spec fn is_valid(self) -> bool {
        &&& self.current.is_non_negative()
        &&& self.capacity.is_non_negative()
        &&& self.capacity.covers(self.current)
    }

    /// Fails with `InvalidOperation` exactly when the storage is not valid.
    pub fn validate(&self) -> (r: GameResult<()>)
        ensures
            r.is_ok() <==> self.is_valid(),
            r matches Err(e) ==> e is InvalidOperation,
            !(self.current.is_non_negative() && self.capacity.is_non_negative()) ==> (r matches Err(
                GameError::InvalidOperation(m),
            ) && m@ == "Resources cannot be negative"@),
            self.current.is_non_negative() && self.capacity.is_non_negative() && !self.capacity.covers(
                self.current,
            ) ==> (r matches Err(GameError::InvalidOperation(m)) && m@
                == "Current resources exceed capacity"@),
    {
        self.current.validate_non_negative()?;
        self.capacity.validate_non_negative()?;
        if !self.capacity.can_afford(&self.current) {
            return Err(GameError::InvalidOperation("Current resources exceed capacity".to_string()));
        }
        Ok(())
    }
}

/// How the workers of a planet are spread over the jobs.
#[derive(Debug, Clone, Copy, PartialEq, Eq, Structural)]
pub struct WorkerAllocation {
    pub agriculture: i32,
    pub mining: i32,
    pub industry: i32,
    pub research: i32,
    pub military: i32,
    pub unassigned: i32,
}

impl Default for WorkerAllocation {
    fn default() -> (r: Self)
        ensures
            r == WorkerAllocation::zero_spec(),
    {
        WorkerAllocation {
            agriculture: 0,
            mining: 0,
            industry: 0,
            research: 0,
            military: 0,
            unassigned: 0,
        }
    }
}

impl WorkerAllocation {
    /// No workers anywhere.
    pub open spec fn zero_spec() -> WorkerAllocation {
        WorkerAllocation {
            agriculture: 0,
            mining: 0,
            industry: 0,
            research: 0,
            military: 0,
            unassigned: 0,
        }
    }

    /// Every count is at least zero.
    pub open spec fn is_non_negative(self) -> bool {
        &&& self.agriculture >= 0
        &&& self.mining >= 0
        &&& self.industry >= 0
        &&& self.research >= 0
        &&& self.military >= 0
        &&& self.unassigned >= 0
    }

    /// Number of workers over all jobs.
    pub open spec fn sum_spec(self) -> int {
        self.agriculture + self.mining + self.industry + self.research + self.military
            + self.unassigned
    }

    /// Non-negative counts whose sum is `total`.
    pub open spec fn matches_total(self, total: int) -> bool {
        self.is_non_negative() && self.sum_spec() == total
    }

    /// Fails with `InvalidOperation` exactly when a count is negative or the counts
    /// do not add up to `total`.
    pub fn validate(&self, total: i32) -> (r: GameResult<()>)
        requires
            self.is_non_negative() ==> fits_i32(self.sum_spec()),
        ensures
            r.is_ok() <==> self.matches_total(total as int),
            r matches Err(e) ==> e is InvalidOperation,
            !self.is_non_negative() ==> (r matches Err(GameError::InvalidOperation(m)) && m@
                == "Worker allocations cannot be negative"@),
            self.is_non_negative() && self.sum_spec() != total ==> (r matches Err(
                GameError::InvalidOperation(m),
            ) && m@ == "Worker allocation "@ + signed_decimal(self.sum_spec()) + " doesn't match total "@
                + signed_decimal(total as int)),
    {
        if self.agriculture < 0 || self.mining < 0 || self.industry < 0 || self.research < 0
            || self.military < 0 || self.unassigned < 0 {
            return Err(
                GameError::InvalidOperation("Worker allocations cannot be negative".to_string()),
            );
        }
        let sum = self.agriculture + self.mining + self.industry + self.research + self.military
            + self.unassigned;
        if sum != total {
            let mut m = String::from_str("Worker allocation ");
            append_signed_decimal(&mut m, sum as i64);
            m.append(" doesn't match total ");
            append_signed_decimal(&mut m, total as i64);
            return Err(GameError::InvalidOperation(m));
        }
        Ok(())
    }
}

/// The kinds of building a planet can hold.
#[derive(Debug, Clone, Copy, PartialEq, Eq, Hash, Structural)]
pub enum BuildingType {
    Mine,
    Farm,
    PowerPlant,
    Factory,
    ResearchLab,
    Spaceport,
    DefensePlatform,
    StorageFacility,
    Habitat,
}

/// A building standing on a planet.
#[derive(Debug, Clone, Copy, PartialEq, Eq, Structural)]
pub struct Building {
    pub building_type: BuildingType,
    pub tier: u8,
    pub operational: bool,
}

/// The classes of ship.
#[derive(Debug, Clone, Copy, PartialEq, Eq, Hash, PartialOrd, Ord, Structural)]
pub enum ShipClass {
    Scout,
    Transport,
    Warship,
    Colony,
}

/// Cargo carried by a ship.
#[derive(Debug, Clone, Copy, PartialEq, Eq, Structural)]
pub struct CargoHold {
    pub resources: ResourceBundle,
    pub population: i32,
    pub capacity: i32,
}

impl Default for CargoHold {
    fn default() -> (r: Self)
        ensures
            r.resources == ResourceBundle::zero_spec(),
            r.population == 0,
            r.capacity == 0,
    {
        CargoHold { resources: ResourceBundle::default(), population: 0, capacity: 0 }
    }
}

/// `x as i32` for a value of `i64`: the low 32 bits, read as a signed number.
pub open spec fn wrap_i32(x: int) -> int {
    let m = x % 0x1_0000_0000;
    if m >= 0x8000_0000 {
        m - 0x1_0000_0000
    } else {
        m
    }
}

/// `x as i32` for an `i64`.
pub fn i64_to_i32_wrapping(x: i64) -> (r: i32)
    ensures
        r == wrap_i32(x as int),
{
    #[verifier::truncate]
    let r = x as i32;
    assert(r == wrap_i32(x as int)) by (bit_vector)
        requires
            r == x as i32,
    ;
    r
}

impl CargoHold {
    /// Load of the hold: the resource total, narrowed to `i32` with wrap-around, plus the
    /// people on board.
    pub open spec fn load_spec(self) -> int {
        wrap_i32(self.resources.total_spec()) + self.population
    }

    /// The load fits in an `i32`.
    pub open spec fn load_fits(self) -> bool {
        fits_i32(self.load_spec())
    }

    /// Resources plus population on board.
    pub fn current_load(&self) -> (r: i32)
        requires
            self.load_fits(),
        ensures
            r == self.load_spec(),
    {
        i64_to_i32_wrapping(self.resources.total()) + self.population
    }

    /// Capacity left: `capacity - current_load()`.
    pub fn available_space(&self) -> (r: i32)
        requires
            self.load_fits(),
            fits_i32(self.capacity - self.load_spec()),
        ensures
            r == self.capacity - self.load_spec(),
    {
        self.capacity - self.current_load()
    }

    /// Whether the extra resources and people fit in the space left.
    pub fn can_load(&self, additional_resources: &ResourceBundle, additional_population: i32) -> (r:
        bool)
        requires
            self.load_fits(),
            fits_i32(self.capacity - self.load_spec()),
            fits_i32(wrap_i32(additional_resources.total_spec()) + additional_population),
        ensures
            r == (self.capacity - self.load_spec() >= wrap_i32(additional_resources.total_spec())
                + additional_population),
    {
        let additional_load = i64_to_i32_wrapping(additional_resources.total())
            + additional_population;
        self.available_space() >= additional_load
    }

    /// Capacity and population not negative and the load within capacity.
    pub open spec fn is_valid(self) -> bool {
        &&& self.capacity >= 0
        &&& self.population >= 0
        &&& self.load_spec() <= self.capacity
    }

    /// Fails with `InvalidOperation` exactly when the hold is not valid.
    pub fn validate(&self) -> (r: GameResult<()>)
        requires
            self.capacity >= 0 && self.population >= 0 ==> self.load_fits(),
        ensures
            r.is_ok() <==> self.is_valid(),
            r matches Err(e) ==> e is InvalidOperation,
            self.capacity < 0 ==> (r matches Err(GameError::InvalidOperation(m)) && m@
                == "Cargo capacity cannot be negative"@),
            self.capacity >= 0 && self.population < 0 ==> (r matches Err(
                GameError::InvalidOperation(m),
            ) && m@ == "Population cannot be negative"@),
            self.capacity >= 0 && self.population >= 0 && self.load_spec() > self.capacity ==> (
            r matches Err(GameError::InvalidOperation(m)) && m@ == "Cargo exceeds capacity"@),
    {
        if self.capacity < 0 {
            return Err(
                GameError::InvalidOperation("Cargo capacity cannot be negative".to_string()),
            );
        }
        if self.population < 0 {
            return Err(GameError::InvalidOperation("Population cannot be negative".to_string()));
        }
        if self.current_load() > self.capacity {
            return Err(GameError::InvalidOperation("Cargo exceeds capacity".to_string()));
        }
        Ok(())
    }
}

/// People living on a planet and how they work.
#[derive(Debug, Clone, Copy, PartialEq, Eq, Structural)]
pub struct Demographics {
    pub total: i32,
    pub allocation: WorkerAllocation,
}

impl Default for Demographics {
    fn default() -> (r: Self)
        ensures
            r.total == 0,
            r.allocation == WorkerAllocation::zero_spec(),
    {
        Demographics { total: 0, allocation: WorkerAllocation::default() }
    }
}

/// A planet. `O` is where it orbits: the rules here only store it, never compute with it.
#[derive(Debug, Clone)]
pub struct Planet<O> {
    pub id: PlanetId,
    pub position: O,
    pub resources: ResourceStorage,
    pub population: Demographics,
    pub developments: Vec<Building>,
    pub controller: Option<FactionId>,
}

impl<O> Planet<O> {
    /// The two planets hold the same values, building for building.
    pub open spec fn same_as(self, other: Planet<O>) -> bool {
        &&& self.id == other.id
        &&& self.position == other.position
        &&& self.resources == other.resources
        &&& self.population == other.population
        &&& self.developments@ == other.developments@
        &&& self.controller == other.controller
    }
}

impl<O: Copy> Planet<O> {
    /// A copy of the planet holding the same values.
    pub fn duplicate(&self) -> (r: Planet<O>)
        ensures
            r.same_as(*self),
    {
        let developments = self.developments.clone();
        assert(developments@ =~= self.developments@);
        Planet {
            id: self.id,
            position: self.position,
            resources: self.resources,
            population: self.population,
            developments,
            controller: self.controller,
        }
    }
}

/// A ship. `M` is how it moves (position, course, fuel): the rules here only store it.
#[derive(Debug, Clone)]
pub struct Ship<M> {
    pub id: ShipId,
    pub ship_class: ShipClass,
    pub motion: M,
    pub cargo: CargoHold,
    pub owner: FactionId,
}

impl<M: Copy> Ship<M> {
    /// A copy of the ship, equal to it.
    pub fn duplicate(&self) -> (r: Ship<M>)
        ensures
            r == *self,
    {
        Ship {
            id: self.id,
            ship_class: self.ship_class,
            motion: self.motion,
            cargo: self.cargo,
            owner: self.owner,
        }
    }
}

/// Behaviour of a computer-controlled faction.
#[derive(Debug, Clone, Copy, PartialEq, Eq, Structural)]
pub enum AIPersonality {
    Aggressive,
    Balanced,
    Economic,
}

/// A faction taking part in the game.
#[derive(Debug, Clone)]
pub struct Faction {
    pub id: FactionId,
    pub name: String,
    pub is_player: bool,
    pub ai_type: AIPersonality,
    pub score: i32,
}

/// Result of a battle.
#[derive(Debug, Clone)]
pub struct CombatOutcome {
    pub winner: FactionId,
    pub attacker_losses: Vec<ShipId>,
    pub defender_losses: Vec<ShipId>,
}

impl CombatOutcome {
    /// The two outcomes hold the same winner and the same losses, in the same order.
    pub open spec fn same_as(self, other: CombatOutcome) -> bool {
        &&& self.winner == other.winner
        &&& self.attacker_losses@ == other.attacker_losses@
        &&& self.defender_losses@ == other.defender_losses@
    }

    /// A copy of the outcome holding the same values.
    pub fn duplicate(&self) -> (r: CombatOutcome)
        ensures
            r.same_as(*self),
    {
        let attacker_losses = self.attacker_losses.clone();
        let defender_losses = self.defender_losses.clone();
        assert(attacker_losses@ =~= self.attacker_losses@);
        assert(defender_losses@ =~= self.defender_losses@);
        CombatOutcome { winner: self.winner, attacker_losses, defender_losses }
    }
}

/// Ways the game can be won.
#[derive(Debug, Clone, Copy, PartialEq, Eq, Structural)]
pub enum VictoryType {
    Economic,
    Population,
    Military,
    Timeout,
}

/// Whether the menu or a game is showing.
#[derive(Debug, Clone, Copy, PartialEq, Eq, Structural)]
pub enum GameMode {
    MainMenu,
    InGame,
}

} // verus!
