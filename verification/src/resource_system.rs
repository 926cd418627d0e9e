//! Production of resources by workers and buildings, shortages, storage limits, and the
//! checks on transfers and cargo.
use vstd::prelude::*;
use std::collections::HashMap;
use crate::construction::building_slot;
use crate::events::{
    EventBus, GameEvent, PlayerCommand, SimulationEvent, StateChange, same_events, recent_after_all,
    lemma_recent_after_all_same, lemma_recent_after_all_append, lemma_same_events_trans,
};
use crate::types::{
    fits_i32, Building, BuildingType, GameError, GameResult, Planet, PlanetId, ResourceBundle,
    ResourceType, Ship, WorkerAllocation,
};

verus! {

broadcast use vstd::std_specs::hash::group_hash_axioms;

/// The amount of resource `r` in `b`.
pub open spec fn amount_of(b: ResourceBundle, r: ResourceType) -> int {
    match r {
        ResourceType::Minerals => b.minerals as int,
        ResourceType::Food => b.food as int,
        ResourceType::Energy => b.energy as int,
        ResourceType::Alloys => b.alloys as int,
        ResourceType::Components => b.components as int,
        ResourceType::Fuel => b.fuel as int,
    }
}

/// What one tier of an operational building of type `b` yields each tick (negative
/// amounts are consumed); only mines, farms, power plants, factories and research labs
/// produce.
pub open spec fn production_rate(b: BuildingType) -> Option<ResourceBundle> {
    match b {
        BuildingType::Mine => Some(
            ResourceBundle { minerals: 10, food: 0, energy: -2i32, alloys: 0, components: 0, fuel: 0 },
        ),
        BuildingType::Farm => Some(
            ResourceBundle { minerals: 0, food: 8, energy: -1i32, alloys: 0, components: 0, fuel: 0 },
        ),
        BuildingType::PowerPlant => Some(
            ResourceBundle { minerals: 0, food: 0, energy: 15, alloys: 0, components: 0, fuel: 0 },
        ),
        BuildingType::Factory => Some(
            ResourceBundle { minerals: -5i32, food: 0, energy: -3i32, alloys: 5, components: 0, fuel: 0 },
        ),
        BuildingType::ResearchLab => Some(
            ResourceBundle { minerals: 0, food: -1i32, energy: -2i32, alloys: 0, components: 3, fuel: 0 },
        ),
        _ => None,
    }
}

/// What the workers yield of resource `r` each tick: two minerals per miner, three food
/// per farmer, one energy per industrial worker.
pub open spec fn worker_output(a: WorkerAllocation, r: ResourceType) -> int {
    match r {
        ResourceType::Minerals => a.mining * 2,
        ResourceType::Food => a.agriculture * 3,
        ResourceType::Energy => a.industry as int,
        _ => 0,
    }
}

/// What the buildings `bs` yield of resource `r` each tick: each operational producing
/// building its rate times its tier.
pub open spec fn building_output(bs: Seq<Building>, r: ResourceType) -> int
    decreases bs.len(),
{
    if bs.len() == 0 {
        0
    } else {
        let b = bs.last();
        building_output(bs.drop_last(), r) + match production_rate(b.building_type) {
            Some(rate) => if b.operational {
                amount_of(rate, r) * b.tier
            } else {
                0
            },
            None => 0,
        }
    }
}

/// What a planet with workers `a` and buildings `bs` yields of resource `r` each tick.
pub open spec fn planet_output(a: WorkerAllocation, bs: Seq<Building>, r: ResourceType) -> int {
    worker_output(a, r) + building_output(bs, r)
}

/// Summing the yield building after building never leaves the range of `i32`.
pub open spec fn output_fits(a: WorkerAllocation, bs: Seq<Building>) -> bool {
    forall|r: ResourceType, k: int|
        0 <= k <= bs.len() ==> fits_i32(#[trigger] planet_output(a, bs.take(k), r))
}

/// `[t]` when `current + production` falls below zero for resource `t`, else nothing.
pub open spec fn short_of(current: ResourceBundle, production: ResourceBundle, t: ResourceType) -> Seq<
    ResourceType,
> {
    if amount_of(current, t) + amount_of(production, t) < 0 {
        seq![t]
    } else {
        Seq::empty()
    }
}

/// The resources of which `current + production` falls below zero, in the order minerals,
/// food, energy, alloys, components, fuel.
pub open spec fn shortages_of(current: ResourceBundle, production: ResourceBundle) -> Seq<ResourceType> {
    short_of(current, production, ResourceType::Minerals) + short_of(current, production, ResourceType::Food)
        + short_of(current, production, ResourceType::Energy) + short_of(current, production, ResourceType::Alloys)
        + short_of(current, production, ResourceType::Components) + short_of(current, production, ResourceType::Fuel)
}

/// What of a yield `p` actually arrives: a positive yield is capped by the room left
/// (`capacity - current`), a consumption (zero or less) is taken in full.
pub open spec fn effective_amount(current: int, capacity: int, p: int) -> int {
    if p > 0 {
        if p <= capacity - current {
            p
        } else {
            capacity - current
        }
    } else {
        p
    }
}

/// The yield `production` after capping each positive amount by the room left.
pub open spec fn effective_production(
    current: ResourceBundle,
    capacity: ResourceBundle,
    production: ResourceBundle,
) -> ResourceBundle {
    ResourceBundle {
        minerals: effective_amount(current.minerals as int, capacity.minerals as int, production.minerals as int) as i32,
        food: effective_amount(current.food as int, capacity.food as int, production.food as int) as i32,
        energy: effective_amount(current.energy as int, capacity.energy as int, production.energy as int) as i32,
        alloys: effective_amount(current.alloys as int, capacity.alloys as int, production.alloys as int) as i32,
        components: effective_amount(current.components as int, capacity.components as int, production.components as int) as i32,
        fuel: effective_amount(current.fuel as int, capacity.fuel as int, production.fuel as int) as i32,
    }
}

/// The room left can be computed wherever a positive yield needs it.
pub open spec fn room_fits(current: ResourceBundle, capacity: ResourceBundle, production: ResourceBundle) -> bool {
    forall|t: ResourceType|
        #[trigger] amount_of(production, t) > 0 ==> fits_i32(amount_of(capacity, t) - amount_of(current, t))
}

/// Each amount of `requested`, capped by `space`.
pub open spec fn capped_by(requested: ResourceBundle, space: i32) -> ResourceBundle {
    ResourceBundle {
        minerals: if requested.minerals <= space { requested.minerals } else { space },
        food: if requested.food <= space { requested.food } else { space },
        energy: if requested.energy <= space { requested.energy } else { space },
        alloys: if requested.alloys <= space { requested.alloys } else { space },
        components: if requested.components <= space { requested.components } else { space },
        fuel: if requested.fuel <= space { requested.fuel } else { space },
    }
}

/// What planet `p` yields each tick, as a bundle.
pub open spec fn production_of<O>(p: Planet<O>) -> ResourceBundle {
    let a = p.population.allocation;
    let bs = p.developments@;
    ResourceBundle {
        minerals: planet_output(a, bs, ResourceType::Minerals) as i32,
        food: planet_output(a, bs, ResourceType::Food) as i32,
        energy: planet_output(a, bs, ResourceType::Energy) as i32,
        alloys: planet_output(a, bs, ResourceType::Alloys) as i32,
        components: planet_output(a, bs, ResourceType::Components) as i32,
        fuel: planet_output(a, bs, ResourceType::Fuel) as i32,
    }
}

/// Planet `p` can be processed: its yield fits, and so do the sums and room computed
/// from it.
pub open spec fn can_process<O>(p: Planet<O>) -> bool {
    &&& output_fits(p.population.allocation, p.developments@)
    &&& p.resources.current.plus_fits(production_of(p))
    &&& room_fits(p.resources.current, p.resources.capacity, production_of(p))
}

/// The events processing planet `p` raises: a shortage for each resource that would fall
/// below zero, then what arrives, then the planet's update.
pub open spec fn production_events<O, V, F>(p: Planet<O>) -> Seq<GameEvent<V, F>> {
    let prod = production_of(p);
    shortages_of(p.resources.current, prod).map_values(
        |t: ResourceType|
            GameEvent::SimulationEvent(SimulationEvent::ResourceShortage { planet: p.id, resource: t }),
    ) + seq![
        GameEvent::SimulationEvent(
            SimulationEvent::ResourcesProduced {
                planet: p.id,
                resources: effective_production(p.resources.current, p.resources.capacity, prod),
            },
        ),
        GameEvent::StateChanged(StateChange::PlanetUpdated(p.id)),
    ]
}

/// The events processing the planets `ps` in order raises.
pub open spec fn all_production_events<O, V, F>(ps: Seq<Planet<O>>) -> Seq<GameEvent<V, F>>
    decreases ps.len(),
{
    if ps.len() == 0 {
        Seq::empty()
    } else {
        all_production_events(ps.drop_last()) + production_events(ps.last())
    }
}

/// The record of yields after processing the planets `ps` in order.
pub open spec fn tracked_after<O>(m: Map<PlanetId, ResourceBundle>, ps: Seq<Planet<O>>) -> Map<
    PlanetId,
    ResourceBundle,
>
    decreases ps.len(),
{
    if ps.len() == 0 {
        m
    } else {
        tracked_after(m, ps.drop_last()).insert(ps.last().id, production_of(ps.last()))
    }
}

/// Tracks what each planet produced last, by the building rates.
pub struct ResourceSystem {
    production_rates: Vec<Option<ResourceBundle>>,
    consumption_tracking: HashMap<PlanetId, ResourceBundle>,
}

impl ResourceSystem {
    /// What each planet produced when last processed.
    pub closed spec fn consumption(&self) -> Map<PlanetId, ResourceBundle> {
        self.consumption_tracking@
    }

    /// The rate table holds `production_rate` for every building type.
    pub closed spec fn wf(&self) -> bool {
        &&& self.production_rates@.len() == 9
        &&& forall|b: BuildingType| #[trigger]
            self.production_rates@[building_slot(b)] == production_rate(b)
    }

    /// A system with the building rates and nothing produced yet.
    pub fn new() -> (r: Self)
        ensures
            r.wf(),
            r.consumption() == Map::<PlanetId, ResourceBundle>::empty(),
    {
        let mut production_rates: Vec<Option<ResourceBundle>> = Vec::new();
        production_rates.push(Some(ResourceBundle { minerals: 10, food: 0, energy: -2, alloys: 0, components: 0, fuel: 0 }));
        production_rates.push(Some(ResourceBundle { minerals: 0, food: 8, energy: -1, alloys: 0, components: 0, fuel: 0 }));
        production_rates.push(Some(ResourceBundle { minerals: 0, food: 0, energy: 15, alloys: 0, components: 0, fuel: 0 }));
        production_rates.push(Some(ResourceBundle { minerals: -5, food: 0, energy: -3, alloys: 5, components: 0, fuel: 0 }));
        production_rates.push(Some(ResourceBundle { minerals: 0, food: -1, energy: -2, alloys: 0, components: 3, fuel: 0 }));
        production_rates.push(None);
        production_rates.push(None);
        production_rates.push(None);
        production_rates.push(None);
        let r = ResourceSystem { production_rates, consumption_tracking: HashMap::new() };
        assert forall|b: BuildingType| #[trigger]
            r.production_rates@[building_slot(b)] == production_rate(b) by {
            match b {
                BuildingType::Mine => {},
                BuildingType::Farm => {},
                BuildingType::PowerPlant => {},
                BuildingType::Factory => {},
                BuildingType::ResearchLab => {},
                BuildingType::Spaceport => {},
                BuildingType::DefensePlatform => {},
                BuildingType::StorageFacility => {},
                BuildingType::Habitat => {},
            }
        }
        assert(r.consumption_tracking@ =~= Map::<PlanetId, ResourceBundle>::empty());
        r
    }

    fn rate_of(&self, b: BuildingType) -> (r: Option<ResourceBundle>)
        requires
            self.wf(),
        ensures
            r == production_rate(b),
    {
        let i: usize = match b {
            BuildingType::Mine => 0,
            BuildingType::Farm => 1,
            BuildingType::PowerPlant => 2,
            BuildingType::Factory => 3,
            BuildingType::ResearchLab => 4,
            BuildingType::Spaceport => 5,
            BuildingType::DefensePlatform => 6,
            BuildingType::StorageFacility => 7,
            BuildingType::Habitat => 8,
        };
        assert(i == building_slot(b));
        self.production_rates[i]
    }

    /// What `planet` yields each tick from its workers and its operational buildings.
    pub fn calculate_planet_production<O>(&self, planet: &Planet<O>) -> (r: GameResult<ResourceBundle>)
        requires
            self.wf(),
            output_fits(planet.population.allocation, planet.developments@),
        ensures
            r matches Ok(p) && forall|t: ResourceType|
                #[trigger] amount_of(p, t) == planet_output(
                    planet.population.allocation,
                    planet.developments@,
                    t,
                ),
    {
        let a = planet.population.allocation;
        let bs = &planet.developments;
        let ghost all = bs@;
        proof {
            assert(all.take(0) =~= Seq::<Building>::empty());
            assert(fits_i32(planet_output(a, all.take(0), ResourceType::Minerals)));
            assert(fits_i32(planet_output(a, all.take(0), ResourceType::Food)));
        }
        let mut total = ResourceBundle {
            minerals: a.mining * 2,
            food: a.agriculture * 3,
            energy: a.industry,
            alloys: 0,
            components: 0,
            fuel: 0,
        };
        let mut i: usize = 0;
        while i < bs.len()
            invariant
                i <= all.len(),
                bs@ == all,
                self.wf(),
                output_fits(a, all),
                forall|t: ResourceType| #[trigger] amount_of(total, t) == planet_output(a, all.take(i as int), t),
            decreases all.len() - i,
        {
            let b = bs[i];
            proof {
                assert(all.take(i + 1).drop_last() =~= all.take(i as int));
                assert(all.take(i + 1).last() == b);
                assert(fits_i32(planet_output(a, all.take(i + 1), ResourceType::Minerals)));
                assert(fits_i32(planet_output(a, all.take(i + 1), ResourceType::Food)));
                assert(fits_i32(planet_output(a, all.take(i + 1), ResourceType::Energy)));
                assert(fits_i32(planet_output(a, all.take(i + 1), ResourceType::Alloys)));
                assert(fits_i32(planet_output(a, all.take(i + 1), ResourceType::Components)));
                assert(fits_i32(planet_output(a, all.take(i + 1), ResourceType::Fuel)));
                assert(amount_of(total, ResourceType::Minerals) == total.minerals);
                assert(amount_of(total, ResourceType::Food) == total.food);
                assert(amount_of(total, ResourceType::Energy) == total.energy);
                assert(amount_of(total, ResourceType::Alloys) == total.alloys);
                assert(amount_of(total, ResourceType::Components) == total.components);
                assert(amount_of(total, ResourceType::Fuel) == total.fuel);
            }
            if b.operational {
                match self.rate_of(b.building_type) {
                    Some(rate) => {
                        let m = b.tier as i32;
                        proof {
                            assert(-5 <= rate.minerals <= 15 && -5 <= rate.food <= 15 && -5
                                <= rate.energy <= 15 && -5 <= rate.alloys <= 15 && -5
                                <= rate.components <= 15 && -5 <= rate.fuel <= 15);
                            lemma_small_product(rate.minerals, m);
                            lemma_small_product(rate.food, m);
                            lemma_small_product(rate.energy, m);
                            lemma_small_product(rate.alloys, m);
                            lemma_small_product(rate.components, m);
                            lemma_small_product(rate.fuel, m);
                            assert forall|t: ResourceType| #[trigger] planet_output(a, all.take(i + 1), t)
                                == amount_of(total, t) + amount_of(rate, t) * m by {
                                assert(building_output(all.take(i + 1), t) == building_output(
                                    all.take(i as int),
                                    t,
                                ) + amount_of(rate, t) * b.tier);
                            }
                            assert(planet_output(a, all.take(i + 1), ResourceType::Minerals)
                                == total.minerals + rate.minerals * m);
                            assert(planet_output(a, all.take(i + 1), ResourceType::Food)
                                == total.food + rate.food * m);
                            assert(planet_output(a, all.take(i + 1), ResourceType::Energy)
                                == total.energy + rate.energy * m);
                            assert(planet_output(a, all.take(i + 1), ResourceType::Alloys)
                                == total.alloys + rate.alloys * m);
                            assert(planet_output(a, all.take(i + 1), ResourceType::Components)
                                == total.components + rate.components * m);
                            assert(planet_output(a, all.take(i + 1), ResourceType::Fuel)
                                == total.fuel + rate.fuel * m);
                        }
                        total.minerals = total.minerals + rate.minerals * m;
                        total.food = total.food + rate.food * m;
                        total.energy = total.energy + rate.energy * m;
                        total.alloys = total.alloys + rate.alloys * m;
                        total.components = total.components + rate.components * m;
                        total.fuel = total.fuel + rate.fuel * m;
                    },
                    None => {},
                }
            }
            proof {
                assert forall|t: ResourceType| #[trigger] amount_of(total, t) == planet_output(
                    a,
                    all.take(i + 1),
                    t,
                ) by {
                    assert(amount_of(total, t) == planet_output(a, all.take(i + 1), t));
                }
            }
            i = i + 1;
        }
        proof {
            assert(all.take(all.len() as int) =~= all);
        }
        Ok(total)
    }

    /// The resources of which `current + production` would fall below zero, in the order
    /// minerals, food, energy, alloys, components, fuel.
    pub fn detect_resource_shortages(&self, current: &ResourceBundle, production: &ResourceBundle) -> (r:
        Vec<ResourceType>)
        requires
            current.plus_fits(*production),
        ensures
            r@ == shortages_of(*current, *production),
    {
        let mut shortages: Vec<ResourceType> = Vec::new();
        if current.minerals + production.minerals < 0 {
            shortages.push(ResourceType::Minerals);
        }
        let ghost s1 = shortages@;
        if current.food + production.food < 0 {
            shortages.push(ResourceType::Food);
        }
        let ghost s2 = shortages@;
        if current.energy + production.energy < 0 {
            shortages.push(ResourceType::Energy);
        }
        let ghost s3 = shortages@;
        if current.alloys + production.alloys < 0 {
            shortages.push(ResourceType::Alloys);
        }
        let ghost s4 = shortages@;
        if current.components + production.components < 0 {
            shortages.push(ResourceType::Components);
        }
        let ghost s5 = shortages@;
        if current.fuel + production.fuel < 0 {
            shortages.push(ResourceType::Fuel);
        }
        proof {
            let c = *current;
            let p = *production;
            assert(s1 =~= short_of(c, p, ResourceType::Minerals));
            assert(s2 =~= s1 + short_of(c, p, ResourceType::Food));
            assert(s3 =~= s2 + short_of(c, p, ResourceType::Energy));
            assert(s4 =~= s3 + short_of(c, p, ResourceType::Alloys));
            assert(s5 =~= s4 + short_of(c, p, ResourceType::Components));
            assert(shortages@ =~= s5 + short_of(c, p, ResourceType::Fuel));
        }
        shortages
    }

    /// The yield `production` as it arrives: each positive amount capped by the room left
    /// (`capacity - current`), each consumption taken in full.
    pub fn calculate_effective_production(
        &self,
        current: &ResourceBundle,
        capacity: &ResourceBundle,
        production: &ResourceBundle,
    ) -> (r: GameResult<ResourceBundle>)
        requires
            room_fits(*current, *capacity, *production),
        ensures
            r == Ok::<ResourceBundle, GameError>(effective_production(*current, *capacity, *production)),
    {
        proof {
            assert(amount_of(*production, ResourceType::Minerals) == production.minerals);
            assert(amount_of(*production, ResourceType::Food) == production.food);
            assert(amount_of(*production, ResourceType::Energy) == production.energy);
            assert(amount_of(*production, ResourceType::Alloys) == production.alloys);
            assert(amount_of(*production, ResourceType::Components) == production.components);
            assert(amount_of(*production, ResourceType::Fuel) == production.fuel);
        }
        let effective = ResourceBundle {
            minerals: if production.minerals > 0 {
                min_i32(production.minerals, capacity.minerals - current.minerals)
            } else {
                production.minerals
            },
            food: if production.food > 0 {
                min_i32(production.food, capacity.food - current.food)
            } else {
                production.food
            },
            energy: if production.energy > 0 {
                min_i32(production.energy, capacity.energy - current.energy)
            } else {
                production.energy
            },
            alloys: if production.alloys > 0 {
                min_i32(production.alloys, capacity.alloys - current.alloys)
            } else {
                production.alloys
            },
            components: if production.components > 0 {
                min_i32(production.components, capacity.components - current.components)
            } else {
                production.components
            },
            fuel: if production.fuel > 0 {
                min_i32(production.fuel, capacity.fuel - current.fuel)
            } else {
                production.fuel
            },
        };
        Ok(effective)
    }

    /// How much of `requested` can move from `source` to `destination`: all of it when
    /// the source holds it and the destination has room; when room is short, each amount
    /// capped by the room left, unless that leaves nothing. Fails with
    /// `InsufficientResources` when the source lacks some amount.
    pub fn validate_transfer<O>(
        &self,
        source: &Planet<O>,
        destination: &Planet<O>,
        requested: ResourceBundle,
    ) -> (r: GameResult<ResourceBundle>)
        requires
            destination.resources.capacity.minus_fits(destination.resources.current),
        ensures
            !source.resources.current.covers(requested) ==> r == Err::<ResourceBundle, GameError>(
                GameError::InsufficientResources {
                    required: requested,
                    available: source.resources.current,
                },
            ),
            source.resources.current.covers(requested) && destination.resources.space_spec().covers(
                requested,
            ) ==> r == Ok::<ResourceBundle, GameError>(requested),
            ({
                let capped = requested.min_with(destination.resources.space_spec());
                source.resources.current.covers(requested)
                    && !destination.resources.space_spec().covers(requested) ==> if capped.total_spec()
                    == 0 {
                    r matches Err(GameError::InvalidOperation(m)) && m@
                        == "Destination has no storage capacity"@
                } else {
                    r == Ok::<ResourceBundle, GameError>(capped)
                }
            }),
    {
        if !source.resources.current.can_afford(&requested) {
            return Err(
                GameError::InsufficientResources {
                    required: requested,
                    available: source.resources.current,
                },
            );
        }
        if !destination.resources.can_store(&requested) {
            let available_space = destination.resources.available_space();
            let max_transfer = ResourceBundle {
                minerals: min_i32(requested.minerals, available_space.minerals),
                food: min_i32(requested.food, available_space.food),
                energy: min_i32(requested.energy, available_space.energy),
                alloys: min_i32(requested.alloys, available_space.alloys),
                components: min_i32(requested.components, available_space.components),
                fuel: min_i32(requested.fuel, available_space.fuel),
            };
            if max_transfer.total() == 0 {
                return Err(GameError::InvalidOperation("Destination has no storage capacity".to_string()));
            }
            return Ok(max_transfer);
        }
        Ok(requested)
    }

    /// How much of `requested` a ship can take on from a planet. `docking` is the outcome
    /// of the check that the ship is close enough to the planet, and its refusal is
    /// passed on. Fails with `InsufficientResources` when the planet lacks some amount;
    /// when the hold cannot take it all, each amount is capped by the room left in the
    /// hold, unless that leaves nothing.
    pub fn validate_cargo_loading<O, M>(
        &self,
        ship: &Ship<M>,
        planet: &Planet<O>,
        requested: ResourceBundle,
        docking: GameResult<()>,
    ) -> (r: GameResult<ResourceBundle>)
        requires
            docking.is_ok() && planet.resources.current.covers(requested) ==> {
                &&& ship.cargo.load_fits()
                &&& fits_i32(ship.cargo.capacity - ship.cargo.load_spec())
                &&& fits_i32(crate::types::wrap_i32(requested.total_spec()))
            },
        ensures
            docking matches Err(e) ==> r == Err::<ResourceBundle, GameError>(e),
            docking.is_ok() && !planet.resources.current.covers(requested) ==> r == Err::<
                ResourceBundle,
                GameError,
            >(
                GameError::InsufficientResources {
                    required: requested,
                    available: planet.resources.current,
                },
            ),
            ({
                let space = ship.cargo.capacity - ship.cargo.load_spec();
                let fits = space >= crate::types::wrap_i32(requested.total_spec());
                let capped = capped_by(requested, space as i32);
                docking.is_ok() && planet.resources.current.covers(requested) ==> if fits {
                    r == Ok::<ResourceBundle, GameError>(requested)
                } else if capped.total_spec() == 0 {
                    r matches Err(GameError::InvalidOperation(m)) && m@ == "Ship cargo hold is full"@
                } else {
                    r == Ok::<ResourceBundle, GameError>(capped)
                }
            }),
    {
        match docking {
            Ok(()) => {},
            Err(e) => return Err(e),
        }
        if !planet.resources.current.can_afford(&requested) {
            return Err(
                GameError::InsufficientResources {
                    required: requested,
                    available: planet.resources.current,
                },
            );
        }
        if !ship.cargo.can_load(&requested, 0) {
            let available_space = ship.cargo.available_space();
            let max_loadable = ResourceBundle {
                minerals: min_i32(requested.minerals, available_space),
                food: min_i32(requested.food, available_space),
                energy: min_i32(requested.energy, available_space),
                alloys: min_i32(requested.alloys, available_space),
                components: min_i32(requested.components, available_space),
                fuel: min_i32(requested.fuel, available_space),
            };
            if max_loadable.total() == 0 {
                return Err(GameError::InvalidOperation("Ship cargo hold is full".to_string()));
            }
            return Ok(max_loadable);
        }
        Ok(requested)
    }

    /// How much of a ship's cargo a planet can take: all of it when there is room, else
    /// each amount capped by the room left, unless that leaves nothing. `docking` is the
    /// outcome of the check that the ship is close enough to the planet, and its refusal
    /// is passed on.
    pub fn validate_cargo_unloading<O, M>(
        &self,
        ship: &Ship<M>,
        planet: &Planet<O>,
        docking: GameResult<()>,
    ) -> (r: GameResult<ResourceBundle>)
        requires
            docking.is_ok() ==> planet.resources.capacity.minus_fits(planet.resources.current),
        ensures
            docking matches Err(e) ==> r == Err::<ResourceBundle, GameError>(e),
            ({
                let cargo = ship.cargo.resources;
                let capped = cargo.min_with(planet.resources.space_spec());
                docking.is_ok() ==> if planet.resources.space_spec().covers(cargo) {
                    r == Ok::<ResourceBundle, GameError>(cargo)
                } else if capped.total_spec() == 0 {
                    r matches Err(GameError::InvalidOperation(m)) && m@ == "Planet has no storage capacity"@
                } else {
                    r == Ok::<ResourceBundle, GameError>(capped)
                }
            }),
    {
        match docking {
            Ok(()) => {},
            Err(e) => return Err(e),
        }
        let cargo_resources = ship.cargo.resources;
        if !planet.resources.can_store(&cargo_resources) {
            let available_space = planet.resources.available_space();
            let max_unloadable = ResourceBundle {
                minerals: min_i32(cargo_resources.minerals, available_space.minerals),
                food: min_i32(cargo_resources.food, available_space.food),
                energy: min_i32(cargo_resources.energy, available_space.energy),
                alloys: min_i32(cargo_resources.alloys, available_space.alloys),
                components: min_i32(cargo_resources.components, available_space.components),
                fuel: min_i32(cargo_resources.fuel, available_space.fuel),
            };
            if max_unloadable.total() == 0 {
                return Err(GameError::InvalidOperation("Planet has no storage capacity".to_string()));
            }
            return Ok(max_unloadable);
        }
        Ok(cargo_resources)
    }

    /// Computes each planet's yield in turn, records it, and raises its events: a
    /// shortage for each resource that would fall below zero, what arrives after the
    /// storage limits, and the planet's update.
    pub fn process_production<O, V: Copy, F: Copy>(
        &mut self,
        planets: &[Planet<O>],
        event_bus: &mut EventBus<V, F>,
    ) -> (r: GameResult<()>)
        requires
            old(self).wf(),
            old(event_bus).wf(),
            forall|i: int| 0 <= i < planets@.len() ==> can_process(#[trigger] planets@[i]),
        ensures
            r is Ok,
            final(self).wf(),
            final(self).consumption() == tracked_after(old(self).consumption(), planets@),
            final(event_bus).wf(),
            final(event_bus).queued() == old(event_bus).queued() + all_production_events::<
                O,
                V,
                F,
            >(planets@),
            same_events(
                final(event_bus).history(),
                recent_after_all(
                    old(event_bus).history(),
                    all_production_events::<O, V, F>(planets@),
                    old(event_bus).limit(),
                ),
            ),
            final(event_bus).limit() == old(event_bus).limit(),
            final(event_bus).order() == old(event_bus).order(),
            final(event_bus).subscriptions() == old(event_bus).subscriptions(),
    {
        let ghost ps = planets@;
        let ghost q0 = event_bus.queued();
        let ghost h0 = event_bus.history();
        let ghost m0 = self.consumption();
        let mut i: usize = 0;
        while i < planets.len()
            invariant
                i <= ps.len(),
                ps == planets@,
                forall|k: int| 0 <= k < ps.len() ==> can_process(#[trigger] ps[k]),
                self.wf(),
                self.consumption() == tracked_after(m0, ps.take(i as int)),
                event_bus.wf(),
                event_bus.queued() == q0 + all_production_events::<O, V, F>(ps.take(i as int)),
                same_events(
                    event_bus.history(),
                    recent_after_all(h0, all_production_events::<O, V, F>(ps.take(i as int)), event_bus.limit()),
                ),
                event_bus.limit() == old(event_bus).limit(),
                event_bus.order() == old(event_bus).order(),
                event_bus.subscriptions() == old(event_bus).subscriptions(),
                q0 == old(event_bus).queued(),
                h0 == old(event_bus).history(),
                m0 == old(self).consumption(),
            decreases ps.len() - i,
        {
            let planet = &planets[i];
            let ghost p = ps[i as int];
            proof {
                assert(can_process(p));
                assert(ps.take(i + 1).drop_last() =~= ps.take(i as int));
                assert(ps.take(i + 1).last() == p);
            }
            let production = match self.calculate_planet_production(planet) {
                Ok(b) => b,
                Err(e) => return Err(e),
            };
            proof {
                assert(amount_of(production, ResourceType::Minerals) == production.minerals);
                assert(amount_of(production, ResourceType::Food) == production.food);
                assert(amount_of(production, ResourceType::Energy) == production.energy);
                assert(amount_of(production, ResourceType::Alloys) == production.alloys);
                assert(amount_of(production, ResourceType::Components) == production.components);
                assert(amount_of(production, ResourceType::Fuel) == production.fuel);
                assert(production == production_of(p));
            }
            self.consumption_tracking.insert(planet.id, production);
            let current_resources = planet.resources.current;
            let shortage_resources = self.detect_resource_shortages(&current_resources, &production);
            let mut events: Vec<GameEvent<V, F>> = Vec::new();
            let mut k: usize = 0;
            while k < shortage_resources.len()
                invariant
                    k <= shortage_resources@.len(),
                    events@ == shortage_resources@.take(k as int).map_values(
                        |t: ResourceType|
                            GameEvent::<V, F>::SimulationEvent(
                                SimulationEvent::ResourceShortage { planet: planet.id, resource: t },
                            ),
                    ),
                decreases shortage_resources@.len() - k,
            {
                events.push(
                    GameEvent::SimulationEvent(
                        SimulationEvent::ResourceShortage {
                            planet: planet.id,
                            resource: shortage_resources[k],
                        },
                    ),
                );
                proof {
                    assert(events@ =~= shortage_resources@.take(k + 1).map_values(
                        |t: ResourceType|
                            GameEvent::<V, F>::SimulationEvent(
                                SimulationEvent::ResourceShortage { planet: planet.id, resource: t },
                            ),
                    ));
                }
                k = k + 1;
            }
            proof {
                assert(shortage_resources@.take(shortage_resources@.len() as int) =~= shortage_resources@);
            }
            let effective_production = match self.calculate_effective_production(
                &current_resources,
                &planet.resources.capacity,
                &production,
            ) {
                Ok(b) => b,
                Err(e) => return Err(e),
            };
            events.push(
                GameEvent::SimulationEvent(
                    SimulationEvent::ResourcesProduced { planet: planet.id, resources: effective_production },
                ),
            );
            events.push(GameEvent::StateChanged(StateChange::PlanetUpdated(planet.id)));
            proof {
                assert(events@ =~= production_events::<O, V, F>(p));
            }
            let ghost hb = event_bus.history();
            let ghost done = all_production_events::<O, V, F>(ps.take(i as int));
            event_bus.queue_events(events);
            proof {
                let lim = event_bus.limit();
                assert(event_bus.queued() =~= q0 + all_production_events::<O, V, F>(ps.take(i + 1)));
                lemma_recent_after_all_same(hb, recent_after_all(h0, done, lim), production_events::<O, V, F>(p), lim);
                lemma_recent_after_all_append(h0, done, production_events::<O, V, F>(p), lim);
                lemma_same_events_trans(
                    event_bus.history(),
                    recent_after_all(hb, production_events::<O, V, F>(p), lim),
                    recent_after_all(h0, all_production_events::<O, V, F>(ps.take(i + 1)), lim),
                );
            }
            i = i + 1;
        }
        proof {
            assert(ps.take(ps.len() as int) =~= ps);
        }
        Ok(())
    }

    /// Records the yield a `ResourcesProduced` event reports; other events leave the
    /// system as it is.
    pub fn handle_event<V, F>(&mut self, event: &GameEvent<V, F>) -> (r: GameResult<()>)
        requires
            old(self).wf(),
        ensures
            r is Ok,
            final(self).wf(),
            final(self).consumption() == match *event {
                GameEvent::SimulationEvent(SimulationEvent::ResourcesProduced { planet, resources }) => {
                    old(self).consumption().insert(planet, resources)
                },
                _ => old(self).consumption(),
            },
    {
        match event {
            GameEvent::SimulationEvent(SimulationEvent::ResourcesProduced { planet, resources }) => {
                self.consumption_tracking.insert(*planet, *resources);
            },
            _ => {},
        }
        Ok(())
    }

    /// What planet `id` produced when last processed, if it was.
    pub fn get_consumption_for_planet(&self, planet_id: PlanetId) -> (r: Option<&ResourceBundle>)
        ensures
            r matches Some(b) ==> self.consumption().contains_key(planet_id) && *b == self.consumption()[planet_id],
            r is None ==> !self.consumption().contains_key(planet_id),
    {
        self.consumption_tracking.get(&planet_id)
    }
}

/// The smaller of two amounts.
fn min_i32(a: i32, b: i32) -> (r: i32)
    ensures
        r == if a <= b { a } else { b },
{
    if a <= b {
        a
    } else {
        b
    }
}

proof fn lemma_small_product(x: i32, m: i32)
    requires
        -5 <= x <= 15,
        0 <= m <= 255,
    ensures
        -1275 <= x * m <= 3825,
{
    assert(-1275 <= x * m <= 3825) by (nonlinear_arith)
        requires
            -5 <= x <= 15,
            0 <= m <= 255,
    ;
}

} // verus!
