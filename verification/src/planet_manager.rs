//! Owner of the planets: creation, lookup, resources, population, buildings and control.
use vstd::prelude::*;
use std::collections::HashMap;
use crate::id_index::{
    contains_id, last_position, index_matches, ids_below, max_id_plus_one, is_last_position,
    lemma_index_lookup, lemma_index_push, lemma_max_id_step, lemma_max_id_bounds,
};
use crate::events::{GameEvent, PlayerCommand, SimulationEvent, StateChange};
use crate::text::{decimal, signed_decimal};
use crate::types::{
    Building, BuildingType, Demographics, FactionId, GameError, GameResult, Planet, PlanetId,
    ResourceBundle, ResourceStorage, WorkerAllocation, fits_i32,
};

verus! {

broadcast use vstd::std_specs::hash::group_hash_axioms;

/// The ids of the planets, in order.
pub open spec fn planet_ids<O>(s: Seq<Planet<O>>) -> Seq<u32> {
    s.map_values(|p: Planet<O>| p.id)
}

/// Storage capacity of a new planet.
pub open spec fn initial_capacity() -> ResourceBundle {
    ResourceBundle {
        minerals: 10000,
        food: 5000,
        energy: 1000,
        alloys: 1000,
        components: 500,
        fuel: 2000,
    }
}

/// `a / d` rounding toward zero, as integer division in code does (for `d > 0`).
pub open spec fn div_toward_zero(a: int, d: int) -> int {
    if a >= 0 {
        a / d
    } else {
        -((-a) / d)
    }
}

/// Building slots of a planet with `total` inhabitants: `10 + total / 10000`
/// (division rounding toward zero).
pub open spec fn building_slots(total: i32) -> i32 {
    (10 + div_toward_zero(total as int, 10000)) as i32
}

/// Workers that must stay unassigned: a tenth of the population, rounded down.
pub open spec fn min_unassigned_workers(total: int) -> int {
    total / 10
}

/// The message of a failed lookup.
pub open spec fn planet_not_found(id: PlanetId) -> Seq<char> {
    "Planet "@ + decimal(id as nat) + " not found"@
}

/// The planet with its current resources replaced.
pub open spec fn with_current<O>(p: Planet<O>, current: ResourceBundle) -> Planet<O> {
    Planet { resources: ResourceStorage { current, ..p.resources }, ..p }
}

/// A planet just created: empty stores, the initial capacity, no people, no buildings.
pub open spec fn is_new_planet<O>(
    p: Planet<O>,
    id: PlanetId,
    position: O,
    controller: Option<FactionId>,
) -> bool {
    &&& p.id == id
    &&& p.position == position
    &&& p.resources == ResourceStorage {
        current: ResourceBundle::zero_spec(),
        capacity: initial_capacity(),
    }
    &&& p.population == Demographics { total: 0, allocation: WorkerAllocation::zero_spec() }
    &&& p.developments@.len() == 0
    &&& p.controller == controller
}

/// Planets in creation order, with an index from id to position.
pub struct PlanetManager<O> {
    planets: Vec<Planet<O>>,
    next_id: PlanetId,
    planet_index: HashMap<PlanetId, usize>,
}

impl<O> PlanetManager<O> {
    /// The planets, in order.
    pub closed spec fn planets(&self) -> Seq<Planet<O>> {
        self.planets@
    }

    /// The id the next created planet gets.
    pub closed spec fn next_id(&self) -> PlanetId {
        self.next_id
    }

    /// The index sends each id to its last position, and every id is below `next_id`.
    pub closed spec fn wf(&self) -> bool {
        &&& index_matches(planet_ids(self.planets@), self.planet_index@)
        &&& ids_below(planet_ids(self.planets@), self.next_id)
    }

    /// Some planet has id `id`.
    pub open spec fn has_planet(&self, id: PlanetId) -> bool {
        contains_id(planet_ids(self.planets()), id)
    }

    /// Position of the planet that lookups by `id` find: the last one with that id.
    pub open spec fn pos_of(&self, id: PlanetId) -> int {
        last_position(planet_ids(self.planets()), id)
    }

    /// The planet that lookups by `id` find.
    pub open spec fn planet_of(&self, id: PlanetId) -> Planet<O> {
        self.planets()[self.pos_of(id)]
    }

    /// What adding a building of type `building_type` to planet `id` does, from `self` to
    /// `after`, answering `r`.
    pub open spec fn building_added(
        self,
        after: Self,
        id: PlanetId,
        building_type: BuildingType,
        r: GameResult<()>,
    ) -> bool {
        &&& r.is_ok() <==> self.has_planet(id) && self.planet_of(id).developments@.len() < (
        building_slots(self.planet_of(id).population.total) as usize)
        &&& !self.has_planet(id) ==> (r matches Err(GameError::InvalidTarget(m)) && m@
            == planet_not_found(id))
        &&& self.has_planet(id) && r.is_err() ==> (r matches Err(GameError::InvalidOperation(m))
            && m@ == "No available building slots. Current: "@ + decimal(
            self.planet_of(id).developments@.len(),
        ) + ", Max: "@ + signed_decimal(building_slots(self.planet_of(id).population.total) as int))
        &&& r.is_err() ==> after.planets() == self.planets()
        &&& r.is_ok() ==> {
            &&& after.planets().len() == self.planets().len()
            &&& forall|j: int|
                #![trigger after.planets()[j]]
                0 <= j < self.planets().len() && j != self.pos_of(id) ==> after.planets()[j]
                    == self.planets()[j]
            &&& after.planet_of(id).developments@ == self.planet_of(id).developments@.push(
                Building { building_type, tier: 1, operational: true },
            )
            &&& after.planet_of(id) == Planet {
                developments: after.planet_of(id).developments,
                ..self.planet_of(id)
            }
        }
    }

    /// What setting the workers of planet `id` to `allocation` does, from `self` to
    /// `after`, answering `r`.
    pub open spec fn workers_set(
        self,
        after: Self,
        id: PlanetId,
        allocation: WorkerAllocation,
        r: GameResult<()>,
    ) -> bool {
        &&& r.is_ok() <==> self.has_planet(id) && allocation.matches_total(
            self.planet_of(id).population.total as int,
        ) && allocation.unassigned >= min_unassigned_workers(
            self.planet_of(id).population.total as int,
        )
        &&& !self.has_planet(id) ==> (r matches Err(GameError::InvalidTarget(m)) && m@
            == planet_not_found(id))
        &&& self.has_planet(id) && r.is_err() ==> (r matches Err(e) && e is InvalidOperation)
        &&& r.is_err() ==> after.planets() == self.planets()
        &&& r.is_ok() ==> after.planets() == self.planets().update(
            self.pos_of(id),
            Planet {
                population: Demographics { allocation, ..self.planet_of(id).population },
                ..self.planet_of(id)
            },
        )
    }

    /// What handing planet `id` to `new_controller` does, from `self` to `after`,
    /// answering `r`.
    pub open spec fn controller_changed(
        self,
        after: Self,
        id: PlanetId,
        new_controller: Option<FactionId>,
        r: GameResult<()>,
    ) -> bool {
        &&& r.is_ok() <==> self.has_planet(id)
        &&& r matches Err(e) ==> e matches GameError::InvalidTarget(m) && m@ == planet_not_found(id)
        &&& r.is_err() ==> after.planets() == self.planets()
        &&& r.is_ok() ==> after.planets() == self.planets().update(
            self.pos_of(id),
            Planet { controller: new_controller, ..self.planet_of(id) },
        )
    }

    /// An empty manager whose first planet gets id 0.
    pub fn new() -> (r: Self)
        ensures
            r.wf(),
            r.planets() == Seq::<Planet<O>>::empty(),
            r.next_id() == 0,
    {
        let r = PlanetManager { planets: Vec::new(), next_id: 0, planet_index: HashMap::new() };
        assert(planet_ids(r.planets@) =~= Seq::<u32>::empty());
        r
    }

    fn position_of(&self, id: PlanetId) -> (r: Option<usize>)
        requires
            self.wf(),
        ensures
            r.is_some() <==> self.has_planet(id),
            r matches Some(i) ==> i == self.pos_of(id) && i < self.planets().len()
                && self.planets()[i as int].id == id,
    {
        proof {
            lemma_index_lookup(planet_ids(self.planets@), self.planet_index@, id);
        }
        match self.planet_index.get(&id) {
            Some(i) => Some(*i),
            None => None,
        }
    }

    fn not_found(id: PlanetId) -> (e: GameError)
        ensures
            e matches GameError::InvalidTarget(m) && m@ == planet_not_found(id),
    {
        let mut m = String::from_str("Planet ");
        crate::text::append_decimal(&mut m, id as u64);
        m.append(" not found");
        assert(m@ =~= planet_not_found(id));
        GameError::InvalidTarget(m)
    }

    proof fn lemma_same_ids(old_s: Seq<Planet<O>>, new_s: Seq<Planet<O>>, i: int)
        requires
            0 <= i < old_s.len(),
            new_s.len() == old_s.len(),
            new_s[i].id == old_s[i].id,
            forall|j: int| 0 <= j < old_s.len() && j != i ==> new_s[j] == old_s[j],
        ensures
            planet_ids(new_s) == planet_ids(old_s),
    {
        assert(planet_ids(new_s) =~= planet_ids(old_s));
    }

    /// Adds a planet with empty stores, the initial capacity, no people and no buildings,
    /// under the next id.
    pub fn create_planet(&mut self, position: O, controller: Option<FactionId>) -> (r: GameResult<
        PlanetId,
    >)
        requires
            old(self).wf(),
            old(self).next_id() < u32::MAX,
        ensures
            final(self).wf(),
            r matches Ok(id) && id == old(self).next_id(),
            final(self).next_id() == old(self).next_id() + 1,
            final(self).planets().len() == old(self).planets().len() + 1,
            final(self).planets().drop_last() == old(self).planets(),
            is_new_planet(final(self).planets().last(), old(self).next_id(), position, controller),
    {
        let id = self.next_id;
        self.next_id = self.next_id + 1;
        let planet = Planet {
            id,
            position,
            resources: ResourceStorage {
                current: ResourceBundle::default(),
                capacity: ResourceBundle {
                    minerals: 10000,
                    food: 5000,
                    energy: 1000,
                    alloys: 1000,
                    components: 500,
                    fuel: 2000,
                },
            },
            population: Demographics::default(),
            developments: Vec::new(),
            controller,
        };
        let index = self.planets.len();
        let ghost ids0 = planet_ids(self.planets@);
        self.planets.push(planet);
        proof {
            let ids1 = planet_ids(self.planets@);
            assert(ids1.subrange(0, index as int) =~= ids0);
            assert(ids1[index as int] == id);
            lemma_index_push(ids1, self.planet_index@, index as int);
            assert(ids1.subrange(0, index + 1) =~= ids1);
        }
        self.planet_index.insert(id, index);
        assert(self.planets@.drop_last() =~= old(self).planets@);
        Ok(id)
    }

    /// The planet with id `id` (the last one loaded under that id); fails with
    /// `InvalidTarget` when there is none.
    pub fn get_planet(&self, id: PlanetId) -> (r: GameResult<&Planet<O>>)
        requires
            self.wf(),
        ensures
            r.is_ok() <==> self.has_planet(id),
            r matches Ok(p) ==> *p == self.planet_of(id),
            r matches Err(e) ==> e matches GameError::InvalidTarget(m) && m@ == planet_not_found(id),
    {
        match self.position_of(id) {
            Some(i) => Ok(&self.planets[i]),
            None => Err(Self::not_found(id)),
        }
    }

    /// The planet with id `id`, to change in place; fails with `InvalidTarget` when there
    /// is none. The manager stays well formed as long as the id of the planet is left as it is.
    pub fn get_planet_mut(&mut self, id: PlanetId) -> (r: GameResult<&mut Planet<O>>)
        requires
            old(self).wf(),
        ensures
            r.is_ok() <==> old(self).has_planet(id),
            r matches Err(e) ==> e matches GameError::InvalidTarget(m) && m@ == planet_not_found(id),
            r.is_err() ==> *final(self) == *old(self),
            r matches Ok(p) ==> *p == old(self).planet_of(id),
            r matches Ok(p) ==> final(self).planets() == old(self).planets().update(
                old(self).pos_of(id),
                *final(p),
            ),
            r matches Ok(p) ==> final(self).next_id() == old(self).next_id(),
            r matches Ok(p) ==> (final(p).id == id ==> final(self).wf()),
    {
        match self.position_of(id) {
            Some(i) => {
                proof {
                    assert forall|x: Planet<O>| x.id == id implies planet_ids(
                        self.planets@.update(i as int, x),
                    ) == planet_ids(self.planets@) by {
                        assert(planet_ids(self.planets@.update(i as int, x)) =~= planet_ids(
                            self.planets@,
                        ));
                    }
                }
                Ok(&mut self.planets[i])
            },
            None => Err(Self::not_found(id)),
        }
    }

    /// All planets, in order.
    pub fn get_all_planets(&self) -> (r: &Vec<Planet<O>>)
        ensures
            r@ == self.planets(),
    {
        &self.planets
    }

    /// The planets controlled by `faction`, in order.
    pub fn get_planets_by_faction(&self, faction: FactionId) -> (r: Vec<&Planet<O>>)
        ensures
            r@.map_values(|p: &Planet<O>| *p) == self.planets().filter(
                |p: Planet<O>| p.controller == Some(faction),
            ),
    {
        let mut r: Vec<&Planet<O>> = Vec::new();
        let mut i: usize = 0;
        let ghost pred = |p: Planet<O>| p.controller == Some(faction);
        assert(self.planets@.subrange(0, 0).filter(pred) =~= Seq::<Planet<O>>::empty());
        while i < self.planets.len()
            invariant
                i <= self.planets@.len(),
                pred == (|p: Planet<O>| p.controller == Some(faction)),
                r@.map_values(|p: &Planet<O>| *p) == self.planets@.subrange(0, i as int).filter(pred),
            decreases self.planets@.len() - i,
        {
            proof {
                assert(self.planets@.subrange(0, i + 1).drop_last() =~= self.planets@.subrange(
                    0,
                    i as int,
                ));
                reveal_with_fuel(Seq::<_>::filter, 1);
            }
            let ghost before = r@;
            if self.planets[i].controller == Some(faction) {
                r.push(&self.planets[i]);
                assert(r@.map_values(|p: &Planet<O>| *p) =~= before.map_values(|p: &Planet<O>| *p).push(
                    self.planets@[i as int],
                ));
            }
            i = i + 1;
        }
        assert(self.planets@.subrange(0, self.planets@.len() as int) =~= self.planets@);
        r
    }

    /// Adds `resources` to the stores of planet `id`. Fails with `InvalidTarget` when there
    /// is no such planet, and with `InvalidOperation` when a sum would exceed its capacity;
    /// on failure nothing changes.
    pub fn add_resources(&mut self, id: PlanetId, resources: ResourceBundle) -> (r: GameResult<()>)
        requires
            old(self).wf(),
            old(self).has_planet(id) ==> old(self).planet_of(id).resources.current.plus_fits(
                resources,
            ),
        ensures
            final(self).wf(),
            final(self).next_id() == old(self).next_id(),
            r.is_ok() <==> old(self).has_planet(id) && old(self).planet_of(
                id,
            ).resources.capacity.covers(old(self).planet_of(id).resources.current.plus(resources)),
            !old(self).has_planet(id) ==> (r matches Err(GameError::InvalidTarget(m)) && m@
                == planet_not_found(id)),
            old(self).has_planet(id) && r.is_err() ==> (r matches Err(
                GameError::InvalidOperation(m),
            ) && m@ == "Storage capacity exceeded"@),
            r.is_err() ==> final(self).planets() == old(self).planets(),
            r.is_ok() ==> final(self).planets() == old(self).planets().update(
                old(self).pos_of(id),
                with_current(
                    old(self).planet_of(id),
                    old(self).planet_of(id).resources.current.plus(resources),
                ),
            ),
    {
        let i = match self.position_of(id) {
            Some(i) => i,
            None => return Err(Self::not_found(id)),
        };
        let current = self.planets[i].resources.current;
        let capacity = self.planets[i].resources.capacity;
        let new_minerals = current.minerals + resources.minerals;
        let new_food = current.food + resources.food;
        let new_energy = current.energy + resources.energy;
        let new_alloys = current.alloys + resources.alloys;
        let new_components = current.components + resources.components;
        let new_fuel = current.fuel + resources.fuel;
        if new_minerals > capacity.minerals || new_food > capacity.food || new_energy
            > capacity.energy || new_alloys > capacity.alloys || new_components
            > capacity.components || new_fuel > capacity.fuel {
            return Err(GameError::InvalidOperation("Storage capacity exceeded".to_string()));
        }
        self.planets[i].resources.current = ResourceBundle {
            minerals: new_minerals,
            food: new_food,
            energy: new_energy,
            alloys: new_alloys,
            components: new_components,
            fuel: new_fuel,
        };
        proof {
            Self::lemma_same_ids(old(self).planets@, self.planets@, i as int);
            assert(self.planets@ =~= old(self).planets().update(
                old(self).pos_of(id),
                with_current(
                    old(self).planet_of(id),
                    old(self).planet_of(id).resources.current.plus(resources),
                ),
            ));
        }
        Ok(())
    }

    /// Takes `resources` from the stores of planet `id`. Fails with `InvalidTarget` when
    /// there is no such planet, and with `InsufficientResources` (naming the request and
    /// the stores) when the stores do not cover it; on failure nothing changes.
    pub fn remove_resources(&mut self, id: PlanetId, resources: ResourceBundle) -> (r: GameResult<
        (),
    >)
        requires
            old(self).wf(),
            old(self).has_planet(id) && old(self).planet_of(id).resources.current.covers(resources)
                ==> old(self).planet_of(id).resources.current.minus_fits(resources),
        ensures
            final(self).wf(),
            final(self).next_id() == old(self).next_id(),
            r.is_ok() <==> old(self).has_planet(id) && old(self).planet_of(
                id,
            ).resources.current.covers(resources),
            !old(self).has_planet(id) ==> (r matches Err(GameError::InvalidTarget(m)) && m@
                == planet_not_found(id)),
            old(self).has_planet(id) && r.is_err() ==> r == Err::<(), GameError>(
                GameError::InsufficientResources {
                    required: resources,
                    available: old(self).planet_of(id).resources.current,
                },
            ),
            r.is_err() ==> final(self).planets() == old(self).planets(),
            r.is_ok() ==> final(self).planets() == old(self).planets().update(
                old(self).pos_of(id),
                with_current(
                    old(self).planet_of(id),
                    old(self).planet_of(id).resources.current.minus(resources),
                ),
            ),
    {
        let i = match self.position_of(id) {
            Some(i) => i,
            None => return Err(Self::not_found(id)),
        };
        let mut current = self.planets[i].resources.current;
        if !current.can_afford(&resources) {
            return Err(GameError::InsufficientResources { required: resources, available: current });
        }
        let _ = current.subtract(&resources);
        self.planets[i].resources.current = current;
        proof {
            Self::lemma_same_ids(old(self).planets@, self.planets@, i as int);
            assert(self.planets@ =~= old(self).planets().update(
                old(self).pos_of(id),
                with_current(
                    old(self).planet_of(id),
                    old(self).planet_of(id).resources.current.minus(resources),
                ),
            ));
        }
        Ok(())
    }

    /// Adds `amount` (possibly negative) to the population of planet `id`. Fails with
    /// `InvalidTarget` when there is no such planet, and with `InvalidOperation` when the
    /// population would become negative; on failure nothing changes.
    pub fn update_population(&mut self, id: PlanetId, amount: i32) -> (r: GameResult<()>)
        requires
            old(self).wf(),
            old(self).has_planet(id) ==> fits_i32(old(self).planet_of(id).population.total + amount),
        ensures
            final(self).wf(),
            final(self).next_id() == old(self).next_id(),
            r.is_ok() <==> old(self).has_planet(id) && old(self).planet_of(id).population.total
                + amount >= 0,
            !old(self).has_planet(id) ==> (r matches Err(GameError::InvalidTarget(m)) && m@
                == planet_not_found(id)),
            old(self).has_planet(id) && r.is_err() ==> (r matches Err(
                GameError::InvalidOperation(m),
            ) && m@ == "Population cannot be negative"@),
            r.is_err() ==> final(self).planets() == old(self).planets(),
            r.is_ok() ==> final(self).planets() == old(self).planets().update(
                old(self).pos_of(id),
                Planet {
                    population: Demographics {
                        total: (old(self).planet_of(id).population.total + amount) as i32,
                        ..old(self).planet_of(id).population
                    },
                    ..old(self).planet_of(id)
                },
            ),
    {
        let i = match self.position_of(id) {
            Some(i) => i,
            None => return Err(Self::not_found(id)),
        };
        let new_total = self.planets[i].population.total + amount;
        if new_total < 0 {
            return Err(GameError::InvalidOperation("Population cannot be negative".to_string()));
        }
        self.planets[i].population.total = new_total;
        proof {
            Self::lemma_same_ids(old(self).planets@, self.planets@, i as int);
        }
        assert(self.planets@ =~= old(self).planets().update(
            old(self).pos_of(id),
            Planet {
                population: Demographics {
                    total: (old(self).planet_of(id).population.total + amount) as i32,
                    ..old(self).planet_of(id).population
                },
                ..old(self).planet_of(id)
            },
        ));
        Ok(())
    }

    /// Sets the worker allocation of planet `id`. Fails with `InvalidTarget` when there is
    /// no such planet, and with `InvalidOperation` when a count is negative, the counts do
    /// not add up to the population, or fewer than a tenth of the people stay unassigned;
    /// on failure nothing changes.
    pub fn set_worker_allocation(&mut self, id: PlanetId, allocation: WorkerAllocation) -> (r:
        GameResult<()>)
        requires
            old(self).wf(),
            allocation.is_non_negative() ==> fits_i32(allocation.sum_spec()),
        ensures
            final(self).wf(),
            final(self).next_id() == old(self).next_id(),
            old(self).workers_set(*final(self), id, allocation, r),
    {
        let i = match self.position_of(id) {
            Some(i) => i,
            None => return Err(Self::not_found(id)),
        };
        let total = self.planets[i].population.total;
        allocation.validate(total)?;
        let min_unassigned = total / 10;
        if allocation.unassigned < min_unassigned {
            return Err(
                GameError::InvalidOperation(
                    "Must maintain at least 10% unassigned workers".to_string(),
                ),
            );
        }
        self.planets[i].population.allocation = allocation;
        proof {
            Self::lemma_same_ids(old(self).planets@, self.planets@, i as int);
        }
        assert(self.planets@ =~= old(self).planets().update(
            old(self).pos_of(id),
            Planet {
                population: Demographics { allocation, ..old(self).planet_of(id).population },
                ..old(self).planet_of(id)
            },
        ));
        Ok(())
    }

    /// Builds a tier-1, operational building on planet `id`. Fails with `InvalidTarget` when
    /// there is no such planet, and with `InvalidOperation` when all of its
    /// `10 + population / 10000` slots are taken (the slot count is compared as a `usize`,
    /// so a negative one wraps to a huge limit); on failure nothing changes.
    pub fn add_building(&mut self, id: PlanetId, building_type: BuildingType) -> (r: GameResult<
        (),
    >)
        requires
            old(self).wf(),
        ensures
            final(self).wf(),
            final(self).next_id() == old(self).next_id(),
            old(self).building_added(*final(self), id, building_type, r),
    {
        let i = match self.position_of(id) {
            Some(i) => i,
            None => return Err(Self::not_found(id)),
        };
        let available_slots: i32 = 10 + self.planets[i].population.total / 10000;
        assert(available_slots == building_slots(self.planets@[i as int].population.total));
        if self.planets[i].developments.len() >= available_slots as usize {
            let mut m = String::from_str("No available building slots. Current: ");
            crate::text::append_decimal(&mut m, self.planets[i].developments.len() as u64);
            m.append(", Max: ");
            crate::text::append_signed_decimal(&mut m, available_slots as i64);
            return Err(GameError::InvalidOperation(m));
        }
        let building = Building { building_type, tier: 1, operational: true };
        self.planets[i].developments.push(building);
        proof {
            Self::lemma_same_ids(old(self).planets@, self.planets@, i as int);
            lemma_index_lookup(planet_ids(self.planets@), self.planet_index@, id);
        }
        Ok(())
    }

    /// Number of buildings of type `building_type` on planet `id`; fails with
    /// `InvalidTarget` when there is no such planet.
    pub fn get_building_count(&self, id: PlanetId, building_type: BuildingType) -> (r: GameResult<
        usize,
    >)
        requires
            self.wf(),
        ensures
            r.is_ok() <==> self.has_planet(id),
            r matches Ok(n) ==> n == self.planet_of(id).developments@.filter(
                |b: Building| b.building_type == building_type,
            ).len(),
            r matches Err(e) ==> e matches GameError::InvalidTarget(m) && m@ == planet_not_found(id),
    {
        let i = match self.position_of(id) {
            Some(i) => i,
            None => return Err(Self::not_found(id)),
        };
        let d = &self.planets[i].developments;
        let ghost pred = |b: Building| b.building_type == building_type;
        let mut n: usize = 0;
        let mut k: usize = 0;
        assert(d@.subrange(0, 0).filter(pred) =~= Seq::<Building>::empty());
        while k < d.len()
            invariant
                k <= d@.len(),
                pred == (|b: Building| b.building_type == building_type),
                n == d@.subrange(0, k as int).filter(pred).len(),
                n <= k,
            decreases d@.len() - k,
        {
            proof {
                assert(d@.subrange(0, k + 1).drop_last() =~= d@.subrange(0, k as int));
                reveal_with_fuel(Seq::<_>::filter, 1);
            }
            if d[k].building_type == building_type {
                n = n + 1;
            }
            k = k + 1;
        }
        assert(d@.subrange(0, d@.len() as int) =~= d@);
        Ok(n)
    }

    /// `10 + population / 10000` minus the number of buildings of planet `id`; fails with
    /// `InvalidTarget` when there is no such planet.
    pub fn get_available_building_slots(&self, id: PlanetId) -> (r: GameResult<i32>)
        requires
            self.wf(),
            self.has_planet(id) ==> self.planet_of(id).developments@.len() <= i32::MAX
                && fits_i32(
                building_slots(self.planet_of(id).population.total) - self.planet_of(
                    id,
                ).developments@.len(),
            ),
        ensures
            r.is_ok() <==> self.has_planet(id),
            r matches Ok(n) ==> n == building_slots(self.planet_of(id).population.total)
                - self.planet_of(id).developments@.len(),
            r matches Err(e) ==> e matches GameError::InvalidTarget(m) && m@ == planet_not_found(id),
    {
        let i = match self.position_of(id) {
            Some(i) => i,
            None => return Err(Self::not_found(id)),
        };
        let max_slots: i32 = 10 + self.planets[i].population.total / 10000;
        assert(max_slots == building_slots(self.planets@[i as int].population.total));
        let used = self.planets[i].developments.len() as i32;
        Ok(max_slots - used)
    }

    /// Hands planet `id` to `new_controller`; fails with `InvalidTarget` when there is no
    /// such planet, changing nothing.
    pub fn change_controller(&mut self, id: PlanetId, new_controller: Option<FactionId>) -> (r:
        GameResult<()>)
        requires
            old(self).wf(),
        ensures
            final(self).wf(),
            final(self).next_id() == old(self).next_id(),
            old(self).controller_changed(*final(self), id, new_controller, r),
    {
        let i = match self.position_of(id) {
            Some(i) => i,
            None => return Err(Self::not_found(id)),
        };
        self.planets[i].controller = new_controller;
        proof {
            Self::lemma_same_ids(old(self).planets@, self.planets@, i as int);
        }
        assert(self.planets@ =~= old(self).planets().update(
            old(self).pos_of(id),
            Planet { controller: new_controller, ..old(self).planet_of(id) },
        ));
        Ok(())
    }

    /// Raises the storage capacity of planet `id` by `additional_capacity`; fails with
    /// `InvalidTarget` when there is no such planet, changing nothing.
    pub fn upgrade_storage(&mut self, id: PlanetId, additional_capacity: ResourceBundle) -> (r:
        GameResult<()>)
        requires
            old(self).wf(),
            old(self).has_planet(id) ==> old(self).planet_of(id).resources.capacity.plus_fits(
                additional_capacity,
            ),
        ensures
            final(self).wf(),
            final(self).next_id() == old(self).next_id(),
            r.is_ok() <==> old(self).has_planet(id),
            r matches Err(e) ==> e matches GameError::InvalidTarget(m) && m@ == planet_not_found(id),
            r.is_err() ==> final(self).planets() == old(self).planets(),
            r.is_ok() ==> final(self).planets() == old(self).planets().update(
                old(self).pos_of(id),
                Planet {
                    resources: ResourceStorage {
                        capacity: old(self).planet_of(id).resources.capacity.plus(
                            additional_capacity,
                        ),
                        ..old(self).planet_of(id).resources
                    },
                    ..old(self).planet_of(id)
                },
            ),
    {
        let i = match self.position_of(id) {
            Some(i) => i,
            None => return Err(Self::not_found(id)),
        };
        let c = self.planets[i].resources.capacity;
        self.planets[i].resources.capacity = ResourceBundle {
            minerals: c.minerals + additional_capacity.minerals,
            food: c.food + additional_capacity.food,
            energy: c.energy + additional_capacity.energy,
            alloys: c.alloys + additional_capacity.alloys,
            components: c.components + additional_capacity.components,
            fuel: c.fuel + additional_capacity.fuel,
        };
        proof {
            Self::lemma_same_ids(old(self).planets@, self.planets@, i as int);
        }
        assert(self.planets@ =~= old(self).planets().update(
            old(self).pos_of(id),
            Planet {
                resources: ResourceStorage {
                    capacity: old(self).planet_of(id).resources.capacity.plus(additional_capacity),
                    ..old(self).planet_of(id).resources
                },
                ..old(self).planet_of(id)
            },
        ));
        Ok(())
    }

    /// Replaces all planets with `planets` and rebuilds the index (a repeated id finds its
    /// last planet); the next id becomes one more than the largest loaded id, or 1.
    pub fn load_planets(&mut self, planets: Vec<Planet<O>>) -> (r: GameResult<()>)
        requires
            old(self).wf(),
            forall|i: int| 0 <= i < planets@.len() ==> (#[trigger] planets@[i]).id < u32::MAX,
        ensures
            final(self).wf(),
            r.is_ok(),
            final(self).planets() == planets@,
            final(self).next_id() == max_id_plus_one(planet_ids(planets@)),
    {
        let ghost ps = planets@;
        self.planets = planets;
        self.planet_index.clear();
        let mut k: usize = 0;
        let mut next: u32 = 1;
        assert(planet_ids(ps).subrange(0, 0) =~= Seq::<u32>::empty());
        while k < self.planets.len()
            invariant
                k <= self.planets@.len(),
                self.planets@ == ps,
                forall|i: int| 0 <= i < ps.len() ==> (#[trigger] ps[i]).id < u32::MAX,
                index_matches(planet_ids(ps).subrange(0, k as int), self.planet_index@),
                next == max_id_plus_one(planet_ids(ps).subrange(0, k as int)),
            decreases self.planets@.len() - k,
        {
            let id = self.planets[k].id;
            proof {
                let ids = planet_ids(ps);
                assert(ids[k as int] == id);
                lemma_index_push(ids, self.planet_index@, k as int);
                lemma_max_id_step(ids, k as int);
            }
            self.planet_index.insert(id, k);
            if id + 1 > next {
                next = id + 1;
            }
            k = k + 1;
        }
        proof {
            assert(planet_ids(ps).subrange(0, ps.len() as int) =~= planet_ids(ps));
            lemma_max_id_bounds(planet_ids(ps));
        }
        self.next_id = next;
        Ok(())
    }
}

impl<O> PlanetManager<O> {
    /// Answers the events about planets: builds a structure, sets workers and hands over
    /// a conquered planet as asked; checks that a planet whose construction completed
    /// exists, and that an updated planet exists with stores that are not negative and
    /// workers that add up to its population. Other events change nothing.
    pub fn handle_event<V, F>(&mut self, event: &GameEvent<V, F>) -> (r: GameResult<()>)
        requires
            old(self).wf(),
            *event matches GameEvent::PlayerCommand(PlayerCommand::AllocateWorkers { allocation, .. })
                ==> (allocation.is_non_negative() ==> fits_i32(allocation.sum_spec())),
            *event matches GameEvent::StateChanged(StateChange::PlanetUpdated(id)) ==> (old(
                self,
            ).has_planet(id) ==> (old(self).planet_of(id).population.allocation.is_non_negative()
                ==> fits_i32(old(self).planet_of(id).population.allocation.sum_spec()))),
        ensures
            final(self).wf(),
            final(self).next_id() == old(self).next_id(),
            match *event {
                GameEvent::PlayerCommand(PlayerCommand::BuildStructure { planet, building_type }) => {
                    old(self).building_added(*final(self), planet, building_type, r)
                },
                GameEvent::PlayerCommand(PlayerCommand::AllocateWorkers { planet, allocation }) => {
                    old(self).workers_set(*final(self), planet, allocation, r)
                },
                GameEvent::SimulationEvent(SimulationEvent::ConstructionCompleted { planet, .. }) => {
                    &&& final(self).planets() == old(self).planets()
                    &&& r.is_ok() <==> old(self).has_planet(planet)
                    &&& r matches Err(e) ==> e matches GameError::InvalidTarget(m) && m@
                        == planet_not_found(planet)
                },
                GameEvent::SimulationEvent(SimulationEvent::PlanetConquered { planet, new_owner }) => {
                    old(self).controller_changed(*final(self), planet, Some(new_owner), r)
                },
                GameEvent::StateChanged(StateChange::PlanetUpdated(id)) => {
                    let p = old(self).planet_of(id);
                    &&& final(self).planets() == old(self).planets()
                    &&& r.is_ok() <==> old(self).has_planet(id)
                        && p.resources.current.is_non_negative()
                        && p.population.allocation.matches_total(p.population.total as int)
                    &&& !old(self).has_planet(id) ==> (r matches Err(GameError::InvalidTarget(m)) && m@
                        == planet_not_found(id))
                    &&& old(self).has_planet(id) && r.is_err() ==> (r matches Err(e) && e is InvalidOperation)
                },
                _ => r is Ok && final(self).planets() == old(self).planets(),
            },
    {
        match event {
            GameEvent::PlayerCommand(PlayerCommand::BuildStructure { planet, building_type }) => {
                self.add_building(*planet, *building_type)
            },
            GameEvent::PlayerCommand(PlayerCommand::AllocateWorkers { planet, allocation }) => {
                self.set_worker_allocation(*planet, *allocation)
            },
            GameEvent::SimulationEvent(SimulationEvent::ConstructionCompleted { planet, building }) => {
                match self.get_building_count(*planet, *building) {
                    Ok(_) => Ok(()),
                    Err(e) => Err(e),
                }
            },
            GameEvent::SimulationEvent(SimulationEvent::PlanetConquered { planet, new_owner }) => {
                self.change_controller(*planet, Some(*new_owner))
            },
            GameEvent::StateChanged(StateChange::PlanetUpdated(planet_id)) => {
                let planet = match self.get_planet(*planet_id) {
                    Ok(p) => p,
                    Err(e) => return Err(e),
                };
                match planet.resources.current.validate_non_negative() {
                    Ok(()) => {},
                    Err(e) => return Err(e),
                }
                planet.population.allocation.validate(planet.population.total)
            },
            _ => Ok(()),
        }
    }
}

impl<O: Copy> PlanetManager<O> {
    /// Copies of all planets, in order.
    pub fn get_all_planets_cloned(&self) -> (r: GameResult<Vec<Planet<O>>>)
        ensures
            r matches Ok(v) && v@.len() == self.planets().len() && forall|i: int|
                0 <= i < v@.len() ==> (#[trigger] v@[i]).same_as(self.planets()[i]),
    {
        let mut v: Vec<Planet<O>> = Vec::new();
        let mut i: usize = 0;
        while i < self.planets.len()
            invariant
                i <= self.planets@.len(),
                v@.len() == i,
                forall|j: int| 0 <= j < i ==> (#[trigger] v@[j]).same_as(self.planets@[j]),
            decreases self.planets@.len() - i,
        {
            v.push(self.planets[i].duplicate());
            i = i + 1;
        }
        Ok(v)
    }
}

} // verus!
