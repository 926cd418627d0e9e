//! Owner of the ships: creation, lookup, cargo, ownership queries, losses and loading.
use vstd::prelude::*;
use std::collections::HashMap;
use crate::id_index::{
    contains_id, last_position, index_matches, ids_below, max_id_plus_one,
    lemma_index_lookup, lemma_index_push, lemma_max_id_step, lemma_max_id_bounds,
};
use crate::events::{GameEvent, PlayerCommand, SimulationEvent};
use crate::text::decimal;
use crate::types::{fits_i32, CargoHold, FactionId, GameError, GameResult, ResourceBundle, Ship, ShipClass, ShipId};

verus! {

broadcast use vstd::std_specs::hash::group_hash_axioms;

/// The ids of the ships, in order.
pub open spec fn ship_ids<M>(s: Seq<Ship<M>>) -> Seq<u32> {
    s.map_values(|p: Ship<M>| p.id)
}

/// The running sums of `a + b + c + d + e + f (+ g)` all fit in an `i32`.
pub open spec fn sums_fit(a: int, b: int, c: int, d: int, e: int, f: int, g: int) -> bool {
    &&& fits_i32(a + b)
    &&& fits_i32(a + b + c)
    &&& fits_i32(a + b + c + d)
    &&& fits_i32(a + b + c + d + e)
    &&& fits_i32(a + b + c + d + e + f)
    &&& fits_i32(a + b + c + d + e + f + g)
}

/// Weight of what a hold carries: every resource unit and every person weighs 1.
pub open spec fn cargo_weight(c: CargoHold) -> int {
    c.resources.total_spec() + c.population
}

/// Loading `resources` into `c` computes its sums without overflow.
pub open spec fn cargo_load_fits(c: CargoHold, resources: ResourceBundle) -> bool {
    let r = c.resources;
    &&& sums_fit(r.minerals as int, r.food as int, r.energy as int, r.alloys as int, r.components as int, r.fuel as int, c.population as int)
    &&& sums_fit(resources.minerals as int, resources.food as int, resources.energy as int, resources.alloys as int, resources.components as int, resources.fuel as int, 0)
    &&& fits_i32(cargo_weight(c) + resources.total_spec())
    &&& r.plus_fits(resources)
}

/// The ships left after destroying ship `id`: the last one with that id goes, if any.
pub open spec fn destroy_one<M>(s: Seq<Ship<M>>, id: ShipId) -> Seq<Ship<M>> {
    if contains_id(ship_ids(s), id) {
        s.remove(last_position(ship_ids(s), id))
    } else {
        s
    }
}

/// The ships left after destroying each id of `ids` in turn.
pub open spec fn destroy_each<M>(s: Seq<Ship<M>>, ids: Seq<ShipId>) -> Seq<Ship<M>>
    decreases ids.len(),
{
    if ids.len() == 0 {
        s
    } else {
        destroy_one(destroy_each(s, ids.drop_last()), ids.last())
    }
}

/// The message of a failed lookup.
pub open spec fn ship_not_found(id: ShipId) -> Seq<char> {
    "Ship "@ + decimal(id as nat) + " not found"@
}

/// The ship with its motion replaced.
pub open spec fn with_motion<M>(s: Ship<M>, motion: M) -> Ship<M> {
    Ship { motion, ..s }
}

/// How a ship's motion answers an order to fly to the point `V`.
pub trait Navigate<V> {
    /// Sets a course to `target` for a ship of class `ship_class`, or refuses it (when
    /// the fuel does not suffice).
    fn plan_course(&mut self, ship_class: ShipClass, target: V) -> GameResult<()>;
}

/// Ships in creation order, with an index from id to position.
pub struct ShipManager<M> {
    ships: Vec<Ship<M>>,
    next_id: ShipId,
    ship_index: HashMap<ShipId, usize>,
}

impl<M> ShipManager<M> {
    /// The ships, in order.
    pub closed spec fn ships(&self) -> Seq<Ship<M>> {
        self.ships@
    }

    /// The id the next created ship gets.
    pub closed spec fn next_id(&self) -> ShipId {
        self.next_id
    }

    /// The index sends each id to its last position, and every id is below `next_id`.
    pub closed spec fn wf(&self) -> bool {
        &&& index_matches(ship_ids(self.ships@), self.ship_index@)
        &&& ids_below(ship_ids(self.ships@), self.next_id)
    }

    /// Some ship has id `id`.
    pub open spec fn has_ship(&self, id: ShipId) -> bool {
        contains_id(ship_ids(self.ships()), id)
    }

    /// Position of the ship that lookups by `id` find: the last one with that id.
    pub open spec fn pos_of(&self, id: ShipId) -> int {
        last_position(ship_ids(self.ships()), id)
    }

    /// The ship that lookups by `id` find.
    pub open spec fn ship_of(&self, id: ShipId) -> Ship<M> {
        self.ships()[self.pos_of(id)]
    }

    /// What loading `resources` aboard ship `ship_id` does, from `self` to `after`,
    /// answering `r`: only a transport with room for them takes them.
    pub open spec fn cargo_loaded(
        self,
        after: Self,
        ship_id: ShipId,
        resources: ResourceBundle,
        r: GameResult<()>,
    ) -> bool {
        &&& r.is_ok() <==> self.has_ship(ship_id) && self.ship_of(ship_id).ship_class
            == ShipClass::Transport && cargo_weight(self.ship_of(ship_id).cargo)
            + resources.total_spec() <= self.ship_of(ship_id).cargo.capacity
        &&& !self.has_ship(ship_id) ==> (r matches Err(GameError::InvalidTarget(m)) && m@
            == ship_not_found(ship_id))
        &&& self.has_ship(ship_id) && r.is_err() ==> (r matches Err(GameError::InvalidOperation(m))
            && m@ == (if self.ship_of(ship_id).ship_class != ShipClass::Transport {
            "Only transport ships can carry cargo"@
        } else {
            "Cargo capacity exceeded"@
        }))
        &&& r.is_err() ==> after.ships() == self.ships()
        &&& r.is_ok() ==> after.ships() == self.ships().update(
            self.pos_of(ship_id),
            Ship {
                cargo: CargoHold {
                    resources: self.ship_of(ship_id).cargo.resources.plus(resources),
                    ..self.ship_of(ship_id).cargo
                },
                ..self.ship_of(ship_id)
            },
        )
    }

    /// What emptying the hold of ship `ship_id` does, from `self` to `after`, answering
    /// `r` with what the hold held.
    pub open spec fn cargo_unloaded(self, after: Self, ship_id: ShipId, r: GameResult<ResourceBundle>) -> bool {
        &&& r.is_ok() <==> self.has_ship(ship_id)
        &&& r matches Ok(b) ==> b == self.ship_of(ship_id).cargo.resources
        &&& r matches Err(e) ==> e matches GameError::InvalidTarget(m) && m@ == ship_not_found(ship_id)
        &&& r.is_err() ==> after.ships() == self.ships()
        &&& r.is_ok() ==> after.ships() == self.ships().update(
            self.pos_of(ship_id),
            Ship {
                cargo: CargoHold { resources: ResourceBundle::zero_spec(), ..self.ship_of(ship_id).cargo },
                ..self.ship_of(ship_id)
            },
        )
    }

    fn position_of(&self, id: ShipId) -> (r: Option<usize>)
        requires
            self.wf(),
        ensures
            r.is_some() <==> self.has_ship(id),
            r matches Some(i) ==> i == self.pos_of(id) && i < self.ships().len()
                && self.ships()[i as int].id == id,
    {
        proof {
            lemma_index_lookup(ship_ids(self.ships@), self.ship_index@, id);
        }
        match self.ship_index.get(&id) {
            Some(i) => Some(*i),
            None => None,
        }
    }

    /// An empty manager whose first ship gets id 0.
    pub fn new() -> (r: Self)
        ensures
            r.wf(),
            r.ships() == Seq::<Ship<M>>::empty(),
            r.next_id() == 0,
    {
        let r = ShipManager { ships: Vec::new(), next_id: 0, ship_index: HashMap::new() };
        assert(ship_ids(r.ships@) =~= Seq::<u32>::empty());
        r
    }

    fn not_found(id: ShipId) -> (e: GameError)
        ensures
            e matches GameError::InvalidTarget(m) && m@ == ship_not_found(id),
    {
        let mut m = String::from_str("Ship ");
        crate::text::append_decimal(&mut m, id as u64);
        m.append(" not found");
        assert(m@ =~= ship_not_found(id));
        GameError::InvalidTarget(m)
    }

    proof fn lemma_same_ids(old_s: Seq<Ship<M>>, new_s: Seq<Ship<M>>, i: int)
        requires
            0 <= i < old_s.len(),
            new_s.len() == old_s.len(),
            new_s[i].id == old_s[i].id,
            forall|j: int| 0 <= j < old_s.len() && j != i ==> new_s[j] == old_s[j],
        ensures
            ship_ids(new_s) == ship_ids(old_s),
    {
        assert(ship_ids(new_s) =~= ship_ids(old_s));
    }

    /// Adds a ship with an empty hold of capacity 0 under the next id.
    pub fn create_ship(&mut self, ship_class: ShipClass, motion: M, owner: FactionId) -> (r:
        GameResult<ShipId>)
        requires
            old(self).wf(),
            old(self).next_id() < u32::MAX,
        ensures
            final(self).wf(),
            r matches Ok(id) && id == old(self).next_id(),
            final(self).next_id() == old(self).next_id() + 1,
            final(self).ships() == old(self).ships().push(
                Ship {
                    id: old(self).next_id(),
                    ship_class,
                    motion,
                    cargo: CargoHold {
                        resources: ResourceBundle::zero_spec(),
                        population: 0,
                        capacity: 0,
                    },
                    owner,
                },
            ),
    {
        let id = self.next_id;
        self.next_id = self.next_id + 1;
        let ship = Ship { id, ship_class, motion, cargo: CargoHold::default(), owner };
        let index = self.ships.len();
        let ghost ids0 = ship_ids(self.ships@);
        self.ships.push(ship);
        proof {
            let ids1 = ship_ids(self.ships@);
            assert(ids1.subrange(0, index as int) =~= ids0);
            assert(ids1[index as int] == id);
            lemma_index_push(ids1, self.ship_index@, index as int);
            assert(ids1.subrange(0, index + 1) =~= ids1);
        }
        self.ship_index.insert(id, index);
        Ok(id)
    }

    /// The ship with id `id` (the last one loaded under that id); fails with
    /// `InvalidTarget` when there is none.
    pub fn get_ship(&self, id: ShipId) -> (r: GameResult<&Ship<M>>)
        requires
            self.wf(),
        ensures
            r.is_ok() <==> self.has_ship(id),
            r matches Ok(s) ==> *s == self.ship_of(id),
            r matches Err(e) ==> e matches GameError::InvalidTarget(m) && m@ == ship_not_found(id),
    {
        match self.position_of(id) {
            Some(i) => Ok(&self.ships[i]),
            None => Err(Self::not_found(id)),
        }
    }

    /// Removes ship `id` and rebuilds the index; fails with `InvalidTarget` when there is
    /// no such ship, changing nothing.
    pub fn destroy_ship(&mut self, id: ShipId) -> (r: GameResult<()>)
        requires
            old(self).wf(),
        ensures
            final(self).wf(),
            final(self).next_id() == old(self).next_id(),
            r.is_ok() <==> old(self).has_ship(id),
            r matches Err(e) ==> e matches GameError::InvalidTarget(m) && m@ == ship_not_found(id),
            r.is_err() ==> final(self).ships() == old(self).ships(),
            r.is_ok() ==> final(self).ships() == old(self).ships().remove(old(self).pos_of(id)),
    {
        proof {
            lemma_index_lookup(ship_ids(self.ships@), self.ship_index@, id);
        }
        let index = match self.ship_index.remove(&id) {
            Some(i) => i,
            None => return Err(Self::not_found(id)),
        };
        self.ships.remove(index);
        proof {
            let old_ids = ship_ids(old(self).ships@);
            let new_ids = ship_ids(self.ships@);
            assert forall|k: int| 0 <= k < new_ids.len() implies #[trigger] new_ids[k] < self.next_id by {
                if k < index {
                    assert(new_ids[k] == old_ids[k]);
                } else {
                    assert(new_ids[k] == old_ids[k + 1]);
                }
            }
        }
        self.rebuild_index();
        Ok(())
    }

    fn rebuild_index(&mut self)
        requires
            ids_below(ship_ids(old(self).ships@), old(self).next_id),
        ensures
            final(self).wf(),
            final(self).ships@ == old(self).ships@,
            final(self).next_id == old(self).next_id,
    {
        let ghost ss = self.ships@;
        self.ship_index.clear();
        let mut k: usize = 0;
        assert(ship_ids(ss).subrange(0, 0) =~= Seq::<u32>::empty());
        while k < self.ships.len()
            invariant
                k <= self.ships@.len(),
                self.ships@ == ss,
                self.next_id == old(self).next_id,
                ids_below(ship_ids(ss), self.next_id),
                index_matches(ship_ids(ss).subrange(0, k as int), self.ship_index@),
            decreases self.ships@.len() - k,
        {
            let sid = self.ships[k].id;
            proof {
                let ids = ship_ids(ss);
                assert(ids[k as int] == sid);
                lemma_index_push(ids, self.ship_index@, k as int);
            }
            self.ship_index.insert(sid, k);
            k = k + 1;
        }
        assert(ship_ids(ss).subrange(0, ss.len() as int) =~= ship_ids(ss));
    }

    /// Puts `resources` in the hold of ship `id`. Fails with `InvalidTarget` when there is
    /// no such ship, and with `InvalidOperation` when it is not a transport or when the
    /// weight on board plus the new load would exceed the capacity; on failure nothing
    /// changes.
    pub fn load_cargo(&mut self, ship_id: ShipId, resources: ResourceBundle) -> (r: GameResult<()>)
        requires
            old(self).wf(),
            old(self).has_ship(ship_id) && old(self).ship_of(ship_id).ship_class == ShipClass::Transport
                ==> cargo_load_fits(old(self).ship_of(ship_id).cargo, resources),
        ensures
            final(self).wf(),
            final(self).next_id() == old(self).next_id(),
            old(self).cargo_loaded(*final(self), ship_id, resources, r),
    {
        let i = match self.position_of(ship_id) {
            Some(i) => i,
            None => return Err(Self::not_found(ship_id)),
        };
        if self.ships[i].ship_class != ShipClass::Transport {
            return Err(GameError::InvalidOperation("Only transport ships can carry cargo".to_string()));
        }
        let c = self.ships[i].cargo;
        let current_weight = c.resources.minerals + c.resources.food + c.resources.energy
            + c.resources.alloys + c.resources.components + c.resources.fuel + c.population;
        let additional_weight = resources.minerals + resources.food + resources.energy
            + resources.alloys + resources.components + resources.fuel;
        if current_weight + additional_weight > c.capacity {
            return Err(GameError::InvalidOperation("Cargo capacity exceeded".to_string()));
        }
        self.ships[i].cargo.resources = ResourceBundle {
            minerals: c.resources.minerals + resources.minerals,
            food: c.resources.food + resources.food,
            energy: c.resources.energy + resources.energy,
            alloys: c.resources.alloys + resources.alloys,
            components: c.resources.components + resources.components,
            fuel: c.resources.fuel + resources.fuel,
        };
        proof {
            Self::lemma_same_ids(old(self).ships@, self.ships@, i as int);
        }
        assert(self.ships@ =~= old(self).ships().update(
            old(self).pos_of(ship_id),
            Ship {
                cargo: CargoHold {
                    resources: old(self).ship_of(ship_id).cargo.resources.plus(resources),
                    ..old(self).ship_of(ship_id).cargo
                },
                ..old(self).ship_of(ship_id)
            },
        ));
        Ok(())
    }

    /// Empties the hold of ship `id` of resources (people stay) and returns what it held;
    /// fails with `InvalidTarget` when there is no such ship, changing nothing.
    pub fn unload_cargo(&mut self, ship_id: ShipId) -> (r: GameResult<ResourceBundle>)
        requires
            old(self).wf(),
        ensures
            final(self).wf(),
            final(self).next_id() == old(self).next_id(),
            old(self).cargo_unloaded(*final(self), ship_id, r),
    {
        let i = match self.position_of(ship_id) {
            Some(i) => i,
            None => return Err(Self::not_found(ship_id)),
        };
        let cargo_resources = self.ships[i].cargo.resources;
        self.ships[i].cargo.resources = ResourceBundle::default();
        proof {
            Self::lemma_same_ids(old(self).ships@, self.ships@, i as int);
        }
        assert(self.ships@ =~= old(self).ships().update(
            old(self).pos_of(ship_id),
            Ship {
                cargo: CargoHold {
                    resources: ResourceBundle::zero_spec(),
                    ..old(self).ship_of(ship_id).cargo
                },
                ..old(self).ship_of(ship_id)
            },
        ));
        Ok(cargo_resources)
    }

    /// Hold capacity of ship `id`; fails with `InvalidTarget` when there is no such ship.
    pub fn get_cargo_capacity(&self, ship_id: ShipId) -> (r: GameResult<i32>)
        requires
            self.wf(),
        ensures
            r.is_ok() <==> self.has_ship(ship_id),
            r matches Ok(c) ==> c == self.ship_of(ship_id).cargo.capacity,
            r matches Err(e) ==> e matches GameError::InvalidTarget(m) && m@ == ship_not_found(ship_id),
    {
        let ship = self.get_ship(ship_id)?;
        Ok(ship.cargo.capacity)
    }

    /// Resources in the hold of ship `id`; fails with `InvalidTarget` when there is no such
    /// ship.
    pub fn get_cargo_contents(&self, ship_id: ShipId) -> (r: GameResult<&ResourceBundle>)
        requires
            self.wf(),
        ensures
            r.is_ok() <==> self.has_ship(ship_id),
            r matches Ok(c) ==> *c == self.ship_of(ship_id).cargo.resources,
            r matches Err(e) ==> e matches GameError::InvalidTarget(m) && m@ == ship_not_found(ship_id),
    {
        let ship = self.get_ship(ship_id)?;
        Ok(&ship.cargo.resources)
    }

    /// All ships, in order.
    pub fn get_all_ships(&self) -> (r: &Vec<Ship<M>>)
        ensures
            r@ == self.ships(),
    {
        &self.ships
    }

    /// Ids of the ships owned by `owner`, in order.
    pub fn get_ships_by_owner(&self, owner: FactionId) -> (r: Vec<ShipId>)
        ensures
            r@ == ship_ids(self.ships().filter(|s: Ship<M>| s.owner == owner)),
    {
        let mut r: Vec<ShipId> = Vec::new();
        let mut i: usize = 0;
        let ghost pred = |s: Ship<M>| s.owner == owner;
        assert(ship_ids(self.ships@.subrange(0, 0).filter(pred)) =~= Seq::<u32>::empty());
        while i < self.ships.len()
            invariant
                i <= self.ships@.len(),
                pred == (|s: Ship<M>| s.owner == owner),
                r@ == ship_ids(self.ships@.subrange(0, i as int).filter(pred)),
            decreases self.ships@.len() - i,
        {
            proof {
                assert(self.ships@.subrange(0, i + 1).drop_last() =~= self.ships@.subrange(0, i as int));
                reveal_with_fuel(Seq::<_>::filter, 1);
            }
            if self.ships[i].owner == owner {
                r.push(self.ships[i].id);
                assert(r@ =~= ship_ids(self.ships@.subrange(0, i + 1).filter(pred)));
            } else {
                assert(r@ =~= ship_ids(self.ships@.subrange(0, i + 1).filter(pred)));
            }
            i = i + 1;
        }
        assert(self.ships@.subrange(0, self.ships@.len() as int) =~= self.ships@);
        r
    }

    /// Ids of the ships of class `ship_class`, in order.
    pub fn get_ships_by_class(&self, ship_class: ShipClass) -> (r: Vec<ShipId>)
        ensures
            r@ == ship_ids(self.ships().filter(|s: Ship<M>| s.ship_class == ship_class)),
    {
        let mut r: Vec<ShipId> = Vec::new();
        let mut i: usize = 0;
        let ghost pred = |s: Ship<M>| s.ship_class == ship_class;
        assert(ship_ids(self.ships@.subrange(0, 0).filter(pred)) =~= Seq::<u32>::empty());
        while i < self.ships.len()
            invariant
                i <= self.ships@.len(),
                pred == (|s: Ship<M>| s.ship_class == ship_class),
                r@ == ship_ids(self.ships@.subrange(0, i as int).filter(pred)),
            decreases self.ships@.len() - i,
        {
            proof {
                assert(self.ships@.subrange(0, i + 1).drop_last() =~= self.ships@.subrange(0, i as int));
                reveal_with_fuel(Seq::<_>::filter, 1);
            }
            if self.ships[i].ship_class == ship_class {
                r.push(self.ships[i].id);
                assert(r@ =~= ship_ids(self.ships@.subrange(0, i + 1).filter(pred)));
            } else {
                assert(r@ =~= ship_ids(self.ships@.subrange(0, i + 1).filter(pred)));
            }
            i = i + 1;
        }
        assert(self.ships@.subrange(0, self.ships@.len() as int) =~= self.ships@);
        r
    }

    /// Removes the ships lost on both sides of a battle, attackers first; a ship that is
    /// already gone is skipped.
    pub fn handle_combat_resolved(&mut self, outcome: &crate::types::CombatOutcome) -> (r: GameResult<()>)
        requires
            old(self).wf(),
        ensures
            final(self).wf(),
            final(self).next_id() == old(self).next_id(),
            r.is_ok(),
            final(self).ships() == destroy_each(
                destroy_each(old(self).ships(), outcome.attacker_losses@),
                outcome.defender_losses@,
            ),
    {
        let mut i: usize = 0;
        assert(outcome.attacker_losses@.take(0) =~= Seq::<ShipId>::empty());
        while i < outcome.attacker_losses.len()
            invariant
                i <= outcome.attacker_losses@.len(),
                self.wf(),
                self.next_id() == old(self).next_id(),
                self.ships() == destroy_each(old(self).ships(), outcome.attacker_losses@.take(i as int)),
            decreases outcome.attacker_losses@.len() - i,
        {
            let _ = self.destroy_ship(outcome.attacker_losses[i]);
            proof {
                assert(outcome.attacker_losses@.take(i + 1).drop_last() =~= outcome.attacker_losses@.take(i as int));
            }
            i = i + 1;
        }
        assert(outcome.attacker_losses@.take(i as int) =~= outcome.attacker_losses@);
        let mut j: usize = 0;
        assert(outcome.defender_losses@.take(0) =~= Seq::<ShipId>::empty());
        while j < outcome.defender_losses.len()
            invariant
                j <= outcome.defender_losses@.len(),
                self.wf(),
                self.next_id() == old(self).next_id(),
                self.ships() == destroy_each(
                    destroy_each(old(self).ships(), outcome.attacker_losses@),
                    outcome.defender_losses@.take(j as int),
                ),
            decreases outcome.defender_losses@.len() - j,
        {
            let _ = self.destroy_ship(outcome.defender_losses[j]);
            proof {
                assert(outcome.defender_losses@.take(j + 1).drop_last() =~= outcome.defender_losses@.take(j as int));
            }
            j = j + 1;
        }
        assert(outcome.defender_losses@.take(j as int) =~= outcome.defender_losses@);
        Ok(())
    }

    /// Replaces all ships with `ships` and rebuilds the index (a repeated id finds its last
    /// ship); the next id becomes one more than the largest loaded id, or 1.
    pub fn load_ships(&mut self, ships: Vec<Ship<M>>) -> (r: GameResult<()>)
        requires
            old(self).wf(),
            forall|i: int| 0 <= i < ships@.len() ==> (#[trigger] ships@[i]).id < u32::MAX,
        ensures
            final(self).wf(),
            r.is_ok(),
            final(self).ships() == ships@,
            final(self).next_id() == max_id_plus_one(ship_ids(ships@)),
    {
        let ghost ss = ships@;
        self.ships = ships;
        self.ship_index.clear();
        let mut k: usize = 0;
        let mut next: u32 = 1;
        assert(ship_ids(ss).subrange(0, 0) =~= Seq::<u32>::empty());
        while k < self.ships.len()
            invariant
                k <= self.ships@.len(),
                self.ships@ == ss,
                forall|i: int| 0 <= i < ss.len() ==> (#[trigger] ss[i]).id < u32::MAX,
                index_matches(ship_ids(ss).subrange(0, k as int), self.ship_index@),
                next == max_id_plus_one(ship_ids(ss).subrange(0, k as int)),
            decreases self.ships@.len() - k,
        {
            let id = self.ships[k].id;
            proof {
                let ids = ship_ids(ss);
                assert(ids[k as int] == id);
                lemma_index_push(ids, self.ship_index@, k as int);
                lemma_max_id_step(ids, k as int);
            }
            self.ship_index.insert(id, k);
            if id + 1 > next {
                next = id + 1;
            }
            k = k + 1;
        }
        proof {
            assert(ship_ids(ss).subrange(0, ss.len() as int) =~= ship_ids(ss));
            lemma_max_id_bounds(ship_ids(ss));
        }
        self.next_id = next;
        Ok(())
    }

    /// The ship with id `id`, to change in place. The manager stays well formed as long
    /// as the id of the ship is left as it is.
    pub fn get_ship_mut(&mut self, id: ShipId) -> (r: GameResult<&mut Ship<M>>)
        requires
            old(self).wf(),
        ensures
            r.is_ok() <==> old(self).has_ship(id),
            r matches Err(e) ==> e matches GameError::InvalidTarget(m) && m@ == ship_not_found(id),
            r.is_err() ==> *final(self) == *old(self),
            r matches Ok(s) ==> *s == old(self).ship_of(id),
            r matches Ok(s) ==> final(self).ships() == old(self).ships().update(old(self).pos_of(id), *final(s)),
            r matches Ok(s) ==> final(self).next_id() == old(self).next_id(),
            r matches Ok(s) ==> (final(s).id == id ==> final(self).wf()),
    {
        match self.position_of(id) {
            Some(i) => {
                proof {
                    assert forall|x: Ship<M>| x.id == id implies ship_ids(
                        self.ships@.update(i as int, x),
                    ) == ship_ids(self.ships@) by {
                        assert(ship_ids(self.ships@.update(i as int, x)) =~= ship_ids(self.ships@));
                    }
                }
                Ok(&mut self.ships[i])
            },
            None => Err(Self::not_found(id)),
        }
    }
}

impl<M: Copy> ShipManager<M> {
    /// Copies of all ships, in order.
    pub fn get_all_ships_cloned(&self) -> (r: GameResult<Vec<Ship<M>>>)
        ensures
            r matches Ok(v) && v@ == self.ships(),
    {
        let mut v: Vec<Ship<M>> = Vec::new();
        let mut i: usize = 0;
        while i < self.ships.len()
            invariant
                i <= self.ships@.len(),
                v@ == self.ships@.subrange(0, i as int),
            decreases self.ships@.len() - i,
        {
            v.push(self.ships[i].duplicate());
            assert(v@ =~= self.ships@.subrange(0, i + 1));
            i = i + 1;
        }
        assert(self.ships@.subrange(0, self.ships@.len() as int) =~= self.ships@);
        Ok(v)
    }
}

impl<M> ShipManager<M> {
    /// Orders ship `ship_id` to fly to `target`: its motion plans the course, or refuses.
    /// Fails with `InvalidTarget` when there is no such ship.
    pub fn handle_move_ship<V>(&mut self, ship_id: ShipId, target: V) -> (r: GameResult<()>)
        where
            M: Navigate<V>,
        requires
            old(self).wf(),
        ensures
            final(self).wf(),
            final(self).next_id() == old(self).next_id(),
            !old(self).has_ship(ship_id) ==> *final(self) == *old(self) && (r matches Err(
                GameError::InvalidTarget(m),
            ) && m@ == ship_not_found(ship_id)),
            old(self).has_ship(ship_id) ==> exists|motion: M|
                final(self).ships() == old(self).ships().update(
                    old(self).pos_of(ship_id),
                    #[trigger] with_motion(old(self).ship_of(ship_id), motion),
                ),
    {
        proof {
            lemma_index_lookup(ship_ids(self.ships@), self.ship_index@, ship_id);
            if self.has_ship(ship_id) {
                assert(ship_ids(self.ships@)[self.pos_of(ship_id)] == ship_id);
            }
        }
        let ship = match self.get_ship_mut(ship_id) {
            Ok(s) => s,
            Err(e) => return Err(e),
        };
        let ship_class = ship.ship_class;
        let r = ship.motion.plan_course(ship_class, target);
        proof {
            assert(ship.id == ship_id);
            assert(*ship == with_motion(old(self).ship_of(ship_id), ship.motion));
        }
        r
    }

    /// Answers the events about ships: a move order goes to the ship's motion, cargo is
    /// loaded and unloaded as asked, and the ships lost in a battle are destroyed. Other
    /// events change nothing.
    pub fn handle_event<V: Copy, F>(&mut self, event: &GameEvent<V, F>) -> (r: GameResult<()>)
        where
            M: Navigate<V>,
        requires
            old(self).wf(),
            *event matches GameEvent::PlayerCommand(PlayerCommand::LoadShipCargo { ship, resources, .. })
                ==> (old(self).has_ship(ship) && old(self).ship_of(ship).ship_class == ShipClass::Transport
                ==> cargo_load_fits(old(self).ship_of(ship).cargo, resources)),
        ensures
            final(self).wf(),
            final(self).next_id() == old(self).next_id(),
            match *event {
                GameEvent::PlayerCommand(PlayerCommand::MoveShip { ship, .. }) => {
                    &&& !old(self).has_ship(ship) ==> *final(self) == *old(self) && (r matches Err(
                        GameError::InvalidTarget(m),
                    ) && m@ == ship_not_found(ship))
                    &&& old(self).has_ship(ship) ==> exists|motion: M|
                        final(self).ships() == old(self).ships().update(
                            old(self).pos_of(ship),
                            #[trigger] with_motion(old(self).ship_of(ship), motion),
                        )
                },
                GameEvent::PlayerCommand(PlayerCommand::LoadShipCargo { ship, resources, .. }) => {
                    old(self).cargo_loaded(*final(self), ship, resources, r)
                },
                GameEvent::PlayerCommand(PlayerCommand::UnloadShipCargo { ship, .. }) => {
                    &&& r.is_ok() <==> old(self).has_ship(ship)
                    &&& exists|u: GameResult<ResourceBundle>|
                        #[trigger] old(self).cargo_unloaded(*final(self), ship, u) && u.is_ok() == r.is_ok()
                            && (r matches Err(e) ==> u == Err::<ResourceBundle, GameError>(e))
                },
                GameEvent::SimulationEvent(SimulationEvent::CombatResolved { outcome, .. }) => {
                    &&& r is Ok
                    &&& final(self).ships() == destroy_each(
                        destroy_each(old(self).ships(), outcome.attacker_losses@),
                        outcome.defender_losses@,
                    )
                },
                _ => r is Ok && *final(self) == *old(self),
            },
    {
        match event {
            GameEvent::PlayerCommand(PlayerCommand::MoveShip { ship, target }) => {
                self.handle_move_ship(*ship, *target)
            },
            GameEvent::PlayerCommand(PlayerCommand::LoadShipCargo { ship, resources, .. }) => {
                self.load_cargo(*ship, *resources)
            },
            GameEvent::PlayerCommand(PlayerCommand::UnloadShipCargo { ship, .. }) => {
                match self.unload_cargo(*ship) {
                    Ok(_) => Ok(()),
                    Err(e) => Err(e),
                }
            },
            GameEvent::SimulationEvent(SimulationEvent::CombatResolved { outcome, .. }) => {
                self.handle_combat_resolved(outcome)
            },
            _ => Ok(()),
        }
    }
}

} // verus!
