//! Planets and factions kept together, for callers that want one owner for both: planets
//! may only name existing factions as controllers.
use vstd::prelude::*;
use std::collections::HashMap;
use crate::events::{GameEvent, SimulationEvent, StateChange};
use crate::faction_manager::{
    faction_not_found, has_faction_id, has_faction_name, loadable_factions, load_refusal,
    next_faction_id_after, FactionManager,
};
use crate::id_index::{
    contains_id, last_position, index_matches, ids_below, max_id_plus_one, lemma_index_lookup,
    lemma_index_push, lemma_max_id_step, lemma_max_id_bounds,
};
use crate::planet_manager::{planet_ids, planet_not_found};
use crate::text::{decimal, trimmed};
use crate::types::{
    fits_i32, saturate_i32, AIPersonality, Building, Demographics, Faction, FactionId, GameError,
    GameResult, Planet, PlanetId, ResourceBundle, ResourceStorage, WorkerAllocation,
};

verus! {

broadcast use vstd::std_specs::hash::group_hash_axioms;

/// A planet just created here: no stores and no room for any, no people, no buildings.
pub open spec fn is_bare_planet<O>(
    p: Planet<O>,
    id: PlanetId,
    position: O,
    controller: Option<FactionId>,
) -> bool {
    &&& p.id == id
    &&& p.position == position
    &&& p.resources == ResourceStorage {
        current: ResourceBundle::zero_spec(),
        capacity: ResourceBundle::zero_spec(),
    }
    &&& p.population == Demographics { total: 0, allocation: WorkerAllocation::zero_spec() }
    &&& p.developments@.len() == 0
    &&& p.controller == controller
}

/// Building slots of a planet with `total` inhabitants, as a count of positions:
/// `10 + total / 10000`, the population read as an unsigned size.
pub open spec fn slot_count(total: i32) -> int {
    10 + (total as usize) / 10000
}

/// A planet can be loaded next to the factions `fs`: its controller, if any, exists, and
/// its workers are non-negative and add up to its population.
pub open spec fn planet_loadable<O>(fs: Seq<Faction>, p: Planet<O>) -> bool {
    &&& p.controller matches Some(f) ==> has_faction_id(fs, f)
    &&& p.population.allocation.matches_total(p.population.total as int)
}

/// The id the next planet gets after loading planets with ids `ids`: one more than the
/// largest, or 0 when there are none.
pub open spec fn next_planet_id_after(ids: Seq<u32>) -> int {
    if ids.len() == 0 {
        0
    } else {
        max_id_plus_one(ids)
    }
}

/// The message with which a planet naming the missing faction `faction` is refused.
pub open spec fn missing_controller(planet: PlanetId, faction: FactionId) -> Seq<char> {
    "Planet "@ + decimal(planet as nat) + " references non-existent faction "@ + decimal(
        faction as nat,
    )
}

/// Planets in creation order with an index from id to position, and the factions.
pub struct EntityManager<O> {
    planets: Vec<Planet<O>>,
    next_planet_id: PlanetId,
    planet_index: HashMap<PlanetId, usize>,
    faction_manager: FactionManager,
}

impl<O> EntityManager<O> {
    /// The planets, in order.
    pub closed spec fn planets(&self) -> Seq<Planet<O>> {
        self.planets@
    }

    /// The id the next created planet gets.
    pub closed spec fn next_planet_id(&self) -> PlanetId {
        self.next_planet_id
    }

    /// The factions, in order.
    pub closed spec fn factions(&self) -> Seq<Faction> {
        self.faction_manager.factions()
    }

    /// The id the next created faction gets.
    pub closed spec fn next_faction_id(&self) -> FactionId {
        self.faction_manager.next_id()
    }

    /// The planet index sends each id to its last position, every planet id is below
    /// `next_planet_id`, and the factions are well kept.
    pub closed spec fn wf(&self) -> bool {
        &&& index_matches(planet_ids(self.planets@), self.planet_index@)
        &&& ids_below(planet_ids(self.planets@), self.next_planet_id)
        &&& self.faction_manager.wf()
    }

    /// Some planet has id `id`.
    pub open spec fn has_planet(&self, id: PlanetId) -> bool {
        contains_id(planet_ids(self.planets()), id)
    }

    /// Position of the planet that lookups by `id` find: the last one with that id.
    pub open spec fn pos_of(&self, id: PlanetId) -> int {
        last_position(planet_ids(self.planets()), id)
    }

    /// The planet that lookups by `id` find.
    pub open spec fn planet_of(&self, id: PlanetId) -> Planet<O> {
        self.planets()[self.pos_of(id)]
    }

    /// Nothing yet: the first planet and the first faction get id 0.
    pub fn new() -> (r: Self)
        ensures
            r.wf(),
            r.planets() == Seq::<Planet<O>>::empty(),
            r.factions() == Seq::<Faction>::empty(),
            r.next_planet_id() == 0,
            r.next_faction_id() == 0,
    {
        let r = EntityManager {
            planets: Vec::new(),
            next_planet_id: 0,
            planet_index: HashMap::new(),
            faction_manager: FactionManager::new(),
        };
        assert(planet_ids(r.planets@) =~= Seq::<u32>::empty());
        r
    }

    fn position_of(&self, id: PlanetId) -> (r: Option<usize>)
        requires
            self.wf(),
        ensures
            r.is_some() <==> self.has_planet(id),
            r matches Some(i) ==> i == self.pos_of(id) && i < self.planets().len()
                && self.planets()[i as int].id == id,
    {
        proof {
            lemma_index_lookup(planet_ids(self.planets@), self.planet_index@, id);
        }
        match self.planet_index.get(&id) {
            Some(i) => Some(*i),
            None => None,
        }
    }

    fn not_found(id: PlanetId) -> (e: GameError)
        ensures
            e matches GameError::InvalidTarget(m) && m@ == planet_not_found(id),
    {
        let mut m = String::from_str("Planet ");
        crate::text::append_decimal(&mut m, id as u64);
        m.append(" not found");
        GameError::InvalidTarget(m)
    }

    proof fn lemma_same_ids(old_s: Seq<Planet<O>>, new_s: Seq<Planet<O>>, i: int)
        requires
            0 <= i < old_s.len(),
            new_s.len() == old_s.len(),
            new_s[i].id == old_s[i].id,
            forall|j: int| 0 <= j < old_s.len() && j != i ==> new_s[j] == old_s[j],
        ensures
            planet_ids(new_s) == planet_ids(old_s),
    {
        assert(planet_ids(new_s) =~= planet_ids(old_s));
    }

    /// Adds a planet with no stores, no room for any, no people and no buildings under the
    /// next id. Fails with `InvalidTarget` when the controller names a missing faction.
    pub fn create_planet(&mut self, position: O, controller: Option<FactionId>) -> (r: GameResult<
        PlanetId,
    >)
        requires
            old(self).wf(),
            (controller matches Some(f) ==> has_faction_id(old(self).factions(), f)) ==> old(
                self,
            ).next_planet_id() < u32::MAX,
        ensures
            final(self).wf(),
            final(self).factions() == old(self).factions(),
            final(self).next_faction_id() == old(self).next_faction_id(),
            r.is_ok() <==> (controller matches Some(f) ==> has_faction_id(old(self).factions(), f)),
            r matches Err(e) ==> *final(self) == *old(self) && (controller matches Some(f) && e
                matches GameError::InvalidTarget(m) && m@ == faction_not_found(f)),
            r matches Ok(id) ==> {
                &&& id == old(self).next_planet_id()
                &&& final(self).next_planet_id() == old(self).next_planet_id() + 1
                &&& final(self).planets().len() == old(self).planets().len() + 1
                &&& final(self).planets().drop_last() == old(self).planets()
                &&& is_bare_planet(final(self).planets().last(), id, position, controller)
            },
    {
        if let Some(faction_id) = controller {
            match self.faction_manager.get_faction(faction_id) {
                Ok(_) => {},
                Err(e) => return Err(e),
            }
        }
        let id = self.next_planet_id;
        self.next_planet_id = self.next_planet_id + 1;
        let planet = Planet {
            id,
            position,
            resources: ResourceStorage::default(),
            population: Demographics::default(),
            developments: Vec::new(),
            controller,
        };
        let index = self.planets.len();
        let ghost ids0 = planet_ids(self.planets@);
        self.planets.push(planet);
        proof {
            let ids1 = planet_ids(self.planets@);
            assert(ids1.subrange(0, index as int) =~= ids0);
            assert(ids1[index as int] == id);
            lemma_index_push(ids1, self.planet_index@, index as int);
            assert(ids1.subrange(0, index + 1) =~= ids1);
        }
        self.planet_index.insert(id, index);
        assert(self.planets@.drop_last() =~= old(self).planets@);
        Ok(id)
    }

    /// The planet with id `id` (the last one loaded under that id), if any.
    pub fn get_planet(&self, id: PlanetId) -> (r: Option<&Planet<O>>)
        requires
            self.wf(),
        ensures
            r.is_some() <==> self.has_planet(id),
            r matches Some(p) ==> *p == self.planet_of(id),
    {
        match self.position_of(id) {
            Some(i) => Some(&self.planets[i]),
            None => None,
        }
    }

    /// The planet with id `id`, to change in place.
    pub fn get_planet_mut(&mut self, id: PlanetId) -> (r: Option<&mut Planet<O>>)
        requires
            old(self).wf(),
        ensures
            r.is_some() <==> old(self).has_planet(id),
            r is None ==> *final(self) == *old(self),
            r matches Some(p) ==> *p == old(self).planet_of(id),
            r matches Some(p) ==> final(self).planets() == old(self).planets().update(
                old(self).pos_of(id),
                *final(p),
            ),
            r matches Some(p) ==> final(self).next_planet_id() == old(self).next_planet_id()
                && final(self).factions() == old(self).factions()
                && final(self).next_faction_id() == old(self).next_faction_id(),
            r matches Some(p) ==> (final(p).id == id ==> final(self).wf()),
    {
        match self.position_of(id) {
            Some(i) => {
                proof {
                    assert forall|x: Planet<O>| x.id == id implies planet_ids(
                        self.planets@.update(i as int, x),
                    ) == planet_ids(self.planets@) by {
                        assert(planet_ids(self.planets@.update(i as int, x)) =~= planet_ids(
                            self.planets@,
                        ));
                    }
                }
                Some(&mut self.planets[i])
            },
            None => None,
        }
    }

    /// All planets, in order.
    pub fn get_all_planets(&self) -> (r: &[Planet<O>])
        ensures
            r@ == self.planets(),
    {
        self.planets.as_slice()
    }

    /// Number of planets.
    pub fn planet_count(&self) -> (r: usize)
        ensures
            r == self.planets().len(),
    {
        self.planets.len()
    }

    /// Replaces the stores (and capacities) of planet `id`. Fails with `InvalidTarget` when
    /// there is no such planet.
    pub fn update_planet_resources(&mut self, id: PlanetId, resources: ResourceStorage) -> (r:
        GameResult<()>)
        requires
            old(self).wf(),
        ensures
            final(self).wf(),
            final(self).next_planet_id() == old(self).next_planet_id(),
            final(self).factions() == old(self).factions(),
            final(self).next_faction_id() == old(self).next_faction_id(),
            r.is_ok() <==> old(self).has_planet(id),
            r matches Err(e) ==> e matches GameError::InvalidTarget(m) && m@ == planet_not_found(id),
            r.is_err() ==> final(self).planets() == old(self).planets(),
            r.is_ok() ==> final(self).planets() == old(self).planets().update(
                old(self).pos_of(id),
                Planet { resources, ..old(self).planet_of(id) },
            ),
    {
        let i = match self.position_of(id) {
            Some(i) => i,
            None => return Err(Self::not_found(id)),
        };
        self.planets[i].resources = resources;
        proof {
            Self::lemma_same_ids(old(self).planets@, self.planets@, i as int);
            assert(self.planets@ =~= old(self).planets@.update(
                i as int,
                Planet { resources, ..old(self).planets@[i as int] },
            ));
        }
        Ok(())
    }

    /// Replaces the population of planet `id`. Fails with `InvalidTarget` when there is no
    /// such planet.
    pub fn update_planet_population(&mut self, id: PlanetId, population: Demographics) -> (r:
        GameResult<()>)
        requires
            old(self).wf(),
        ensures
            final(self).wf(),
            final(self).next_planet_id() == old(self).next_planet_id(),
            final(self).factions() == old(self).factions(),
            final(self).next_faction_id() == old(self).next_faction_id(),
            r.is_ok() <==> old(self).has_planet(id),
            r matches Err(e) ==> e matches GameError::InvalidTarget(m) && m@ == planet_not_found(id),
            r.is_err() ==> final(self).planets() == old(self).planets(),
            r.is_ok() ==> final(self).planets() == old(self).planets().update(
                old(self).pos_of(id),
                Planet { population, ..old(self).planet_of(id) },
            ),
    {
        let i = match self.position_of(id) {
            Some(i) => i,
            None => return Err(Self::not_found(id)),
        };
        self.planets[i].population = population;
        proof {
            Self::lemma_same_ids(old(self).planets@, self.planets@, i as int);
            assert(self.planets@ =~= old(self).planets@.update(
                i as int,
                Planet { population, ..old(self).planets@[i as int] },
            ));
        }
        Ok(())
    }

    /// Adds `building` to planet `id` when a slot is free (10 plus one per 10000
    /// inhabitants). Fails with `InvalidTarget` when there is no such planet and with
    /// `InvalidOperation` when all slots are taken.
    pub fn add_building(&mut self, id: PlanetId, building: Building) -> (r: GameResult<()>)
        requires
            old(self).wf(),
        ensures
            final(self).wf(),
            final(self).next_planet_id() == old(self).next_planet_id(),
            final(self).factions() == old(self).factions(),
            final(self).next_faction_id() == old(self).next_faction_id(),
            r.is_ok() <==> old(self).has_planet(id) && old(self).planet_of(id).developments@.len()
                < slot_count(old(self).planet_of(id).population.total),
            !old(self).has_planet(id) ==> (r matches Err(GameError::InvalidTarget(m)) && m@
                == planet_not_found(id)),
            old(self).has_planet(id) && r.is_err() ==> (r matches Err(GameError::InvalidOperation(m))
                && m@ == "Planet "@ + decimal(id as nat) + " has no available building slots"@),
            r.is_err() ==> final(self).planets() == old(self).planets(),
            r.is_ok() ==> final(self).planets().len() == old(self).planets().len() && forall|j: int|
                #![trigger final(self).planets()[j]]
                0 <= j < old(self).planets().len() ==> final(self).planets()[j] == if j == old(
                    self,
                ).pos_of(id) {
                    Planet {
                        developments: final(self).planets()[j].developments,
                        ..old(self).planet_of(id)
                    }
                } else {
                    old(self).planets()[j]
                },
            r.is_ok() ==> final(self).planets()[old(self).pos_of(id)].developments@ == old(
                self,
            ).planet_of(id).developments@.push(building),
    {
        let i = match self.position_of(id) {
            Some(i) => i,
            None => return Err(Self::not_found(id)),
        };
        let total = self.planets[i].population.total;
        let scaled: usize = #[verifier::truncate] (total as usize);
        let building_slots: usize = 10 + scaled / 10000;
        if self.planets[i].developments.len() >= building_slots {
            let mut m = String::from_str("Planet ");
            crate::text::append_decimal(&mut m, id as u64);
            m.append(" has no available building slots");
            return Err(GameError::InvalidOperation(m));
        }
        self.planets[i].developments.push(building);
        proof {
            Self::lemma_same_ids(old(self).planets@, self.planets@, i as int);
        }
        Ok(())
    }

    /// Replaces all planets with `planets` and renumbers: the next planet gets one more
    /// than the largest id, or 0. Refuses, with `InvalidOperation` and changing nothing,
    /// planets naming a missing faction or with workers that do not add up to their
    /// population; the first such planet in order is the one reported.
    pub fn load_planets(&mut self, planets: Vec<Planet<O>>) -> (r: GameResult<()>)
        requires
            old(self).wf(),
            forall|i: int|
                0 <= i < planets@.len() ==> ((#[trigger] planets@[i]).population.allocation.is_non_negative()
                    ==> fits_i32(planets@[i].population.allocation.sum_spec())),
            (forall|i: int| 0 <= i < planets@.len() ==> planet_loadable(old(self).factions(), #[trigger] planets@[i]))
                ==> forall|i: int| 0 <= i < planets@.len() ==> (#[trigger] planets@[i]).id < u32::MAX,
        ensures
            final(self).wf(),
            final(self).factions() == old(self).factions(),
            final(self).next_faction_id() == old(self).next_faction_id(),
            r.is_ok() <==> forall|i: int|
                0 <= i < planets@.len() ==> planet_loadable(old(self).factions(), #[trigger] planets@[i]),
            r matches Err(e) ==> e is InvalidOperation && *final(self) == *old(self),
            r matches Err(GameError::InvalidOperation(m)) ==> exists|i: int|
                0 <= i < planets@.len() && !planet_loadable(old(self).factions(), #[trigger] planets@[i])
                    && (forall|j: int| 0 <= j < i ==> planet_loadable(old(self).factions(), #[trigger] planets@[j]))
                    && (planets@[i].controller matches Some(f) ==> (!has_faction_id(old(self).factions(), f)
                    ==> m@ == missing_controller(planets@[i].id, f))),
            r.is_ok() ==> final(self).planets() == planets@ && final(self).next_planet_id()
                == next_planet_id_after(planet_ids(planets@)),
    {
        let ghost ps = planets@;
        let mut i: usize = 0;
        while i < planets.len()
            invariant
                i <= ps.len(),
                ps == planets@,
                *self == *old(self),
                self.wf(),
                forall|k: int|
                    0 <= k < ps.len() ==> ((#[trigger] ps[k]).population.allocation.is_non_negative()
                        ==> fits_i32(ps[k].population.allocation.sum_spec())),
                forall|j: int| 0 <= j < i ==> planet_loadable(self.factions(), #[trigger] ps[j]),
            decreases ps.len() - i,
        {
            if let Some(faction_id) = planets[i].controller {
                if self.faction_manager.get_faction(faction_id).is_err() {
                    let mut m = String::from_str("Planet ");
                    crate::text::append_decimal(&mut m, planets[i].id as u64);
                    m.append(" references non-existent faction ");
                    crate::text::append_decimal(&mut m, faction_id as u64);
                    proof {
                        assert(!planet_loadable(self.factions(), ps[i as int]));
                    }
                    return Err(GameError::InvalidOperation(m));
                }
            }
            match planets[i].population.allocation.validate(planets[i].population.total) {
                Ok(()) => {},
                Err(e) => {
                    proof {
                        assert(!planet_loadable(self.factions(), ps[i as int]));
                    }
                    return Err(e);
                },
            }
            i = i + 1;
        }
        self.planets = planets;
        self.planet_index.clear();
        let mut k: usize = 0;
        let mut next: u32 = 0;
        assert(planet_ids(ps).subrange(0, 0) =~= Seq::<u32>::empty());
        while k < self.planets.len()
            invariant
                k <= self.planets@.len(),
                self.planets@ == ps,
                forall|j: int| 0 <= j < ps.len() ==> (#[trigger] ps[j]).id < u32::MAX,
                index_matches(planet_ids(ps).subrange(0, k as int), self.planet_index@),
                next == next_planet_id_after(planet_ids(ps).subrange(0, k as int)),
                self.faction_manager == old(self).faction_manager,
            decreases self.planets@.len() - k,
        {
            let id = self.planets[k].id;
            proof {
                let ids = planet_ids(ps);
                assert(ids[k as int] == id);
                lemma_index_push(ids, self.planet_index@, k as int);
                lemma_max_id_step(ids, k as int);
                lemma_max_id_bounds(ids.subrange(0, k as int));
                if k == 0 {
                    assert(ids.subrange(0, 1).drop_last() =~= Seq::<u32>::empty());
                }
            }
            self.planet_index.insert(id, k);
            if id + 1 > next {
                next = id + 1;
            }
            k = k + 1;
        }
        proof {
            assert(planet_ids(ps).subrange(0, ps.len() as int) =~= planet_ids(ps));
            lemma_max_id_bounds(planet_ids(ps));
        }
        self.next_planet_id = next;
        Ok(())
    }

    /// Adds a faction under the next id; fails with `InvalidOperation` on a blank name or a
    /// name already in use.
    pub fn create_faction(&mut self, name: String, is_player: bool, ai_type: AIPersonality) -> (r:
        GameResult<FactionId>)
        requires
            old(self).wf(),
            trimmed(name@).len() > 0 && !has_faction_name(old(self).factions(), name@) ==> old(
                self,
            ).next_faction_id() < 255,
        ensures
            final(self).wf(),
            final(self).planets() == old(self).planets(),
            final(self).next_planet_id() == old(self).next_planet_id(),
            r.is_ok() <==> (trimmed(name@).len() > 0 && !has_faction_name(
                old(self).factions(),
                name@,
            )),
            r matches Err(e) ==> e is InvalidOperation && *final(self) == *old(self),
            r matches Err(GameError::InvalidOperation(m)) ==> m@ == (if trimmed(name@).len() == 0 {
                "Faction name cannot be empty"@
            } else {
                "Faction with name '"@ + name@ + "' already exists"@
            }),
            r matches Ok(id) ==> {
                &&& id == old(self).next_faction_id()
                &&& final(self).next_faction_id() == old(self).next_faction_id() + 1
                &&& final(self).factions() == old(self).factions().push(
                    Faction { id, name, is_player, ai_type, score: 0 },
                )
            },
    {
        self.faction_manager.create_faction(name, is_player, ai_type)
    }

    /// The faction with id `id`; fails with `InvalidTarget` when there is none.
    pub fn get_faction(&self, id: FactionId) -> (r: GameResult<&Faction>)
        requires
            self.wf(),
        ensures
            r.is_ok() <==> has_faction_id(self.factions(), id),
            r matches Ok(f) ==> f.id == id && self.factions().contains(*f),
            r matches Err(e) ==> e matches GameError::InvalidTarget(m) && m@ == faction_not_found(id),
    {
        self.faction_manager.get_faction(id)
    }

    /// Sets the score of faction `id`. A negative score is refused with `InvalidOperation`
    /// before the faction is looked for; a missing faction gives `InvalidTarget`.
    pub fn update_score(&mut self, id: FactionId, score: i32) -> (r: GameResult<()>)
        requires
            old(self).wf(),
        ensures
            final(self).wf(),
            final(self).planets() == old(self).planets(),
            final(self).next_planet_id() == old(self).next_planet_id(),
            final(self).next_faction_id() == old(self).next_faction_id(),
            r.is_ok() <==> score >= 0 && has_faction_id(old(self).factions(), id),
            score < 0 ==> (r matches Err(GameError::InvalidOperation(m)) && m@
                == "Faction score cannot be negative"@),
            score >= 0 && !has_faction_id(old(self).factions(), id) ==> (r matches Err(
                GameError::InvalidTarget(m),
            ) && m@ == faction_not_found(id)),
            r.is_err() ==> final(self).factions() == old(self).factions(),
            r.is_ok() ==> final(self).factions().len() == old(self).factions().len() && forall|i: int|
                0 <= i < old(self).factions().len() ==> #[trigger] final(self).factions()[i] == (
                if old(self).factions()[i].id == id {
                    Faction { score, ..old(self).factions()[i] }
                } else {
                    old(self).factions()[i]
                }),
    {
        if score < 0 {
            return Err(GameError::InvalidOperation("Faction score cannot be negative".to_string()));
        }
        self.faction_manager.update_score(id, score)
    }

    /// Adds `points` to the score of faction `id`, saturating at the bounds of `i32`;
    /// fails with `InvalidTarget` when there is no such faction.
    pub fn add_score(&mut self, id: FactionId, points: i32) -> (r: GameResult<()>)
        requires
            old(self).wf(),
        ensures
            final(self).wf(),
            final(self).planets() == old(self).planets(),
            final(self).next_planet_id() == old(self).next_planet_id(),
            final(self).next_faction_id() == old(self).next_faction_id(),
            r.is_ok() <==> has_faction_id(old(self).factions(), id),
            r matches Err(e) ==> e matches GameError::InvalidTarget(m) && m@ == faction_not_found(id),
            r.is_err() ==> final(self).factions() == old(self).factions(),
            r.is_ok() ==> final(self).factions().len() == old(self).factions().len() && forall|i: int|
                0 <= i < old(self).factions().len() ==> #[trigger] final(self).factions()[i] == (
                if old(self).factions()[i].id == id {
                    Faction {
                        score: saturate_i32(old(self).factions()[i].score + points) as i32,
                        ..old(self).factions()[i]
                    }
                } else {
                    old(self).factions()[i]
                }),
    {
        self.faction_manager.add_score(id, points)
    }

    /// All factions, in order.
    pub fn get_all_factions(&self) -> (r: &[Faction])
        ensures
            r@ == self.factions(),
    {
        self.faction_manager.get_all_factions()
    }

    /// Number of factions.
    pub fn faction_count(&self) -> (r: usize)
        ensures
            r == self.factions().len(),
    {
        self.faction_manager.count()
    }

    /// The first faction named `name`, if any.
    pub fn find_faction_by_name(&self, name: &str) -> (r: Option<&Faction>)
        ensures
            r.is_some() <==> has_faction_name(self.factions(), name@),
            r matches Some(f) ==> exists|i: int|
                0 <= i < self.factions().len() && self.factions()[i] == *f && f.name@ == name@
                    && forall|j: int| 0 <= j < i ==> (#[trigger] self.factions()[j]).name@ != name@,
    {
        let r = self.faction_manager.find_by_name(name);
        proof {
            if let Some(f) = r {
                let fs = self.faction_manager.factions();
                let i = choose|i: int|
                    0 <= i < fs.len() && fs[i] == *f && f.name@ == name@ && forall|j: int|
                        0 <= j < i ==> (#[trigger] fs[j]).name@ != name@;
                assert(0 <= i < self.factions().len() && self.factions()[i] == *f);
            }
        }
        r
    }

    /// The first faction played by the player, if any.
    pub fn get_player_faction(&self) -> (r: Option<&Faction>)
        ensures
            r.is_some() <==> exists|i: int|
                0 <= i < self.factions().len() && (#[trigger] self.factions()[i]).is_player,
            r matches Some(f) ==> exists|i: int|
                0 <= i < self.factions().len() && self.factions()[i] == *f && f.is_player && forall|
                    j: int,
                | 0 <= j < i ==> !(#[trigger] self.factions()[j]).is_player,
    {
        self.faction_manager.get_player_faction()
    }

    /// Replaces all factions with `factions`, as `FactionManager::load_factions` does.
    pub fn load_factions(&mut self, factions: Vec<Faction>) -> (r: GameResult<()>)
        requires
            old(self).wf(),
            loadable_factions(factions@) ==> forall|i: int|
                0 <= i < factions@.len() ==> (#[trigger] factions@[i]).id < 255,
        ensures
            final(self).wf(),
            final(self).planets() == old(self).planets(),
            final(self).next_planet_id() == old(self).next_planet_id(),
            r.is_ok() <==> loadable_factions(factions@),
            r matches Err(e) ==> e is InvalidOperation && *final(self) == *old(self),
            r matches Err(GameError::InvalidOperation(m)) ==> load_refusal(factions@, m@),
            r.is_ok() ==> final(self).factions() == factions@ && final(self).next_faction_id()
                == next_faction_id_after(factions@),
    {
        self.faction_manager.load_factions(factions)
    }

    /// Checks that the entities an event names exist: an updated planet or faction, the
    /// winner of a finished game, a conquered planet and its new owner. Changes nothing.
    pub fn handle_event<V, F>(&mut self, event: &GameEvent<V, F>) -> (r: GameResult<()>)
        requires
            old(self).wf(),
        ensures
            *final(self) == *old(self),
            match *event {
                GameEvent::StateChanged(StateChange::PlanetUpdated(p)) => {
                    &&& r.is_ok() <==> old(self).has_planet(p)
                    &&& r matches Err(e) ==> e matches GameError::InvalidTarget(m) && m@ == planet_not_found(p)
                },
                GameEvent::StateChanged(StateChange::FactionUpdated(f))
                | GameEvent::StateChanged(StateChange::GameOver(f)) => {
                    &&& r.is_ok() <==> has_faction_id(old(self).factions(), f)
                    &&& r matches Err(e) ==> e matches GameError::InvalidTarget(m) && m@ == faction_not_found(f)
                },
                GameEvent::SimulationEvent(SimulationEvent::PlanetConquered { planet, new_owner }) => {
                    &&& r.is_ok() <==> old(self).has_planet(planet) && has_faction_id(old(self).factions(), new_owner)
                    &&& !old(self).has_planet(planet) ==> (r matches Err(GameError::InvalidTarget(m)) && m@
                        == planet_not_found(planet))
                    &&& old(self).has_planet(planet) && r.is_err() ==> (r matches Err(
                        GameError::InvalidTarget(m),
                    ) && m@ == faction_not_found(new_owner))
                },
                _ => r is Ok,
            },
    {
        match event {
            GameEvent::StateChanged(StateChange::PlanetUpdated(planet_id)) => {
                match self.position_of(*planet_id) {
                    Some(_) => Ok(()),
                    None => Err(Self::not_found(*planet_id)),
                }
            },
            GameEvent::StateChanged(StateChange::FactionUpdated(faction_id)) => {
                match self.faction_manager.get_faction(*faction_id) {
                    Ok(_) => Ok(()),
                    Err(e) => Err(e),
                }
            },
            GameEvent::StateChanged(StateChange::GameOver(winner_id)) => {
                match self.faction_manager.get_faction(*winner_id) {
                    Ok(_) => Ok(()),
                    Err(e) => Err(e),
                }
            },
            GameEvent::SimulationEvent(SimulationEvent::PlanetConquered { planet, new_owner }) => {
                match self.position_of(*planet) {
                    Some(_) => {},
                    None => return Err(Self::not_found(*planet)),
                }
                match self.faction_manager.get_faction(*new_owner) {
                    Ok(_) => Ok(()),
                    Err(e) => Err(e),
                }
            },
            _ => Ok(()),
        }
    }
}

impl<O> Default for EntityManager<O> {
    fn default() -> (r: Self)
        ensures
            r.wf(),
            r.planets() == Seq::<Planet<O>>::empty(),
            r.factions() == Seq::<Faction>::empty(),
            r.next_planet_id() == 0,
            r.next_faction_id() == 0,
    {
        EntityManager::new()
    }
}

} // verus!
