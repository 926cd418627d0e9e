//! Properties that hold across several operations of the library.
use vstd::prelude::*;
use crate::asset_registry::{AssetEntry, AssetRegistry, AssignmentLocation};
use crate::asset_types::AssetId;
use crate::construction::{ConstructionSystem, new_building_order, new_ship_order, queue_of, queued_after};
use crate::events::{EventType, GameEvent, PlayerCommand, SimulationEvent, StateChange, SystemId, listened_by, listeners, recent_after, recent_after_all, subscribed_after};
use crate::faction_manager::{faction_ids_distinct, loadable_factions, FactionManager};
use crate::planet_manager::PlanetManager;
use crate::save_system::{loaded_from, saved_from, SaveData};
use crate::ship_manager::ShipManager;
use crate::time_manager::{TickClock, MAX_SAFE_TICK};
use crate::id_index::{contains_id, is_last_position, last_position};
use crate::list_menus::{listed_ship_ids, ship_list_order};
use crate::resource_system::{amount_of, effective_amount, effective_production, room_fits};
use crate::ship_manager::{destroy_one, ship_ids};
use crate::game_initializer::starting_ships;
use crate::id_index::lemma_last_position_exists;
use crate::population_system::growth_events;
use crate::resource_system::{building_output, planet_output, production_rate};
use crate::types::{
    Building, BuildingType, Faction, Planet, PlanetId, ResourceBundle, ResourceType, Ship, ShipClass, ShipId,
    WorkerAllocation,
};

verus! {

/// Paying a cost and then receiving it back gives the stores one started with: after a
/// successful `subtract(cost)`, `add(cost)` restores the bundle.
pub proof fn law_subtract_then_add_restores(b: ResourceBundle, cost: ResourceBundle)
    requires
        b.covers(cost),
        b.minus_fits(cost),
    ensures
        b.minus(cost).saturating_plus(cost) == b,
{
}

/// Resources never go negative by paying: a successful `subtract` leaves every amount at
/// zero or more.
pub proof fn law_subtract_keeps_non_negative(b: ResourceBundle, cost: ResourceBundle)
    requires
        b.covers(cost),
        b.minus_fits(cost),
    ensures
        b.minus(cost).is_non_negative(),
{
}

/// Adding resources to non-negative stores and removing them again succeeds and gives the
/// stores one started with: `add_resources` is undone by `remove_resources`.
pub proof fn law_add_then_remove_restores(b: ResourceBundle, r: ResourceBundle)
    requires
        b.is_non_negative(),
        b.plus_fits(r),
    ensures
        b.plus(r).covers(r),
        b.plus(r).minus_fits(r),
        b.plus(r).minus(r) == b,
{
}

/// Production never fills a store beyond its capacity: a positive yield arrives capped by
/// the room left, and a consumption arrives in full.
pub proof fn law_production_within_capacity(
    current: ResourceBundle,
    capacity: ResourceBundle,
    production: ResourceBundle,
    t: ResourceType,
)
    requires
        room_fits(current, capacity, production),
        amount_of(current, t) <= amount_of(capacity, t),
    ensures
        amount_of(production, t) > 0 ==> amount_of(current, t) + amount_of(
            effective_production(current, capacity, production),
            t,
        ) <= amount_of(capacity, t),
        amount_of(production, t) > 0 ==> amount_of(
            effective_production(current, capacity, production),
            t,
        ) >= 0,
        amount_of(production, t) <= 0 ==> amount_of(
            effective_production(current, capacity, production),
            t,
        ) == amount_of(production, t),
{
    assert(amount_of(production, t) > 0 ==> fits_room(current, capacity, production, t));
}

spec fn fits_room(c: ResourceBundle, cap: ResourceBundle, p: ResourceBundle, t: ResourceType) -> bool {
    crate::types::fits_i32(amount_of(cap, t) - amount_of(c, t))
}

/// A transfer capped by the room at the destination moves no more than was asked and fits
/// in that room.
pub proof fn law_capped_transfer_fits(requested: ResourceBundle, space: ResourceBundle)
    ensures
        space.covers(requested.min_with(space)),
        requested.covers(requested.min_with(space)),
{
}

/// A new faction gets an id above every existing one, so afterwards it is the only
/// faction with its id: a lookup by that id finds exactly it.
pub proof fn law_created_faction_is_found(fs: Seq<Faction>, f: Faction)
    requires
        faction_ids_distinct(fs),
        forall|i: int| 0 <= i < fs.len() ==> (#[trigger] fs[i]).id < f.id,
    ensures
        faction_ids_distinct(fs.push(f)),
        forall|i: int| 0 <= i < fs.len() + 1 && (#[trigger] fs.push(f)[i]).id == f.id ==> i == fs.len(),
{
    let s = fs.push(f);
    assert forall|i: int| 0 <= i < s.len() && (#[trigger] s[i]).id == f.id implies i == fs.len() by {
        if i < fs.len() {
            assert(s[i] == fs[i]);
        }
    }
    assert forall|i: int, j: int| 0 <= i < j < s.len() implies #[trigger] s[i].id != #[trigger] s[j].id by {
        if j < fs.len() {
            assert(s[i] == fs[i] && s[j] == fs[j]);
        } else {
            assert(s[i] == fs[i]);
        }
    }
}

/// Cancelling the order just queued for a planet takes that order back and leaves every
/// planet's queue as it was before the request.
pub proof fn law_cancel_undoes_request<T>(
    before: Map<PlanetId, Vec<T>>,
    queued: Map<PlanetId, Vec<T>>,
    after: Map<PlanetId, Vec<T>>,
    planet: PlanetId,
    o: T,
)
    requires
        queued_after(before, queued, planet, o),
        after.dom() == queued.dom(),
        after[planet]@ == queued[planet]@.remove(queued[planet]@.len() - 1),
        forall|k: PlanetId| k != planet && #[trigger] queued.contains_key(k) ==> after[k] == queued[k],
    ensures
        queued[planet]@[queued[planet]@.len() - 1] == o,
        forall|k: PlanetId| #[trigger] queue_of(after, k) == queue_of(before, k),
{
    assert forall|k: PlanetId| #[trigger] queue_of(after, k) == queue_of(before, k) by {
        if k == planet {
            assert(after[planet]@ =~= queue_of(before, planet));
        } else if before.contains_key(k) {
            assert(queued.contains_key(k));
        }
    }
}

/// The bus remembers exactly the most recent events: starting within its limit, after any
/// further events it holds the last `limit` of all events seen (all of them if fewer).
pub proof fn law_history_keeps_latest<V, F>(
    h: Seq<GameEvent<V, F>>,
    es: Seq<GameEvent<V, F>>,
    limit: int,
)
    requires
        0 <= h.len() <= limit,
    ensures
        recent_after_all(h, es, limit) == if (h + es).len() <= limit {
            h + es
        } else {
            (h + es).subrange((h + es).len() - limit, (h + es).len() as int)
        },
    decreases es.len(),
{
    if es.len() == 0 {
        assert(h + es =~= h);
    } else {
        let init = es.drop_last();
        law_history_keeps_latest(h, init, limit);
        let all0 = h + init;
        let all = h + es;
        assert(all =~= all0.push(es.last()));
        let prev = recent_after_all(h, init, limit);
        if all0.len() <= limit {
            if all.len() <= limit {
                assert(recent_after(prev, es.last(), limit) =~= all);
            } else {
                assert(recent_after(prev, es.last(), limit) =~= all.subrange(all.len() - limit, all.len() as int));
            }
        } else {
            assert(prev.len() == limit);
            assert(recent_after(prev, es.last(), limit) =~= all.subrange(all.len() - limit, all.len() as int));
        }
    }
}

/// Destroying a ship when ids are distinct leaves no ship with that id.
pub proof fn law_destroyed_ship_is_gone<M>(s: Seq<Ship<M>>, id: ShipId)
    requires
        forall|i: int, j: int| 0 <= i < j < s.len() ==> #[trigger] s[i].id != #[trigger] s[j].id,
    ensures
        !contains_id(ship_ids(destroy_one(s, id)), id),
{
    let ids = ship_ids(s);
    if contains_id(ids, id) {
        let k = choose|i: int| 0 <= i < ids.len() && ids[i] == id;
        assert(is_last_position(ids, id, k)) by {
            assert forall|j: int| k < j < ids.len() implies ids[j] != id by {
                assert(s[k].id != s[j].id);
            }
        }
        let p = last_position(ids, id);
        crate::id_index::lemma_last_position_unique(ids, id, p, k);
        let rest = destroy_one(s, id);
        assert forall|i: int| 0 <= i < ship_ids(rest).len() implies ship_ids(rest)[i] != id by {
            if i < p {
                assert(rest[i] == s[i]);
                assert(s[i].id != s[p].id);
            } else {
                assert(rest[i] == s[i + 1]);
                assert(s[p].id != s[i + 1].id);
            }
        }
    }
}

/// After `system` subscribes to `kind`, it listens to `kind` in addition to what it listened
/// to, every other system listens to what it did, and no system is listed twice.
pub proof fn law_subscribe_adds_listener(
    subs: Seq<(SystemId, Seq<EventType>)>,
    system: SystemId,
    kind: EventType,
    other: SystemId,
)
    requires
        forall|i: int, j: int| 0 <= i < j < subs.len() ==> (#[trigger] subs[i]).0 != (#[trigger] subs[j]).0,
    ensures
        listened_by(subscribed_after(subs, system, kind), system) == listened_by(subs, system).push(kind),
        other != system ==> listened_by(subscribed_after(subs, system, kind), other) == listened_by(
            subs,
            other,
        ),
        forall|i: int, j: int|
            0 <= i < j < subscribed_after(subs, system, kind).len() ==> (#[trigger] subscribed_after(
                subs,
                system,
                kind,
            )[i]).0 != (#[trigger] subscribed_after(subs, system, kind)[j]).0,
{
    let after = subscribed_after(subs, system, kind);
    if exists|i: int| 0 <= i < subs.len() && (#[trigger] subs[i]).0 == system {
        let i = choose|i: int| 0 <= i < subs.len() && (#[trigger] subs[i]).0 == system;
        assert(after[i].0 == system);
        let c = choose|k: int| 0 <= k < after.len() && (#[trigger] after[k]).0 == system;
        assert(c == i) by {
            if c != i {
                assert(subs[c].0 == system);
            }
        }
        if exists|k: int| 0 <= k < subs.len() && (#[trigger] subs[k]).0 == other {
            let o = choose|k: int| 0 <= k < subs.len() && (#[trigger] subs[k]).0 == other;
            if other != system {
                assert(after[o].0 == other);
                let d = choose|k: int| 0 <= k < after.len() && (#[trigger] after[k]).0 == other;
                assert(d == o) by {
                    if d != o {
                        if d == i {
                        } else {
                            assert(subs[d].0 == other);
                        }
                    }
                }
            }
        } else if other != system {
            assert(!exists|k: int| 0 <= k < after.len() && (#[trigger] after[k]).0 == other) by {
                assert forall|k: int| 0 <= k < after.len() implies (#[trigger] after[k]).0 != other by {
                    if k != i {
                        assert(after[k] == subs[k]);
                    }
                }
            }
        }
    } else {
        let n = subs.len() as int;
        assert(after[n].0 == system);
        let c = choose|k: int| 0 <= k < after.len() && (#[trigger] after[k]).0 == system;
        assert(c == n) by {
            if c < n {
                assert(after[c] == subs[c]);
            }
        }
        assert(listened_by(subs, system) == Seq::<EventType>::empty());
        assert(seq![kind] =~= Seq::<EventType>::empty().push(kind));
        if other != system {
            if exists|k: int| 0 <= k < subs.len() && (#[trigger] subs[k]).0 == other {
                let o = choose|k: int| 0 <= k < subs.len() && (#[trigger] subs[k]).0 == other;
                assert(after[o] == subs[o]);
                let d = choose|k: int| 0 <= k < after.len() && (#[trigger] after[k]).0 == other;
                assert(d == o) by {
                    if d != o && d < n {
                        assert(after[d] == subs[d]);
                    }
                }
            } else {
                assert(!exists|k: int| 0 <= k < after.len() && (#[trigger] after[k]).0 == other) by {
                    assert forall|k: int| 0 <= k < after.len() implies (#[trigger] after[k]).0 != other by {
                        if k < n {
                            assert(after[k] == subs[k]);
                        }
                    }
                }
            }
        }
    }
}

/// Every system handed an event listens to its kind.
pub proof fn law_notified_systems_listen(
    systems: Seq<SystemId>,
    subs: Seq<(SystemId, Seq<EventType>)>,
    kind: EventType,
    skip: Seq<SystemId>,
)
    ensures
        forall|i: int|
            0 <= i < listeners(systems, subs, kind, skip).len() ==> listened_by(
                subs,
                #[trigger] listeners(systems, subs, kind, skip)[i],
            ).contains(kind) && !skip.contains(listeners(systems, subs, kind, skip)[i]),
    decreases systems.len(),
{
    if systems.len() > 0 {
        law_notified_systems_listen(systems.drop_last(), subs, kind, skip);
        let prev = listeners(systems.drop_last(), subs, kind, skip);
        let all = listeners(systems, subs, kind, skip);
        assert forall|i: int| 0 <= i < all.len() implies listened_by(subs, #[trigger] all[i]).contains(kind)
            && !skip.contains(all[i]) by {
            if i < prev.len() {
                assert(all[i] == prev[i]);
            }
        }
    }
}

/// Saving and loading preserve a game: a save of a game is accepted by `apply_save_data`
/// exactly when the game's tick is below `MAX_SAFE_TICK` and its factions could be loaded,
/// and the game it loads into then has the saved game's tick, the same planets, and its
/// ships and factions.
pub proof fn law_load_restores_saved_game<O, M>(
    data: SaveData<O, M>,
    clock: TickClock,
    planets: PlanetManager<O>,
    ships: ShipManager<M>,
    factions: FactionManager,
    loaded_clock: TickClock,
    loaded_planets: PlanetManager<O>,
    loaded_ships: ShipManager<M>,
    loaded_factions: FactionManager,
)
    requires
        saved_from(data, clock, planets, ships, factions),
    ensures
        (data.tick < MAX_SAFE_TICK && loadable_factions(data.factions@)) <==> (clock.tick() < MAX_SAFE_TICK
            && loadable_factions(factions.factions())),
        loaded_from(data, loaded_clock, loaded_planets, loaded_ships, loaded_factions) ==> {
            &&& loaded_clock.tick() == clock.tick()
            &&& loaded_planets.planets().len() == planets.planets().len()
            &&& forall|i: int| 0 <= i < loaded_planets.planets().len() ==> (#[trigger] loaded_planets.planets()[i]).same_as(planets.planets()[i])
            &&& loaded_ships.ships() == ships.ships()
            &&& loaded_factions.factions() == factions.factions()
        },
{
}

/// Grouping the ship list by class only reorders it: the grouped list holds the same
/// ships, each as often, as the list in order.
pub proof fn law_grouping_keeps_the_ships<M>(ships: Seq<Ship<M>>, owned_only: bool)
    ensures
        ship_list_order(ships, owned_only, true).to_multiset() == ship_list_order(ships, owned_only, false).to_multiset(),
    decreases ships.len(),
{
    broadcast use vstd::seq_lib::group_to_multiset_ensures;
    broadcast use vstd::seq_lib::lemma_multiset_commutative;
    broadcast use vstd::multiset::group_multiset_axioms;

    let sc = listed_ship_ids(ships, owned_only, Some(ShipClass::Scout));
    let tr = listed_ship_ids(ships, owned_only, Some(ShipClass::Transport));
    let wa = listed_ship_ids(ships, owned_only, Some(ShipClass::Warship));
    let co = listed_ship_ids(ships, owned_only, Some(ShipClass::Colony));
    let all = listed_ship_ids(ships, owned_only, None);
    assert((sc + tr + wa + co).to_multiset() =~= sc.to_multiset().add(tr.to_multiset()).add(
        wa.to_multiset(),
    ).add(co.to_multiset()));
    if ships.len() > 0 {
        let rest = ships.drop_last();
        law_grouping_keeps_the_ships(rest, owned_only);
        let sc0 = listed_ship_ids(rest, owned_only, Some(ShipClass::Scout));
        let tr0 = listed_ship_ids(rest, owned_only, Some(ShipClass::Transport));
        let wa0 = listed_ship_ids(rest, owned_only, Some(ShipClass::Warship));
        let co0 = listed_ship_ids(rest, owned_only, Some(ShipClass::Colony));
        let all0 = listed_ship_ids(rest, owned_only, None);
        assert((sc0 + tr0 + wa0 + co0).to_multiset() =~= sc0.to_multiset().add(tr0.to_multiset()).add(
            wa0.to_multiset(),
        ).add(co0.to_multiset()));
        assert(all.to_multiset() =~= sc.to_multiset().add(tr.to_multiset()).add(wa.to_multiset()).add(
            co.to_multiset(),
        ));
    } else {
        assert(all.to_multiset() =~= sc.to_multiset().add(tr.to_multiset()).add(wa.to_multiset()).add(
            co.to_multiset(),
        ));
    }
}

/// An identifier is registered once: after an asset is registered, its identifier counts as
/// taken, so registering another asset under it is refused.
pub proof fn law_registered_id_is_taken<A>(
    before: AssetRegistry<A>,
    after: AssetRegistry<A>,
    asset: AssetEntry<A>,
)
    requires
        after.entries() == before.entries().push(asset),
    ensures
        after.has_asset(asset.asset_id),
        forall|id: AssetId| before.has_asset(id) ==> after.has_asset(id),
{
    assert(after.entries()[before.entries().len() as int] == asset);
    assert forall|id: AssetId| before.has_asset(id) implies after.has_asset(id) by {
        let k = choose|k: int| 0 <= k < before.entries().len() && (#[trigger] before.entries()[k]).asset_id == id;
        assert(after.entries()[k] == before.entries()[k]);
    }
}

/// Assignments accumulate: after an assignment the asset is listed at its new place, and
/// every asset stays listed wherever it was listed before.
pub proof fn law_assignment_is_kept<A>(
    before: AssetRegistry<A>,
    after: AssetRegistry<A>,
    id: AssetId,
    location: AssignmentLocation,
)
    requires
        after.assignments() == before.assignments().push((location, id)),
    ensures
        after.assigned_to(id, location),
        forall|x: AssetId, place: AssignmentLocation| before.assigned_to(x, place) ==> after.assigned_to(x, place),
{
    assert(after.assignments()[before.assignments().len() as int] == (location, id));
    assert forall|x: AssetId, place: AssignmentLocation| before.assigned_to(x, place) implies after.assigned_to(x, place) by {
        let k = choose|k: int| 0 <= k < before.assignments().len() && #[trigger] before.assignments()[k] == (place, x);
        assert(after.assignments()[k] == before.assignments()[k]);
    }
}

/// Construction orders stay valid over any run of operations: `new` gives a system
/// whose orders are valid, each operation keeps them valid (as its contract states), so
/// every system along a run from `new` has valid orders and passes `validate`.
pub proof fn law_construction_run_stays_valid(run: Seq<ConstructionSystem>)
    requires
        run.len() > 0,
        run[0].orders_valid(),
        forall|i: int| 0 <= i < run.len() - 1 && #[trigger] run[i].orders_valid() ==> run[i + 1].orders_valid(),
    ensures
        forall|i: int| 0 <= i < run.len() ==> #[trigger] run[i].orders_valid(),
{
    assert forall|i: int| 0 <= i < run.len() implies #[trigger] run[i].orders_valid() by {
        lemma_run_prefix_valid(run, i);
    }
}

proof fn lemma_run_prefix_valid(run: Seq<ConstructionSystem>, i: int)
    requires
        0 <= i < run.len(),
        run[0].orders_valid(),
        forall|k: int| 0 <= k < run.len() - 1 && #[trigger] run[k].orders_valid() ==> run[k + 1].orders_valid(),
    ensures
        run[i].orders_valid(),
    decreases i,
{
    if i > 0 {
        lemma_run_prefix_valid(run, i - 1);
    }
}

/// A new game gives the player a scout and every other faction a warship: each starting
/// ship owned by faction 0 is a scout, each owned by another faction a warship.
pub proof fn law_starting_ship_classes<O, M>(ps: Seq<Planet<O>>, ms: Seq<M>, next: int)
    ensures
        forall|i: int|
            0 <= i < starting_ships(ps, ms, next).len() ==> (#[trigger] starting_ships(ps, ms, next)[i]).ship_class
                == if starting_ships(ps, ms, next)[i].owner == 0 {
                ShipClass::Scout
            } else {
                ShipClass::Warship
            },
    decreases ps.len(),
{
    if ps.len() > 0 {
        law_starting_ship_classes(ps.drop_last(), ms, next);
    }
}

/// What one more building adds to a planet's production each tick: nothing while it is
/// not operational; otherwise, per tier, a mine 10 minerals for 2 energy, a farm 8 food for
/// 1 energy, a power plant 15 energy, a factory 5 alloys for 5 minerals and 3 energy, a
/// research lab 3 components for 1 food and 2 energy, and any other building nothing.
pub proof fn law_building_adds_its_yield(a: WorkerAllocation, bs: Seq<Building>, b: Building, r: ResourceType)
    ensures
        planet_output(a, bs.push(b), r) == planet_output(a, bs, r) + if b.operational {
            b.tier * match (b.building_type, r) {
                (BuildingType::Mine, ResourceType::Minerals) => 10int,
                (BuildingType::Mine, ResourceType::Energy) => -2int,
                (BuildingType::Farm, ResourceType::Food) => 8int,
                (BuildingType::Farm, ResourceType::Energy) => -1int,
                (BuildingType::PowerPlant, ResourceType::Energy) => 15int,
                (BuildingType::Factory, ResourceType::Minerals) => -5int,
                (BuildingType::Factory, ResourceType::Energy) => -3int,
                (BuildingType::Factory, ResourceType::Alloys) => 5int,
                (BuildingType::ResearchLab, ResourceType::Food) => -1int,
                (BuildingType::ResearchLab, ResourceType::Energy) => -2int,
                (BuildingType::ResearchLab, ResourceType::Components) => 3int,
                _ => 0int,
            }
        } else {
            0int
        },
{
    assert(bs.push(b).drop_last() =~= bs);
    assert(bs.push(b).last() == b);
    let k = match (b.building_type, r) {
        (BuildingType::Mine, ResourceType::Minerals) => 10int,
        (BuildingType::Mine, ResourceType::Energy) => -2int,
        (BuildingType::Farm, ResourceType::Food) => 8int,
        (BuildingType::Farm, ResourceType::Energy) => -1int,
        (BuildingType::PowerPlant, ResourceType::Energy) => 15int,
        (BuildingType::Factory, ResourceType::Minerals) => -5int,
        (BuildingType::Factory, ResourceType::Energy) => -3int,
        (BuildingType::Factory, ResourceType::Alloys) => 5int,
        (BuildingType::ResearchLab, ResourceType::Food) => -1int,
        (BuildingType::ResearchLab, ResourceType::Energy) => -2int,
        (BuildingType::ResearchLab, ResourceType::Components) => 3int,
        _ => 0int,
    };
    let step = match production_rate(b.building_type) {
        Some(rate) => if b.operational {
            amount_of(rate, r) * b.tier
        } else {
            0
        },
        None => 0,
    };
    assert(building_output(bs.push(b), r) == building_output(bs, r) + step);
    assert(planet_output(a, bs.push(b), r) == planet_output(a, bs, r) + step);
    match production_rate(b.building_type) {
        Some(rate) => {
            assert(amount_of(rate, r) == k) by {
                match b.building_type {
                    BuildingType::Mine => {},
                    BuildingType::Farm => {},
                    BuildingType::PowerPlant => {},
                    BuildingType::Factory => {},
                    BuildingType::ResearchLab => {},
                    _ => {},
                }
            }
            let t = b.tier as int;
            assert(k * t == t * k) by (nonlinear_arith);
            assert(step == if b.operational { t * k } else { 0 });
        },
        None => {
            assert(k == 0) by {
                match b.building_type {
                    BuildingType::Mine => {},
                    BuildingType::Farm => {},
                    BuildingType::PowerPlant => {},
                    BuildingType::Factory => {},
                    BuildingType::ResearchLab => {},
                    _ => {},
                }
            }
            let t = b.tier as int;
            assert(t * k == 0) by (nonlinear_arith)
                requires
                    k == 0,
            ;
        },
    }
    assert(step == if b.operational { b.tier * k } else { 0int });
}

/// People with a food surplus of more than a fifth grow by two percent (rounded down,
/// when that is at least one): they eat one food each, grow, and the planet is updated.
pub proof fn law_surplus_grows_two_percent<V, F>(planet: PlanetId, population: i32, food: i32)
    requires
        population > 0,
        5 * (food - population) > population,
        population * 2 / 100 > 0,
    ensures
        growth_events::<V, F>(planet, population, food) == seq![
            GameEvent::<V, F>::PlayerCommand(
                PlayerCommand::TransferResources {
                    from: planet,
                    to: planet,
                    resources: ResourceBundle { minerals: 0, food: population, energy: 0, alloys: 0, components: 0, fuel: 0 },
                },
            ),
            GameEvent::<V, F>::SimulationEvent(
                SimulationEvent::PopulationGrowth { planet, amount: (population * 2 / 100) as i32 },
            ),
            GameEvent::<V, F>::StateChanged(StateChange::PlanetUpdated(planet)),
        ],
{
}

/// Without a surplus of more than a fifth, people who have enough food just eat, and
/// people who have too little food report a shortage: neither grows.
pub proof fn law_no_growth_without_surplus<V, F>(planet: PlanetId, population: i32, food: i32)
    requires
        population > 0,
        5 * (food - population) <= population,
    ensures
        food >= population ==> growth_events::<V, F>(planet, population, food) == seq![
            GameEvent::<V, F>::PlayerCommand(
                PlayerCommand::TransferResources {
                    from: planet,
                    to: planet,
                    resources: ResourceBundle { minerals: 0, food: population, energy: 0, alloys: 0, components: 0, fuel: 0 },
                },
            ),
        ],
        food < population ==> growth_events::<V, F>(planet, population, food) == seq![
            GameEvent::<V, F>::SimulationEvent(
                SimulationEvent::ResourceShortage { planet, resource: ResourceType::Food },
            ),
        ],
{
}

/// Every building order placed at any tick costs and takes what the building type asks:
/// mine 100 minerals, 20 alloys, 10 components and 10 ticks; farm 50/10/5 and 8 ticks;
/// power plant 80/30/15 and 12 ticks; factory 120 minerals, 10 energy, 40 alloys, 25
/// components and 15 ticks; research lab 90/5/25/30 and 14 ticks; spaceport 200/20/80/60
/// and 25 ticks; defense platform 150/15/100/50 and 20 ticks; storage facility 60/15/8 and
/// 6 ticks; habitat 80 minerals, 10 food, 5 energy, 20 alloys, 15 components and 10 ticks.
pub proof fn law_building_order_terms(b: BuildingType, planet: PlanetId, tick: u64)
    ensures
        ({
            let o = new_building_order(b, planet, tick);
            let c = o.cost_paid;
            let (m, f, e, a, k, time) = match b {
                BuildingType::Mine => (100int, 0int, 0int, 20int, 10int, 10int),
                BuildingType::Farm => (50, 0, 0, 10, 5, 8),
                BuildingType::PowerPlant => (80, 0, 0, 30, 15, 12),
                BuildingType::Factory => (120, 0, 10, 40, 25, 15),
                BuildingType::ResearchLab => (90, 0, 5, 25, 30, 14),
                BuildingType::Spaceport => (200, 0, 20, 80, 60, 25),
                BuildingType::DefensePlatform => (150, 0, 15, 100, 50, 20),
                BuildingType::StorageFacility => (60, 0, 0, 15, 8, 6),
                BuildingType::Habitat => (80, 10, 5, 20, 15, 10),
            };
            &&& o.start_tick == tick
            &&& o.planet_id == planet
            &&& o.building_type == b
            &&& tick + time <= u64::MAX ==> o.completion_tick == tick + time
            &&& c.minerals == m && c.food == f && c.energy == e && c.alloys == a && c.components == k
            &&& c.fuel == 0
        }),
{
}

/// Every ship order placed at any tick costs and takes what the class asks: scout 50
/// minerals, 30 alloys, 25 components, 10 fuel and 8 ticks; transport 80/40/35/15 and 12
/// ticks; warship 200 minerals, 5 energy, 120 alloys, 100 components, 30 fuel and 25 ticks;
/// colony ship 150 minerals, 50 food, 10 energy, 60 alloys, 80 components, 25 fuel and 20
/// ticks.
pub proof fn law_ship_order_terms(c: ShipClass, planet: PlanetId, tick: u64)
    ensures
        ({
            let o = new_ship_order(c, planet, tick);
            let p = o.cost_paid;
            let (m, f, e, a, k, u, time) = match c {
                ShipClass::Scout => (50int, 0int, 0int, 30int, 25int, 10int, 8int),
                ShipClass::Transport => (80, 0, 0, 40, 35, 15, 12),
                ShipClass::Warship => (200, 0, 5, 120, 100, 30, 25),
                ShipClass::Colony => (150, 50, 10, 60, 80, 25, 20),
            };
            &&& o.start_tick == tick
            &&& o.planet_id == planet
            &&& o.ship_class == c
            &&& tick + time <= u64::MAX ==> o.completion_tick == tick + time
            &&& p.minerals == m && p.food == f && p.energy == e && p.alloys == a && p.components == k
            &&& p.fuel == u
        }),
{
}

/// A hold counts people as well as resources: loading succeeds only on a transport whose
/// resources, people and the new resources together stay within its capacity, and after
/// a successful load the hold's resources plus its people stay within its capacity.
pub proof fn law_loaded_hold_within_capacity<M>(
    before: ShipManager<M>,
    after: ShipManager<M>,
    ship_id: ShipId,
    resources: ResourceBundle,
    r: crate::types::GameResult<()>,
)
    requires
        before.cargo_loaded(after, ship_id, resources, r),
        before.has_ship(ship_id) ==> before.ship_of(ship_id).cargo.resources.plus_fits(resources),
    ensures
        r.is_ok() <==> before.has_ship(ship_id) && before.ship_of(ship_id).ship_class == ShipClass::Transport && ({
            let c = before.ship_of(ship_id).cargo;
            c.resources.minerals + c.resources.food + c.resources.energy + c.resources.alloys
                + c.resources.components + c.resources.fuel + c.population + resources.minerals + resources.food
                + resources.energy + resources.alloys + resources.components + resources.fuel <= c.capacity
        }),
        r.is_ok() ==> ({
            let c = after.ships()[before.pos_of(ship_id)].cargo;
            c.resources.minerals + c.resources.food + c.resources.energy + c.resources.alloys
                + c.resources.components + c.resources.fuel + c.population <= c.capacity
        }),
{
    if r.is_ok() {
        lemma_last_position_exists(ship_ids(before.ships()), ship_id);
        assert(ship_ids(before.ships()).len() == before.ships().len());
    }
}

} // verus!
