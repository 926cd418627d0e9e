//! Building and ship construction queues, with the cost and build time of each kind.
use vstd::prelude::*;
use std::collections::HashMap;
use crate::events::{
    EventBus, GameEvent, PlayerCommand, SimulationEvent, same_events, recent_after_all,
    lemma_recent_after_all_same, lemma_recent_after_all_append, lemma_same_events_trans,
};
use crate::types::{BuildingType, GameError, GameResult, PlanetId, ResourceBundle, ShipClass};

verus! {

broadcast use vstd::std_specs::hash::group_hash_axioms;

/// A building construction order in a queue.
#[derive(Debug, Clone, Copy, PartialEq, Eq, Structural)]
pub struct ConstructionOrder {
    pub building_type: BuildingType,
    pub planet_id: PlanetId,
    pub start_tick: u64,
    pub completion_tick: u64,
    pub cost_paid: ResourceBundle,
}

/// A ship construction order in a queue.
#[derive(Debug, Clone, Copy, PartialEq, Eq, Structural)]
pub struct ShipOrder {
    pub ship_class: ShipClass,
    pub planet_id: PlanetId,
    pub start_tick: u64,
    pub completion_tick: u64,
    pub cost_paid: ResourceBundle,
}

/// An order that completes at a tick.
pub trait QueuedOrder: Copy {
    /// Tick at which the order completes.
    spec fn due_tick(&self) -> u64;

    /// Tick at which the order started.
    spec fn started_tick(&self) -> u64;

    /// What was paid for the order.
    spec fn paid(&self) -> ResourceBundle;

    /// Tick at which the order completes.
    fn completion_tick_of(&self) -> (r: u64)
        ensures
            r == self.due_tick(),
    ;

    /// Tick at which the order started.
    fn start_tick_of(&self) -> (r: u64)
        ensures
            r == self.started_tick(),
    ;

    /// What was paid for the order.
    fn cost_paid_of(&self) -> (r: ResourceBundle)
        ensures
            r == self.paid(),
    ;
}

impl QueuedOrder for ConstructionOrder {
    open spec fn due_tick(&self) -> u64 {
        self.completion_tick
    }

    open spec fn started_tick(&self) -> u64 {
        self.start_tick
    }

    open spec fn paid(&self) -> ResourceBundle {
        self.cost_paid
    }

    fn completion_tick_of(&self) -> (r: u64) {
        self.completion_tick
    }

    fn start_tick_of(&self) -> (r: u64) {
        self.start_tick
    }

    fn cost_paid_of(&self) -> (r: ResourceBundle) {
        self.cost_paid
    }
}

impl QueuedOrder for ShipOrder {
    open spec fn due_tick(&self) -> u64 {
        self.completion_tick
    }

    open spec fn started_tick(&self) -> u64 {
        self.start_tick
    }

    open spec fn paid(&self) -> ResourceBundle {
        self.cost_paid
    }

    fn completion_tick_of(&self) -> (r: u64) {
        self.completion_tick
    }

    fn start_tick_of(&self) -> (r: u64) {
        self.start_tick
    }

    fn cost_paid_of(&self) -> (r: ResourceBundle) {
        self.cost_paid
    }
}

/// The queue of `planet` in `m`, empty when it has none.
pub open spec fn queue_of<T>(m: Map<PlanetId, Vec<T>>, planet: PlanetId) -> Seq<T> {
    if m.contains_key(planet) {
        m[planet]@
    } else {
        Seq::<T>::empty()
    }
}

/// Orders of `q` due at or before `tick`, in queue order.
pub open spec fn due_orders<T: QueuedOrder>(q: Seq<T>, tick: u64) -> Seq<T> {
    q.filter(|o: T| o.due_tick() <= tick)
}

/// Orders of `q` due after `tick`, in queue order.
pub open spec fn pending_orders<T: QueuedOrder>(q: Seq<T>, tick: u64) -> Seq<T> {
    q.filter(|o: T| o.due_tick() > tick)
}

/// The due orders of the planets `ks`, planet after planet, each tagged with its planet.
pub open spec fn due_list<T: QueuedOrder>(
    ks: Seq<PlanetId>,
    m: Map<PlanetId, Vec<T>>,
    tick: u64,
) -> Seq<(PlanetId, T)>
    decreases ks.len(),
{
    if ks.len() == 0 {
        Seq::<(PlanetId, T)>::empty()
    } else {
        due_list(ks.drop_last(), m, tick) + due_orders(queue_of(m, ks.last()), tick).map_values(
            |o: T| (ks.last(), o),
        )
    }
}

/// The event raised when building order `o` on planet `planet` completes.
pub open spec fn building_completed_event<V, F>(planet: PlanetId, o: ConstructionOrder) -> GameEvent<V, F> {
    GameEvent::SimulationEvent(SimulationEvent::ConstructionCompleted { planet, building: o.building_type })
}

/// The event raised when a ship order on planet `planet` completes.
pub open spec fn ship_completed_event<V, F>(planet: PlanetId) -> GameEvent<V, F> {
    GameEvent::SimulationEvent(SimulationEvent::ShipCompleted { planet, ship: 0 })
}

/// An order that started no later than it completes and paid nothing negative.
pub open spec fn order_valid<T: QueuedOrder>(o: T) -> bool {
    o.due_tick() >= o.started_tick() && o.paid().is_non_negative()
}

/// Every order of every queue is valid.
pub open spec fn queues_valid<T: QueuedOrder>(m: Map<PlanetId, Vec<T>>) -> bool {
    forall|k: PlanetId, i: int|
        m.contains_key(k) && 0 <= i < m[k]@.len() ==> order_valid(#[trigger] m[k]@[i])
}

/// Keeping only the orders of each queue that are not yet due keeps every queue valid.
pub proof fn lemma_pending_keeps_valid<T: QueuedOrder>(
    old_m: Map<PlanetId, Vec<T>>,
    new_m: Map<PlanetId, Vec<T>>,
    tick: u64,
)
    requires
        queues_valid(old_m),
        new_m.dom() == old_m.dom(),
        forall|k: PlanetId| #[trigger] old_m.contains_key(k) ==> new_m[k]@ == pending_orders(old_m[k]@, tick),
    ensures
        queues_valid(new_m),
{
    assert forall|k: PlanetId, i: int| new_m.contains_key(k) && 0 <= i < new_m[k]@.len() implies order_valid(
        #[trigger] new_m[k]@[i],
    ) by {
        assert(old_m.contains_key(k));
        let q = old_m[k]@;
        let pred = |o: T| o.due_tick() > tick;
        assert(new_m[k]@ == q.filter(pred));
        assert(q.filter(pred).contains(new_m[k]@[i]));
        q.lemma_filter_contains_rev(pred, new_m[k]@[i]);
        let j = choose|j: int| 0 <= j < q.len() && q[j] == new_m[k]@[i];
        assert(order_valid(old_m[k]@[j]));
    }
}

/// The planets that have a queue, each once.
pub fn queue_keys<V>(m: &HashMap<PlanetId, V>) -> (r: Vec<PlanetId>)
    ensures
        r@.no_duplicates(),
        r@.to_set() == m@.dom(),
{
    let mut r: Vec<PlanetId> = Vec::new();
    for k in it: m.keys()
        invariant
            r@ == it.seq().take(it.index()).unref(),
            it.seq().unref().to_set() == m@.dom(),
            it.seq().unref().no_duplicates(),
            it.index() == it.seq().len() ==> r@.to_set() == m@.dom(),
    {
        r.push(*k);
        assert(r@ =~= it.seq().take(it.index() + 1).unref());
        assert(it.seq().take(it.seq().len() as int) =~= it.seq());
    }
    r
}


/// Checks every order of every queue: an order completing before it started gives
/// `SystemError`, a negative payment gives `InvalidOperation`; which failing order is
/// reported first depends on the order in which the map hands out its planets.
pub fn check_queues<T: QueuedOrder>(queues: &HashMap<PlanetId, Vec<T>>, kind: &str) -> (r:
    GameResult<()>)
    ensures
        r.is_ok() <==> queues_valid(queues@),
        r matches Err(e) ==> (e matches GameError::SystemError(m) && m@ == kind@
            + " order has invalid completion time"@) || (e matches GameError::InvalidOperation(m)
            && m@ == "Resources cannot be negative"@),
{
    let keys = queue_keys(queues);
    let mut i: usize = 0;
    while i < keys.len()
        invariant
            i <= keys@.len(),
            keys@.to_set() == queues@.dom(),
            forall|k: PlanetId, j: int|
                keys@.take(i as int).contains(k) && 0 <= j < queues@[k]@.len() ==> order_valid(
                    #[trigger] queues@[k]@[j],
                ),
        decreases keys@.len() - i,
    {
        let k = keys[i];
        assert(keys@.to_set().contains(k));
        let q = match queues.get(&k) {
            Some(q) => q,
            None => {
                return Ok(());
            },
        };
        let mut j: usize = 0;
        while j < q.len()
            invariant
                j <= q@.len(),
                queues@.contains_key(k),
                q@ == queues@[k]@,
                forall|jj: int| 0 <= jj < j ==> order_valid(#[trigger] q@[jj]),
            decreases q@.len() - j,
        {
            let o = q[j];
            if o.completion_tick_of() < o.start_tick_of() {
                assert(!order_valid(queues@[k]@[j as int]));
                let mut m = String::from_str(kind);
                m.append(" order has invalid completion time");
                return Err(GameError::SystemError(m));
            }
            let paid = o.cost_paid_of();
            match paid.validate_non_negative() {
                Ok(()) => {},
                Err(e) => {
                    assert(!order_valid(queues@[k]@[j as int]));
                    return Err(e);
                },
            }
            j = j + 1;
        }
        proof {
            assert forall|kk: PlanetId, jj: int|
                keys@.take(i + 1).contains(kk) && 0 <= jj < queues@[kk]@.len() implies order_valid(
                #[trigger] queues@[kk]@[jj],
            ) by {
                if kk != k {
                    let ks1 = keys@.take(i + 1);
                    let t = choose|t: int| 0 <= t < ks1.len() && ks1[t] == kk;
                    assert(keys@.take(i as int)[t] == kk);
                }
            }
        }
        i = i + 1;
    }
    proof {
        assert(keys@.take(keys@.len() as int) =~= keys@);
        assert forall|k: PlanetId, j: int|
            queues@.contains_key(k) && 0 <= j < queues@[k]@.len() implies order_valid(
            #[trigger] queues@[k]@[j],
        ) by {
            assert(keys@.to_set().contains(k));
        }
    }
    Ok(())
}

/// Splits `q` into the orders due after `tick` and those due at or before it, keeping
/// queue order in both.
fn split_due<T: QueuedOrder>(q: Vec<T>, tick: u64) -> (r: (Vec<T>, Vec<T>))
    ensures
        r.0@ == pending_orders(q@, tick),
        r.1@ == due_orders(q@, tick),
{
    let mut kept: Vec<T> = Vec::new();
    let mut done: Vec<T> = Vec::new();
    let mut i: usize = 0;
    let ghost p_pending = |o: T| o.due_tick() > tick;
    let ghost p_due = |o: T| o.due_tick() <= tick;
    assert(q@.subrange(0, 0).filter(p_pending) =~= Seq::<T>::empty());
    assert(q@.subrange(0, 0).filter(p_due) =~= Seq::<T>::empty());
    while i < q.len()
        invariant
            i <= q@.len(),
            p_pending == (|o: T| o.due_tick() > tick),
            p_due == (|o: T| o.due_tick() <= tick),
            kept@ == q@.subrange(0, i as int).filter(p_pending),
            done@ == q@.subrange(0, i as int).filter(p_due),
        decreases q@.len() - i,
    {
        proof {
            assert(q@.subrange(0, i + 1).drop_last() =~= q@.subrange(0, i as int));
            reveal_with_fuel(Seq::<_>::filter, 1);
        }
        let o = q[i];
        if o.completion_tick_of() <= tick {
            done.push(o);
        } else {
            kept.push(o);
        }
        i = i + 1;
    }
    assert(q@.subrange(0, q@.len() as int) =~= q@);
    (kept, done)
}

/// Removes every order due at or before `tick` from the queues (planets keep their,
/// possibly empty, queues) and returns them, planet after planet in some order of the
/// planets, each planet's orders in queue order.
pub fn take_due<T: QueuedOrder>(queues: &mut HashMap<PlanetId, Vec<T>>, tick: u64) -> (r: Vec<
    (PlanetId, T),
>)
    ensures
        final(queues)@.dom() == old(queues)@.dom(),
        forall|k: PlanetId|
            #[trigger] old(queues)@.contains_key(k) ==> final(queues)@[k]@ == pending_orders(
                old(queues)@[k]@,
                tick,
            ),
        exists|ks: Seq<PlanetId>|
            ks.no_duplicates() && ks.to_set() == old(queues)@.dom() && r@ == due_list(
                ks,
                old(queues)@,
                tick,
            ),
{
    let keys = queue_keys(queues);
    let ghost m0 = queues@;
    let mut r: Vec<(PlanetId, T)> = Vec::new();
    let mut i: usize = 0;
    while i < keys.len()
        invariant
            i <= keys@.len(),
            keys@.no_duplicates(),
            keys@.to_set() == m0.dom(),
            queues@.dom() == m0.dom(),
            forall|k: PlanetId|
                #[trigger] m0.contains_key(k) ==> (if keys@.take(i as int).contains(k) {
                    queues@[k]@ == pending_orders(m0[k]@, tick)
                } else {
                    queues@[k] == m0[k]
                }),
            r@ == due_list(keys@.take(i as int), m0, tick),
        decreases keys@.len() - i,
    {
        let k = keys[i];
        proof {
            assert(keys@.to_set().contains(k));
            assert(m0.contains_key(k));
            assert(!keys@.take(i as int).contains(k)) by {
                if keys@.take(i as int).contains(k) {
                    let j = choose|j: int| 0 <= j < i && keys@.take(i as int)[j] == k;
                    assert(keys@[j] == keys@[i as int]);
                }
            }
        }
        let q = match queues.remove(&k) {
            Some(q) => q,
            None => Vec::new(),
        };
        assert(q@ == m0[k]@);
        let (kept, done) = split_due(q, tick);
        let ghost before = r@;
        let mut j: usize = 0;
        while j < done.len()
            invariant
                j <= done@.len(),
                r@ == before + done@.take(j as int).map_values(|o: T| (k, o)),
            decreases done@.len() - j,
        {
            r.push((k, done[j]));
            assert(done@.take(j + 1).map_values(|o: T| (k, o)) =~= done@.take(j as int).map_values(
                |o: T| (k, o),
            ).push((k, done@[j as int])));
            assert(r@ =~= before + done@.take(j + 1).map_values(|o: T| (k, o)));
            j = j + 1;
        }
        queues.insert(k, kept);
        proof {
            assert(done@.take(done@.len() as int) =~= done@);
            let ks1 = keys@.take(i + 1);
            assert(ks1.drop_last() =~= keys@.take(i as int));
            assert(ks1.last() == k);
            assert(queue_of(m0, k) == m0[k]@);
            assert(r@ == due_list(ks1, m0, tick));
            assert forall|kk: PlanetId| #[trigger] m0.contains_key(kk) implies (if ks1.contains(kk) {
                queues@[kk]@ == pending_orders(m0[kk]@, tick)
            } else {
                queues@[kk] == m0[kk]
            }) by {
                if kk != k {
                    if ks1.contains(kk) {
                        let j = choose|j: int| 0 <= j < i + 1 && ks1[j] == kk;
                        assert(keys@.take(i as int)[j] == kk);
                    }
                    if keys@.take(i as int).contains(kk) {
                        let j = choose|j: int| 0 <= j < i && keys@.take(i as int)[j] == kk;
                        assert(ks1[j] == kk);
                    }
                } else {
                    assert(ks1[i as int] == k);
                }
            }
        }
        i = i + 1;
    }
    proof {
        assert(keys@.take(keys@.len() as int) =~= keys@);
        assert forall|k: PlanetId| #[trigger] m0.contains_key(k) implies queues@[k]@
            == pending_orders(m0[k]@, tick) by {
            assert(keys@.to_set().contains(k));
        }
    }
    r
}


/// A bundle of minerals, food, energy, alloys, components and fuel.
pub open spec fn bundle(minerals: i32, food: i32, energy: i32, alloys: i32, components: i32, fuel: i32) -> ResourceBundle {
    ResourceBundle { minerals, food, energy, alloys, components, fuel }
}

/// Position of each building type in the cost table.
pub open spec fn building_slot(b: BuildingType) -> int {
    match b {
        BuildingType::Mine => 0,
        BuildingType::Farm => 1,
        BuildingType::PowerPlant => 2,
        BuildingType::Factory => 3,
        BuildingType::ResearchLab => 4,
        BuildingType::Spaceport => 5,
        BuildingType::DefensePlatform => 6,
        BuildingType::StorageFacility => 7,
        BuildingType::Habitat => 8,
    }
}

/// Cost and build time (in ticks) of each building type.
pub open spec fn building_cost(b: BuildingType) -> (ResourceBundle, u64) {
    match b {
        BuildingType::Mine => (bundle(100, 0, 0, 20, 10, 0), 10),
        BuildingType::Farm => (bundle(50, 0, 0, 10, 5, 0), 8),
        BuildingType::PowerPlant => (bundle(80, 0, 0, 30, 15, 0), 12),
        BuildingType::Factory => (bundle(120, 0, 10, 40, 25, 0), 15),
        BuildingType::ResearchLab => (bundle(90, 0, 5, 25, 30, 0), 14),
        BuildingType::Spaceport => (bundle(200, 0, 20, 80, 60, 0), 25),
        BuildingType::DefensePlatform => (bundle(150, 0, 15, 100, 50, 0), 20),
        BuildingType::StorageFacility => (bundle(60, 0, 0, 15, 8, 0), 6),
        BuildingType::Habitat => (bundle(80, 10, 5, 20, 15, 0), 10),
    }
}

/// Position of each ship class in the cost table.
pub open spec fn ship_slot(c: ShipClass) -> int {
    match c {
        ShipClass::Scout => 0,
        ShipClass::Transport => 1,
        ShipClass::Warship => 2,
        ShipClass::Colony => 3,
    }
}

/// Cost and build time (in ticks) of each ship class.
pub open spec fn ship_cost(c: ShipClass) -> (ResourceBundle, u64) {
    match c {
        ShipClass::Scout => (bundle(50, 0, 0, 30, 25, 10), 8),
        ShipClass::Transport => (bundle(80, 0, 0, 40, 35, 15), 12),
        ShipClass::Warship => (bundle(200, 0, 5, 120, 100, 30), 25),
        ShipClass::Colony => (bundle(150, 50, 10, 60, 80, 25), 20),
    }
}

fn building_index(b: BuildingType) -> (r: usize)
    ensures
        r == building_slot(b),
{
    match b {
        BuildingType::Mine => 0,
        BuildingType::Farm => 1,
        BuildingType::PowerPlant => 2,
        BuildingType::Factory => 3,
        BuildingType::ResearchLab => 4,
        BuildingType::Spaceport => 5,
        BuildingType::DefensePlatform => 6,
        BuildingType::StorageFacility => 7,
        BuildingType::Habitat => 8,
    }
}

fn ship_index(c: ShipClass) -> (r: usize)
    ensures
        r == ship_slot(c),
{
    match c {
        ShipClass::Scout => 0,
        ShipClass::Transport => 1,
        ShipClass::Warship => 2,
        ShipClass::Colony => 3,
    }
}

/// The order that a request for `building_type` on `planet` at `tick` queues.
pub open spec fn new_building_order(building_type: BuildingType, planet: PlanetId, tick: u64) -> ConstructionOrder {
    ConstructionOrder {
        building_type,
        planet_id: planet,
        start_tick: tick,
        completion_tick: (tick + building_cost(building_type).1) as u64,
        cost_paid: building_cost(building_type).0,
    }
}

/// The order that a request for `ship_class` on `planet` at `tick` queues.
pub open spec fn new_ship_order(ship_class: ShipClass, planet: PlanetId, tick: u64) -> ShipOrder {
    ShipOrder {
        ship_class,
        planet_id: planet,
        start_tick: tick,
        completion_tick: (tick + ship_cost(ship_class).1) as u64,
        cost_paid: ship_cost(ship_class).0,
    }
}

/// `m` with `o` appended to the queue of `planet` (created when missing).
pub open spec fn queued_after<T>(old_m: Map<PlanetId, Vec<T>>, new_m: Map<PlanetId, Vec<T>>, planet: PlanetId, o: T) -> bool {
    &&& new_m.dom() == old_m.dom().insert(planet)
    &&& new_m[planet]@ == queue_of(old_m, planet).push(o)
    &&& forall|k: PlanetId| k != planet && #[trigger] old_m.contains_key(k) ==> new_m[k] == old_m[k]
}

/// Per-planet queues of building and ship orders, and the current tick.
pub struct ConstructionSystem {
    pub building_queue: HashMap<PlanetId, Vec<ConstructionOrder>>,
    pub ship_queue: HashMap<PlanetId, Vec<ShipOrder>>,
    pub building_costs: Vec<(ResourceBundle, u64)>,
    pub ship_costs: Vec<(ResourceBundle, u64)>,
    pub current_tick: u64,
}

impl ConstructionSystem {
    /// The cost tables hold the cost of every building type and ship class.
    pub open spec fn wf(&self) -> bool {
        &&& self.building_costs@.len() == 9
        &&& forall|b: BuildingType| self.building_costs@[#[trigger] building_slot(b)] == building_cost(b)
        &&& self.ship_costs@.len() == 4
        &&& forall|c: ShipClass| self.ship_costs@[#[trigger] ship_slot(c)] == ship_cost(c)
    }

    /// Every queued order completes no earlier than it started and paid no negative
    /// amount: what `validate` checks. Every operation keeps it.
    pub open spec fn orders_valid(&self) -> bool {
        queues_valid(self.building_queue@) && queues_valid(self.ship_queue@)
    }

    /// Empty queues at tick 0, with the cost of every building type and ship class.
    pub fn new() -> (r: Self)
        ensures
            r.wf(),
            r.building_queue@ == Map::<PlanetId, Vec<ConstructionOrder>>::empty(),
            r.ship_queue@ == Map::<PlanetId, Vec<ShipOrder>>::empty(),
            r.current_tick == 0,
            r.orders_valid(),
    {
        let mut building_costs: Vec<(ResourceBundle, u64)> = Vec::new();
        building_costs.push((ResourceBundle { minerals: 100, food: 0, energy: 0, alloys: 20, components: 10, fuel: 0 }, 10));
        building_costs.push((ResourceBundle { minerals: 50, food: 0, energy: 0, alloys: 10, components: 5, fuel: 0 }, 8));
        building_costs.push((ResourceBundle { minerals: 80, food: 0, energy: 0, alloys: 30, components: 15, fuel: 0 }, 12));
        building_costs.push((ResourceBundle { minerals: 120, food: 0, energy: 10, alloys: 40, components: 25, fuel: 0 }, 15));
        building_costs.push((ResourceBundle { minerals: 90, food: 0, energy: 5, alloys: 25, components: 30, fuel: 0 }, 14));
        building_costs.push((ResourceBundle { minerals: 200, food: 0, energy: 20, alloys: 80, components: 60, fuel: 0 }, 25));
        building_costs.push((ResourceBundle { minerals: 150, food: 0, energy: 15, alloys: 100, components: 50, fuel: 0 }, 20));
        building_costs.push((ResourceBundle { minerals: 60, food: 0, energy: 0, alloys: 15, components: 8, fuel: 0 }, 6));
        building_costs.push((ResourceBundle { minerals: 80, food: 10, energy: 5, alloys: 20, components: 15, fuel: 0 }, 10));
        let mut ship_costs: Vec<(ResourceBundle, u64)> = Vec::new();
        ship_costs.push((ResourceBundle { minerals: 50, food: 0, energy: 0, alloys: 30, components: 25, fuel: 10 }, 8));
        ship_costs.push((ResourceBundle { minerals: 80, food: 0, energy: 0, alloys: 40, components: 35, fuel: 15 }, 12));
        ship_costs.push((ResourceBundle { minerals: 200, food: 0, energy: 5, alloys: 120, components: 100, fuel: 30 }, 25));
        ship_costs.push((ResourceBundle { minerals: 150, food: 50, energy: 10, alloys: 60, components: 80, fuel: 25 }, 20));
        let r = ConstructionSystem {
            building_queue: HashMap::new(),
            ship_queue: HashMap::new(),
            building_costs,
            ship_costs,
            current_tick: 0,
        };
        assert forall|b: BuildingType| r.building_costs@[#[trigger] building_slot(b)] == building_cost(b) by {
            match b {
                BuildingType::Mine => {},
                BuildingType::Farm => {},
                BuildingType::PowerPlant => {},
                BuildingType::Factory => {},
                BuildingType::ResearchLab => {},
                BuildingType::Spaceport => {},
                BuildingType::DefensePlatform => {},
                BuildingType::StorageFacility => {},
                BuildingType::Habitat => {},
            }
        }
        assert forall|c: ShipClass| r.ship_costs@[#[trigger] ship_slot(c)] == ship_cost(c) by {
            match c {
                ShipClass::Scout => {},
                ShipClass::Transport => {},
                ShipClass::Warship => {},
                ShipClass::Colony => {},
            }
        }
        r
    }

    /// Cost and build time of `building_type`; every type has one.
    pub fn get_building_cost(&self, building_type: BuildingType) -> (r: Option<&(ResourceBundle, u64)>)
        requires
            self.wf(),
        ensures
            r == Some(&building_cost(building_type)),
    {
        let i = building_index(building_type);
        Some(&self.building_costs[i])
    }

    /// Cost and build time of `ship_class`; every class has one.
    pub fn get_ship_cost(&self, ship_class: ShipClass) -> (r: Option<&(ResourceBundle, u64)>)
        requires
            self.wf(),
        ensures
            r == Some(&ship_cost(ship_class)),
    {
        let i = ship_index(ship_class);
        Some(&self.ship_costs[i])
    }

    /// Queues an order for `building_type` on `planet_id`, starting now and completing
    /// after the build time of the type, with its cost as paid.
    pub fn request_building_construction(&mut self, planet_id: PlanetId, building_type: BuildingType) -> (r: GameResult<()>)
        requires
            old(self).wf(),
            old(self).current_tick + building_cost(building_type).1 <= u64::MAX,
        ensures
            final(self).wf(),
            r.is_ok(),
            final(self).current_tick == old(self).current_tick,
            final(self).ship_queue@ == old(self).ship_queue@,
            queued_after(old(self).building_queue@, final(self).building_queue@, planet_id, new_building_order(building_type, planet_id, old(self).current_tick)),
            old(self).orders_valid() ==> final(self).orders_valid(),
    {
        let i = building_index(building_type);
        let (cost, build_time) = self.building_costs[i];
        let order = ConstructionOrder {
            building_type,
            planet_id,
            start_tick: self.current_tick,
            completion_tick: self.current_tick + build_time,
            cost_paid: cost,
        };
        let mut q = match self.building_queue.remove(&planet_id) {
            Some(q) => q,
            None => Vec::new(),
        };
        q.push(order);
        self.building_queue.insert(planet_id, q);
        assert(final(self).building_queue@.dom() =~= old(self).building_queue@.dom().insert(planet_id));
        Ok(())
    }

    /// Queues an order for `ship_class` on `planet_id`, starting now and completing after
    /// the build time of the class, with its cost as paid.
    pub fn request_ship_construction(&mut self, planet_id: PlanetId, ship_class: ShipClass) -> (r: GameResult<()>)
        requires
            old(self).wf(),
            old(self).current_tick + ship_cost(ship_class).1 <= u64::MAX,
        ensures
            final(self).wf(),
            r.is_ok(),
            final(self).current_tick == old(self).current_tick,
            final(self).building_queue@ == old(self).building_queue@,
            queued_after(old(self).ship_queue@, final(self).ship_queue@, planet_id, new_ship_order(ship_class, planet_id, old(self).current_tick)),
            old(self).orders_valid() ==> final(self).orders_valid(),
    {
        let i = ship_index(ship_class);
        let (cost, build_time) = self.ship_costs[i];
        let order = ShipOrder {
            ship_class,
            planet_id,
            start_tick: self.current_tick,
            completion_tick: self.current_tick + build_time,
            cost_paid: cost,
        };
        let mut q = match self.ship_queue.remove(&planet_id) {
            Some(q) => q,
            None => Vec::new(),
        };
        q.push(order);
        self.ship_queue.insert(planet_id, q);
        assert(final(self).ship_queue@.dom() =~= old(self).ship_queue@.dom().insert(planet_id));
        Ok(())
    }
    /// The building orders of `planet_id`, in queue order (none when it has no queue).
    pub fn get_building_queue(&self, planet_id: PlanetId) -> (r: Vec<&ConstructionOrder>)
        ensures
            r@.map_values(|o: &ConstructionOrder| *o) == queue_of(self.building_queue@, planet_id),
    {
        let mut r: Vec<&ConstructionOrder> = Vec::new();
        match self.building_queue.get(&planet_id) {
            Some(q) => {
                let mut i: usize = 0;
                while i < q.len()
                    invariant
                        i <= q@.len(),
                        r@.map_values(|o: &ConstructionOrder| *o) == q@.take(i as int),
                    decreases q@.len() - i,
                {
                    let ghost before = r@;
                    r.push(&q[i]);
                    assert(r@ == before.push(&q@[i as int]));
                    assert(r@.map_values(|o: &ConstructionOrder| *o) =~= before.map_values(|o: &ConstructionOrder| *o).push(q@[i as int]));
                    assert(r@.map_values(|o: &ConstructionOrder| *o) =~= q@.take(i + 1));
                    i = i + 1;
                }
                assert(q@.take(q@.len() as int) =~= q@);
            },
            None => {
                assert(r@.map_values(|o: &ConstructionOrder| *o) =~= Seq::<ConstructionOrder>::empty());
            },
        }
        r
    }

    /// The ship orders of `planet_id`, in queue order (none when it has no queue).
    pub fn get_ship_queue(&self, planet_id: PlanetId) -> (r: Vec<&ShipOrder>)
        ensures
            r@.map_values(|o: &ShipOrder| *o) == queue_of(self.ship_queue@, planet_id),
    {
        let mut r: Vec<&ShipOrder> = Vec::new();
        match self.ship_queue.get(&planet_id) {
            Some(q) => {
                let mut i: usize = 0;
                while i < q.len()
                    invariant
                        i <= q@.len(),
                        r@.map_values(|o: &ShipOrder| *o) == q@.take(i as int),
                    decreases q@.len() - i,
                {
                    let ghost before = r@;
                    r.push(&q[i]);
                    assert(r@ == before.push(&q@[i as int]));
                    assert(r@.map_values(|o: &ShipOrder| *o) =~= before.map_values(|o: &ShipOrder| *o).push(q@[i as int]));
                    assert(r@.map_values(|o: &ShipOrder| *o) =~= q@.take(i + 1));
                    i = i + 1;
                }
                assert(q@.take(q@.len() as int) =~= q@);
            },
            None => {
                assert(r@.map_values(|o: &ShipOrder| *o) =~= Seq::<ShipOrder>::empty());
            },
        }
        r
    }

    /// Removes and returns the building order at `order_index` of `planet_id`'s queue.
    /// Fails with `InvalidOperation`, changing nothing, when the planet has no queue or
    /// the index is past its end.
    pub fn cancel_building(&mut self, planet_id: PlanetId, order_index: usize) -> (r: GameResult<ConstructionOrder>)
        ensures
            old(self).orders_valid() ==> final(self).orders_valid(),
            final(self).ship_queue@ == old(self).ship_queue@,
            final(self).building_costs@ == old(self).building_costs@,
            final(self).ship_costs@ == old(self).ship_costs@,
            final(self).current_tick == old(self).current_tick,
            r.is_ok() <==> old(self).building_queue@.contains_key(planet_id) && order_index
                < old(self).building_queue@[planet_id]@.len(),
            r matches Err(GameError::InvalidOperation(m)) ==> m@ == (if old(self).building_queue@.contains_key(planet_id) {
                "Invalid construction order index"@
            } else {
                "No construction queue for planet"@
            }),
            r matches Err(e) ==> e is InvalidOperation && final(self).building_queue@ == old(self).building_queue@,
            r matches Ok(o) ==> o == old(self).building_queue@[planet_id]@[order_index as int]
                && final(self).building_queue@.dom() == old(self).building_queue@.dom()
                && final(self).building_queue@[planet_id]@ == old(self).building_queue@[planet_id]@.remove(order_index as int)
                && forall|k: PlanetId| k != planet_id && #[trigger] old(self).building_queue@.contains_key(k)
                    ==> final(self).building_queue@[k] == old(self).building_queue@[k],
    {
        let mut q = match self.building_queue.remove(&planet_id) {
            Some(q) => q,
            None => return Err(GameError::InvalidOperation("No construction queue for planet".to_string())),
        };
        if order_index >= q.len() {
            self.building_queue.insert(planet_id, q);
            assert(self.building_queue@ =~= old(self).building_queue@);
            return Err(GameError::InvalidOperation("Invalid construction order index".to_string()));
        }
        let o = q.remove(order_index);
        self.building_queue.insert(planet_id, q);
        assert(self.building_queue@.dom() =~= old(self).building_queue@.dom());
        Ok(o)
    }

    /// Removes and returns the ship order at `order_index` of `planet_id`'s queue. Fails
    /// with `InvalidOperation`, changing nothing, when the planet has no queue or the
    /// index is past its end.
    pub fn cancel_ship(&mut self, planet_id: PlanetId, order_index: usize) -> (r: GameResult<ShipOrder>)
        ensures
            old(self).orders_valid() ==> final(self).orders_valid(),
            final(self).building_queue@ == old(self).building_queue@,
            final(self).building_costs@ == old(self).building_costs@,
            final(self).ship_costs@ == old(self).ship_costs@,
            final(self).current_tick == old(self).current_tick,
            r.is_ok() <==> old(self).ship_queue@.contains_key(planet_id) && order_index
                < old(self).ship_queue@[planet_id]@.len(),
            r matches Err(GameError::InvalidOperation(m)) ==> m@ == (if old(self).ship_queue@.contains_key(planet_id) {
                "Invalid ship order index"@
            } else {
                "No ship construction queue for planet"@
            }),
            r matches Err(e) ==> e is InvalidOperation && final(self).ship_queue@ == old(self).ship_queue@,
            r matches Ok(o) ==> o == old(self).ship_queue@[planet_id]@[order_index as int]
                && final(self).ship_queue@.dom() == old(self).ship_queue@.dom()
                && final(self).ship_queue@[planet_id]@ == old(self).ship_queue@[planet_id]@.remove(order_index as int)
                && forall|k: PlanetId| k != planet_id && #[trigger] old(self).ship_queue@.contains_key(k)
                    ==> final(self).ship_queue@[k] == old(self).ship_queue@[k],
    {
        let mut q = match self.ship_queue.remove(&planet_id) {
            Some(q) => q,
            None => return Err(GameError::InvalidOperation("No ship construction queue for planet".to_string())),
        };
        if order_index >= q.len() {
            self.ship_queue.insert(planet_id, q);
            assert(self.ship_queue@ =~= old(self).ship_queue@);
            return Err(GameError::InvalidOperation("Invalid ship order index".to_string()));
        }
        let o = q.remove(order_index);
        self.ship_queue.insert(planet_id, q);
        assert(self.ship_queue@.dom() =~= old(self).ship_queue@.dom());
        Ok(o)
    }

    /// Number of building and ship orders queued on `planet_id`.
    pub fn get_total_queue_length(&self, planet_id: PlanetId) -> (r: usize)
        requires
            queue_of(self.building_queue@, planet_id).len() + queue_of(self.ship_queue@, planet_id).len() <= usize::MAX,
        ensures
            r == queue_of(self.building_queue@, planet_id).len() + queue_of(self.ship_queue@, planet_id).len(),
    {
        let building_count = match self.building_queue.get(&planet_id) {
            Some(q) => q.len(),
            None => 0,
        };
        let ship_count = match self.ship_queue.get(&planet_id) {
            Some(q) => q.len(),
            None => 0,
        };
        building_count + ship_count
    }

    /// Checks every queued order: building orders first, then ship orders. An order
    /// completing before it started gives `SystemError`, a negative payment
    /// `InvalidOperation`.
    pub fn validate(&self) -> (r: GameResult<()>)
        ensures
            r.is_ok() <==> queues_valid(self.building_queue@) && queues_valid(self.ship_queue@),
            r matches Err(e) ==> (e matches GameError::SystemError(m) && (m@ == "Building order has invalid completion time"@
                || m@ == "Ship order has invalid completion time"@)) || (e matches GameError::InvalidOperation(m)
                && m@ == "Resources cannot be negative"@),
            !queues_valid(self.building_queue@) ==> (r matches Err(e) && (e is InvalidOperation || (e matches GameError::SystemError(m)
                && m@ == "Building order has invalid completion time"@))),
    {
        proof {
            reveal_strlit("Building");
            reveal_strlit("Ship");
            reveal_strlit(" order has invalid completion time");
            reveal_strlit("Building order has invalid completion time");
            reveal_strlit("Ship order has invalid completion time");
            assert("Building"@ + " order has invalid completion time"@ =~= "Building order has invalid completion time"@);
            assert("Ship"@ + " order has invalid completion time"@ =~= "Ship order has invalid completion time"@);
        }
        check_queues(&self.building_queue, "Building")?;
        check_queues(&self.ship_queue, "Ship")?;
        Ok(())
    }

    /// A frame's work: completes the due building orders, then the due ship orders.
    pub fn update<V: Copy, F: Copy>(&mut self, event_bus: &mut EventBus<V, F>) -> (r: GameResult<()>)
        requires
            old(event_bus).wf(),
        ensures
            old(self).orders_valid() ==> final(self).orders_valid(),
            r is Ok,
            final(self).building_costs@ == old(self).building_costs@,
            final(self).ship_costs@ == old(self).ship_costs@,
            final(self).current_tick == old(self).current_tick,
            final(self).building_queue@.dom() == old(self).building_queue@.dom(),
            final(self).ship_queue@.dom() == old(self).ship_queue@.dom(),
            forall|k: PlanetId| #[trigger] old(self).building_queue@.contains_key(k) ==> final(self).building_queue@[k]@
                == pending_orders(old(self).building_queue@[k]@, old(self).current_tick),
            forall|k: PlanetId| #[trigger] old(self).ship_queue@.contains_key(k) ==> final(self).ship_queue@[k]@
                == pending_orders(old(self).ship_queue@[k]@, old(self).current_tick),
            final(event_bus).wf(),
            final(event_bus).limit() == old(event_bus).limit(),
            final(event_bus).order() == old(event_bus).order(),
            final(event_bus).subscriptions() == old(event_bus).subscriptions(),
            exists|ks: Seq<PlanetId>, js: Seq<PlanetId>|
                #![trigger due_list(ks, old(self).building_queue@, old(self).current_tick), due_list(js, old(self).ship_queue@, old(self).current_tick)]
            {
                let es = due_list(ks, old(self).building_queue@, old(self).current_tick).map_values(
                    |p: (PlanetId, ConstructionOrder)| building_completed_event::<V, F>(p.0, p.1),
                ) + due_list(js, old(self).ship_queue@, old(self).current_tick).map_values(
                    |p: (PlanetId, ShipOrder)| ship_completed_event::<V, F>(p.0),
                );
                &&& ks.no_duplicates()
                &&& ks.to_set() == old(self).building_queue@.dom()
                &&& js.no_duplicates()
                &&& js.to_set() == old(self).ship_queue@.dom()
                &&& final(event_bus).queued() == old(event_bus).queued() + es
                &&& same_events(final(event_bus).history(), recent_after_all(old(event_bus).history(), es, old(event_bus).limit()))
            },
    {
        let ghost q0 = event_bus.queued();
        let ghost h0 = event_bus.history();
        let ghost lim = event_bus.limit();
        let ghost bq = self.building_queue@;
        let ghost sq = self.ship_queue@;
        let ghost tick = self.current_tick;
        match self.process_building_completions(event_bus) {
            Ok(()) => {},
            Err(e) => return Err(e),
        }
        let ghost ks = choose|ks: Seq<PlanetId>| #![trigger due_list(ks, bq, tick)] {
            let es = due_list(ks, bq, tick).map_values(
                |p: (PlanetId, ConstructionOrder)| building_completed_event::<V, F>(p.0, p.1),
            );
            &&& ks.no_duplicates()
            &&& ks.to_set() == bq.dom()
            &&& event_bus.queued() == q0 + es
            &&& same_events(event_bus.history(), recent_after_all(h0, es, lim))
        };
        let ghost es1 = due_list(ks, bq, tick).map_values(
            |p: (PlanetId, ConstructionOrder)| building_completed_event::<V, F>(p.0, p.1),
        );
        let ghost h1 = event_bus.history();
        let ghost q1 = event_bus.queued();
        match self.process_ship_completions(event_bus) {
            Ok(()) => {},
            Err(e) => return Err(e),
        }
        proof {
            let js = choose|js: Seq<PlanetId>| #![trigger due_list(js, sq, tick)] {
                let es = due_list(js, sq, tick).map_values(
                    |p: (PlanetId, ShipOrder)| ship_completed_event::<V, F>(p.0),
                );
                &&& js.no_duplicates()
                &&& js.to_set() == sq.dom()
                &&& event_bus.queued() == q1 + es
                &&& same_events(event_bus.history(), recent_after_all(h1, es, lim))
            };
            let es2 = due_list(js, sq, tick).map_values(
                |p: (PlanetId, ShipOrder)| ship_completed_event::<V, F>(p.0),
            );
            assert(event_bus.queued() =~= q0 + (es1 + es2));
            lemma_recent_after_all_same(h1, recent_after_all(h0, es1, lim), es2, lim);
            lemma_recent_after_all_append(h0, es1, es2, lim);
            lemma_same_events_trans(
                event_bus.history(),
                recent_after_all(h1, es2, lim),
                recent_after_all(h0, es1 + es2, lim),
            );
        }
        Ok(())
    }

    /// Answers construction events: queues a building or a ship as asked, and follows the
    /// current tick.
    pub fn handle_event<V, F>(&mut self, event: &GameEvent<V, F>) -> (r: GameResult<()>)
        requires
            old(self).wf(),
            *event matches GameEvent::PlayerCommand(PlayerCommand::BuildStructure { building_type, .. })
                ==> old(self).current_tick + building_cost(building_type).1 <= u64::MAX,
            *event matches GameEvent::PlayerCommand(PlayerCommand::ConstructShip { ship_class, .. })
                ==> old(self).current_tick + ship_cost(ship_class).1 <= u64::MAX,
        ensures
            r is Ok,
            final(self).wf(),
            old(self).orders_valid() ==> final(self).orders_valid(),
            match *event {
                GameEvent::PlayerCommand(PlayerCommand::BuildStructure { planet, building_type }) => {
                    &&& final(self).current_tick == old(self).current_tick
                    &&& final(self).ship_queue@ == old(self).ship_queue@
                    &&& queued_after(old(self).building_queue@, final(self).building_queue@, planet,
                        new_building_order(building_type, planet, old(self).current_tick))
                },
                GameEvent::PlayerCommand(PlayerCommand::ConstructShip { planet, ship_class }) => {
                    &&& final(self).current_tick == old(self).current_tick
                    &&& final(self).building_queue@ == old(self).building_queue@
                    &&& queued_after(old(self).ship_queue@, final(self).ship_queue@, planet,
                        new_ship_order(ship_class, planet, old(self).current_tick))
                },
                GameEvent::SimulationEvent(SimulationEvent::TickCompleted(t)) => {
                    *final(self) == ConstructionSystem { current_tick: t, ..*old(self) }
                },
                _ => *final(self) == *old(self),
            },
    {
        match event {
            GameEvent::PlayerCommand(PlayerCommand::BuildStructure { planet, building_type }) => {
                self.request_building_construction(*planet, *building_type)
            },
            GameEvent::PlayerCommand(PlayerCommand::ConstructShip { planet, ship_class }) => {
                self.request_ship_construction(*planet, *ship_class)
            },
            GameEvent::SimulationEvent(SimulationEvent::TickCompleted(tick)) => {
                self.current_tick = *tick;
                Ok(())
            },
            _ => Ok(()),
        }
    }

    /// Removes every building order due by the current tick from the queues (each queue
    /// keeps its pending orders in order) and raises a `ConstructionCompleted` event for
    /// each, planet after planet in some order of the planets, each planet's orders in
    /// queue order.
    pub fn process_building_completions<V: Copy, F: Copy>(&mut self, event_bus: &mut EventBus<V, F>) -> (r: GameResult<()>)
        requires
            old(event_bus).wf(),
        ensures
            old(self).orders_valid() ==> final(self).orders_valid(),
            r is Ok,
            final(self).ship_queue@ == old(self).ship_queue@,
            final(self).building_costs@ == old(self).building_costs@,
            final(self).ship_costs@ == old(self).ship_costs@,
            final(self).current_tick == old(self).current_tick,
            final(self).building_queue@.dom() == old(self).building_queue@.dom(),
            forall|k: PlanetId| #[trigger] old(self).building_queue@.contains_key(k) ==> final(self).building_queue@[k]@
                == pending_orders(old(self).building_queue@[k]@, old(self).current_tick),
            final(event_bus).wf(),
            final(event_bus).limit() == old(event_bus).limit(),
            final(event_bus).order() == old(event_bus).order(),
            final(event_bus).subscriptions() == old(event_bus).subscriptions(),
            exists|ks: Seq<PlanetId>| #![trigger due_list(ks, old(self).building_queue@, old(self).current_tick)] {
                let es = due_list(ks, old(self).building_queue@, old(self).current_tick).map_values(
                    |p: (PlanetId, ConstructionOrder)| building_completed_event::<V, F>(p.0, p.1),
                );
                &&& ks.no_duplicates()
                &&& ks.to_set() == old(self).building_queue@.dom()
                &&& final(event_bus).queued() == old(event_bus).queued() + es
                &&& same_events(final(event_bus).history(), recent_after_all(old(event_bus).history(), es, old(event_bus).limit()))
            },
    {
        let completed = take_due(&mut self.building_queue, self.current_tick);
        proof {
            if queues_valid(old(self).building_queue@) {
                lemma_pending_keeps_valid(old(self).building_queue@, self.building_queue@, self.current_tick);
            }
        }
        let ghost ks = choose|ks: Seq<PlanetId>| ks.no_duplicates() && ks.to_set() == old(self).building_queue@.dom()
            && completed@ == due_list(ks, old(self).building_queue@, old(self).current_tick);
        let mut events: Vec<GameEvent<V, F>> = Vec::new();
        let mut i: usize = 0;
        while i < completed.len()
            invariant
                i <= completed@.len(),
                events@ == completed@.take(i as int).map_values(
                    |p: (PlanetId, ConstructionOrder)| building_completed_event::<V, F>(p.0, p.1),
                ),
            decreases completed@.len() - i,
        {
            let (planet_id, order) = completed[i];
            events.push(
                GameEvent::SimulationEvent(
                    SimulationEvent::ConstructionCompleted { planet: planet_id, building: order.building_type },
                ),
            );
            proof {
                assert(events@ =~= completed@.take(i + 1).map_values(
                    |p: (PlanetId, ConstructionOrder)| building_completed_event::<V, F>(p.0, p.1),
                ));
            }
            i = i + 1;
        }
        proof {
            assert(completed@.take(completed@.len() as int) =~= completed@);
        }
        event_bus.queue_events(events);
        Ok(())
    }

    /// Removes every ship order due by the current tick from the queues (each queue keeps
    /// its pending orders in order) and raises a `ShipCompleted` event for each, with ship
    /// id 0 (the ship itself is made elsewhere), planet after planet in some order of the
    /// planets, each planet's orders in queue order.
    pub fn process_ship_completions<V: Copy, F: Copy>(&mut self, event_bus: &mut EventBus<V, F>) -> (r: GameResult<()>)
        requires
            old(event_bus).wf(),
        ensures
            old(self).orders_valid() ==> final(self).orders_valid(),
            r is Ok,
            final(self).building_queue@ == old(self).building_queue@,
            final(self).building_costs@ == old(self).building_costs@,
            final(self).ship_costs@ == old(self).ship_costs@,
            final(self).current_tick == old(self).current_tick,
            final(self).ship_queue@.dom() == old(self).ship_queue@.dom(),
            forall|k: PlanetId| #[trigger] old(self).ship_queue@.contains_key(k) ==> final(self).ship_queue@[k]@
                == pending_orders(old(self).ship_queue@[k]@, old(self).current_tick),
            final(event_bus).wf(),
            final(event_bus).limit() == old(event_bus).limit(),
            final(event_bus).order() == old(event_bus).order(),
            final(event_bus).subscriptions() == old(event_bus).subscriptions(),
            exists|ks: Seq<PlanetId>| #![trigger due_list(ks, old(self).ship_queue@, old(self).current_tick)] {
                let es = due_list(ks, old(self).ship_queue@, old(self).current_tick).map_values(
                    |p: (PlanetId, ShipOrder)| ship_completed_event::<V, F>(p.0),
                );
                &&& ks.no_duplicates()
                &&& ks.to_set() == old(self).ship_queue@.dom()
                &&& final(event_bus).queued() == old(event_bus).queued() + es
                &&& same_events(final(event_bus).history(), recent_after_all(old(event_bus).history(), es, old(event_bus).limit()))
            },
    {
        let completed = take_due(&mut self.ship_queue, self.current_tick);
        proof {
            if queues_valid(old(self).ship_queue@) {
                lemma_pending_keeps_valid(old(self).ship_queue@, self.ship_queue@, self.current_tick);
            }
        }
        let ghost ks = choose|ks: Seq<PlanetId>| ks.no_duplicates() && ks.to_set() == old(self).ship_queue@.dom()
            && completed@ == due_list(ks, old(self).ship_queue@, old(self).current_tick);
        let mut events: Vec<GameEvent<V, F>> = Vec::new();
        let mut i: usize = 0;
        while i < completed.len()
            invariant
                i <= completed@.len(),
                events@ == completed@.take(i as int).map_values(
                    |p: (PlanetId, ShipOrder)| ship_completed_event::<V, F>(p.0),
                ),
            decreases completed@.len() - i,
        {
            let (planet_id, _order) = completed[i];
            events.push(GameEvent::SimulationEvent(SimulationEvent::ShipCompleted { planet: planet_id, ship: 0 }));
            proof {
                assert(events@ =~= completed@.take(i + 1).map_values(
                    |p: (PlanetId, ShipOrder)| ship_completed_event::<V, F>(p.0),
                ));
            }
            i = i + 1;
        }
        proof {
            assert(completed@.take(completed@.len() as int) =~= completed@);
        }
        event_bus.queue_events(events);
        Ok(())
    }
}

} // verus!
