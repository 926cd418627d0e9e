//! The bookkeeping of the physics: the simulation tick as the physics sees it, the trips
//! under way and their arrivals, and the transfer windows between planets. Orbits, trip
//! planning and the alignment of planets are worked out in floating point by the program
//! around the library, which hands over the points (`V`) and fuel costs (`F`) of trips and
//! the pairs of planets that are aligned.
use vstd::prelude::*;
use crate::events::{EventBus, GameEvent, SimulationEvent, StateChange, same_events, recent_after_all};
use crate::text::decimal;
use crate::types::{GameError, GameResult, PlanetId, ShipId};

verus! {

/// A trip from `origin` to `destination`, leaving at `departure_time` and arriving at
/// `arrival_time`, costing `fuel_cost`.
#[derive(Debug, Clone, Copy)]
pub struct Trajectory<V, F> {
    pub origin: V,
    pub destination: V,
    pub departure_time: u64,
    pub arrival_time: u64,
    pub fuel_cost: F,
}

/// How many planets the physics looks at, at most.
pub const MAX_PLANETS: u32 = 100;

/// How many ticks a transfer window stays open.
pub const TRANSFER_WINDOW_DURATION: u64 = 30;

/// Every how many ticks new transfer windows are looked for.
pub const TRANSFER_CHECK_INTERVAL: u64 = 25;

/// The planets whose orbits the physics follows: the first five, within the limit.
pub open spec fn tracked_planet_count(max_planets: u32) -> u32 {
    if max_planets < 5 {
        max_planets
    } else {
        5
    }
}

/// The trips of `ts` that have arrived by `tick`, in order.
pub open spec fn arrived<V, F>(ts: Seq<(ShipId, Trajectory<V, F>)>, tick: u64) -> Seq<(ShipId, Trajectory<V, F>)>
    decreases ts.len(),
{
    if ts.len() == 0 {
        Seq::empty()
    } else {
        let prev = arrived(ts.drop_last(), tick);
        if tick >= ts.last().1.arrival_time {
            prev.push(ts.last())
        } else {
            prev
        }
    }
}

/// The trips of `ts` still under way at `tick`, in order.
pub open spec fn under_way<V, F>(ts: Seq<(ShipId, Trajectory<V, F>)>, tick: u64) -> Seq<(ShipId, Trajectory<V, F>)>
    decreases ts.len(),
{
    if ts.len() == 0 {
        Seq::empty()
    } else {
        let prev = under_way(ts.drop_last(), tick);
        if tick < ts.last().1.arrival_time {
            prev.push(ts.last())
        } else {
            prev
        }
    }
}

/// The windows of `ws` still open after `tick`, in order.
pub open spec fn open_after(ws: Seq<((PlanetId, PlanetId), u64)>, tick: u64) -> Seq<((PlanetId, PlanetId), u64)>
    decreases ws.len(),
{
    if ws.len() == 0 {
        Seq::empty()
    } else {
        let prev = open_after(ws.drop_last(), tick);
        if ws.last().1 > tick {
            prev.push(ws.last())
        } else {
            prev
        }
    }
}

/// Whether `ws` holds a window for `pair`.
pub open spec fn has_window(ws: Seq<((PlanetId, PlanetId), u64)>, pair: (PlanetId, PlanetId)) -> bool {
    exists|i: int| 0 <= i < ws.len() && (#[trigger] ws[i]).0 == pair
}

/// The pairs of planets `(a, b)` with `a < b < n`, by `a` and then by `b`.
pub open spec fn planet_pairs(n: u32) -> Seq<(PlanetId, PlanetId)>
    decreases n,
{
    if n == 0 {
        Seq::empty()
    } else {
        planet_pairs((n - 1) as u32) + Seq::new((n - 1) as nat, |a: int| (a as u32, (n - 1) as u32))
    }
}

/// The pairs of `pairs`, in order, that have no window in `ws` and are among `aligned`.
pub open spec fn new_window_pairs(
    pairs: Seq<(PlanetId, PlanetId)>,
    ws: Seq<((PlanetId, PlanetId), u64)>,
    aligned: Seq<(PlanetId, PlanetId)>,
) -> Seq<(PlanetId, PlanetId)>
    decreases pairs.len(),
{
    if pairs.len() == 0 {
        Seq::empty()
    } else {
        let prev = new_window_pairs(pairs.drop_last(), ws, aligned);
        let p = pairs.last();
        if !has_window(ws, p) && aligned.contains(p) {
            prev.push(p)
        } else {
            prev
        }
    }
}

/// No pair or ship is listed twice.
pub open spec fn keys_distinct<K, T>(s: Seq<(K, T)>) -> bool {
    forall|i: int, j: int| 0 <= i < j < s.len() ==> (#[trigger] s[i]).0 != (#[trigger] s[j]).0
}

/// The bookkeeping of the physics.
pub struct PhysicsEngine<V, F> {
    transfer_windows: Vec<((PlanetId, PlanetId), u64)>,
    trajectories: Vec<(ShipId, Trajectory<V, F>)>,
    current_tick: u64,
    needs_tick_processing: bool,
    max_planets: u32,
}

impl<V: Copy, F: Copy> PhysicsEngine<V, F> {
    /// The open transfer windows, each with the tick at which it closes.
    pub closed spec fn windows(&self) -> Seq<((PlanetId, PlanetId), u64)> {
        self.transfer_windows@
    }

    /// The trips under way, each with its ship.
    pub closed spec fn trips(&self) -> Seq<(ShipId, Trajectory<V, F>)> {
        self.trajectories@
    }

    /// The latest tick the physics was told of.
    pub closed spec fn tick(&self) -> u64 {
        self.current_tick
    }

    /// Whether a tick was told of that the physics has not processed yet.
    pub closed spec fn pending(&self) -> bool {
        self.needs_tick_processing
    }

    /// How many planets the physics looks at, at most.
    pub closed spec fn planet_limit(&self) -> u32 {
        self.max_planets
    }

    /// No ship is listed with two trips.
    pub open spec fn wf(&self) -> bool {
        keys_distinct(self.trips())
    }

    /// The events with which the physics processes tick `tick`: each followed planet is
    /// updated, then each trip that has arrived reports the arrival, then each new
    /// transfer window opens.
    pub open spec fn tick_events(&self, aligned: Seq<(PlanetId, PlanetId)>) -> Seq<GameEvent<V, F>> {
        let n = tracked_planet_count(self.planet_limit());
        let updates = Seq::new(n as nat, |i: int| GameEvent::<V, F>::StateChanged(StateChange::PlanetUpdated(i as u32)));
        let arrivals = arrived(self.trips(), self.tick()).map_values(
            |t: (ShipId, Trajectory<V, F>)| GameEvent::<V, F>::SimulationEvent(
                SimulationEvent::ShipArrived { ship: t.0, destination: t.1.destination },
            ),
        );
        let windows = self.opened(aligned).map_values(
            |p: (PlanetId, PlanetId)| GameEvent::<V, F>::SimulationEvent(SimulationEvent::TransferWindowOpen { from: p.0, to: p.1 }),
        );
        updates + arrivals + windows
    }

    /// The pairs whose transfer windows open at the current tick: on every 25th tick, the
    /// aligned pairs of followed planets without an open window.
    pub open spec fn opened(&self, aligned: Seq<(PlanetId, PlanetId)>) -> Seq<(PlanetId, PlanetId)> {
        if self.tick() % TRANSFER_CHECK_INTERVAL == 0 {
            new_window_pairs(
                planet_pairs(tracked_planet_count(self.planet_limit())),
                open_after(self.windows(), self.tick()),
                aligned,
            )
        } else {
            Seq::empty()
        }
    }

    /// Nothing under way, no window open, at tick 0 with nothing to process, following at
    /// most 100 planets.
    pub fn new() -> (r: Self)
        ensures
            r.wf(),
            r.windows() == Seq::<((PlanetId, PlanetId), u64)>::empty(),
            r.trips() == Seq::<(ShipId, Trajectory<V, F>)>::empty(),
            r.tick() == 0,
            !r.pending(),
            r.planet_limit() == MAX_PLANETS,
    {
        PhysicsEngine {
            transfer_windows: Vec::new(),
            trajectories: Vec::new(),
            current_tick: 0,
            needs_tick_processing: false,
            max_planets: MAX_PLANETS,
        }
    }

    /// The latest tick the physics was told of.
    pub fn current_tick(&self) -> (r: u64)
        ensures
            r == self.tick(),
    {
        self.current_tick
    }

    /// Whether a tick waits to be processed.
    pub fn needs_tick_processing(&self) -> (r: bool)
        ensures
            r == self.pending(),
    {
        self.needs_tick_processing
    }

    /// The planets whose orbits are followed: ids 0 up to this number.
    pub fn tracked_planets(&self) -> (r: u32)
        ensures
            r == tracked_planet_count(self.planet_limit()),
    {
        if self.max_planets < 5 {
            self.max_planets
        } else {
            5
        }
    }

    /// Reacts to an event: a completed tick becomes the current tick and waits to be
    /// processed (a tick before the current one is refused with `InvalidOperation`), and
    /// an arrival ends the ship's trip. Move commands are planned by the caller, who works
    /// out the trip and hands it to `insert_trajectory`; here they, like every other
    /// event, change nothing.
    pub fn handle_event(&mut self, event: &GameEvent<V, F>) -> (r: GameResult<()>)
        requires
            old(self).wf(),
        ensures
            final(self).wf(),
            final(self).windows() == old(self).windows(),
            final(self).planet_limit() == old(self).planet_limit(),
            match *event {
                GameEvent::SimulationEvent(SimulationEvent::TickCompleted(t)) => if t < old(self).tick() {
                    &&& r matches Err(GameError::InvalidOperation(m))
                    &&& m@ == "Tick went backwards: "@ + decimal(t as nat) + " < "@ + decimal(old(self).tick() as nat)
                    &&& *final(self) == *old(self)
                } else {
                    &&& r.is_ok()
                    &&& final(self).tick() == t
                    &&& final(self).pending()
                    &&& final(self).trips() == old(self).trips()
                },
                GameEvent::SimulationEvent(SimulationEvent::ShipArrived { ship, .. }) => {
                    &&& r.is_ok()
                    &&& final(self).tick() == old(self).tick()
                    &&& final(self).pending() == old(self).pending()
                    &&& final(self).trips() == without_trip(old(self).trips(), ship)
                },
                _ => r.is_ok() && *final(self) == *old(self),
            },
    {
        match event {
            GameEvent::SimulationEvent(SimulationEvent::TickCompleted(tick)) => {
                if *tick < self.current_tick {
                    let mut m = String::from_str("Tick went backwards: ");
                    crate::text::append_decimal(&mut m, *tick);
                    m.append(" < ");
                    crate::text::append_decimal(&mut m, self.current_tick);
                    return Err(GameError::InvalidOperation(m));
                }
                self.current_tick = *tick;
                self.needs_tick_processing = true;
                Ok(())
            },
            GameEvent::SimulationEvent(SimulationEvent::ShipArrived { ship, .. }) => {
                self.remove_trajectory(*ship);
                Ok(())
            },
            _ => Ok(()),
        }
    }

    /// Ends the trip of ship `ship_id`, if it has one.
    pub fn remove_trajectory(&mut self, ship_id: ShipId)
        requires
            old(self).wf(),
        ensures
            final(self).wf(),
            final(self).trips() == without_trip(old(self).trips(), ship_id),
            final(self).windows() == old(self).windows(),
            final(self).tick() == old(self).tick(),
            final(self).pending() == old(self).pending(),
            final(self).planet_limit() == old(self).planet_limit(),
    {
        let ghost ts = self.trajectories@;
        let mut i: usize = 0;
        while i < self.trajectories.len()
            invariant_except_break
                forall|j: int| 0 <= j < i ==> (#[trigger] ts[j]).0 != ship_id,
            invariant
                i <= ts.len(),
                self.trajectories@ == ts,
            ensures
                i < ts.len() ==> ts[i as int].0 == ship_id,
                forall|j: int| 0 <= j < i ==> (#[trigger] ts[j]).0 != ship_id,
            decreases ts.len() - i,
        {
            if self.trajectories[i].0 == ship_id {
                break;
            }
            i = i + 1;
        }
        proof {
            lemma_trip_position(ts, ship_id, i as int);
        }
        if i < self.trajectories.len() {
            self.trajectories.remove(i);
            proof {
                assert forall|a: int, b: int| 0 <= a < b < self.trajectories@.len() implies
                    (#[trigger] self.trajectories@[a]).0 != (#[trigger] self.trajectories@[b]).0 by {
                    let a0 = if a < i { a } else { a + 1 };
                    let b0 = if b < i { b } else { b + 1 };
                    assert(self.trajectories@[a] == ts[a0]);
                    assert(self.trajectories@[b] == ts[b0]);
                }
            }
        }
    }

    /// Records the trip of ship `ship_id`, replacing any trip it had.
    pub fn insert_trajectory(&mut self, ship_id: ShipId, trajectory: Trajectory<V, F>)
        requires
            old(self).wf(),
        ensures
            final(self).wf(),
            final(self).trips() == with_trip(old(self).trips(), ship_id, trajectory),
            final(self).windows() == old(self).windows(),
            final(self).tick() == old(self).tick(),
            final(self).pending() == old(self).pending(),
            final(self).planet_limit() == old(self).planet_limit(),
    {
        let ghost ts = self.trajectories@;
        let mut i: usize = 0;
        while i < self.trajectories.len()
            invariant_except_break
                forall|j: int| 0 <= j < i ==> (#[trigger] ts[j]).0 != ship_id,
            invariant
                i <= ts.len(),
                self.trajectories@ == ts,
            ensures
                i < ts.len() ==> ts[i as int].0 == ship_id,
                forall|j: int| 0 <= j < i ==> (#[trigger] ts[j]).0 != ship_id,
            decreases ts.len() - i,
        {
            if self.trajectories[i].0 == ship_id {
                break;
            }
            i = i + 1;
        }
        proof {
            lemma_trip_position(ts, ship_id, i as int);
        }
        if i < self.trajectories.len() {
            self.trajectories.set(i, (ship_id, trajectory));
            proof {
                assert forall|a: int, b: int| 0 <= a < b < self.trajectories@.len() implies
                    (#[trigger] self.trajectories@[a]).0 != (#[trigger] self.trajectories@[b]).0 by {
                    assert(self.trajectories@[a].0 == ts[a].0);
                    assert(self.trajectories@[b].0 == ts[b].0);
                }
            }
        } else {
            self.trajectories.push((ship_id, trajectory));
            proof {
                assert forall|a: int, b: int| 0 <= a < b < self.trajectories@.len() implies
                    (#[trigger] self.trajectories@[a]).0 != (#[trigger] self.trajectories@[b]).0 by {
                    if b == ts.len() {
                        assert(ts[a].0 != ship_id);
                    }
                }
            }
        }
    }

    /// The trips under way, each with its ship.
    pub fn get_active_trajectories(&self) -> (r: &Vec<(ShipId, Trajectory<V, F>)>)
        ensures
            r@ == self.trips(),
    {
        &self.trajectories
    }

    /// How many transfer windows are listed.
    pub fn get_transfer_window_count(&self) -> (r: usize)
        ensures
            r == self.windows().len(),
    {
        self.transfer_windows.len()
    }

    /// Whether the transfer window between planets `from` and `to` (in either order) is
    /// open after the current tick.
    pub fn is_transfer_window_open(&self, from: PlanetId, to: PlanetId) -> (r: bool)
        ensures
            r == exists|i: int|
                0 <= i < self.windows().len() && (#[trigger] self.windows()[i]).0 == (
                    if from <= to { (from, to) } else { (to, from) }
                ) && self.windows()[i].1 > self.tick(),
    {
        let pair = if from <= to { (from, to) } else { (to, from) };
        let ghost want = if from <= to { (from, to) } else { (to, from) };
        assert(pair == want);
        let mut i: usize = 0;
        while i < self.transfer_windows.len()
            invariant
                i <= self.transfer_windows@.len(),
                pair == want,
                want == (if from <= to { (from, to) } else { (to, from) }),
                forall|j: int| 0 <= j < i ==> !((#[trigger] self.transfer_windows@[j]).0 == pair
                    && self.transfer_windows@[j].1 > self.current_tick),
            decreases self.transfer_windows@.len() - i,
        {
            let (p, expiry) = self.transfer_windows[i];
            if p.0 == pair.0 && p.1 == pair.1 && expiry > self.current_tick {
                assert(self.windows()[i as int].0 == want && self.windows()[i as int].1 > self.tick());

                return true;
            }
            i = i + 1;
        }
        false
    }

    /// Processes a waiting tick, if any, with the events of `tick_events` for the pairs of
    /// planets `aligned` at that tick: the trips that have arrived end, windows that have
    /// closed are dropped, and new windows are listed, each closing 30 ticks later.
    pub fn update(&mut self, aligned: &Vec<(PlanetId, PlanetId)>, event_bus: &mut EventBus<V, F>) -> (r: GameResult<()>)
        requires
            old(self).wf(),
            old(event_bus).wf(),
            old(self).pending() ==> old(self).tick() + TRANSFER_WINDOW_DURATION <= u64::MAX,
        ensures
            r.is_ok(),
            final(self).wf(),
            final(event_bus).wf(),
            final(event_bus).limit() == old(event_bus).limit(),
            final(event_bus).order() == old(event_bus).order(),
            final(event_bus).subscriptions() == old(event_bus).subscriptions(),
            !old(self).pending() ==> *final(self) == *old(self) && *final(event_bus) == *old(event_bus),
            old(self).pending() ==> {
                let events = old(self).tick_events(aligned@);
                &&& !final(self).pending()
                &&& final(self).tick() == old(self).tick()
                &&& final(self).planet_limit() == old(self).planet_limit()
                &&& final(self).trips() == under_way(old(self).trips(), old(self).tick())
                &&& final(self).windows() == open_after(old(self).windows(), old(self).tick()) + old(self).opened(
                    aligned@,
                ).map_values(|p: (PlanetId, PlanetId)| (p, (old(self).tick() + TRANSFER_WINDOW_DURATION) as u64))
                &&& final(event_bus).queued() == old(event_bus).queued() + events
                &&& same_events(
                    final(event_bus).history(),
                    recent_after_all(old(event_bus).history(), events, old(event_bus).limit()),
                )
            },
    {
        if !self.needs_tick_processing {
            return Ok(());
        }
        let ghost before = *self;
        let tick = self.current_tick;
        let mut events: Vec<GameEvent<V, F>> = Vec::new();
        let n = self.tracked_planets();
        let mut id: u32 = 0;
        while id < n
            invariant
                id <= n,
                events@ == Seq::new(id as nat, |i: int| GameEvent::<V, F>::StateChanged(StateChange::PlanetUpdated(i as u32))),
            decreases n - id,
        {
            events.push(GameEvent::StateChanged(StateChange::PlanetUpdated(id)));
            assert(events@ =~= Seq::new((id + 1) as nat, |i: int| GameEvent::<V, F>::StateChanged(StateChange::PlanetUpdated(i as u32))));
            id = id + 1;
        }
        let ghost updates = events@;
        let arrivals = self.take_arrivals(tick);
        let mut k: usize = 0;
        while k < arrivals.len()
            invariant
                k <= arrivals@.len(),
                events@ == updates + arrivals@.take(k as int).map_values(
                    |t: (ShipId, Trajectory<V, F>)| GameEvent::<V, F>::SimulationEvent(
                        SimulationEvent::ShipArrived { ship: t.0, destination: t.1.destination },
                    ),
                ),
            decreases arrivals@.len() - k,
        {
            let (ship, t) = arrivals[k];
            events.push(GameEvent::SimulationEvent(SimulationEvent::ShipArrived { ship, destination: t.destination }));
            assert(arrivals@.take(k + 1) =~= arrivals@.take(k as int).push(arrivals@[k as int]));
            assert(events@ =~= updates + arrivals@.take(k + 1).map_values(
                |t: (ShipId, Trajectory<V, F>)| GameEvent::<V, F>::SimulationEvent(
                    SimulationEvent::ShipArrived { ship: t.0, destination: t.1.destination },
                ),
            ));
            k = k + 1;
        }
        assert(arrivals@.take(arrivals@.len() as int) =~= arrivals@);
        let ghost before_windows = events@;
        let opened = self.check_transfer_windows(aligned);
        let mut w: usize = 0;
        while w < opened.len()
            invariant
                w <= opened@.len(),
                events@ == before_windows + opened@.take(w as int).map_values(
                    |p: (PlanetId, PlanetId)| GameEvent::<V, F>::SimulationEvent(SimulationEvent::TransferWindowOpen { from: p.0, to: p.1 }),
                ),
            decreases opened@.len() - w,
        {
            let p = opened[w];
            events.push(GameEvent::SimulationEvent(SimulationEvent::TransferWindowOpen { from: p.0, to: p.1 }));
            assert(opened@.take(w + 1) =~= opened@.take(w as int).push(opened@[w as int]));
            assert(events@ =~= before_windows + opened@.take(w + 1).map_values(
                |p: (PlanetId, PlanetId)| GameEvent::<V, F>::SimulationEvent(SimulationEvent::TransferWindowOpen { from: p.0, to: p.1 }),
            ));
            w = w + 1;
        }
        assert(opened@.take(opened@.len() as int) =~= opened@);
        assert(events@ =~= before.tick_events(aligned@));
        event_bus.queue_events(events);
        self.needs_tick_processing = false;
        Ok(())
    }

    /// Ends the trips that have arrived by `tick` and returns them, in order.
    fn take_arrivals(&mut self, tick: u64) -> (r: Vec<(ShipId, Trajectory<V, F>)>)
        requires
            old(self).wf(),
        ensures
            final(self).wf(),
            r@ == arrived(old(self).trips(), tick),
            final(self).trips() == under_way(old(self).trips(), tick),
            final(self).windows() == old(self).windows(),
            final(self).tick() == old(self).tick(),
            final(self).pending() == old(self).pending(),
            final(self).planet_limit() == old(self).planet_limit(),
    {
        let ghost ts = self.trajectories@;
        let mut done: Vec<(ShipId, Trajectory<V, F>)> = Vec::new();
        let mut kept: Vec<(ShipId, Trajectory<V, F>)> = Vec::new();
        let mut i: usize = 0;
        while i < self.trajectories.len()
            invariant
                i <= ts.len(),
                self.trajectories@ == ts,
                done@ == arrived(ts.take(i as int), tick),
                kept@ == under_way(ts.take(i as int), tick),
            decreases ts.len() - i,
        {
            assert(ts.take(i + 1).drop_last() =~= ts.take(i as int));
            let t = self.trajectories[i];
            if tick >= t.1.arrival_time {
                done.push(t);
            } else {
                kept.push(t);
            }
            i = i + 1;
        }
        assert(ts.take(ts.len() as int) =~= ts);
        proof {
            lemma_under_way_distinct(ts, tick);
        }
        self.trajectories = kept;
        done
    }

    /// Drops the windows that have closed by the current tick and, on every 25th tick,
    /// lists a window for each aligned pair of followed planets that has none, closing 30
    /// ticks later. Returns the pairs whose windows were listed, in order.
    fn check_transfer_windows(&mut self, aligned: &Vec<(PlanetId, PlanetId)>) -> (r: Vec<(PlanetId, PlanetId)>)
        requires
            old(self).wf(),
            old(self).tick() + TRANSFER_WINDOW_DURATION <= u64::MAX,
        ensures
            final(self).wf(),
            r@ == old(self).opened(aligned@),
            final(self).windows() == open_after(old(self).windows(), old(self).tick()) + r@.map_values(
                |p: (PlanetId, PlanetId)| (p, (old(self).tick() + TRANSFER_WINDOW_DURATION) as u64),
            ),
            final(self).trips() == old(self).trips(),
            final(self).tick() == old(self).tick(),
            final(self).pending() == old(self).pending(),
            final(self).planet_limit() == old(self).planet_limit(),
    {
        let tick = self.current_tick;
        let ghost ws = self.transfer_windows@;
        let mut live: Vec<((PlanetId, PlanetId), u64)> = Vec::new();
        let mut i: usize = 0;
        while i < self.transfer_windows.len()
            invariant
                i <= ws.len(),
                self.transfer_windows@ == ws,
                live@ == open_after(ws.take(i as int), tick),
            decreases ws.len() - i,
        {
            assert(ws.take(i + 1).drop_last() =~= ws.take(i as int));
            let w = self.transfer_windows[i];
            if w.1 > tick {
                live.push(w);
            }
            i = i + 1;
        }
        assert(ws.take(ws.len() as int) =~= ws);
        let ghost base = live@;
        let mut opened: Vec<(PlanetId, PlanetId)> = Vec::new();
        if tick % TRANSFER_CHECK_INTERVAL == 0 {
            let n = self.tracked_planets();
            let mut b: u32 = 0;
            while b < n
                invariant
                    b <= n,
                    n <= 5,
                    live@ == base,
                    opened@ == new_window_pairs(planet_pairs(b), base, aligned@),
                decreases n - b,
            {
                let mut a: u32 = 0;
                while a < b
                    invariant
                        a <= b,
                        b < n,
                        n <= 5,
                        live@ == base,
                        opened@ == new_window_pairs(
                            planet_pairs(b) + Seq::new(a as nat, |x: int| (x as u32, b)),
                            base,
                            aligned@,
                        ),
                    decreases b - a,
                {
                    let pair = (a, b);
                    let listed = has_window_exec(&live, pair);
                    let is_aligned = contains_pair(aligned, pair);
                    let ghost prefix = planet_pairs(b) + Seq::new(a as nat, |x: int| (x as u32, b));
                    let ghost next = planet_pairs(b) + Seq::new((a + 1) as nat, |x: int| (x as u32, b));
                    assert(next.drop_last() =~= prefix);
                    assert(next.last() == pair);
                    if !listed && is_aligned {
                        opened.push(pair);
                    }
                    a = a + 1;
                }
                proof {
                    assert(planet_pairs((b + 1) as u32) =~= planet_pairs(b) + Seq::new(b as nat, |x: int| (x as u32, b)));
                }
                b = b + 1;
            }
        }
        let ghost opened_seq = opened@;
        assert(opened_seq == self.opened(aligned@)) by {
            if tick % TRANSFER_CHECK_INTERVAL == 0 {
                assert(opened_seq == new_window_pairs(planet_pairs(tracked_planet_count(self.max_planets)), base, aligned@));
            }
        }
        let expiry = tick + TRANSFER_WINDOW_DURATION;
        let mut j: usize = 0;
        while j < opened.len()
            invariant
                j <= opened@.len(),
                opened@ == opened_seq,
                live@ == base + opened_seq.take(j as int).map_values(|p: (PlanetId, PlanetId)| (p, expiry)),
            decreases opened@.len() - j,
        {
            let p = opened[j];
            live.push((p, expiry));
            assert(opened_seq.take(j + 1) =~= opened_seq.take(j as int).push(opened_seq[j as int]));
            assert(live@ =~= base + opened_seq.take(j + 1).map_values(|p: (PlanetId, PlanetId)| (p, expiry)));
            j = j + 1;
        }
        assert(opened_seq.take(opened_seq.len() as int) =~= opened_seq);
        self.transfer_windows = live;
        opened
    }
}

/// The trips of `ts` without that of ship `ship`.
pub open spec fn without_trip<V, F>(ts: Seq<(ShipId, Trajectory<V, F>)>, ship: ShipId) -> Seq<(ShipId, Trajectory<V, F>)> {
    if exists|i: int| 0 <= i < ts.len() && (#[trigger] ts[i]).0 == ship {
        ts.remove(choose|i: int| 0 <= i < ts.len() && (#[trigger] ts[i]).0 == ship)
    } else {
        ts
    }
}

/// The trips of `ts` with ship `ship` on trip `t`: its old trip is replaced, or the trip
/// is added last.
pub open spec fn with_trip<V, F>(ts: Seq<(ShipId, Trajectory<V, F>)>, ship: ShipId, t: Trajectory<V, F>) -> Seq<(ShipId, Trajectory<V, F>)> {
    if exists|i: int| 0 <= i < ts.len() && (#[trigger] ts[i]).0 == ship {
        ts.update(choose|i: int| 0 <= i < ts.len() && (#[trigger] ts[i]).0 == ship, (ship, t))
    } else {
        ts.push((ship, t))
    }
}

proof fn lemma_trip_position<V, F>(ts: Seq<(ShipId, Trajectory<V, F>)>, ship: ShipId, i: int)
    requires
        keys_distinct(ts),
        0 <= i <= ts.len(),
        i < ts.len() ==> ts[i].0 == ship,
        forall|j: int| 0 <= j < i ==> (#[trigger] ts[j]).0 != ship,
    ensures
        i < ts.len() ==> (choose|k: int| 0 <= k < ts.len() && (#[trigger] ts[k]).0 == ship) == i,
        i == ts.len() ==> !exists|k: int| 0 <= k < ts.len() && (#[trigger] ts[k]).0 == ship,
{
    if i < ts.len() {
        let c = choose|k: int| 0 <= k < ts.len() && (#[trigger] ts[k]).0 == ship;
        assert(0 <= c < ts.len() && ts[c].0 == ship);
        if c != i {
            if c < i {
                assert(ts[c].0 != ship);
            } else {
                assert(ts[i].0 != ts[c].0);
            }
        }
    }
}

proof fn lemma_under_way_distinct<V, F>(ts: Seq<(ShipId, Trajectory<V, F>)>, tick: u64)
    requires
        keys_distinct(ts),
    ensures
        keys_distinct(under_way(ts, tick)),
        forall|x: int| 0 <= x < under_way(ts, tick).len() ==> ts.contains(#[trigger] under_way(ts, tick)[x]),
    decreases ts.len(),
{
    if ts.len() > 0 {
        let rest = ts.drop_last();
        assert forall|a: int, b: int| 0 <= a < b < rest.len() implies (#[trigger] rest[a]).0 != (#[trigger] rest[b]).0 by {
            assert(rest[a] == ts[a] && rest[b] == ts[b]);
        }
        lemma_under_way_distinct(rest, tick);
        let u = under_way(ts, tick);
        let u0 = under_way(rest, tick);
        assert forall|x: int| 0 <= x < u.len() implies ts.contains(#[trigger] u[x]) by {
            if x < u0.len() {
                assert(u[x] == u0[x]);
                assert(rest.contains(u0[x]));
                let m = choose|m: int| 0 <= m < rest.len() && rest[m] == u0[x];
                assert(ts[m] == u0[x]);
            } else {
                assert(ts[ts.len() - 1] == u[x]);
            }
        }
        if tick < ts.last().1.arrival_time {
            assert forall|a: int, b: int| 0 <= a < b < u.len() implies (#[trigger] u[a]).0 != (#[trigger] u[b]).0 by {
                if b == u.len() - 1 {
                    assert(u[a] == u0[a]);
                    assert(rest.contains(u0[a]));
                    let m = choose|m: int| 0 <= m < rest.len() && rest[m] == u0[a];
                    assert(ts[m] == rest[m]);
                    assert(ts[m].0 != ts[ts.len() - 1].0);
                } else {
                    assert(u[a] == u0[a] && u[b] == u0[b]);
                }
            }
        }
    }
}

/// Whether `ws` holds a window for `pair`.
fn has_window_exec(ws: &Vec<((PlanetId, PlanetId), u64)>, pair: (PlanetId, PlanetId)) -> (r: bool)
    ensures
        r == has_window(ws@, pair),
{
    let mut i: usize = 0;
    while i < ws.len()
        invariant
            i <= ws@.len(),
            forall|j: int| 0 <= j < i ==> (#[trigger] ws@[j]).0 != pair,
        decreases ws@.len() - i,
    {
        if ws[i].0.0 == pair.0 && ws[i].0.1 == pair.1 {
            return true;
        }
        i = i + 1;
    }
    false
}

/// Whether `pairs` holds `pair`.
fn contains_pair(pairs: &Vec<(PlanetId, PlanetId)>, pair: (PlanetId, PlanetId)) -> (r: bool)
    ensures
        r == pairs@.contains(pair),
{
    let mut i: usize = 0;
    while i < pairs.len()
        invariant
            i <= pairs@.len(),
            forall|j: int| 0 <= j < i ==> pairs@[j] != pair,
        decreases pairs@.len() - i,
    {
        if pairs[i].0 == pair.0 && pairs[i].1 == pair.1 {
            assert(pairs@[i as int] == pair);
            return true;
        }
        i = i + 1;
    }
    false
}

} // verus!
