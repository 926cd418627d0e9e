//! Population growth from food surplus, the pending migrations carried by transport
//! ships, and the rule that a tenth of the workers stays unassigned.
use vstd::prelude::*;
use std::collections::HashMap;
use crate::events::{
    EventBus, GameEvent, PlayerCommand, SimulationEvent, StateChange, same_events, recent_after_all,
};
use crate::text::{signed_decimal, append_signed_decimal};
use crate::types::{fits_i32, GameError, GameResult, PlanetId, ResourceBundle, ResourceType, ShipId};

verus! {

broadcast use vstd::std_specs::hash::group_hash_axioms;

/// How long, in ticks, a migration order stays pending.
pub const MAX_MIGRATION_AGE: u64 = 1000;

/// The growth rate, in percent per tick, of a planet with enough food.
pub const GROWTH_PERCENT: u32 = 2;

/// A move of people from one planet to another aboard a transport ship.
#[derive(Debug, Clone, Copy, PartialEq, Eq, Structural)]
pub struct MigrationOrder {
    /// Planet the people leave.
    pub from: PlanetId,
    /// Planet the people go to.
    pub to: PlanetId,
    /// Number of people moving.
    pub population: i32,
    /// Ship carrying them.
    pub ship_id: ShipId,
    /// Tick at which the order was given.
    pub created_tick: u64,
}

/// `a - b`, or 0 when `b` exceeds `a`.
pub open spec fn saturating_sub_u64(a: u64, b: u64) -> u64 {
    if a >= b {
        (a - b) as u64
    } else {
        0
    }
}

/// The order is still pending at tick `tick`: it is at most `MAX_MIGRATION_AGE` ticks old.
pub open spec fn migration_live(o: MigrationOrder, tick: u64) -> bool {
    saturating_sub_u64(tick, o.created_tick) <= MAX_MIGRATION_AGE
}

/// What a tick of growth does to a planet with `population` people and `food` food.
pub enum GrowthStep {
    /// Nothing happens.
    Idle,
    /// There is not enough food for everyone.
    Shortage,
    /// The people eat and grow by the given number.
    Grow(i32),
    /// The people eat without growing.
    Eat,
}

/// The outcome of a tick of growth: no people, no change; too little food for one unit per
/// person, a shortage; a surplus of more than a fifth of what is eaten, growth by two
/// percent (rounded down; none when that is zero); otherwise the people just eat.
pub open spec fn growth_step(population: int, food: int) -> GrowthStep {
    if population <= 0 {
        GrowthStep::Idle
    } else if food < population {
        GrowthStep::Shortage
    } else if 5 * (food - population) > population {
        if population * 2 / 100 > 0 {
            GrowthStep::Grow((population * 2 / 100) as i32)
        } else {
            GrowthStep::Idle
        }
    } else {
        GrowthStep::Eat
    }
}

/// The food eaten by `population` people in one tick, as a bundle.
pub open spec fn food_bundle(population: i32) -> ResourceBundle {
    ResourceBundle { minerals: 0, food: population, energy: 0, alloys: 0, components: 0, fuel: 0 }
}

/// The events a tick of growth on `planet` raises.
pub open spec fn growth_events<V, F>(planet: PlanetId, population: i32, food: i32) -> Seq<GameEvent<V, F>> {
    let eat = GameEvent::PlayerCommand(
        PlayerCommand::TransferResources { from: planet, to: planet, resources: food_bundle(population) },
    );
    match growth_step(population as int, food as int) {
        GrowthStep::Idle => Seq::empty(),
        GrowthStep::Shortage => seq![
            GameEvent::SimulationEvent(
                SimulationEvent::ResourceShortage { planet, resource: ResourceType::Food },
            ),
        ],
        GrowthStep::Grow(amount) => seq![
            eat,
            GameEvent::SimulationEvent(SimulationEvent::PopulationGrowth { planet, amount }),
            GameEvent::StateChanged(StateChange::PlanetUpdated(planet)),
        ],
        GrowthStep::Eat => seq![eat],
    }
}

/// Which planets are growing, the migrations under way, and the current tick.
pub struct PopulationSystem {
    growth_modifiers: HashMap<PlanetId, u32>,
    migration_queue: Vec<MigrationOrder>,
    current_tick: u64,
}

impl PopulationSystem {
    /// Growth rate, in percent, of each growing planet.
    pub closed spec fn growing(&self) -> Map<PlanetId, u32> {
        self.growth_modifiers@
    }

    /// The pending migration orders, oldest first.
    pub closed spec fn migrations(&self) -> Seq<MigrationOrder> {
        self.migration_queue@
    }

    /// The tick last reported.
    pub closed spec fn tick(&self) -> u64 {
        self.current_tick
    }

    /// No planet growing, no migration, tick 0.
    pub fn new() -> (r: Self)
        ensures
            r.growing() == Map::<PlanetId, u32>::empty(),
            r.migrations() == Seq::<MigrationOrder>::empty(),
            r.tick() == 0,
    {
        let r = PopulationSystem {
            growth_modifiers: HashMap::new(),
            migration_queue: Vec::new(),
            current_tick: 0,
        };
        assert(r.growth_modifiers@ =~= Map::<PlanetId, u32>::empty());
        r
    }

    /// Growth rate, in percent, of a planet that is growing.
    pub fn get_growth_rate(&self, planet_id: PlanetId) -> (r: Option<u32>)
        ensures
            r matches Some(g) ==> self.growing().contains_key(planet_id) && g == self.growing()[planet_id],
            r is None ==> !self.growing().contains_key(planet_id),
    {
        match self.growth_modifiers.get(&planet_id) {
            Some(g) => Some(*g),
            None => None,
        }
    }

    /// Number of pending migration orders.
    pub fn pending_migrations(&self) -> (r: usize)
        ensures
            r == self.migrations().len(),
    {
        self.migration_queue.len()
    }

    /// Adds a migration order at the back of the queue.
    pub fn queue_migration(&mut self, order: MigrationOrder)
        ensures
            final(self).migrations() == old(self).migrations().push(order),
            final(self).growing() == old(self).growing(),
            final(self).tick() == old(self).tick(),
    {
        self.migration_queue.push(order);
    }

    /// Drops the migration orders more than `MAX_MIGRATION_AGE` ticks old, keeping the
    /// others in order.
    pub fn cleanup_expired_migrations(&mut self)
        ensures
            final(self).migrations() == old(self).migrations().filter(
                |o: MigrationOrder| migration_live(o, old(self).tick()),
            ),
            final(self).growing() == old(self).growing(),
            final(self).tick() == old(self).tick(),
    {
        let tick = self.current_tick;
        let ghost q = self.migration_queue@;
        let ghost live = |o: MigrationOrder| migration_live(o, tick);
        let mut kept: Vec<MigrationOrder> = Vec::new();
        let mut i: usize = 0;
        assert(q.subrange(0, 0).filter(live) =~= Seq::<MigrationOrder>::empty());
        while i < self.migration_queue.len()
            invariant
                i <= q.len(),
                q == self.migration_queue@,
                live == (|o: MigrationOrder| migration_live(o, tick)),
                kept@ == q.subrange(0, i as int).filter(live),
            decreases q.len() - i,
        {
            proof {
                assert(q.subrange(0, i + 1).drop_last() =~= q.subrange(0, i as int));
                reveal_with_fuel(Seq::<_>::filter, 1);
            }
            let o = self.migration_queue[i];
            if tick.saturating_sub(o.created_tick) <= MAX_MIGRATION_AGE {
                kept.push(o);
            }
            i = i + 1;
        }
        assert(q.subrange(0, q.len() as int) =~= q);
        self.migration_queue = kept;
    }

    /// A frame's work: drops the expired migration orders.
    pub fn update(&mut self) -> (r: GameResult<()>)
        ensures
            r is Ok,
            final(self).migrations() == old(self).migrations().filter(
                |o: MigrationOrder| migration_live(o, old(self).tick()),
            ),
            final(self).growing() == old(self).growing(),
            final(self).tick() == old(self).tick(),
    {
        self.cleanup_expired_migrations();
        Ok(())
    }

    /// A tick of growth on planet `planet_id` with `population` people and `food_available`
    /// food: nothing without people; a food shortage when there is less than one unit
    /// per person; with a surplus of more than a fifth of what is eaten, the food is
    /// eaten and the population grows by two percent (rounded down; nothing at all
    /// when that is zero); otherwise the food is eaten. The planet counts as growing
    /// exactly after a growth. Fails with `InvalidOperation` on negative food.
    pub fn process_planet_growth<V: Copy, F: Copy>(
        &mut self,
        planet_id: PlanetId,
        population: i32,
        food_available: i32,
        event_bus: &mut EventBus<V, F>,
    ) -> (r: GameResult<()>)
        requires
            old(event_bus).wf(),
        ensures
            final(event_bus).wf(),
            final(event_bus).limit() == old(event_bus).limit(),
            final(event_bus).order() == old(event_bus).order(),
            final(event_bus).subscriptions() == old(event_bus).subscriptions(),
            final(self).migrations() == old(self).migrations(),
            final(self).tick() == old(self).tick(),
            r.is_err() <==> population > 0 && food_available < 0,
            r matches Err(e) ==> (e matches GameError::InvalidOperation(m) && m@
                == "Food availability cannot be negative"@),
            r.is_err() ==> *final(self) == *old(self) && *final(event_bus) == *old(event_bus),
            r.is_ok() ==> {
                let es = growth_events::<V, F>(planet_id, population, food_available);
                &&& final(event_bus).queued() == old(event_bus).queued() + es
                &&& same_events(
                    final(event_bus).history(),
                    recent_after_all(old(event_bus).history(), es, old(event_bus).limit()),
                )
                &&& final(self).growing() == match growth_step(population as int, food_available as int) {
                    GrowthStep::Idle => old(self).growing(),
                    GrowthStep::Grow(_) => old(self).growing().insert(planet_id, GROWTH_PERCENT),
                    _ => old(self).growing().remove(planet_id),
                }
            },
    {
        if population <= 0 {
            proof {
                assert(recent_after_all(event_bus.history(), Seq::<GameEvent<V, F>>::empty(), event_bus.limit())
                    == event_bus.history());
                assert(event_bus.queued() + Seq::<GameEvent<V, F>>::empty() =~= event_bus.queued());
                lemma_same_events_refl(event_bus.history());
            }
            return Ok(());
        }
        if food_available < 0 {
            return Err(GameError::InvalidOperation("Food availability cannot be negative".to_string()));
        }
        let food_consumed_per_tick = population;
        let mut events: Vec<GameEvent<V, F>> = Vec::new();
        if food_available < food_consumed_per_tick {
            events.push(
                GameEvent::SimulationEvent(
                    SimulationEvent::ResourceShortage { planet: planet_id, resource: ResourceType::Food },
                ),
            );
            self.growth_modifiers.remove(&planet_id);
        } else {
            let food_surplus = food_available - food_consumed_per_tick;
            let food_cost = ResourceBundle {
                minerals: 0,
                food: food_consumed_per_tick,
                energy: 0,
                alloys: 0,
                components: 0,
                fuel: 0,
            };
            if 5 * (food_surplus as i64) > population as i64 {
                let growth_amount = population / 50;
                proof {
                    assert(population * 2 / 100 == population / 50);
                }
                if growth_amount > 0 {
                    self.growth_modifiers.insert(planet_id, GROWTH_PERCENT);
                    events.push(
                        GameEvent::PlayerCommand(
                            PlayerCommand::TransferResources {
                                from: planet_id,
                                to: planet_id,
                                resources: food_cost,
                            },
                        ),
                    );
                    events.push(
                        GameEvent::SimulationEvent(
                            SimulationEvent::PopulationGrowth { planet: planet_id, amount: growth_amount },
                        ),
                    );
                    events.push(GameEvent::StateChanged(StateChange::PlanetUpdated(planet_id)));
                }
            } else {
                self.growth_modifiers.remove(&planet_id);
                events.push(
                    GameEvent::PlayerCommand(
                        PlayerCommand::TransferResources { from: planet_id, to: planet_id, resources: food_cost },
                    ),
                );
            }
        }
        proof {
            assert(events@ =~= growth_events::<V, F>(planet_id, population, food_available));
            assert(self.growth_modifiers@ =~= match growth_step(population as int, food_available as int) {
                GrowthStep::Idle => old(self).growing(),
                GrowthStep::Grow(_) => old(self).growing().insert(planet_id, GROWTH_PERCENT),
                _ => old(self).growing().remove(planet_id),
            });
        }
        event_bus.queue_events(events);
        Ok(())
    }

    /// Follows the game: a completed tick sets the current tick; a ship's arrival ends the
    /// first migration order it carries. Refuses, with `InvalidOperation`, a worker
    /// allocation that leaves fewer than a tenth of its workers unassigned, and a transfer
    /// from a planet to itself.
    pub fn handle_event<V, F>(&mut self, event: &GameEvent<V, F>) -> (r: GameResult<()>)
        requires
            event matches GameEvent::PlayerCommand(PlayerCommand::AllocateWorkers { allocation, .. })
                ==> fits_i32(allocation.sum_spec()) && fits_i32(allocation.agriculture + allocation.mining)
                && fits_i32(allocation.agriculture + allocation.mining + allocation.industry)
                && fits_i32(allocation.agriculture + allocation.mining + allocation.industry + allocation.research)
                && fits_i32(allocation.agriculture + allocation.mining + allocation.industry + allocation.research
                    + allocation.military),
        ensures
            final(self).growing() == old(self).growing(),
            match *event {
                GameEvent::SimulationEvent(SimulationEvent::TickCompleted(t)) => {
                    &&& r is Ok
                    &&& final(self).tick() == t
                    &&& final(self).migrations() == old(self).migrations()
                },
                GameEvent::SimulationEvent(SimulationEvent::ShipArrived { ship, .. }) => {
                    &&& r is Ok
                    &&& final(self).tick() == old(self).tick()
                    &&& if exists|i: int| 0 <= i < old(self).migrations().len()
                        && (#[trigger] old(self).migrations()[i]).ship_id == ship {
                        exists|i: int| 0 <= i < old(self).migrations().len()
                            && (#[trigger] old(self).migrations()[i]).ship_id == ship
                            && (forall|j: int| 0 <= j < i ==> (#[trigger] old(self).migrations()[j]).ship_id != ship)
                            && final(self).migrations() == old(self).migrations().remove(i)
                    } else {
                        final(self).migrations() == old(self).migrations()
                    }
                },
                GameEvent::PlayerCommand(PlayerCommand::AllocateWorkers { allocation, .. }) => {
                    let total = allocation.sum_spec();
                    &&& *final(self) == *old(self)
                    &&& r.is_err() <==> total > 0 && allocation.unassigned < total / 10
                    &&& r matches Err(e) ==> (e matches GameError::InvalidOperation(m) && m@
                        == "Must maintain at least 10% unassigned workers. Required: "@
                            + signed_decimal(total / 10) + ", Provided: "@ + signed_decimal(
                            allocation.unassigned as int,
                        ))
                },
                GameEvent::PlayerCommand(PlayerCommand::TransferResources { from, to, .. }) => {
                    &&& *final(self) == *old(self)
                    &&& r.is_err() <==> from == to
                    &&& r matches Err(e) ==> (e matches GameError::InvalidOperation(m) && m@
                        == "Cannot transfer resources to the same planet"@)
                },
                _ => r is Ok && *final(self) == *old(self),
            },
    {
        match event {
            GameEvent::SimulationEvent(SimulationEvent::TickCompleted(tick)) => {
                self.current_tick = *tick;
            },
            GameEvent::SimulationEvent(SimulationEvent::ShipArrived { ship, .. }) => {
                let mut i: usize = 0;
                while i < self.migration_queue.len()
                    invariant_except_break
                        forall|j: int| 0 <= j < i ==> (#[trigger] self.migration_queue@[j]).ship_id != *ship,
                    invariant
                        i <= self.migration_queue@.len(),
                        self.migration_queue@ == old(self).migration_queue@,
                    ensures
                        i < self.migration_queue@.len() ==> self.migration_queue@[i as int].ship_id == *ship,
                        forall|j: int| 0 <= j < i ==> (#[trigger] self.migration_queue@[j]).ship_id != *ship,
                    decreases self.migration_queue@.len() - i,
                {
                    if self.migration_queue[i].ship_id == *ship {
                        break;
                    }
                    i = i + 1;
                }
                if i < self.migration_queue.len() {
                    let _order = self.migration_queue.remove(i);
                } else {
                    assert(!exists|k: int| 0 <= k < old(self).migrations().len()
                        && (#[trigger] old(self).migrations()[k]).ship_id == *ship);
                }
            },
            GameEvent::PlayerCommand(PlayerCommand::AllocateWorkers { allocation, .. }) => {
                let total_allocated = allocation.agriculture + allocation.mining + allocation.industry
                    + allocation.research + allocation.military + allocation.unassigned;
                if total_allocated > 0 {
                    let min_unassigned = total_allocated / 10;
                    if allocation.unassigned < min_unassigned {
                        let mut m = String::from_str("Must maintain at least 10% unassigned workers. Required: ");
                        append_signed_decimal(&mut m, min_unassigned as i64);
                        m.append(", Provided: ");
                        append_signed_decimal(&mut m, allocation.unassigned as i64);
                        return Err(GameError::InvalidOperation(m));
                    }
                }
            },
            GameEvent::PlayerCommand(PlayerCommand::TransferResources { from, to, .. }) => {
                if *from == *to {
                    return Err(GameError::InvalidOperation(
                        "Cannot transfer resources to the same planet".to_string(),
                    ));
                }
            },
            _ => {},
        }
        Ok(())
    }
}

/// Every sequence of events equals itself.
proof fn lemma_same_events_refl<V, F>(h: Seq<GameEvent<V, F>>)
    ensures
        same_events(h, h),
{
    assert forall|i: int| 0 <= i < h.len() implies crate::events::same_event(#[trigger] h[i], h[i]) by {
        if let GameEvent::SimulationEvent(SimulationEvent::CombatResolved { outcome, .. }) = h[i] {
            assert(outcome.same_as(outcome));
        }
    }
}

} // verus!
