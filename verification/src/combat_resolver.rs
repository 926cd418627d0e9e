//! The battles waiting to be fought: attacks and invasions are queued as battles, and each
//! update hands every waiting battle over to be resolved. How strong each side is, and who
//! wins, is worked out in floating point by the program around the library; `V` is a point
//! in space.
use vstd::prelude::*;
use crate::events::{EventBus, GameEvent, PlayerCommand, SimulationEvent, same_events, recent_after_all};
use crate::types::{GameResult, PlanetId, ShipId};

verus! {

/// A battle waiting to be fought.
#[derive(Debug, Clone, Copy)]
pub struct Battle<V> {
    pub attacker: ShipId,
    pub defender: ShipId,
    pub location: V,
    pub start_tick: u64,
    pub planet_id: Option<PlanetId>,
}

/// The battles waiting to be fought.
pub struct CombatResolver<V> {
    active_battles: Vec<Battle<V>>,
    unplaced: V,
}

/// The attack command with which a battle is handed over to be resolved.
pub open spec fn resolution_event<V, F>(b: Battle<V>) -> GameEvent<V, F> {
    GameEvent::PlayerCommand(PlayerCommand::AttackTarget { attacker: b.attacker, target: b.defender })
}

/// A space battle between two ships, placed at `at` until its place is known, starting at
/// tick 0.
pub open spec fn space_battle<V>(attacker: ShipId, defender: ShipId, at: V) -> Battle<V> {
    Battle { attacker, defender, location: at, start_tick: 0, planet_id: None }
}

impl<V: Copy> CombatResolver<V> {
    /// The battles waiting, oldest first.
    pub closed spec fn battles(&self) -> Seq<Battle<V>> {
        self.active_battles@
    }

    /// Where a battle is placed until its place is known.
    pub closed spec fn unplaced_location(&self) -> V {
        self.unplaced
    }

    /// No battles waiting; battles whose place is not known yet are placed at `unplaced`.
    pub fn new(unplaced: V) -> (r: Self)
        ensures
            r.battles() == Seq::<Battle<V>>::empty(),
            r.unplaced_location() == unplaced,
    {
        CombatResolver { active_battles: Vec::new(), unplaced }
    }

    /// Queues a battle between ship `attacker` and ship `defender`, placed where battles
    /// go until their place is known. Always succeeds.
    pub fn initiate_combat(&mut self, attacker: ShipId, defender: ShipId) -> (r: GameResult<()>)
        ensures
            r.is_ok(),
            final(self).battles() == old(self).battles().push(
                space_battle(attacker, defender, old(self).unplaced_location()),
            ),
            final(self).unplaced_location() == old(self).unplaced_location(),
    {
        let battle = Battle { attacker, defender, location: self.unplaced, start_tick: 0, planet_id: None };
        self.active_battles.push(battle);
        Ok(())
    }

    /// Queues an invasion of planet `planet` by ship `attacker` at `location`, against the
    /// planet's defences (defender 0). Always succeeds.
    pub fn initiate_planetary_invasion(&mut self, attacker: ShipId, planet: PlanetId, location: V) -> (r: GameResult<()>)
        ensures
            r.is_ok(),
            final(self).battles() == old(self).battles().push(
                Battle { attacker, defender: 0, location, start_tick: 0, planet_id: Some(planet) },
            ),
            final(self).unplaced_location() == old(self).unplaced_location(),
    {
        let battle = Battle { attacker, defender: 0, location, start_tick: 0, planet_id: Some(planet) };
        self.active_battles.push(battle);
        Ok(())
    }

    /// Whether any battle is waiting.
    pub fn has_active_battles(&self) -> (r: bool)
        ensures
            r == (self.battles().len() > 0),
    {
        self.active_battles.len() > 0
    }

    /// How many battles are waiting.
    pub fn get_active_battle_count(&self) -> (r: usize)
        ensures
            r == self.battles().len(),
    {
        self.active_battles.len()
    }

    /// The battles waiting, oldest first.
    pub fn active_battles(&self) -> (r: &Vec<Battle<V>>)
        ensures
            r@ == self.battles(),
    {
        &self.active_battles
    }

    /// Hands every waiting battle over to be resolved, oldest first, as an attack command
    /// of its attacker on its defender; no battle is left waiting. Always succeeds.
    pub fn update<F: Copy>(&mut self, event_bus: &mut EventBus<V, F>) -> (r: GameResult<()>)
        requires
            old(event_bus).wf(),
        ensures
            r.is_ok(),
            final(self).battles() == Seq::<Battle<V>>::empty(),
            final(self).unplaced_location() == old(self).unplaced_location(),
            final(event_bus).wf(),
            final(event_bus).limit() == old(event_bus).limit(),
            final(event_bus).order() == old(event_bus).order(),
            final(event_bus).subscriptions() == old(event_bus).subscriptions(),
            final(event_bus).queued() == old(event_bus).queued() + old(self).battles().map_values(
                |b: Battle<V>| resolution_event::<V, F>(b),
            ),
            same_events(
                final(event_bus).history(),
                recent_after_all(
                    old(event_bus).history(),
                    old(self).battles().map_values(|b: Battle<V>| resolution_event::<V, F>(b)),
                    old(event_bus).limit(),
                ),
            ),
    {
        let ghost bs = self.active_battles@;
        let mut events: Vec<GameEvent<V, F>> = Vec::new();
        let mut i: usize = 0;
        while i < self.active_battles.len()
            invariant
                i <= bs.len(),
                self.active_battles@ == bs,
                events@ == bs.take(i as int).map_values(|b: Battle<V>| resolution_event::<V, F>(b)),
            decreases bs.len() - i,
        {
            let b = self.active_battles[i];
            events.push(GameEvent::PlayerCommand(PlayerCommand::AttackTarget { attacker: b.attacker, target: b.defender }));
            assert(events@ =~= bs.take(i + 1).map_values(|b: Battle<V>| resolution_event::<V, F>(b)));
            i = i + 1;
        }
        assert(bs.take(bs.len() as int) =~= bs);
        self.active_battles.clear();
        event_bus.queue_events(events);
        Ok(())
    }

    /// An attack command queues a battle between the two ships; an arrival changes
    /// nothing, as does any other event. Always succeeds.
    pub fn handle_event<F>(&mut self, event: &GameEvent<V, F>) -> (r: GameResult<()>)
        ensures
            r.is_ok(),
            final(self).unplaced_location() == old(self).unplaced_location(),
            final(self).battles() == match *event {
                GameEvent::PlayerCommand(PlayerCommand::AttackTarget { attacker, target }) => old(self).battles().push(
                    space_battle(attacker, target, old(self).unplaced_location()),
                ),
                _ => old(self).battles(),
            },
    {
        match event {
            GameEvent::PlayerCommand(PlayerCommand::AttackTarget { attacker, target }) => {
                self.initiate_combat(*attacker, *target)
            },
            GameEvent::SimulationEvent(SimulationEvent::ShipArrived { .. }) => Ok(()),
            _ => Ok(()),
        }
    }
}

} // verus!
