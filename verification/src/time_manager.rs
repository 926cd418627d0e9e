//! The tick counter of the simulation: it advances one tick at a time, announcing each
//! completed tick, and refuses to run into the top of its range.
use vstd::prelude::*;
use crate::events::{EventBus, GameEvent, PlayerCommand, SimulationEvent, same_events, recent_after};
use crate::text::decimal;
use crate::types::{GameError, GameResult};

verus! {

/// The largest tick the counter may hold before refusing to advance: a margin of 1000
/// below the top of `u64`.
pub const MAX_SAFE_TICK: u64 = 18446744073709550615;

/// The completed ticks of a game, and whether the game is paused.
pub struct TickClock {
    tick: u64,
    paused: bool,
}

impl TickClock {
    /// The current tick.
    pub closed spec fn tick(&self) -> u64 {
        self.tick
    }

    /// Whether the game is paused.
    pub closed spec fn paused(&self) -> bool {
        self.paused
    }

    /// A running clock at tick 0.
    pub fn new() -> (r: Self)
        ensures
            r.tick() == 0,
            !r.paused(),
    {
        TickClock { tick: 0, paused: false }
    }

    /// Whether the game is paused.
    pub fn is_paused(&self) -> (r: bool)
        ensures
            r == self.paused(),
    {
        self.paused
    }

    /// Follows a pause command: `PauseGame(p)` pauses the game when `p` holds and
    /// resumes it otherwise; every other event changes nothing. Always succeeds.
    pub fn handle_event<V, F>(&mut self, event: &GameEvent<V, F>) -> (r: GameResult<()>)
        ensures
            r is Ok,
            final(self).tick() == old(self).tick(),
            final(self).paused() == match *event {
                GameEvent::PlayerCommand(PlayerCommand::PauseGame(p)) => p,
                _ => old(self).paused(),
            },
    {
        match event {
            GameEvent::PlayerCommand(PlayerCommand::PauseGame(p)) => {
                self.paused = *p;
            },
            _ => {},
        }
        Ok(())
    }

    /// The current tick.
    pub fn get_current_tick(&self) -> (r: u64)
        ensures
            r == self.tick(),
    {
        self.tick
    }

    /// Completes a tick: the counter goes up by one and a `TickCompleted` event announces
    /// the new tick. Fails with `SystemError`, changing nothing, once the counter has
    /// reached `MAX_SAFE_TICK`.
    pub fn advance<V: Copy, F: Copy>(&mut self, event_bus: &mut EventBus<V, F>) -> (r: GameResult<()>)
        requires
            old(event_bus).wf(),
        ensures
            final(event_bus).wf(),
            final(event_bus).limit() == old(event_bus).limit(),
            final(event_bus).order() == old(event_bus).order(),
            final(event_bus).subscriptions() == old(event_bus).subscriptions(),
            r.is_err() <==> old(self).tick() >= MAX_SAFE_TICK,
            r matches Err(e) ==> (e matches GameError::SystemError(m) && m@
                == "Tick counter approaching overflow limit"@),
            r.is_err() ==> *final(self) == *old(self) && *final(event_bus) == *old(event_bus),
            r.is_ok() ==> {
                let e = GameEvent::SimulationEvent(SimulationEvent::TickCompleted((old(self).tick() + 1) as u64));
                &&& final(self).tick() == old(self).tick() + 1
                &&& final(self).paused() == old(self).paused()
                &&& final(event_bus).queued() == old(event_bus).queued().push(e)
                &&& same_events(final(event_bus).history(), recent_after(old(event_bus).history(), e, old(event_bus).limit()))
            },
    {
        if self.tick >= MAX_SAFE_TICK {
            return Err(GameError::SystemError("Tick counter approaching overflow limit".to_string()));
        }
        self.tick = self.tick + 1;
        event_bus.queue_event(GameEvent::SimulationEvent(SimulationEvent::TickCompleted(self.tick)));
        Ok(())
    }

    /// Sets the counter, as loading a save does. Fails with `InvalidOperation`, changing
    /// nothing, on a tick at or above `MAX_SAFE_TICK`.
    pub fn set_tick(&mut self, tick: u64) -> (r: GameResult<()>)
        ensures
            r.is_ok() <==> tick < MAX_SAFE_TICK,
            r.is_ok() ==> final(self).tick() == tick && final(self).paused() == old(self).paused(),
            r.is_err() ==> *final(self) == *old(self),
            r matches Err(e) ==> (e matches GameError::InvalidOperation(m) && m@ == "Tick value "@
                + decimal(tick as nat) + " too large, maximum allowed: "@ + decimal(MAX_SAFE_TICK as nat)),
    {
        if tick >= MAX_SAFE_TICK {
            let mut m = String::from_str("Tick value ");
            crate::text::append_decimal(&mut m, tick);
            m.append(" too large, maximum allowed: ");
            crate::text::append_decimal(&mut m, MAX_SAFE_TICK);
            return Err(GameError::InvalidOperation(m));
        }
        self.tick = tick;
        Ok(())
    }

    /// Checks that the counter is below `MAX_SAFE_TICK`; fails with `SystemError`
    /// otherwise.
    pub fn validate(&self) -> (r: GameResult<()>)
        ensures
            r.is_ok() <==> self.tick() < MAX_SAFE_TICK,
            r matches Err(e) ==> (e matches GameError::SystemError(m) && m@ == "Tick counter too large"@),
    {
        if self.tick >= MAX_SAFE_TICK {
            return Err(GameError::SystemError("Tick counter too large".to_string()));
        }
        Ok(())
    }
}

/// Checks a game's tick counter: it must stay at least 10000 below the top of `u64`.
/// Fails with `SystemError` otherwise.
pub fn validate_game_state(current_tick: u64) -> (r: GameResult<()>)
    ensures
        r.is_ok() <==> current_tick <= u64::MAX - 10000,
        r matches Err(e) ==> (e matches GameError::SystemError(m) && m@
            == "Tick counter approaching overflow: "@ + decimal(current_tick as nat)),
{
    if current_tick > u64::MAX - 10000 {
        let mut m = String::from_str("Tick counter approaching overflow: ");
        crate::text::append_decimal(&mut m, current_tick);
        return Err(GameError::SystemError(m));
    }
    Ok(())
}

} // verus!
