//! The ship panel: which ship it shows, which action buttons it offers for that ship, and
//! what a click on each of them does. Drawing and hit-testing are done by the program
//! around the library, which hands over the rectangle of each button (`R`).
use vstd::prelude::*;
use crate::events::{EventBus, GameEvent, PlayerCommand};
use crate::panels::Panel;
use crate::planet_panel::queued_one;
use crate::types::{GameError, GameResult, Ship, ShipId};

verus! {

/// The state of the ship panel. `R` is the rectangle a button covers on screen.
pub struct ShipPanel<R> {
    visible: bool,
    selected_ship_id: Option<ShipId>,
    move_button_rect: Option<R>,
    cargo_button_rect: Option<R>,
    recall_button_rect: Option<R>,
}

/// The ticks a trip takes, from departure to arrival.
pub open spec fn trip_ticks(departure: u64, arrival: u64) -> int {
    arrival - departure
}

/// The number of ticks a trip takes, as the panel shows it. Fails with `SystemError` when
/// the arrival comes before the departure.
pub fn trajectory_eta(departure_time: u64, arrival_time: u64) -> (r: GameResult<u64>)
    ensures
        r.is_ok() <==> departure_time <= arrival_time,
        r matches Ok(t) ==> t == trip_ticks(departure_time, arrival_time),
        r matches Err(e) ==> (e matches GameError::SystemError(m) && m@
            == "Invalid trajectory: arrival time before departure"@),
{
    if arrival_time < departure_time {
        return Err(
            GameError::SystemError("Invalid trajectory: arrival time before departure".to_string()),
        );
    }
    Ok(arrival_time - departure_time)
}

impl<R> ShipPanel<R> {
    /// Whether the panel is shown.
    pub closed spec fn shown(&self) -> bool {
        self.visible
    }

    /// The ship the panel is showing.
    pub closed spec fn ship(&self) -> Option<ShipId> {
        self.selected_ship_id
    }

    /// The rectangle of the Move button, once placed.
    pub closed spec fn move_button(&self) -> Option<R> {
        self.move_button_rect
    }

    /// The rectangle of the Cargo button, once placed.
    pub closed spec fn cargo_button(&self) -> Option<R> {
        self.cargo_button_rect
    }

    /// The rectangle of the Recall button, once placed.
    pub closed spec fn recall_button(&self) -> Option<R> {
        self.recall_button_rect
    }

    /// A hidden panel showing no ship, with no buttons placed.
    pub fn new() -> (r: Self)
        ensures
            !r.shown(),
            r.ship() is None,
            r.move_button() is None,
            r.cargo_button() is None,
            r.recall_button() is None,
    {
        ShipPanel {
            visible: false,
            selected_ship_id: None,
            move_button_rect: None,
            cargo_button_rect: None,
            recall_button_rect: None,
        }
    }

    /// Shows ship `ship_id`.
    pub fn show(&mut self, ship_id: ShipId)
        ensures
            final(self).shown(),
            final(self).ship() == Some(ship_id),
            final(self).move_button() == old(self).move_button(),
            final(self).cargo_button() == old(self).cargo_button(),
            final(self).recall_button() == old(self).recall_button(),
    {
        self.visible = true;
        self.selected_ship_id = Some(ship_id);
    }

    /// Closes the panel: it shows no ship and forgets its buttons.
    pub fn close(&mut self)
        ensures
            !final(self).shown(),
            final(self).ship() is None,
            final(self).move_button() is None,
            final(self).cargo_button() is None,
            final(self).recall_button() is None,
    {
        self.visible = false;
        self.selected_ship_id = None;
        self.move_button_rect = None;
        self.cargo_button_rect = None;
        self.recall_button_rect = None;
    }

    /// Whether the panel is shown.
    pub fn is_visible(&self) -> (r: bool)
        ensures
            r == self.shown(),
    {
        self.visible
    }

    /// The ship the panel is showing.
    pub fn selected_ship_id(&self) -> (r: Option<ShipId>)
        ensures
            r == self.ship(),
    {
        self.selected_ship_id
    }

    /// Places the action buttons for `ship`: Move always, Cargo only for a ship that can
    /// carry cargo, and Recall only for a ship under way (`moving`).
    pub fn place_action_buttons<M>(&mut self, ship: &Ship<M>, moving: bool, move_rect: R, cargo_rect: R, recall_rect: R)
        ensures
            final(self).move_button() == Some(move_rect),
            final(self).cargo_button() == if ship.cargo.capacity > 0 {
                Some(cargo_rect)
            } else {
                None
            },
            final(self).recall_button() == if moving {
                Some(recall_rect)
            } else {
                None
            },
            final(self).shown() == old(self).shown(),
            final(self).ship() == old(self).ship(),
    {
        self.move_button_rect = Some(move_rect);
        if ship.cargo.capacity > 0 {
            self.cargo_button_rect = Some(cargo_rect);
        } else {
            self.cargo_button_rect = None;
        }
        if moving {
            self.recall_button_rect = Some(recall_rect);
        } else {
            self.recall_button_rect = None;
        }
    }

    /// Carries out a click for `ship`. `on_move`, `on_cargo` and `on_recall` say whether
    /// the click landed on each button; a button that is not placed ignores it. The
    /// buttons are looked at in that order and the first one hit decides: Move and Cargo
    /// fail with `InvalidOperation`, as neither is offered yet; Recall asks to send the
    /// ship back to `recall_target`, the start of its trip, and fails with
    /// `InvalidOperation` for a ship with no trip. A click on no button does nothing.
    pub fn handle_click<M, V: Copy, F: Copy>(
        &self,
        ship: &Ship<M>,
        on_move: bool,
        on_cargo: bool,
        on_recall: bool,
        recall_target: Option<V>,
        events: &mut EventBus<V, F>,
    ) -> (r: GameResult<()>)
        requires
            old(events).wf(),
        ensures
            final(events).wf(),
            final(events).limit() == old(events).limit(),
            final(events).order() == old(events).order(),
            final(events).subscriptions() == old(events).subscriptions(),
            ({
                let hit_move = self.move_button() is Some && on_move;
                let hit_cargo = self.cargo_button() is Some && on_cargo;
                let hit_recall = self.recall_button() is Some && on_recall;
                if hit_move {
                    &&& r matches Err(GameError::InvalidOperation(m))
                    &&& m@ == "Move destination selection not implemented"@
                    &&& *final(events) == *old(events)
                } else if hit_cargo {
                    &&& r matches Err(GameError::InvalidOperation(m))
                    &&& m@ == "Cargo management not implemented"@
                    &&& *final(events) == *old(events)
                } else if hit_recall {
                    match recall_target {
                        Some(origin) => r.is_ok() && queued_one(
                            *old(events),
                            *final(events),
                            GameEvent::PlayerCommand(PlayerCommand::MoveShip { ship: ship.id, target: origin }),
                        ),
                        None => {
                            &&& r matches Err(GameError::InvalidOperation(m))
                            &&& m@ == "Cannot recall ship without trajectory"@
                            &&& *final(events) == *old(events)
                        },
                    }
                } else {
                    r.is_ok() && *final(events) == *old(events)
                }
            }),
    {
        if self.move_button_rect.is_some() && on_move {
            return Err(
                GameError::InvalidOperation("Move destination selection not implemented".to_string()),
            );
        }
        if self.cargo_button_rect.is_some() && on_cargo {
            return Err(GameError::InvalidOperation("Cargo management not implemented".to_string()));
        }
        if self.recall_button_rect.is_some() && on_recall {
            match recall_target {
                Some(origin) => {
                    events.queue_event(
                        GameEvent::PlayerCommand(PlayerCommand::MoveShip { ship: ship.id, target: origin }),
                    );
                },
                None => {
                    return Err(
                        GameError::InvalidOperation("Cannot recall ship without trajectory".to_string()),
                    );
                },
            }
        }
        Ok(())
    }
}

impl<R> Panel for ShipPanel<R> {
    open spec fn panel_shown(&self) -> bool {
        self.shown()
    }

    /// A hidden panel showing no ship, with no buttons placed.
    fn new() -> (r: Self)
        ensures
            !r.shown(),
            r.ship() is None,
            r.move_button() is None,
            r.cargo_button() is None,
            r.recall_button() is None,
    {
        ShipPanel::new()
    }

    /// Shows the panel, on whatever ship it had.
    fn show(&mut self)
        ensures
            final(self).shown(),
            final(self).ship() == old(self).ship(),
            final(self).move_button() == old(self).move_button(),
            final(self).cargo_button() == old(self).cargo_button(),
            final(self).recall_button() == old(self).recall_button(),
    {
        self.visible = true;
    }

    /// Closes the panel: it shows no ship and forgets its buttons.
    fn close(&mut self)
        ensures
            !final(self).shown(),
            final(self).ship() is None,
            final(self).move_button() is None,
            final(self).cargo_button() is None,
            final(self).recall_button() is None,
    {
        ShipPanel::close(self)
    }

    /// Whether the panel is shown.
    fn is_visible(&self) -> (r: bool)
        ensures
            r == self.shown(),
    {
        self.visible
    }
}

} // verus!
