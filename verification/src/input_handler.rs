//! What the player's clicks and keys ask for: selecting planets and ships, giving orders to
//! the selected ship, pausing, changing the game speed, saving and loading. The program
//! around the library reads the mouse and the keyboard, finds what lies under the pointer
//! and keeps the camera (`C`); the decisions are made here.
use vstd::prelude::*;
use crate::events::{EventBus, GameEvent, PlayerCommand};
use crate::planet_panel::queued_one;
use crate::types::{PlanetId, ShipId};

verus! {

/// The game speeds the number keys choose: half, normal, double and quadruple speed.
#[derive(Debug, Clone, Copy, PartialEq, Eq, Structural)]
pub enum SpeedPreset {
    Half,
    Normal,
    Double,
    Quadruple,
}

/// What a key press asks for, before it becomes a command.
#[derive(Debug, Clone, Copy, PartialEq, Eq, Structural)]
pub enum KeyCommand {
    SetSpeed(SpeedPreset),
    Pause(bool),
    Save,
    Load,
}

/// The keys pressed in a frame (and whether a Control key is held).
#[derive(Debug, Clone, Copy, PartialEq, Eq, Structural)]
pub struct KeyPresses {
    pub key1: bool,
    pub key2: bool,
    pub key3: bool,
    pub key4: bool,
    pub space: bool,
    pub ctrl_held: bool,
    pub s: bool,
    pub l: bool,
    pub escape: bool,
    pub delete: bool,
}

/// `s` with `x` added at the back when `present`.
pub open spec fn push_if(s: Seq<KeyCommand>, present: bool, x: KeyCommand) -> Seq<KeyCommand> {
    if present {
        s.push(x)
    } else {
        s
    }
}

/// The commands the keys of a frame give, in order: the speeds of the number keys 1 to 4,
/// the pause toggle (to the opposite of `paused`), then, with Control held, saving and
/// loading.
pub open spec fn key_commands(paused: bool, keys: KeyPresses) -> Seq<KeyCommand> {
    let s1 = push_if(Seq::empty(), keys.key1, KeyCommand::SetSpeed(SpeedPreset::Half));
    let s2 = push_if(s1, keys.key2, KeyCommand::SetSpeed(SpeedPreset::Normal));
    let s3 = push_if(s2, keys.key3, KeyCommand::SetSpeed(SpeedPreset::Double));
    let s4 = push_if(s3, keys.key4, KeyCommand::SetSpeed(SpeedPreset::Quadruple));
    let s5 = push_if(s4, keys.space, KeyCommand::Pause(!paused));
    let s6 = push_if(s5, keys.ctrl_held && keys.s, KeyCommand::Save);
    push_if(s6, keys.ctrl_held && keys.l, KeyCommand::Load)
}

/// The selection, the pause state and the camera of the player's input. `C` is the camera
/// and whatever else the program keeps to read the input.
pub struct InputHandler<C> {
    selected_planet: Option<PlanetId>,
    selected_ship: Option<ShipId>,
    is_paused: bool,
    pub view: C,
}

impl<C> InputHandler<C> {
    /// The selected planet.
    pub closed spec fn planet(&self) -> Option<PlanetId> {
        self.selected_planet
    }

    /// The selected ship.
    pub closed spec fn ship(&self) -> Option<ShipId> {
        self.selected_ship
    }

    /// Whether the game is paused, as far as the input knows.
    pub closed spec fn paused(&self) -> bool {
        self.is_paused
    }

    /// The camera and the rest of what the program keeps.
    pub closed spec fn camera(&self) -> C {
        self.view
    }

    /// Nothing selected, the game running, and the camera `view`.
    pub fn new(view: C) -> (r: Self)
        ensures
            r.planet() is None,
            r.ship() is None,
            !r.paused(),
            r.camera() == view,
    {
        InputHandler { selected_planet: None, selected_ship: None, is_paused: false, view }
    }

    /// Forgets the selection.
    pub fn reset(&mut self)
        ensures
            final(self).planet() is None,
            final(self).ship() is None,
            final(self).paused() == old(self).paused(),
            final(self).camera() == old(self).camera(),
    {
        self.selected_planet = None;
        self.selected_ship = None;
    }

    /// The selected planet.
    pub fn selected_planet(&self) -> (r: Option<PlanetId>)
        ensures
            r == self.planet(),
    {
        self.selected_planet
    }

    /// The selected ship.
    pub fn selected_ship(&self) -> (r: Option<ShipId>)
        ensures
            r == self.ship(),
    {
        self.selected_ship
    }

    /// Records a pause or resume that happened elsewhere.
    pub fn set_pause_state(&mut self, is_paused: bool)
        ensures
            final(self).paused() == is_paused,
            final(self).planet() == old(self).planet(),
            final(self).ship() == old(self).ship(),
            final(self).camera() == old(self).camera(),
    {
        self.is_paused = is_paused;
    }

    /// Whether the game is paused, as far as the input knows.
    pub fn is_paused(&self) -> (r: bool)
        ensures
            r == self.paused(),
    {
        self.is_paused
    }

    /// Forgets the selection.
    pub fn clear_selection(&mut self)
        ensures
            final(self).planet() is None,
            final(self).ship() is None,
            final(self).paused() == old(self).paused(),
            final(self).camera() == old(self).camera(),
    {
        self.selected_planet = None;
        self.selected_ship = None;
    }

    /// Handles the keys of a frame and returns the commands they give, in the order of
    /// `key_commands`. Space also flips the pause state; Escape forgets the selection, and
    /// Delete forgets the selected ship.
    pub fn update_keyboard_input(&mut self, keys: KeyPresses) -> (r: Vec<KeyCommand>)
        ensures
            r@ == key_commands(old(self).paused(), keys),
            final(self).paused() == (old(self).paused() != keys.space),
            final(self).planet() == if keys.escape {
                None
            } else {
                old(self).planet()
            },
            final(self).ship() == if keys.escape || keys.delete {
                None
            } else {
                old(self).ship()
            },
            final(self).camera() == old(self).camera(),
    {
        let mut out: Vec<KeyCommand> = Vec::new();
        let ghost mut want: Seq<KeyCommand> = Seq::empty();
        if keys.key1 {
            out.push(KeyCommand::SetSpeed(SpeedPreset::Half));
        }
        proof {
            want = push_if(want, keys.key1, KeyCommand::SetSpeed(SpeedPreset::Half));
        }
        assert(out@ == want);
        if keys.key2 {
            out.push(KeyCommand::SetSpeed(SpeedPreset::Normal));
        }
        proof {
            want = push_if(want, keys.key2, KeyCommand::SetSpeed(SpeedPreset::Normal));
        }
        assert(out@ == want);
        if keys.key3 {
            out.push(KeyCommand::SetSpeed(SpeedPreset::Double));
        }
        proof {
            want = push_if(want, keys.key3, KeyCommand::SetSpeed(SpeedPreset::Double));
        }
        assert(out@ == want);
        if keys.key4 {
            out.push(KeyCommand::SetSpeed(SpeedPreset::Quadruple));
        }
        proof {
            want = push_if(want, keys.key4, KeyCommand::SetSpeed(SpeedPreset::Quadruple));
        }
        assert(out@ == want);
        if keys.space {
            self.is_paused = !self.is_paused;
            out.push(KeyCommand::Pause(self.is_paused));
        }
        proof {
            want = push_if(want, keys.space, KeyCommand::Pause(!old(self).paused()));
        }
        assert(out@ == want);
        if keys.ctrl_held && keys.s {
            out.push(KeyCommand::Save);
        }
        proof {
            want = push_if(want, keys.ctrl_held && keys.s, KeyCommand::Save);
        }
        assert(out@ == want);
        if keys.ctrl_held && keys.l {
            out.push(KeyCommand::Load);
        }
        proof {
            want = push_if(want, keys.ctrl_held && keys.l, KeyCommand::Load);
        }
        assert(out@ == want);
        if keys.escape {
            self.selected_planet = None;
            self.selected_ship = None;
        }
        if keys.delete && self.selected_ship.is_some() {
            self.selected_ship = None;
        }
        out
    }

    /// A left click: on a ship (`ship_hit`) it selects the ship, ships coming first;
    /// otherwise on a planet (`planet_hit`) it selects the planet; either way the other
    /// selection is forgotten and the choice is announced. A click on empty space forgets
    /// the selection.
    pub fn handle_left_click<V: Copy, F: Copy>(
        &mut self,
        ship_hit: Option<ShipId>,
        planet_hit: Option<PlanetId>,
        events: &mut EventBus<V, F>,
    )
        requires
            old(events).wf(),
        ensures
            final(events).wf(),
            final(events).limit() == old(events).limit(),
            final(events).order() == old(events).order(),
            final(events).subscriptions() == old(events).subscriptions(),
            final(self).paused() == old(self).paused(),
            final(self).camera() == old(self).camera(),
            match (ship_hit, planet_hit) {
                (Some(s), _) => {
                    &&& final(self).ship() == Some(s)
                    &&& final(self).planet() is None
                    &&& queued_one(*old(events), *final(events), GameEvent::PlayerCommand(PlayerCommand::SelectShip(s)))
                },
                (None, Some(p)) => {
                    &&& final(self).planet() == Some(p)
                    &&& final(self).ship() is None
                    &&& queued_one(*old(events), *final(events), GameEvent::PlayerCommand(PlayerCommand::SelectPlanet(p)))
                },
                (None, None) => {
                    &&& final(self).planet() is None
                    &&& final(self).ship() is None
                    &&& *final(events) == *old(events)
                },
            },
    {
        if let Some(ship_id) = ship_hit {
            self.selected_ship = Some(ship_id);
            self.selected_planet = None;
            events.queue_event(GameEvent::PlayerCommand(PlayerCommand::SelectShip(ship_id)));
            return;
        }
        if let Some(planet_id) = planet_hit {
            self.selected_planet = Some(planet_id);
            self.selected_ship = None;
            events.queue_event(GameEvent::PlayerCommand(PlayerCommand::SelectPlanet(planet_id)));
            return;
        }
        self.selected_planet = None;
        self.selected_ship = None;
    }

    /// A right click at `world_pos` gives an order to the selected ship, if any: attack
    /// another ship under the pointer (a click on the ship itself does nothing), colonize a
    /// planet under the pointer, or move to the point clicked.
    pub fn handle_right_click<V: Copy, F: Copy>(
        &self,
        ship_hit: Option<ShipId>,
        planet_hit: Option<PlanetId>,
        world_pos: V,
        events: &mut EventBus<V, F>,
    )
        requires
            old(events).wf(),
        ensures
            final(events).wf(),
            final(events).limit() == old(events).limit(),
            final(events).order() == old(events).order(),
            final(events).subscriptions() == old(events).subscriptions(),
            match self.ship() {
                None => *final(events) == *old(events),
                Some(me) => match (ship_hit, planet_hit) {
                    (Some(t), _) => if t != me {
                        queued_one(
                            *old(events),
                            *final(events),
                            GameEvent::PlayerCommand(PlayerCommand::AttackTarget { attacker: me, target: t }),
                        )
                    } else {
                        *final(events) == *old(events)
                    },
                    (None, Some(p)) => queued_one(
                        *old(events),
                        *final(events),
                        GameEvent::PlayerCommand(PlayerCommand::ColonizePlanet { ship: me, planet: p }),
                    ),
                    (None, None) => queued_one(
                        *old(events),
                        *final(events),
                        GameEvent::PlayerCommand(PlayerCommand::MoveShip { ship: me, target: world_pos }),
                    ),
                },
            },
    {
        if let Some(ship_id) = self.selected_ship {
            if let Some(target_ship_id) = ship_hit {
                if target_ship_id != ship_id {
                    events.queue_event(
                        GameEvent::PlayerCommand(
                            PlayerCommand::AttackTarget { attacker: ship_id, target: target_ship_id },
                        ),
                    );
                }
            } else if let Some(planet_id) = planet_hit {
                events.queue_event(
                    GameEvent::PlayerCommand(PlayerCommand::ColonizePlanet { ship: ship_id, planet: planet_id }),
                );
            } else {
                events.queue_event(
                    GameEvent::PlayerCommand(PlayerCommand::MoveShip { ship: ship_id, target: world_pos }),
                );
            }
        }
    }
}

} // verus!
