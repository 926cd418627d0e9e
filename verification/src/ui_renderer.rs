//! The decisions of the game screen: what is selected, which panels are open, what the
//! keys and clicks ask for, how the screen reacts to events, and the figures it shows.
//! Drawing, the camera and zoom (`C`) are kept by the program around the library.
use vstd::prelude::*;
use crate::events::{EventBus, GameEvent, PlayerCommand, StateChange};
use crate::input_handler::{push_if, KeyCommand, SpeedPreset};
use crate::planet_panel::queued_one;
use crate::resource_system::amount_of;
use crate::types::{
    fits_i32, BuildingType, FactionId, Planet, PlanetId, ResourceBundle, ResourceType, ShipClass,
    ShipId, WorkerAllocation, GameResult,
};

verus! {

/// Who holds a planet or a ship, as the screen colours it: faction 0 is the player.
#[derive(Debug, Clone, Copy, PartialEq, Eq, Structural)]
pub enum Ownership {
    Player,
    Enemy,
    Unowned,
}

/// The keys the game screen reacts to, as pressed in a frame.
#[derive(Debug, Clone, Copy, PartialEq, Eq, Structural)]
pub struct ScreenKeys {
    pub space: bool,
    pub key1: bool,
    pub key2: bool,
    pub key3: bool,
    pub o: bool,
    pub p: bool,
    pub b: bool,
}

/// Who holds something controlled by `controller`.
pub open spec fn ownership_of(controller: Option<FactionId>) -> Ownership {
    match controller {
        Some(f) => if f == 0 {
            Ownership::Player
        } else {
            Ownership::Enemy
        },
        None => Ownership::Unowned,
    }
}

/// Who holds something controlled by `controller`: faction 0 is the player, any other
/// faction an enemy.
pub fn controller_ownership(controller: Option<FactionId>) -> (r: Ownership)
    ensures
        r == ownership_of(controller),
{
    match controller {
        Some(f) => if f == 0 {
            Ownership::Player
        } else {
            Ownership::Enemy
        },
        None => Ownership::Unowned,
    }
}

/// The name the ship panel gives a class.
pub open spec fn class_name(c: ShipClass) -> Seq<char> {
    match c {
        ShipClass::Scout => "Scout"@,
        ShipClass::Transport => "Transport"@,
        ShipClass::Warship => "Warship"@,
        ShipClass::Colony => "Colony Ship"@,
    }
}

/// The name the ship panel gives a class.
pub fn ship_class_name(c: ShipClass) -> (r: &'static str)
    ensures
        r@ == class_name(c),
{
    match c {
        ShipClass::Scout => "Scout",
        ShipClass::Transport => "Transport",
        ShipClass::Warship => "Warship",
        ShipClass::Colony => "Colony Ship",
    }
}

/// The marks drawn under a planet: more than 1000 people, more than 500 minerals, and at
/// least one building.
pub fn planet_indicators<O>(planet: &Planet<O>) -> (r: (bool, bool, bool))
    ensures
        r.0 == (planet.population.total > 1000),
        r.1 == (planet.resources.current.minerals > 500),
        r.2 == (planet.developments@.len() > 0),
{
    (
        planet.population.total > 1000,
        planet.resources.current.minerals > 500,
        planet.developments.len() > 0,
    )
}

/// The amount of `r` stored on the planets of `ps` held by the player (faction 0).
pub open spec fn empire_amount<O>(ps: Seq<Planet<O>>, r: ResourceType) -> int
    decreases ps.len(),
{
    if ps.len() == 0 {
        0
    } else {
        let p = ps.last();
        empire_amount(ps.drop_last(), r) + if p.controller == Some(0u8) {
            amount_of(p.resources.current, r)
        } else {
            0
        }
    }
}

/// Every running total of the player's stores over `ps`, resource by resource, fits in
/// an `i32`.
pub open spec fn empire_sums_fit<O>(ps: Seq<Planet<O>>) -> bool {
    forall|k: int, r: ResourceType| 0 <= k <= ps.len() ==> fits_i32(#[trigger] empire_amount(ps.take(k), r))
}

/// The state of the game screen. `C` is the camera, zoom and scale, which the program
/// keeps.
pub struct UIRenderer<C> {
    selected_planet: Option<PlanetId>,
    selected_ship: Option<ShipId>,
    paused: bool,
    show_orbits: bool,
    planet_panel_open: bool,
    ship_panel_open: bool,
    resource_panel_open: bool,
    build_menu_open: bool,
    selected_building_type: Option<BuildingType>,
    worker_allocation_temp: WorkerAllocation,
    resource_transfer_temp: ResourceBundle,
    transfer_target: Option<PlanetId>,
    pub view: C,
}

/// The screen state of a renderer, apart from the camera.
pub struct ScreenState {
    pub selected_planet: Option<PlanetId>,
    pub selected_ship: Option<ShipId>,
    pub paused: bool,
    pub show_orbits: bool,
    pub planet_panel_open: bool,
    pub ship_panel_open: bool,
    pub resource_panel_open: bool,
    pub build_menu_open: bool,
    pub selected_building_type: Option<BuildingType>,
    pub worker_allocation_temp: WorkerAllocation,
    pub resource_transfer_temp: ResourceBundle,
    pub transfer_target: Option<PlanetId>,
}

impl<C> UIRenderer<C> {
    /// The screen state, apart from the camera.
    pub closed spec fn state(&self) -> ScreenState {
        ScreenState {
            selected_planet: self.selected_planet,
            selected_ship: self.selected_ship,
            paused: self.paused,
            show_orbits: self.show_orbits,
            planet_panel_open: self.planet_panel_open,
            ship_panel_open: self.ship_panel_open,
            resource_panel_open: self.resource_panel_open,
            build_menu_open: self.build_menu_open,
            selected_building_type: self.selected_building_type,
            worker_allocation_temp: self.worker_allocation_temp,
            resource_transfer_temp: self.resource_transfer_temp,
            transfer_target: self.transfer_target,
        }
    }

    /// The camera, zoom and scale.
    pub closed spec fn camera(&self) -> C {
        self.view
    }

    /// Nothing selected, the game running, orbits shown, every panel closed, and the
    /// camera `view`.
    pub fn new(view: C) -> (r: Self)
        ensures
            r.state() == (ScreenState {
                selected_planet: None,
                selected_ship: None,
                paused: false,
                show_orbits: true,
                planet_panel_open: false,
                ship_panel_open: false,
                resource_panel_open: false,
                build_menu_open: false,
                selected_building_type: None,
                worker_allocation_temp: WorkerAllocation::zero_spec(),
                resource_transfer_temp: ResourceBundle::zero_spec(),
                transfer_target: None,
            }),
            r.camera() == view,
    {
        UIRenderer {
            selected_planet: None,
            selected_ship: None,
            paused: false,
            show_orbits: true,
            planet_panel_open: false,
            ship_panel_open: false,
            resource_panel_open: false,
            build_menu_open: false,
            selected_building_type: None,
            worker_allocation_temp: WorkerAllocation::default(),
            resource_transfer_temp: ResourceBundle::default(),
            transfer_target: None,
            view,
        }
    }

    /// The selected planet.
    pub fn get_selected_planet(&self) -> (r: Option<PlanetId>)
        ensures
            r == self.state().selected_planet,
    {
        self.selected_planet
    }

    /// The selected ship.
    pub fn get_selected_ship(&self) -> (r: Option<ShipId>)
        ensures
            r == self.state().selected_ship,
    {
        self.selected_ship
    }

    /// Selects ship `ship_id`, or none.
    pub fn set_selected_ship(&mut self, ship_id: Option<ShipId>)
        ensures
            final(self).state() == (ScreenState { selected_ship: ship_id, ..old(self).state() }),
            final(self).camera() == old(self).camera(),
    {
        self.selected_ship = ship_id;
    }

    /// Selects planet `planet_id`, or none.
    pub fn set_selected_planet(&mut self, planet_id: Option<PlanetId>)
        ensures
            final(self).state() == (ScreenState { selected_planet: planet_id, ..old(self).state() }),
            final(self).camera() == old(self).camera(),
    {
        self.selected_planet = planet_id;
    }

    /// Whether the game is paused, as the screen knows it.
    pub fn is_paused(&self) -> (r: bool)
        ensures
            r == self.state().paused,
    {
        self.paused
    }

    /// Whether the planet panel is open.
    pub fn is_planet_panel_open(&self) -> (r: bool)
        ensures
            r == self.state().planet_panel_open,
    {
        self.planet_panel_open
    }

    /// Whether the ship panel is open.
    pub fn is_ship_panel_open(&self) -> (r: bool)
        ensures
            r == self.state().ship_panel_open,
    {
        self.ship_panel_open
    }

    /// Whether the build menu is open.
    pub fn is_build_menu_open(&self) -> (r: bool)
        ensures
            r == self.state().build_menu_open,
    {
        self.build_menu_open
    }

    /// Whether orbits are drawn.
    pub fn orbits_shown(&self) -> (r: bool)
        ensures
            r == self.state().show_orbits,
    {
        self.show_orbits
    }

    /// The building chosen in the build menu, if any.
    pub fn chosen_building(&self) -> (r: Option<BuildingType>)
        ensures
            r == self.state().selected_building_type,
    {
        self.selected_building_type
    }

    /// Which panels are drawn: the planet panel and the build menu need a selected planet,
    /// the ship panel a selected ship, and each must be open.
    pub fn panels_to_draw(&self) -> (r: (bool, bool, bool))
        ensures
            r.0 == (self.state().planet_panel_open && self.state().selected_planet is Some),
            r.1 == (self.state().ship_panel_open && self.state().selected_ship is Some),
            r.2 == (self.state().build_menu_open && self.state().selected_planet is Some),
    {
        (
            self.planet_panel_open && self.selected_planet.is_some(),
            self.ship_panel_open && self.selected_ship.is_some(),
            self.build_menu_open && self.selected_planet.is_some(),
        )
    }

    /// The Build button of the planet panel opens the build menu.
    pub fn open_build_menu(&mut self)
        ensures
            final(self).state() == (ScreenState { build_menu_open: true, ..old(self).state() }),
            final(self).camera() == old(self).camera(),
    {
        self.build_menu_open = true;
    }

    /// The Close button of the build menu closes it.
    pub fn close_build_menu(&mut self)
        ensures
            final(self).state() == (ScreenState { build_menu_open: false, ..old(self).state() }),
            final(self).camera() == old(self).camera(),
    {
        self.build_menu_open = false;
    }

    /// The Close button of the planet panel closes it.
    pub fn close_planet_panel(&mut self)
        ensures
            final(self).state() == (ScreenState { planet_panel_open: false, ..old(self).state() }),
            final(self).camera() == old(self).camera(),
    {
        self.planet_panel_open = false;
    }

    /// The Close button of the ship panel closes it.
    pub fn close_ship_panel(&mut self)
        ensures
            final(self).state() == (ScreenState { ship_panel_open: false, ..old(self).state() }),
            final(self).camera() == old(self).camera(),
    {
        self.ship_panel_open = false;
    }

    /// A building button of the build menu chooses that building while a planet is
    /// selected.
    pub fn choose_building(&mut self, building_type: BuildingType)
        ensures
            final(self).state() == if old(self).state().selected_planet is Some {
                ScreenState { selected_building_type: Some(building_type), ..old(self).state() }
            } else {
                old(self).state()
            },
            final(self).camera() == old(self).camera(),
    {
        if self.selected_planet.is_some() {
            self.selected_building_type = Some(building_type);
        }
    }

    /// Reacts to an event: an update of the selected planet opens the planet panel, an
    /// update of the selected ship opens the ship panel, and a pause command records the
    /// pause state; anything else changes nothing. Always succeeds.
    pub fn handle_event<V, F>(&mut self, event: &GameEvent<V, F>) -> (r: GameResult<()>)
        ensures
            r.is_ok(),
            final(self).camera() == old(self).camera(),
            final(self).state() == match *event {
                GameEvent::StateChanged(StateChange::PlanetUpdated(id)) => if old(self).state().selected_planet
                    == Some(id) {
                    ScreenState { planet_panel_open: true, ..old(self).state() }
                } else {
                    old(self).state()
                },
                GameEvent::StateChanged(StateChange::ShipUpdated(id)) => if old(self).state().selected_ship
                    == Some(id) {
                    ScreenState { ship_panel_open: true, ..old(self).state() }
                } else {
                    old(self).state()
                },
                GameEvent::PlayerCommand(PlayerCommand::PauseGame(p)) => ScreenState {
                    paused: p,
                    ..old(self).state()
                },
                _ => old(self).state(),
            },
    {
        match event {
            GameEvent::StateChanged(StateChange::PlanetUpdated(planet_id)) => {
                if self.selected_planet == Some(*planet_id) {
                    self.planet_panel_open = true;
                }
            },
            GameEvent::StateChanged(StateChange::ShipUpdated(ship_id)) => {
                if self.selected_ship == Some(*ship_id) {
                    self.ship_panel_open = true;
                }
            },
            GameEvent::PlayerCommand(PlayerCommand::PauseGame(paused)) => {
                self.paused = *paused;
            },
            _ => {},
        }
        Ok(())
    }

    /// Handles the keys of a frame. Space asks to pause or resume (the screen waits for
    /// the command to come back before it shows the change), 1, 2 and 3 ask for half,
    /// normal and double speed, O shows or hides orbits, and with a planet selected P opens
    /// or closes the planet panel and B the build menu. Returns the commands, in that
    /// order.
    pub fn handle_keyboard_input(&mut self, keys: ScreenKeys) -> (r: Vec<KeyCommand>)
        ensures
            r@ == push_if(
                push_if(
                    push_if(
                        push_if(Seq::empty(), keys.space, KeyCommand::Pause(!old(self).state().paused)),
                        keys.key1,
                        KeyCommand::SetSpeed(SpeedPreset::Half),
                    ),
                    keys.key2,
                    KeyCommand::SetSpeed(SpeedPreset::Normal),
                ),
                keys.key3,
                KeyCommand::SetSpeed(SpeedPreset::Double),
            ),
            final(self).state() == (ScreenState {
                show_orbits: old(self).state().show_orbits != keys.o,
                planet_panel_open: old(self).state().planet_panel_open != (keys.p
                    && old(self).state().selected_planet is Some),
                build_menu_open: old(self).state().build_menu_open != (keys.b
                    && old(self).state().selected_planet is Some),
                ..old(self).state()
            }),
            final(self).camera() == old(self).camera(),
    {
        let mut out: Vec<KeyCommand> = Vec::new();
        if keys.space {
            out.push(KeyCommand::Pause(!self.paused));
        }
        if keys.key1 {
            out.push(KeyCommand::SetSpeed(SpeedPreset::Half));
        }
        if keys.key2 {
            out.push(KeyCommand::SetSpeed(SpeedPreset::Normal));
        }
        if keys.key3 {
            out.push(KeyCommand::SetSpeed(SpeedPreset::Double));
        }
        if keys.o {
            self.show_orbits = !self.show_orbits;
        }
        if keys.p && self.selected_planet.is_some() {
            self.planet_panel_open = !self.planet_panel_open;
        }
        if keys.b && self.selected_planet.is_some() {
            self.build_menu_open = !self.build_menu_open;
        }
        out
    }

    /// A right click at `world_pos` sends the selected ship, if any, there.
    pub fn handle_right_click<V: Copy, F: Copy>(&self, world_pos: V, events: &mut EventBus<V, F>)
        requires
            old(events).wf(),
        ensures
            final(events).wf(),
            final(events).limit() == old(events).limit(),
            final(events).order() == old(events).order(),
            final(events).subscriptions() == old(events).subscriptions(),
            match self.state().selected_ship {
                Some(s) => queued_one(
                    *old(events),
                    *final(events),
                    GameEvent::PlayerCommand(PlayerCommand::MoveShip { ship: s, target: world_pos }),
                ),
                None => *final(events) == *old(events),
            },
    {
        if let Some(ship_id) = self.selected_ship {
            events.queue_event(GameEvent::PlayerCommand(PlayerCommand::MoveShip { ship: ship_id, target: world_pos }));
        }
    }

    /// The stores of all the player's planets (faction 0) added up, resource by resource.
    /// Always succeeds.
    pub fn calculate_empire_resources<O>(&self, planets: &Vec<Planet<O>>) -> (r: GameResult<ResourceBundle>)
        requires
            empire_sums_fit(planets@),
        ensures
            r matches Ok(t) && forall|k: ResourceType| #[trigger] amount_of(t, k) == empire_amount(planets@, k),
    {
        let mut total = ResourceBundle::default();
        let mut i: usize = 0;
        while i < planets.len()
            invariant
                i <= planets@.len(),
                empire_sums_fit(planets@),
                forall|k: ResourceType| #[trigger] amount_of(total, k) == empire_amount(planets@.take(i as int), k),
            decreases planets@.len() - i,
        {
            let p = &planets[i];
            proof {
                assert(planets@.take(i + 1).drop_last() =~= planets@.take(i as int));
                assert(planets@.take(i + 1).last() == planets@[i as int]);
                assert(fits_i32(empire_amount(planets@.take(i + 1), ResourceType::Minerals)));
                assert(fits_i32(empire_amount(planets@.take(i + 1), ResourceType::Food)));
                assert(fits_i32(empire_amount(planets@.take(i + 1), ResourceType::Energy)));
                assert(fits_i32(empire_amount(planets@.take(i + 1), ResourceType::Alloys)));
                assert(fits_i32(empire_amount(planets@.take(i + 1), ResourceType::Components)));
                assert(fits_i32(empire_amount(planets@.take(i + 1), ResourceType::Fuel)));
                assert(amount_of(total, ResourceType::Minerals) == total.minerals);
                assert(amount_of(total, ResourceType::Food) == total.food);
                assert(amount_of(total, ResourceType::Energy) == total.energy);
                assert(amount_of(total, ResourceType::Alloys) == total.alloys);
                assert(amount_of(total, ResourceType::Components) == total.components);
                assert(amount_of(total, ResourceType::Fuel) == total.fuel);
            }
            if p.controller == Some(0u8) {
                total.minerals = total.minerals + p.resources.current.minerals;
                total.food = total.food + p.resources.current.food;
                total.energy = total.energy + p.resources.current.energy;
                total.alloys = total.alloys + p.resources.current.alloys;
                total.components = total.components + p.resources.current.components;
                total.fuel = total.fuel + p.resources.current.fuel;
            }
            i = i + 1;
        }
        assert(planets@.take(planets@.len() as int) =~= planets@);
        Ok(total)
    }
}

} // verus!
