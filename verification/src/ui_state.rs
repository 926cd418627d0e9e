//! What the interface remembers between frames: the selection, which panels are open,
//! display options and the values being edited. All transitions keep the panels
//! consistent with the selection.
use vstd::prelude::*;
use crate::types::{BuildingType, PlanetId, ResourceBundle, ShipId, WorkerAllocation};

verus! {

/// Which panels are open.
#[derive(Debug, Clone, Copy, PartialEq, Eq, Structural)]
pub struct PanelStates {
    pub planet_panel_open: bool,
    pub ship_panel_open: bool,
    pub resource_panel_open: bool,
    pub build_menu_open: bool,
    pub settings_panel_open: bool,
}

impl Default for PanelStates {
    fn default() -> (r: Self)
        ensures
            r == (PanelStates {
                planet_panel_open: false,
                ship_panel_open: false,
                resource_panel_open: false,
                build_menu_open: false,
                settings_panel_open: false,
            }),
    {
        PanelStates {
            planet_panel_open: false,
            ship_panel_open: false,
            resource_panel_open: false,
            build_menu_open: false,
            settings_panel_open: false,
        }
    }
}

impl PanelStates {
    /// Closes every panel but the resource panel, which stays as it is.
    pub fn close_all_except_resource(&mut self)
        ensures
            *final(self) == (PanelStates {
                planet_panel_open: false,
                ship_panel_open: false,
                build_menu_open: false,
                settings_panel_open: false,
                ..*old(self)
            }),
    {
        self.planet_panel_open = false;
        self.ship_panel_open = false;
        self.build_menu_open = false;
        self.settings_panel_open = false;
    }

    /// Whether a panel that edits something (planet, ship, build menu) is open.
    pub fn has_editing_panel_open(&self) -> (r: bool)
        ensures
            r == (self.planet_panel_open || self.ship_panel_open || self.build_menu_open),
    {
        self.planet_panel_open || self.ship_panel_open || self.build_menu_open
    }
}

/// What the map shows.
#[derive(Debug, Clone, Copy, PartialEq, Eq, Structural)]
pub struct DisplayOptions {
    pub show_orbits: bool,
    pub show_ship_paths: bool,
    pub show_resource_flows: bool,
    pub show_detailed_tooltips: bool,
}

impl Default for DisplayOptions {
    /// Orbits, ship paths and detailed tooltips shown; resource flows hidden.
    fn default() -> (r: Self)
        ensures
            r == (DisplayOptions {
                show_orbits: true,
                show_ship_paths: true,
                show_resource_flows: false,
                show_detailed_tooltips: true,
            }),
    {
        DisplayOptions {
            show_orbits: true,
            show_ship_paths: true,
            show_resource_flows: false,
            show_detailed_tooltips: true,
        }
    }
}

/// The interface's state: selection, panels, pause, display options and the values being
/// edited.
#[derive(Debug, Clone, Copy, PartialEq, Eq, Structural)]
pub struct UIState {
    pub selected_planet: Option<PlanetId>,
    pub selected_ship: Option<ShipId>,
    pub selected_building_type: Option<BuildingType>,
    pub panels: PanelStates,
    pub paused: bool,
    pub display: DisplayOptions,
    pub worker_allocation_temp: WorkerAllocation,
    pub resource_transfer_temp: ResourceBundle,
    pub transfer_target: Option<PlanetId>,
    pub auto_pause_on_events: bool,
}

impl UIState {
    /// Each entity panel is open only with something to show: the planet panel and the
    /// build menu need a selected planet, the ship panel a selected ship.
    pub open spec fn consistent(self) -> bool {
        &&& self.panels.planet_panel_open ==> self.selected_planet is Some
        &&& self.panels.ship_panel_open ==> self.selected_ship is Some
        &&& self.panels.build_menu_open ==> self.selected_planet is Some
    }

    /// The state with the values being edited cleared.
    pub open spec fn cleared(self) -> UIState {
        UIState {
            worker_allocation_temp: WorkerAllocation::zero_spec(),
            resource_transfer_temp: ResourceBundle::zero_spec(),
            transfer_target: None,
            selected_building_type: None,
            ..self
        }
    }

    /// The initial state: nothing selected, only the resource panel open, running, the
    /// default display options, nothing being edited.
    pub open spec fn initial() -> UIState {
        UIState {
            selected_planet: None,
            selected_ship: None,
            selected_building_type: None,
            panels: PanelStates {
                planet_panel_open: false,
                ship_panel_open: false,
                resource_panel_open: true,
                build_menu_open: false,
                settings_panel_open: false,
            },
            paused: false,
            display: DisplayOptions {
                show_orbits: true,
                show_ship_paths: true,
                show_resource_flows: false,
                show_detailed_tooltips: true,
            },
            worker_allocation_temp: WorkerAllocation::zero_spec(),
            resource_transfer_temp: ResourceBundle::zero_spec(),
            transfer_target: None,
            auto_pause_on_events: false,
        }
    }
}

impl Default for UIState {
    fn default() -> (r: Self)
        ensures
            r == UIState::initial(),
    {
        UIState {
            selected_planet: None,
            selected_ship: None,
            selected_building_type: None,
            panels: PanelStates {
                planet_panel_open: false,
                ship_panel_open: false,
                resource_panel_open: true,
                build_menu_open: false,
                settings_panel_open: false,
            },
            paused: false,
            display: DisplayOptions::default(),
            worker_allocation_temp: WorkerAllocation::default(),
            resource_transfer_temp: ResourceBundle::default(),
            transfer_target: None,
            auto_pause_on_events: false,
        }
    }
}

impl UIState {
    /// The initial state.
    pub fn new() -> (r: Self)
        ensures
            r == UIState::initial(),
            r.consistent(),
    {
        UIState::default()
    }

    /// Selects planet `planet_id` (or nothing), dropping the ship selection: the planet
    /// panel is open exactly when a planet is selected, the ship panel and build menu
    /// close, and the values being edited are cleared.
    pub fn select_planet(&mut self, planet_id: Option<PlanetId>)
        ensures
            *final(self) == (UIState {
                selected_planet: planet_id,
                selected_ship: None,
                panels: PanelStates {
                    planet_panel_open: planet_id is Some,
                    ship_panel_open: false,
                    build_menu_open: false,
                    ..old(self).panels
                },
                ..*old(self)
            }).cleared(),
            final(self).consistent(),
    {
        self.selected_planet = planet_id;
        self.selected_ship = None;
        self.selected_building_type = None;
        self.panels.planet_panel_open = planet_id.is_some();
        self.panels.ship_panel_open = false;
        self.panels.build_menu_open = false;
        self.clear_temp_state();
    }

    /// Selects ship `ship_id` (or nothing), dropping the planet selection: the ship panel
    /// is open exactly when a ship is selected, the planet panel and build menu close, and
    /// the values being edited are cleared.
    pub fn select_ship(&mut self, ship_id: Option<ShipId>)
        ensures
            *final(self) == (UIState {
                selected_planet: None,
                selected_ship: ship_id,
                panels: PanelStates {
                    planet_panel_open: false,
                    ship_panel_open: ship_id is Some,
                    build_menu_open: false,
                    ..old(self).panels
                },
                ..*old(self)
            }).cleared(),
            final(self).consistent(),
    {
        self.selected_ship = ship_id;
        self.selected_planet = None;
        self.selected_building_type = None;
        self.panels.ship_panel_open = ship_id.is_some();
        self.panels.planet_panel_open = false;
        self.panels.build_menu_open = false;
        self.clear_temp_state();
    }

    /// Drops every selection, closes all panels but the resource panel, and clears the
    /// values being edited.
    pub fn clear_selection(&mut self)
        ensures
            *final(self) == (UIState {
                selected_planet: None,
                selected_ship: None,
                panels: PanelStates {
                    planet_panel_open: false,
                    ship_panel_open: false,
                    build_menu_open: false,
                    settings_panel_open: false,
                    ..old(self).panels
                },
                ..*old(self)
            }).cleared(),
            final(self).consistent(),
    {
        self.selected_planet = None;
        self.selected_ship = None;
        self.selected_building_type = None;
        self.panels.close_all_except_resource();
        self.clear_temp_state();
    }

    /// Opens or closes the planet panel, when a planet is selected.
    pub fn toggle_planet_panel(&mut self)
        ensures
            *final(self) == if old(self).selected_planet is Some {
                UIState {
                    panels: PanelStates { planet_panel_open: !old(self).panels.planet_panel_open, ..old(self).panels },
                    ..*old(self)
                }
            } else {
                *old(self)
            },
            old(self).consistent() ==> final(self).consistent(),
    {
        if self.selected_planet.is_some() {
            self.panels.planet_panel_open = !self.panels.planet_panel_open;
        }
    }

    /// Opens or closes the ship panel, when a ship is selected.
    pub fn toggle_ship_panel(&mut self)
        ensures
            *final(self) == if old(self).selected_ship is Some {
                UIState {
                    panels: PanelStates { ship_panel_open: !old(self).panels.ship_panel_open, ..old(self).panels },
                    ..*old(self)
                }
            } else {
                *old(self)
            },
            old(self).consistent() ==> final(self).consistent(),
    {
        if self.selected_ship.is_some() {
            self.panels.ship_panel_open = !self.panels.ship_panel_open;
        }
    }

    /// Opens or closes the build menu, when a planet is selected; either way the chosen
    /// building type is dropped.
    pub fn toggle_build_menu(&mut self)
        ensures
            *final(self) == if old(self).selected_planet is Some {
                UIState {
                    panels: PanelStates { build_menu_open: !old(self).panels.build_menu_open, ..old(self).panels },
                    selected_building_type: None,
                    ..*old(self)
                }
            } else {
                *old(self)
            },
            old(self).consistent() ==> final(self).consistent(),
    {
        if self.selected_planet.is_some() {
            self.panels.build_menu_open = !self.panels.build_menu_open;
            if self.panels.build_menu_open {
                self.selected_building_type = None;
            } else {
                self.selected_building_type = None;
            }
        }
    }

    /// Pauses or resumes the game.
    pub fn set_paused(&mut self, paused: bool)
        ensures
            *final(self) == (UIState { paused, ..*old(self) }),
    {
        self.paused = paused;
    }

    /// Flips the pause.
    pub fn toggle_pause(&mut self)
        ensures
            *final(self) == (UIState { paused: !old(self).paused, ..*old(self) }),
    {
        self.paused = !self.paused;
    }

    /// Shows or hides the orbits.
    pub fn toggle_orbits(&mut self)
        ensures
            *final(self) == (UIState {
                display: DisplayOptions { show_orbits: !old(self).display.show_orbits, ..old(self).display },
                ..*old(self)
            }),
    {
        self.display.show_orbits = !self.display.show_orbits;
    }

    /// Shows or hides the ships' paths.
    pub fn toggle_ship_paths(&mut self)
        ensures
            *final(self) == (UIState {
                display: DisplayOptions { show_ship_paths: !old(self).display.show_ship_paths, ..old(self).display },
                ..*old(self)
            }),
    {
        self.display.show_ship_paths = !self.display.show_ship_paths;
    }

    /// Shows or hides the resource flows.
    pub fn toggle_resource_flows(&mut self)
        ensures
            *final(self) == (UIState {
                display: DisplayOptions {
                    show_resource_flows: !old(self).display.show_resource_flows,
                    ..old(self).display
                },
                ..*old(self)
            }),
    {
        self.display.show_resource_flows = !self.display.show_resource_flows;
    }

    /// Shows or hides the detailed tooltips.
    pub fn toggle_detailed_tooltips(&mut self)
        ensures
            *final(self) == (UIState {
                display: DisplayOptions {
                    show_detailed_tooltips: !old(self).display.show_detailed_tooltips,
                    ..old(self).display
                },
                ..*old(self)
            }),
    {
        self.display.show_detailed_tooltips = !self.display.show_detailed_tooltips;
    }

    /// Opens or closes the settings panel.
    pub fn toggle_settings_panel(&mut self)
        ensures
            *final(self) == (UIState {
                panels: PanelStates { settings_panel_open: !old(self).panels.settings_panel_open, ..old(self).panels },
                ..*old(self)
            }),
    {
        self.panels.settings_panel_open = !self.panels.settings_panel_open;
    }

    /// Opens or closes the resource panel.
    pub fn toggle_resource_panel(&mut self)
        ensures
            *final(self) == (UIState {
                panels: PanelStates { resource_panel_open: !old(self).panels.resource_panel_open, ..old(self).panels },
                ..*old(self)
            }),
    {
        self.panels.resource_panel_open = !self.panels.resource_panel_open;
    }

    /// Starts editing a worker allocation from `current`.
    pub fn start_worker_allocation_edit(&mut self, current: WorkerAllocation)
        ensures
            *final(self) == (UIState { worker_allocation_temp: current, ..*old(self) }),
    {
        self.worker_allocation_temp = current;
    }

    /// Starts editing a transfer to `target`, from an empty bundle.
    pub fn start_resource_transfer_edit(&mut self, target: Option<PlanetId>)
        ensures
            *final(self) == (UIState {
                resource_transfer_temp: ResourceBundle::zero_spec(),
                transfer_target: target,
                ..*old(self)
            }),
    {
        self.resource_transfer_temp = ResourceBundle::default();
        self.transfer_target = target;
    }

    /// Chooses the building type to construct.
    pub fn set_selected_building(&mut self, building_type: Option<BuildingType>)
        ensures
            *final(self) == (UIState { selected_building_type: building_type, ..*old(self) }),
    {
        self.selected_building_type = building_type;
    }

    /// Clears the values being edited.
    pub fn clear_temp_state(&mut self)
        ensures
            *final(self) == old(self).cleared(),
    {
        self.worker_allocation_temp = WorkerAllocation::default();
        self.resource_transfer_temp = ResourceBundle::default();
        self.transfer_target = None;
        self.selected_building_type = None;
    }

    /// Whether something is being edited: a transfer target, the build menu, or a chosen
    /// building type.
    pub fn is_editing(&self) -> (r: bool)
        ensures
            r == (self.transfer_target is Some || self.panels.build_menu_open
                || self.selected_building_type is Some),
    {
        self.transfer_target.is_some() || self.panels.build_menu_open
            || self.selected_building_type.is_some()
    }

    /// Whether a planet or a ship is selected.
    pub fn has_selection(&self) -> (r: bool)
        ensures
            r == (self.selected_planet is Some || self.selected_ship is Some),
    {
        self.selected_planet.is_some() || self.selected_ship.is_some()
    }

    /// Whether the panels are consistent with the selection.
    pub fn validate_state(&self) -> (r: bool)
        ensures
            r == self.consistent(),
    {
        if self.panels.planet_panel_open && self.selected_planet.is_none() {
            return false;
        }
        if self.panels.ship_panel_open && self.selected_ship.is_none() {
            return false;
        }
        if self.panels.build_menu_open && self.selected_planet.is_none() {
            return false;
        }
        true
    }

    /// Whether detailed information is shown.
    pub fn should_show_details(&self) -> (r: bool)
        ensures
            r == self.display.show_detailed_tooltips,
    {
        self.display.show_detailed_tooltips
    }

    /// The display options.
    pub fn get_display_options(&self) -> (r: &DisplayOptions)
        ensures
            *r == self.display,
    {
        &self.display
    }

    /// The panel states.
    pub fn get_panel_states(&self) -> (r: &PanelStates)
        ensures
            *r == self.panels,
    {
        &self.panels
    }
}

} // verus!
