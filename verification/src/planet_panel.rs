//! The planet panel: which planet it shows, which tab is open, the buttons drawn on it and
//! what a click on each of them asks for. Drawing and hit-testing are done by the program
//! around the library, which hands over the rectangle of each button (`R`) and the name of
//! the button clicked.
use vstd::prelude::*;
use crate::events::{EventBus, GameEvent, PlayerCommand, same_events, recent_after};
use crate::panels::Panel;
use crate::planet_manager::building_slots;
use crate::text::decimal;
use crate::ui_renderer::{ownership_of, Ownership};
use crate::types::{
    fits_i32, wrap_i32, Building, BuildingType, FactionId, GameError, GameResult, Planet, PlanetId,
    ResourceBundle, WorkerAllocation,
};

verus! {

/// The tabs of the planet panel.
#[derive(Debug, Clone, Copy, PartialEq, Eq, Hash, Structural)]
pub enum PanelTab {
    Overview,
    Workers,
    Buildings,
    Resources,
}

/// The state of the planet panel. `R` is the rectangle a button covers on screen.
pub struct PlanetPanel<R> {
    visible: bool,
    selected_planet_id: Option<PlanetId>,
    active_tab: PanelTab,
    button_cache: Vec<(String, R)>,
    worker_allocation_temp: WorkerAllocation,
    allocation_editing: bool,
    cache_dirty: bool,
    last_planet_hash: u64,
}

/// The first position of a button named `id` among `buttons`, if any.
pub open spec fn button_position<R>(buttons: Seq<(String, R)>, id: Seq<char>) -> Option<int>
    decreases buttons.len(),
{
    if buttons.len() == 0 {
        None
    } else {
        match button_position(buttons.drop_last(), id) {
            Some(i) => Some(i),
            None => if buttons.last().0@ == id {
                Some(buttons.len() - 1)
            } else {
                None
            },
        }
    }
}

/// `Debug` notation of an optional planet id: `Some(..)` or `None`.
pub open spec fn debug_planet_id(o: Option<PlanetId>) -> Seq<char> {
    match o {
        Some(id) => "Some("@ + decimal(id as nat) + ")"@,
        None => "None"@,
    }
}

/// How many of `buildings` are operational.
pub open spec fn operational_count(buildings: Seq<Building>) -> nat
    decreases buildings.len(),
{
    if buildings.len() == 0 {
        0
    } else {
        operational_count(buildings.drop_last()) + if buildings.last().operational {
            1nat
        } else {
            0nat
        }
    }
}

impl<R> PlanetPanel<R> {
    /// Whether the panel is shown.
    pub closed spec fn shown(&self) -> bool {
        self.visible
    }

    /// The planet the panel is showing.
    pub closed spec fn planet(&self) -> Option<PlanetId> {
        self.selected_planet_id
    }

    /// The open tab.
    pub closed spec fn tab(&self) -> PanelTab {
        self.active_tab
    }

    /// The buttons drawn since the cache was last cleared, each with its rectangle.
    pub closed spec fn buttons(&self) -> Seq<(String, R)> {
        self.button_cache@
    }

    /// Whether the worker allocation is being edited.
    pub closed spec fn editing(&self) -> bool {
        self.allocation_editing
    }

    /// Whether the buttons must be laid out again.
    pub closed spec fn dirty(&self) -> bool {
        self.cache_dirty
    }

    /// The state summary of the planet last drawn.
    pub closed spec fn last_hash(&self) -> u64 {
        self.last_planet_hash
    }

    /// The allocation kept for editing.
    pub closed spec fn allocation_draft(&self) -> WorkerAllocation {
        self.worker_allocation_temp
    }

    /// Shows `planet_id` on the Overview tab, ending any editing. The buttons must be laid
    /// out again if another planet was shown before, and are then forgotten.
    pub fn show_planet(&mut self, planet_id: PlanetId)
        ensures
            final(self).shown(),
            final(self).planet() == Some(planet_id),
            final(self).tab() == PanelTab::Overview,
            !final(self).editing(),
            final(self).dirty() == (old(self).dirty() || old(self).planet() != Some(planet_id)),
            final(self).buttons() == if final(self).dirty() {
                Seq::<(String, R)>::empty()
            } else {
                old(self).buttons()
            },
            final(self).last_hash() == old(self).last_hash(),
            final(self).allocation_draft() == old(self).allocation_draft(),
    {
        let same = match self.selected_planet_id {
            Some(p) => p == planet_id,
            None => false,
        };
        if !same {
            self.cache_dirty = true;
        }
        self.visible = true;
        self.selected_planet_id = Some(planet_id);
        self.active_tab = PanelTab::Overview;
        self.allocation_editing = false;
        if self.cache_dirty {
            self.button_cache.clear();
        }
    }

    /// The planet the panel is showing.
    pub fn get_selected_planet(&self) -> (r: Option<PlanetId>)
        ensures
            r == self.planet(),
    {
        self.selected_planet_id
    }

    /// The open tab.
    pub fn active_tab(&self) -> (r: PanelTab)
        ensures
            r == self.tab(),
    {
        self.active_tab
    }

    /// Whether the worker allocation is being edited.
    pub fn is_allocation_editing(&self) -> (r: bool)
        ensures
            r == self.editing(),
    {
        self.allocation_editing
    }

    /// Whether the buttons must be laid out again.
    pub fn is_cache_dirty(&self) -> (r: bool)
        ensures
            r == self.dirty(),
    {
        self.cache_dirty
    }

    /// The buttons drawn since the cache was last cleared, each with its rectangle.
    pub fn cached_buttons(&self) -> (r: &Vec<(String, R)>)
        ensures
            r@ == self.buttons(),
    {
        &self.button_cache
    }

    /// Records the rectangle of the button named `id`: it replaces the rectangle of the
    /// first button of that name, or the button is added last.
    pub fn insert_button(&mut self, id: String, rect: R)
        ensures
            final(self).buttons() == match button_position(old(self).buttons(), id@) {
                Some(i) => old(self).buttons().update(i, (id, rect)),
                None => old(self).buttons().push((id, rect)),
            },
            final(self).shown() == old(self).shown(),
            final(self).planet() == old(self).planet(),
            final(self).tab() == old(self).tab(),
            final(self).editing() == old(self).editing(),
            final(self).dirty() == old(self).dirty(),
            final(self).last_hash() == old(self).last_hash(),
            final(self).allocation_draft() == old(self).allocation_draft(),
    {
        let ghost b0 = self.button_cache@;
        let mut i: usize = 0;
        while i < self.button_cache.len()
            invariant_except_break
                button_position(b0.subrange(0, i as int), id@) is None,
            invariant
                i <= b0.len(),
                self.button_cache@ == b0,
            ensures
                i < b0.len() ==> button_position(b0, id@) == Some(i as int),
                i >= b0.len() ==> button_position(b0.subrange(0, i as int), id@) is None,
            decreases b0.len() - i,
        {
            if self.button_cache[i].0 == id {
                proof {
                    lemma_button_position_found(b0, id@, i as int);
                }
                break;
            }
            proof {
                lemma_button_position_prefix(b0, id@, i as int);
            }
            i = i + 1;
        }
        proof {
            if i >= b0.len() {
                assert(b0.subrange(0, i as int) =~= b0);
            }
        }
        if i < self.button_cache.len() {
            self.button_cache.set(i, (id, rect));
        } else {
            self.button_cache.push((id, rect));
        }
    }

    /// Checks the planet about to be drawn and keeps the button layout up to date.
    /// A hidden panel does nothing. Otherwise the planet must be the one shown, with valid
    /// stores and workers adding up to its population; `planet_hash` summarises its state,
    /// and a change of it means the buttons must be laid out again, in which case they
    /// are forgotten here.
    pub fn render<O, V: Copy, F: Copy>(
        &mut self,
        planet: &Planet<O>,
        planet_hash: u64,
        _events: &mut EventBus<V, F>,
    ) -> (r: GameResult<()>)
        requires
            planet.population.allocation.is_non_negative() ==> fits_i32(
                planet.population.allocation.sum_spec(),
            ),
        ensures
            *final(_events) == *old(_events),
            !old(self).shown() ==> r.is_ok() && *final(self) == *old(self),
            old(self).shown() ==> {
                &&& r.is_ok() <==> (old(self).planet() == Some(planet.id)
                    && planet.resources.is_valid()
                    && planet.population.allocation.matches_total(planet.population.total as int))
                &&& old(self).planet() != Some(planet.id) ==> (r matches Err(
                    GameError::InvalidOperation(m),
                ) && m@ == "Panel displaying wrong planet: expected "@ + debug_planet_id(
                    old(self).planet(),
                ) + ", got "@ + decimal(planet.id as nat))
                &&& r matches Err(e) ==> e is InvalidOperation && *final(self) == *old(self)
                &&& r.is_ok() ==> {
                    &&& final(self).last_hash() == planet_hash
                    &&& !final(self).dirty()
                    &&& final(self).buttons() == if old(self).dirty() || old(self).last_hash()
                        != planet_hash {
                        Seq::<(String, R)>::empty()
                    } else {
                        old(self).buttons()
                    }
                    &&& final(self).shown() == old(self).shown()
                    &&& final(self).planet() == old(self).planet()
                    &&& final(self).tab() == old(self).tab()
                    &&& final(self).editing() == old(self).editing()
                    &&& final(self).allocation_draft() == old(self).allocation_draft()
                }
            },
    {
        if !self.visible {
            return Ok(());
        }
        let matches = match self.selected_planet_id {
            Some(p) => p == planet.id,
            None => false,
        };
        if !matches {
            let mut m = String::from_str("Panel displaying wrong planet: expected ");
            match self.selected_planet_id {
                Some(p) => {
                    m.append("Some(");
                    crate::text::append_decimal(&mut m, p as u64);
                    m.append(")");
                },
                None => {
                    m.append("None");
                },
            }
            m.append(", got ");
            crate::text::append_decimal(&mut m, planet.id as u64);
            proof {
                reveal_strlit("Some(");
                reveal_strlit(")");
                reveal_strlit("None");
            }
            assert(m@ =~= "Panel displaying wrong planet: expected "@ + debug_planet_id(
                self.selected_planet_id,
            ) + ", got "@ + decimal(planet.id as nat));
            return Err(GameError::InvalidOperation(m));
        }
        planet.resources.validate()?;
        planet.population.allocation.validate(planet.population.total)?;
        if planet_hash != self.last_planet_hash {
            self.cache_dirty = true;
            self.last_planet_hash = planet_hash;
        }
        if self.cache_dirty {
            self.button_cache.clear();
            self.cache_dirty = false;
        }
        Ok(())
    }
}

impl<R> PlanetPanel<R> {
    /// Carries out a click on the button named `button_id`. Nothing happens while no planet
    /// is shown. Otherwise "close" closes the panel, "tab_0" to "tab_3" open the Overview,
    /// Workers, Buildings and Resources tabs, "edit_workers" starts or stops editing the
    /// workers, "build_structure" asks to build a mine on the planet, and
    /// "transfer_resources" asks to move nothing from the planet to itself; any other
    /// name does nothing. Always succeeds.
    pub fn handle_button_action<V: Copy, F: Copy>(
        &mut self,
        button_id: &str,
        events: &mut EventBus<V, F>,
    ) -> (r: GameResult<()>)
        requires
            old(events).wf(),
        ensures
            r.is_ok(),
            final(events).wf(),
            final(events).limit() == old(events).limit(),
            final(events).order() == old(events).order(),
            final(events).subscriptions() == old(events).subscriptions(),
            panel_click(*old(self), *final(self), *old(events), *final(events), button_id@),
    {
        let planet_id = match self.selected_planet_id {
            Some(p) => p,
            None => {
                return Ok(());
            },
        };
        let id = String::from_str(button_id);
        proof {
            reveal_strlit("close");
            reveal_strlit("tab_0");
            reveal_strlit("tab_1");
            reveal_strlit("tab_2");
            reveal_strlit("tab_3");
            reveal_strlit("build_structure");
            reveal_strlit("edit_workers");
            reveal_strlit("transfer_resources");
        }
        if id == String::from_str("close") {
            self.close();
        } else if id == String::from_str("tab_0") {
            self.active_tab = PanelTab::Overview;
        } else if id == String::from_str("tab_1") {
            self.active_tab = PanelTab::Workers;
        } else if id == String::from_str("tab_2") {
            self.active_tab = PanelTab::Buildings;
        } else if id == String::from_str("tab_3") {
            self.active_tab = PanelTab::Resources;
        } else if id == String::from_str("build_structure") {
            events.queue_event(
                GameEvent::PlayerCommand(
                    PlayerCommand::BuildStructure { planet: planet_id, building_type: BuildingType::Mine },
                ),
            );
        } else if id == String::from_str("edit_workers") {
            self.allocation_editing = !self.allocation_editing;
        } else if id == String::from_str("transfer_resources") {
            events.queue_event(
                GameEvent::PlayerCommand(
                    PlayerCommand::TransferResources {
                        from: planet_id,
                        to: planet_id,
                        resources: ResourceBundle::default(),
                    },
                ),
            );
        }
        Ok(())
    }
}

/// The panel `before` with only the open tab changed to `tab`.
pub open spec fn with_tab<R>(before: PlanetPanel<R>, after: PlanetPanel<R>, tab: PanelTab) -> bool {
    &&& after.tab() == tab
    &&& after.shown() == before.shown()
    &&& after.planet() == before.planet()
    &&& after.buttons() == before.buttons()
    &&& after.editing() == before.editing()
    &&& after.dirty() == before.dirty()
    &&& after.last_hash() == before.last_hash()
    &&& after.allocation_draft() == before.allocation_draft()
}

/// The panel `after` is `before` closed: hidden, showing no planet, not editing, with no
/// buttons, which must be laid out again.
pub open spec fn closed_from<R>(before: PlanetPanel<R>, after: PlanetPanel<R>) -> bool {
    &&& !after.shown()
    &&& after.planet() is None
    &&& !after.editing()
    &&& after.buttons() == Seq::<(String, R)>::empty()
    &&& after.dirty()
    &&& after.tab() == before.tab()
    &&& after.last_hash() == before.last_hash()
    &&& after.allocation_draft() == before.allocation_draft()
}

/// The event bus `after` is `before` with `e` queued.
pub open spec fn queued_one<V, F>(before: EventBus<V, F>, after: EventBus<V, F>, e: GameEvent<V, F>) -> bool {
    &&& after.queued() == before.queued().push(e)
    &&& same_events(after.history(), recent_after(before.history(), e, before.limit()))
}

/// What a click on the button named `id` does to the panel and the event bus.
pub open spec fn panel_click<R, V, F>(
    before: PlanetPanel<R>,
    after: PlanetPanel<R>,
    bus_before: EventBus<V, F>,
    bus_after: EventBus<V, F>,
    id: Seq<char>,
) -> bool {
    match before.planet() {
        None => after == before && bus_after == bus_before,
        Some(p) => {
            if id == "close"@ {
                closed_from(before, after) && bus_after == bus_before
            } else if id == "tab_0"@ {
                with_tab(before, after, PanelTab::Overview) && bus_after == bus_before
            } else if id == "tab_1"@ {
                with_tab(before, after, PanelTab::Workers) && bus_after == bus_before
            } else if id == "tab_2"@ {
                with_tab(before, after, PanelTab::Buildings) && bus_after == bus_before
            } else if id == "tab_3"@ {
                with_tab(before, after, PanelTab::Resources) && bus_after == bus_before
            } else if id == "build_structure"@ {
                after == before && queued_one(
                    bus_before,
                    bus_after,
                    GameEvent::PlayerCommand(
                        PlayerCommand::BuildStructure { planet: p, building_type: BuildingType::Mine },
                    ),
                )
            } else if id == "edit_workers"@ {
                &&& after.editing() == !before.editing()
                &&& after.shown() == before.shown()
                &&& after.planet() == before.planet()
                &&& after.tab() == before.tab()
                &&& after.buttons() == before.buttons()
                &&& after.dirty() == before.dirty()
                &&& after.last_hash() == before.last_hash()
                &&& after.allocation_draft() == before.allocation_draft()
                &&& bus_after == bus_before
            } else if id == "transfer_resources"@ {
                after == before && queued_one(
                    bus_before,
                    bus_after,
                    GameEvent::PlayerCommand(
                        PlayerCommand::TransferResources {
                            from: p,
                            to: p,
                            resources: ResourceBundle::zero_spec(),
                        },
                    ),
                )
            } else {
                after == before && bus_after == bus_before
            }
        },
    }
}

impl<R> Panel for PlanetPanel<R> {
    open spec fn panel_shown(&self) -> bool {
        self.shown()
    }

    /// A hidden panel on the Overview tab, showing no planet, with no buttons, which must
    /// be laid out, and nothing being edited.
    fn new() -> (r: Self)
        ensures
            !r.shown(),
            r.planet() is None,
            r.tab() == PanelTab::Overview,
            r.buttons() == Seq::<(String, R)>::empty(),
            r.allocation_draft() == WorkerAllocation::zero_spec(),
            !r.editing(),
            r.dirty(),
            r.last_hash() == 0,
    {
        PlanetPanel {
            visible: false,
            selected_planet_id: None,
            active_tab: PanelTab::Overview,
            button_cache: Vec::new(),
            worker_allocation_temp: WorkerAllocation::default(),
            allocation_editing: false,
            cache_dirty: true,
            last_planet_hash: 0,
        }
    }

    /// Shows the panel on the Overview tab, ending any editing.
    fn show(&mut self)
        ensures
            final(self).shown(),
            final(self).tab() == PanelTab::Overview,
            !final(self).editing(),
            final(self).planet() == old(self).planet(),
            final(self).buttons() == old(self).buttons(),
            final(self).dirty() == old(self).dirty(),
            final(self).last_hash() == old(self).last_hash(),
            final(self).allocation_draft() == old(self).allocation_draft(),
    {
        self.visible = true;
        self.active_tab = PanelTab::Overview;
        self.allocation_editing = false;
    }

    /// Closes the panel: it shows no planet, stops editing and forgets its buttons, which
    /// must be laid out again.
    fn close(&mut self)
        ensures
            closed_from(*old(self), *final(self)),
    {
        self.visible = false;
        self.selected_planet_id = None;
        self.allocation_editing = false;
        self.button_cache.clear();
        self.cache_dirty = true;
    }

    /// Whether the panel is shown.
    fn is_visible(&self) -> (r: bool)
        ensures
            r == self.shown(),
    {
        self.visible
    }
}

proof fn lemma_button_position_prefix<R>(b: Seq<(String, R)>, id: Seq<char>, i: int)
    requires
        0 <= i < b.len(),
        button_position(b.subrange(0, i), id) is None,
        b[i].0@ != id,
    ensures
        button_position(b.subrange(0, i + 1), id) is None,
{
    assert(b.subrange(0, i + 1).drop_last() =~= b.subrange(0, i));
}

proof fn lemma_button_position_found<R>(b: Seq<(String, R)>, id: Seq<char>, i: int)
    requires
        0 <= i < b.len(),
        button_position(b.subrange(0, i), id) is None,
        b[i].0@ == id,
    ensures
        button_position(b, id) == Some(i),
    decreases b.len(),
{
    if b.len() == i + 1 {
        assert(b.drop_last() =~= b.subrange(0, i));
    } else {
        assert(b.drop_last().subrange(0, i) =~= b.subrange(0, i));
        lemma_button_position_found(b.drop_last(), id, i);
    }
}

/// How the panel's title names who holds a planet.
pub fn controller_label(controller: Option<FactionId>) -> (r: &'static str)
    ensures
        r@ == match ownership_of(controller) {
            Ownership::Player => "Player Controlled"@,
            Ownership::Enemy => "Enemy Controlled"@,
            Ownership::Unowned => "Uncontrolled"@,
        },
{
    match controller {
        Some(f) => if f == 0 {
            "Player Controlled"
        } else {
            "Enemy Controlled"
        },
        None => "Uncontrolled",
    }
}

/// How many of `buildings` are operational.
pub fn count_operational(buildings: &Vec<Building>) -> (r: usize)
    ensures
        r == operational_count(buildings@),
{
    let mut n: usize = 0;
    let mut i: usize = 0;
    while i < buildings.len()
        invariant
            i <= buildings@.len(),
            n == operational_count(buildings@.subrange(0, i as int)),
            n <= i,
        decreases buildings@.len() - i,
    {
        assert(buildings@.subrange(0, i + 1).drop_last() =~= buildings@.subrange(0, i as int));
        if buildings[i].operational {
            n = n + 1;
        }
        i = i + 1;
    }
    assert(buildings@.subrange(0, buildings@.len() as int) =~= buildings@);
    n
}

/// The building slots the panel shows for `planet`: the slots used (the number of its
/// buildings, as an `i32`), the slots it has, and how many are still free.
pub fn slot_usage<O>(planet: &Planet<O>) -> (r: (i32, i32, i32))
    requires
        fits_i32(building_slots(planet.population.total) - wrap_i32(planet.developments@.len() as int)),
    ensures
        r.0 == wrap_i32(planet.developments@.len() as int),
        r.1 == building_slots(planet.population.total),
        r.2 == r.1 - r.0,
{
    let len = planet.developments.len();
    #[verifier::truncate]
    let used = len as i32;
    assert(used == wrap_i32(len as int)) by (bit_vector)
        requires
            used == len as i32,
    ;
    let slots: i32 = 10 + planet.population.total / 10000;
    (used, slots, slots - used)
}

} // verus!
