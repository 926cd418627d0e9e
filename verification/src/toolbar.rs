//! The toolbar along the top of the screen and the resource bar below it: which dropdown is
//! open, the player's stores and people added up, and how they changed over the last
//! window of ticks. Drawing, and the toolbar's height (`H`), are left to the program around
//! the library.
use vstd::prelude::*;
use crate::faction_manager::FactionManager;
use crate::planet_manager::PlanetManager;
use crate::text::signed_decimal;
use crate::types::{fits_i32, Faction, FactionId, GameError, GameResult, Planet, ResourceBundle};

verus! {

/// The toolbar: its height and which of its menus are open.
pub struct Toolbar<H> {
    pub height: H,
    pub planets_menu_open: bool,
    pub ships_menu_open: bool,
    pub resources_panel_open: bool,
    pub settings_menu_open: bool,
    pub mouse_over: bool,
}

impl<H> Toolbar<H> {
    /// A toolbar of height `height` with every menu closed and the resources shown.
    pub fn new(height: H) -> (r: Self)
        ensures
            r.height == height,
            !r.planets_menu_open,
            !r.ships_menu_open,
            r.resources_panel_open,
            !r.settings_menu_open,
            !r.mouse_over,
    {
        Toolbar {
            height,
            planets_menu_open: false,
            ships_menu_open: false,
            resources_panel_open: true,
            settings_menu_open: false,
            mouse_over: false,
        }
    }

    /// Whether the pointer was over a toolbar button when it was last drawn.
    pub fn is_mouse_over(&self) -> (r: bool)
        ensures
            r == self.mouse_over,
    {
        self.mouse_over
    }

    /// Starts drawing a frame: the pointer is taken to be off the buttons until one of them
    /// reports it.
    pub fn begin_frame(&mut self)
        ensures
            !final(self).mouse_over,
            final(self).height == old(self).height,
            final(self).planets_menu_open == old(self).planets_menu_open,
            final(self).ships_menu_open == old(self).ships_menu_open,
            final(self).resources_panel_open == old(self).resources_panel_open,
            final(self).settings_menu_open == old(self).settings_menu_open,
    {
        self.mouse_over = false;
    }

    /// A button reports that the pointer is over it.
    pub fn note_hovered(&mut self)
        ensures
            final(self).mouse_over,
            final(self).height == old(self).height,
            final(self).planets_menu_open == old(self).planets_menu_open,
            final(self).ships_menu_open == old(self).ships_menu_open,
            final(self).resources_panel_open == old(self).resources_panel_open,
            final(self).settings_menu_open == old(self).settings_menu_open,
    {
        self.mouse_over = true;
    }

    /// Closes the planet, ship and settings menus.
    pub fn close_all_dropdowns(&mut self)
        ensures
            !final(self).planets_menu_open,
            !final(self).ships_menu_open,
            !final(self).settings_menu_open,
            final(self).resources_panel_open == old(self).resources_panel_open,
            final(self).height == old(self).height,
            final(self).mouse_over == old(self).mouse_over,
    {
        self.planets_menu_open = false;
        self.ships_menu_open = false;
        self.settings_menu_open = false;
    }

    /// The Planets button opens or closes the planet menu and closes the others.
    pub fn click_planets(&mut self)
        ensures
            final(self).planets_menu_open == !old(self).planets_menu_open,
            !final(self).ships_menu_open,
            !final(self).settings_menu_open,
            final(self).resources_panel_open == old(self).resources_panel_open,
            final(self).height == old(self).height,
            final(self).mouse_over == old(self).mouse_over,
    {
        self.planets_menu_open = !self.planets_menu_open;
        self.ships_menu_open = false;
        self.settings_menu_open = false;
    }

    /// The Ships button opens or closes the ship menu and closes the others.
    pub fn click_ships(&mut self)
        ensures
            final(self).ships_menu_open == !old(self).ships_menu_open,
            !final(self).planets_menu_open,
            !final(self).settings_menu_open,
            final(self).resources_panel_open == old(self).resources_panel_open,
            final(self).height == old(self).height,
            final(self).mouse_over == old(self).mouse_over,
    {
        self.ships_menu_open = !self.ships_menu_open;
        self.planets_menu_open = false;
        self.settings_menu_open = false;
    }

    /// The Settings button opens or closes the settings menu and closes the others.
    pub fn click_settings(&mut self)
        ensures
            final(self).settings_menu_open == !old(self).settings_menu_open,
            !final(self).planets_menu_open,
            !final(self).ships_menu_open,
            final(self).resources_panel_open == old(self).resources_panel_open,
            final(self).height == old(self).height,
            final(self).mouse_over == old(self).mouse_over,
    {
        self.settings_menu_open = !self.settings_menu_open;
        self.planets_menu_open = false;
        self.ships_menu_open = false;
    }
}

/// The number of ticks over which the resource bar measures change.
pub const CALCULATION_WINDOW: u64 = 240;

/// The id of the first faction of `fs` played by a person, if any.
pub open spec fn player_faction_id(fs: Seq<Faction>) -> Option<FactionId>
    decreases fs.len(),
{
    if fs.len() == 0 {
        None
    } else if fs[0].is_player {
        Some(fs[0].id)
    } else {
        player_faction_id(fs.drop_first())
    }
}

/// The stores of the planets of `ps` held by faction `f`, added up field by field, each
/// sum saturating at the bounds of `i32`.
pub open spec fn faction_stores<O>(ps: Seq<Planet<O>>, f: FactionId) -> ResourceBundle
    decreases ps.len(),
{
    if ps.len() == 0 {
        ResourceBundle::zero_spec()
    } else {
        let prev = faction_stores(ps.drop_last(), f);
        if ps.last().controller == Some(f) {
            prev.saturating_plus(ps.last().resources.current)
        } else {
            prev
        }
    }
}

/// The people on the planets of `ps` held by faction `f`.
pub open spec fn faction_people<O>(ps: Seq<Planet<O>>, f: FactionId) -> int
    decreases ps.len(),
{
    if ps.len() == 0 {
        0
    } else {
        faction_people(ps.drop_last(), f) + if ps.last().controller == Some(f) {
            ps.last().population.total as int
        } else {
            0
        }
    }
}

/// Every running total of the people of faction `f` over `ps` fits in an `i32`.
pub open spec fn people_sums_fit<O>(ps: Seq<Planet<O>>, f: FactionId) -> bool {
    forall|k: int| 0 <= k <= ps.len() ==> fits_i32(#[trigger] faction_people(ps.take(k), f))
}

/// The player's people: those of the first faction played by a person, or 0 without one.
pub open spec fn empire_people<O>(fs: Seq<Faction>, ps: Seq<Planet<O>>) -> int {
    match player_faction_id(fs) {
        Some(f) => faction_people(ps, f),
        None => 0,
    }
}

/// The change shown for a figure: a `+` before a positive change.
pub open spec fn change_note(change: i32) -> Seq<char> {
    if change > 0 {
        "+"@ + signed_decimal(change as int)
    } else {
        signed_decimal(change as int)
    }
}

/// How a change of a figure is written.
pub fn format_change_indicator(change: i32) -> (r: String)
    ensures
        r@ == change_note(change),
{
    proof {
        reveal_strlit("+");
        reveal_strlit("");
    }
    let r = if change > 0 {
        crate::text::text_with_number("+", change as i64, "")
    } else {
        crate::text::text_with_number("", change as i64, "")
    };
    assert(r@ =~= change_note(change));
    r
}

/// The resource bar's memory: the figures at the start of the current window, the change
/// over the last full window, and the recently added-up stores.
pub struct ResourceDisplay {
    resource_window_history: Option<(ResourceBundle, i32, u64)>,
    last_window_tick: u64,
    resource_changes: ResourceBundle,
    population_change: i32,
    cached_empire_resources: Option<(ResourceBundle, u64)>,
}

/// Every field of `a - b` fits in an `i32`.
pub open spec fn differences_fit(a: ResourceBundle, b: ResourceBundle) -> bool {
    &&& fits_i32(a.minerals - b.minerals)
    &&& fits_i32(a.food - b.food)
    &&& fits_i32(a.energy - b.energy)
    &&& fits_i32(a.alloys - b.alloys)
    &&& fits_i32(a.components - b.components)
    &&& fits_i32(a.fuel - b.fuel)
}

impl ResourceDisplay {
    /// The stores and people at the start of the current window, and its first tick.
    pub closed spec fn window(&self) -> Option<(ResourceBundle, i32, u64)> {
        self.resource_window_history
    }

    /// The tick at which the current window began.
    pub closed spec fn window_start(&self) -> u64 {
        self.last_window_tick
    }

    /// The change of the stores over the last full window.
    pub closed spec fn changes(&self) -> ResourceBundle {
        self.resource_changes
    }

    /// The change of the people over the last full window.
    pub closed spec fn people_change(&self) -> i32 {
        self.population_change
    }

    /// The stores last added up, with the tick at which they were.
    pub closed spec fn cache(&self) -> Option<(ResourceBundle, u64)> {
        self.cached_empire_resources
    }

    /// Whether stores were added up at most five ticks before `tick`.
    pub open spec fn cache_fresh(&self, tick: u64) -> bool {
        self.cache() matches Some((_, t)) && tick <= t + 5
    }

    /// The stores `get_cached_empire_resources` hands out at `tick`: those added up at most
    /// five ticks ago, or else the ones added up now.
    pub open spec fn stores_at<O>(&self, tick: u64, fs: Seq<Faction>, ps: Seq<Planet<O>>) -> ResourceBundle {
        match self.cache() {
            Some((r, t)) => if tick <= t + 5 {
                r
            } else {
                faction_stores(ps, player_faction_id(fs).unwrap())
            },
            None => faction_stores(ps, player_faction_id(fs).unwrap()),
        }
    }

    /// Nothing measured or added up yet.
    pub fn new() -> (r: Self)
        ensures
            r.window() is None,
            r.window_start() == 0,
            r.changes() == ResourceBundle::zero_spec(),
            r.people_change() == 0,
            r.cache() is None,
    {
        ResourceDisplay {
            resource_window_history: None,
            last_window_tick: 0,
            resource_changes: ResourceBundle::default(),
            population_change: 0,
            cached_empire_resources: None,
        }
    }

    /// The change of the stores over the last full window.
    pub fn resource_changes(&self) -> (r: ResourceBundle)
        ensures
            r == self.changes(),
    {
        self.resource_changes
    }

    /// The change of the people over the last full window.
    pub fn population_change(&self) -> (r: i32)
        ensures
            r == self.people_change(),
    {
        self.population_change
    }

    /// The stores of the player's planets (those of the first faction played by a person)
    /// added up, each sum saturating at the bounds of `i32`. Fails with `InvalidOperation`
    /// when no faction is played by a person.
    pub fn calculate_empire_resources<O>(
        &self,
        faction_manager: &FactionManager,
        planet_manager: &PlanetManager<O>,
    ) -> (r: GameResult<ResourceBundle>)
        ensures
            r.is_ok() <==> player_faction_id(faction_manager.factions()) is Some,
            r matches Ok(t) ==> t == faction_stores(
                planet_manager.planets(),
                player_faction_id(faction_manager.factions()).unwrap(),
            ),
            r matches Err(e) ==> (e matches GameError::InvalidOperation(m) && m@ == "No player faction found"@),
    {
        let player = match faction_manager.get_player_faction() {
            Some(f) => f,
            None => {
                proof {
                    lemma_no_player(faction_manager.factions());
                }
                return Err(GameError::InvalidOperation("No player faction found".to_string()));
            },
        };
        let id = player.id;
        proof {
            let fs = faction_manager.factions();
            let k = choose|k: int|
                0 <= k < fs.len() && fs[k] == *player && player.is_player && forall|j: int|
                    0 <= j < k ==> !(#[trigger] fs[j]).is_player;
            lemma_first_player_at(fs, k);
        }
        let planets = planet_manager.get_all_planets();
        let mut total = ResourceBundle::default();
        let mut i: usize = 0;
        while i < planets.len()
            invariant
                i <= planets@.len(),
                planets@ == planet_manager.planets(),
                total == faction_stores(planets@.take(i as int), id),
            decreases planets@.len() - i,
        {
            assert(planets@.take(i + 1).drop_last() =~= planets@.take(i as int));
            if planets[i].controller == Some(id) {
                let _ = total.add(&planets[i].resources.current);
            }
            i = i + 1;
        }
        assert(planets@.take(planets@.len() as int) =~= planets@);
        Ok(total)
    }

    /// The people on the player's planets, or 0 when no faction is played by a person.
    pub fn calculate_empire_population<O>(
        &self,
        faction_manager: &FactionManager,
        planet_manager: &PlanetManager<O>,
    ) -> (r: i32)
        requires
            player_faction_id(faction_manager.factions()) matches Some(f) ==> people_sums_fit(
                planet_manager.planets(),
                f,
            ),
        ensures
            r == empire_people(faction_manager.factions(), planet_manager.planets()),
    {
        let player = match faction_manager.get_player_faction() {
            Some(f) => f,
            None => {
                proof {
                    lemma_no_player(faction_manager.factions());
                }
                return 0;
            },
        };
        let id = player.id;
        proof {
            let fs = faction_manager.factions();
            let k = choose|k: int|
                0 <= k < fs.len() && fs[k] == *player && player.is_player && forall|j: int|
                    0 <= j < k ==> !(#[trigger] fs[j]).is_player;
            lemma_first_player_at(fs, k);
        }
        let planets = planet_manager.get_all_planets();
        let mut total: i32 = 0;
        let mut i: usize = 0;
        while i < planets.len()
            invariant
                i <= planets@.len(),
                planets@ == planet_manager.planets(),
                people_sums_fit(planets@, id),
                total == faction_people(planets@.take(i as int), id),
            decreases planets@.len() - i,
        {
            assert(planets@.take(i + 1).drop_last() =~= planets@.take(i as int));
            assert(fits_i32(faction_people(planets@.take(i + 1), id)));
            if planets[i].controller == Some(id) {
                total = total + planets[i].population.total;
            }
            i = i + 1;
        }
        assert(planets@.take(planets@.len() as int) =~= planets@);
        total
    }

    /// The player's stores as of `current_tick`: those added up at most five ticks before
    /// are handed out again; otherwise they are added up anew and remembered with the tick.
    /// Fails as `calculate_empire_resources` does, changing nothing.
    pub fn get_cached_empire_resources<O>(
        &mut self,
        current_tick: u64,
        faction_manager: &FactionManager,
        planet_manager: &PlanetManager<O>,
    ) -> (r: GameResult<ResourceBundle>)
        ensures
            final(self).window() == old(self).window(),
            final(self).window_start() == old(self).window_start(),
            final(self).changes() == old(self).changes(),
            final(self).people_change() == old(self).people_change(),
            old(self).cache_fresh(current_tick) ==> r == Ok::<ResourceBundle, GameError>(old(self).cache().unwrap().0)
                && final(self).cache() == old(self).cache(),
            !old(self).cache_fresh(current_tick) ==> {
                &&& r.is_ok() <==> player_faction_id(faction_manager.factions()) is Some
                &&& r matches Ok(s) ==> s == faction_stores(
                    planet_manager.planets(),
                    player_faction_id(faction_manager.factions()).unwrap(),
                ) && final(self).cache() == Some((s, current_tick))
                &&& r matches Err(e) ==> (e matches GameError::InvalidOperation(m) && m@
                    == "No player faction found"@) && final(self).cache() == old(self).cache()
            },
    {
        if let Some((cached, cached_tick)) = self.cached_empire_resources {
            if current_tick <= cached_tick || current_tick - cached_tick <= 5 {
                return Ok(cached);
            }
        }
        match self.calculate_empire_resources(faction_manager, planet_manager) {
            Ok(total) => {
                self.cached_empire_resources = Some((total, current_tick));
                Ok(total)
            },
            Err(e) => Err(e),
        }
    }

    /// Measures change over windows of `CALCULATION_WINDOW` ticks. The first call starts a
    /// window with the current stores and people; once a window is over, the changes since
    /// its start are recorded and a new window starts. Fails as
    /// `get_cached_empire_resources` does.
    pub fn update_240_tick_tracking<O>(
        &mut self,
        current_tick: u64,
        faction_manager: &FactionManager,
        planet_manager: &PlanetManager<O>,
    ) -> (r: GameResult<()>)
        requires
            player_faction_id(faction_manager.factions()) matches Some(f) ==> people_sums_fit(
                planet_manager.planets(),
                f,
            ),
            (player_faction_id(faction_manager.factions()) is Some || old(self).cache_fresh(current_tick)) ==> (
            old(self).window() matches Some((s, p, _)) ==> (current_tick >= old(self).window_start() + CALCULATION_WINDOW
                ==> differences_fit(
                old(self).stores_at(current_tick, faction_manager.factions(), planet_manager.planets()),
                s,
            ) && fits_i32(empire_people(faction_manager.factions(), planet_manager.planets()) - p))),
        ensures
            r.is_ok() <==> (player_faction_id(faction_manager.factions()) is Some || old(self).cache_fresh(current_tick)),
            r.is_ok() ==> {
                let s = old(self).stores_at(current_tick, faction_manager.factions(), planet_manager.planets());
                let p = empire_people(faction_manager.factions(), planet_manager.planets());
                match old(self).window() {
                    None => {
                        &&& final(self).window() == Some((s, p as i32, current_tick))
                        &&& final(self).window_start() == current_tick
                        &&& final(self).changes() == old(self).changes()
                        &&& final(self).people_change() == old(self).people_change()
                    },
                    Some((s0, p0, _)) => if current_tick >= old(self).window_start() + CALCULATION_WINDOW {
                        &&& final(self).window() == Some((s, p as i32, current_tick))
                        &&& final(self).window_start() == current_tick
                        &&& final(self).changes() == s.minus(s0)
                        &&& final(self).people_change() == p - p0
                    } else {
                        &&& final(self).window() == old(self).window()
                        &&& final(self).window_start() == old(self).window_start()
                        &&& final(self).changes() == old(self).changes()
                        &&& final(self).people_change() == old(self).people_change()
                    },
                }
            },
    {
        let current = match self.get_cached_empire_resources(current_tick, faction_manager, planet_manager) {
            Ok(c) => c,
            Err(e) => {
                proof {
                    if player_faction_id(faction_manager.factions()) is Some {
                        assert(false);
                    }
                }
                return Err(e);
            },
        };
        let people = self.calculate_empire_population(faction_manager, planet_manager);
        match self.resource_window_history {
            None => {
                self.resource_window_history = Some((current, people, current_tick));
                self.last_window_tick = current_tick;
                return Ok(());
            },
            Some((prev, prev_people, _)) => {
                if current_tick >= self.last_window_tick && current_tick - self.last_window_tick >= CALCULATION_WINDOW {
                    proof {
                        if player_faction_id(faction_manager.factions()) is None {
                            assert(people == 0);
                        }
                    }
                    self.resource_changes.minerals = current.minerals - prev.minerals;
                    self.resource_changes.food = current.food - prev.food;
                    self.resource_changes.energy = current.energy - prev.energy;
                    self.resource_changes.alloys = current.alloys - prev.alloys;
                    self.resource_changes.components = current.components - prev.components;
                    self.resource_changes.fuel = current.fuel - prev.fuel;
                    self.population_change = people - prev_people;
                    self.resource_window_history = Some((current, people, current_tick));
                    self.last_window_tick = current_tick;
                }
            },
        }
        Ok(())
    }
}

proof fn lemma_no_player(fs: Seq<Faction>)
    requires
        !exists|i: int| 0 <= i < fs.len() && (#[trigger] fs[i]).is_player,
    ensures
        player_faction_id(fs) is None,
    decreases fs.len(),
{
    if fs.len() > 0 {
        assert forall|i: int| 0 <= i < fs.drop_first().len() implies !(#[trigger] fs.drop_first()[i]).is_player by {
            assert(fs.drop_first()[i] == fs[i + 1]);
        }
        assert(!fs[0].is_player);
        lemma_no_player(fs.drop_first());
    }
}

proof fn lemma_first_player_at(fs: Seq<Faction>, k: int)
    requires
        0 <= k < fs.len(),
        fs[k].is_player,
        forall|j: int| 0 <= j < k ==> !(#[trigger] fs[j]).is_player,
    ensures
        player_faction_id(fs) == Some(fs[k].id),
    decreases k,
{
    if k > 0 {
        assert(!fs[0].is_player);
        assert(fs.drop_first()[k - 1] == fs[k]);
        assert forall|j: int| 0 <= j < k - 1 implies !(#[trigger] fs.drop_first()[j]).is_player by {
            assert(fs.drop_first()[j] == fs[j + 1]);
        }
        lemma_first_player_at(fs.drop_first(), k - 1);
    }
}

} // verus!
