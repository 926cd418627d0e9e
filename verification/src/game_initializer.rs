//! Setting up a new game: factions, planets with their controllers, starting ships, and
//! starting resources, population and workers.
use vstd::prelude::*;
use crate::faction_manager::{FactionManager, has_faction_name};
use crate::id_index::{is_last_position, last_position, lemma_last_position_exists, lemma_last_position_unique, lemma_sequential_ids};
use crate::planet_manager::{PlanetManager, initial_capacity, is_new_planet, min_unassigned_workers, planet_ids, with_current};
use crate::ship_manager::ShipManager;
use crate::text::{trimmed, lemma_trimmed_nonempty};
use crate::types::{
    AIPersonality, CargoHold, Demographics, Faction, FactionId, GameError, GameResult, Planet,
    PlanetId, ResourceBundle, ResourceStorage, Ship, ShipClass, WorkerAllocation, fits_i32,
};

verus! {

/// Size of the galaxy to generate.
#[derive(Debug, Clone, Copy, PartialEq, Eq, Structural)]
pub enum GalaxySize {
    Small,
    Medium,
    Large,
}

impl GalaxySize {
    /// The least and the most planets a galaxy of this size holds.
    pub open spec fn range_spec(self) -> (usize, usize) {
        match self {
            GalaxySize::Small => (5, 10),
            GalaxySize::Medium => (10, 20),
            GalaxySize::Large => (20, 50),
        }
    }

    /// The least and the most planets a galaxy of this size holds.
    pub fn planet_range(&self) -> (r: (usize, usize))
        ensures
            r == self.range_spec(),
    {
        match self {
            GalaxySize::Small => (5, 10),
            GalaxySize::Medium => (10, 20),
            GalaxySize::Large => (20, 50),
        }
    }
}

/// Parameters of a new game.
#[derive(Debug, Clone, Copy, PartialEq, Eq, Structural)]
pub struct GameConfiguration {
    pub galaxy_size: GalaxySize,
    pub planet_count: usize,
    pub ai_opponents: usize,
    pub starting_resources: ResourceBundle,
    pub starting_population: i32,
}

impl GameConfiguration {
    /// The default parameters: a medium galaxy with 3 planets, 1 computer opponent, 1000
    /// people and a modest stock on each controlled planet.
    pub open spec fn default_spec() -> GameConfiguration {
        GameConfiguration {
            galaxy_size: GalaxySize::Medium,
            planet_count: 3,
            ai_opponents: 1,
            starting_resources: ResourceBundle {
                minerals: 1000,
                food: 500,
                energy: 500,
                alloys: 200,
                components: 100,
                fuel: 200,
            },
            starting_population: 1000,
        }
    }
}

impl Default for GameConfiguration {
    fn default() -> (r: Self)
        ensures
            r == GameConfiguration::default_spec(),
    {
        GameConfiguration {
            galaxy_size: GalaxySize::Medium,
            planet_count: 3,
            ai_opponents: 1,
            starting_resources: ResourceBundle {
                minerals: 1000,
                food: 500,
                energy: 500,
                alloys: 200,
                components: 100,
                fuel: 200,
            },
            starting_population: 1000,
        }
    }
}

/// Name of the `j`-th faction a new game creates: the player's empire first, then the
/// computer opponents, named from a list of eight and "AI Empire" past its end.
pub open spec fn startup_faction_name(j: int) -> Seq<char> {
    if j == 0 {
        "Player Empire"@
    } else if j == 1 {
        "Stellar Federation"@
    } else if j == 2 {
        "Cosmic Republic"@
    } else if j == 3 {
        "Galactic Union"@
    } else if j == 4 {
        "Star Alliance"@
    } else if j == 5 {
        "Void Collective"@
    } else if j == 6 {
        "Nebula Empire"@
    } else if j == 7 {
        "Solar Dynasty"@
    } else if j == 8 {
        "Astral Dominion"@
    } else {
        "AI Empire"@
    }
}

/// Personality of the `j`-th faction a new game creates: the player is balanced, the
/// computer opponents cycle aggressive, economic, balanced.
pub open spec fn startup_personality(j: int) -> AIPersonality {
    if j == 0 {
        AIPersonality::Balanced
    } else if (j - 1) % 3 == 0 {
        AIPersonality::Aggressive
    } else if (j - 1) % 3 == 1 {
        AIPersonality::Economic
    } else {
        AIPersonality::Balanced
    }
}

/// The `j`-th startup faction can be created after the first `j`: its name is not blank,
/// not among `existing`, and not among the earlier startup names.
pub open spec fn startup_name_free(existing: Seq<Faction>, j: int) -> bool {
    &&& trimmed(startup_faction_name(j)).len() > 0
    &&& !has_faction_name(existing, startup_faction_name(j))
    &&& forall|k: int| 0 <= k < j ==> startup_faction_name(k) != startup_faction_name(j)
}

/// How many of the first `t` startup factions get created before the first refusal.
pub open spec fn startup_created(existing: Seq<Faction>, t: int) -> int
    decreases t,
{
    if t <= 0 {
        0
    } else {
        let c = startup_created(existing, t - 1);
        if c < t - 1 {
            c
        } else if startup_name_free(existing, t - 1) {
            t
        } else {
            t - 1
        }
    }
}

/// `f` is the `j`-th startup faction, created under id `id`.
pub open spec fn is_startup_faction(f: Faction, j: int, id: int) -> bool {
    &&& f.id == id
    &&& f.name@ == startup_faction_name(j)
    &&& f.is_player == (j == 0)
    &&& f.ai_type == startup_personality(j)
    &&& f.score == 0
}

/// Controller of the `i`-th planet of a new game: the player gets the first, each
/// opponent the next one, the rest stay neutral.
pub open spec fn startup_controller(i: int, ai_opponents: int) -> Option<FactionId> {
    if i == 0 {
        Some(0u8)
    } else if i < 1 + ai_opponents {
        Some(i as u8)
    } else {
        None
    }
}

/// `a / b` rounded toward zero, as integer division in code rounds.
pub open spec fn div_toward_zero(a: int, b: int) -> int {
    if a >= 0 {
        a / b
    } else {
        -((-a) / b)
    }
}

/// The worker allocation given to `total` starting people: a tenth stays unassigned,
/// the rest is split a quarter to farming and mining each, a sixth to industry and
/// research each, a tenth to the military, and what remains is unassigned (each share
/// rounded toward zero).
pub open spec fn startup_allocation(total: int) -> WorkerAllocation {
    let assignable = total - div_toward_zero(total, 10);
    let agriculture = div_toward_zero(assignable, 4);
    let mining = div_toward_zero(assignable, 4);
    let industry = div_toward_zero(assignable, 6);
    let research = div_toward_zero(assignable, 6);
    let military = div_toward_zero(assignable, 10);
    WorkerAllocation {
        agriculture: agriculture as i32,
        mining: mining as i32,
        industry: industry as i32,
        research: research as i32,
        military: military as i32,
        unassigned: (total - (agriculture + mining + industry + research + military)) as i32,
    }
}

/// Planet `p` takes the starting conditions of `config`: the starting stores fit, the
/// raised population is not negative, and the starting allocation suits it.
pub open spec fn takes_start<O>(p: Planet<O>, config: GameConfiguration) -> bool {
    let total = p.population.total + config.starting_population;
    let a = startup_allocation(config.starting_population as int);
    &&& p.resources.capacity.covers(p.resources.current.plus(config.starting_resources))
    &&& total >= 0
    &&& a.matches_total(total)
    &&& a.unassigned >= min_unassigned_workers(total)
}

/// `p` with the starting stores added, its population raised by the starting
/// population, and the starting allocation.
pub open spec fn with_start<O>(p: Planet<O>, config: GameConfiguration) -> Planet<O> {
    Planet {
        resources: ResourceStorage {
            current: p.resources.current.plus(config.starting_resources),
            ..p.resources
        },
        population: Demographics {
            total: (p.population.total + config.starting_population) as i32,
            allocation: startup_allocation(config.starting_population as int),
        },
        ..p
    }
}

/// What is left of `p` when it refuses the starting conditions: the stores are added
/// where they fit, and then the population raised where it stays non-negative.
pub open spec fn refused_start<O>(p: Planet<O>, config: GameConfiguration) -> Planet<O> {
    let added = with_current(p, p.resources.current.plus(config.starting_resources));
    let total = p.population.total + config.starting_population;
    if !p.resources.capacity.covers(p.resources.current.plus(config.starting_resources)) {
        p
    } else if total < 0 {
        added
    } else {
        Planet { population: Demographics { total: total as i32, ..p.population }, ..added }
    }
}

/// The planets after the starting conditions have been applied, in order, for the first
/// `n` planets of `ps` that have a controller, each to the planet that a lookup by its id
/// finds; and, when some planet refused, that planet as it was when it refused (after
/// which nothing more happens).
pub open spec fn start_run<O>(ps: Seq<Planet<O>>, n: int, config: GameConfiguration) -> (Seq<Planet<O>>, Option<Planet<O>>)
    decreases n,
{
    if n <= 0 {
        (ps, None)
    } else {
        let (cur, stop) = start_run(ps, n - 1, config);
        if stop is Some || ps[n - 1].controller is None {
            (cur, stop)
        } else {
            let pos = last_position(planet_ids(ps), ps[n - 1].id);
            let p = cur[pos];
            if takes_start(p, config) {
                (cur.update(pos, with_start(p, config)), None)
            } else {
                (cur.update(pos, refused_start(p, config)), Some(p))
            }
        }
    }
}

/// Each step of the run adds the starting stores and population within the range of
/// `i32`.
pub open spec fn start_fits<O>(ps: Seq<Planet<O>>, config: GameConfiguration) -> bool {
    forall|n: int|
        0 <= n < ps.len() ==> {
            let (cur, stop) = #[trigger] start_run(ps, n, config);
            let p = cur[last_position(planet_ids(ps), ps[n].id)];
            stop is None && ps[n].controller is Some ==> p.resources.current.plus_fits(
                config.starting_resources,
            ) && fits_i32(p.population.total + config.starting_population)
        }
}

/// Class of the first ship of faction `faction`: a scout for the player, a warship for
/// the others.
pub open spec fn startup_ship_class(faction: FactionId) -> ShipClass {
    if faction == 0 {
        ShipClass::Scout
    } else {
        ShipClass::Warship
    }
}

/// The ships a new game starts with for the planets `ps`: one per controlled planet, in
/// planet order, owned by the controller, moving as `ms` says for that planet, with an empty
/// hold, and ids counting up from `next`.
pub open spec fn starting_ships<O, M>(ps: Seq<Planet<O>>, ms: Seq<M>, next: int) -> Seq<Ship<M>>
    decreases ps.len(),
{
    if ps.len() == 0 {
        Seq::empty()
    } else {
        let prev = starting_ships(ps.drop_last(), ms, next);
        match ps.last().controller {
            Some(f) => prev.push(
                Ship {
                    id: (next + prev.len()) as u32,
                    ship_class: startup_ship_class(f),
                    motion: ms[ps.len() - 1],
                    cargo: CargoHold {
                        resources: ResourceBundle::zero_spec(),
                        population: 0,
                        capacity: 0,
                    },
                    owner: f,
                },
            ),
            None => prev,
        }
    }
}

/// The `i`-th planet of a new game once the starting conditions are applied: a controlled
/// planet holds the starting stores and people with the starting worker allocation, a
/// neutral one stays empty.
pub open spec fn is_started_planet<O>(
    p: Planet<O>,
    i: int,
    position: O,
    config: GameConfiguration,
) -> bool {
    let controller = startup_controller(i, config.ai_opponents as int);
    &&& p.id == i
    &&& p.position == position
    &&& p.controller == controller
    &&& p.developments@.len() == 0
    &&& p.resources.capacity == initial_capacity()
    &&& if controller is Some {
        &&& p.resources.current == config.starting_resources
        &&& p.population == Demographics {
            total: config.starting_population,
            allocation: startup_allocation(config.starting_population as int),
        }
    } else {
        &&& p.resources.current == ResourceBundle::zero_spec()
        &&& p.population == Demographics { total: 0, allocation: WorkerAllocation::zero_spec() }
    }
}

impl GameConfiguration {
    /// A new game with this configuration can be set up: at most nine computer opponents
    /// (the tenth would repeat the last name), and where there are planets, starting stores
    /// within a new planet's capacity and a population that is not negative.
    pub open spec fn starts_ok(self) -> bool {
        &&& self.ai_opponents <= 9
        &&& self.planet_count == 0 || (initial_capacity().covers(self.starting_resources)
            && self.starting_population >= 0)
    }
}

fn opponent_name(i: usize) -> (r: &'static str)
    ensures
        r@ == startup_faction_name(i + 1),
{
    if i == 0 {
        "Stellar Federation"
    } else if i == 1 {
        "Cosmic Republic"
    } else if i == 2 {
        "Galactic Union"
    } else if i == 3 {
        "Star Alliance"
    } else if i == 4 {
        "Void Collective"
    } else if i == 5 {
        "Nebula Empire"
    } else if i == 6 {
        "Solar Dynasty"
    } else if i == 7 {
        "Astral Dominion"
    } else {
        "AI Empire"
    }
}

fn opponent_personality(i: usize) -> (r: AIPersonality)
    ensures
        r == startup_personality(i + 1),
{
    if i % 3 == 0 {
        AIPersonality::Aggressive
    } else if i % 3 == 1 {
        AIPersonality::Economic
    } else {
        AIPersonality::Balanced
    }
}

/// Creates new games from a configuration.
pub struct GameInitializer {
    pub configuration: GameConfiguration,
}

impl GameInitializer {
    /// An initializer using `config`.
    pub fn new(config: GameConfiguration) -> (r: Self)
        ensures
            r.configuration == config,
    {
        GameInitializer { configuration: config }
    }

    /// The configuration in use.
    pub fn get_configuration(&self) -> (r: &GameConfiguration)
        ensures
            *r == self.configuration,
    {
        &self.configuration
    }

    /// Replaces the configuration.
    pub fn set_configuration(&mut self, config: GameConfiguration)
        ensures
            final(self).configuration == config,
    {
        self.configuration = config;
    }

    /// Sets up a new game: empties the three managers, then creates the factions, the
    /// planets at `planet_positions`, one starting ship per controlled planet (moving as
    /// `ship_motions` says for that planet) and the starting conditions, stopping at the
    /// first refusal.
    pub fn initialize_game<O: Copy, M: Copy>(
        &self,
        planet_manager: &mut PlanetManager<O>,
        ship_manager: &mut ShipManager<M>,
        faction_manager: &mut FactionManager,
        planet_positions: &Vec<O>,
        ship_motions: &Vec<M>,
    ) -> (r: GameResult<()>)
        requires
            planet_positions@.len() == self.configuration.planet_count,
            ship_motions@.len() == self.configuration.planet_count,
            self.configuration.planet_count <= u32::MAX,
        ensures
            final(planet_manager).wf(),
            final(ship_manager).wf(),
            final(faction_manager).wf(),
            r.is_ok() <==> self.configuration.starts_ok(),
            r matches Err(e) ==> e is InvalidOperation,
            ({
                let config = self.configuration;
                let n = config.ai_opponents as int;
                let made = if n + 1 <= 10 {
                    n + 1
                } else {
                    10
                };
                let covered = initial_capacity().covers(config.starting_resources);
                let fs = final(faction_manager).factions();
                let ps = final(planet_manager).planets();
                &&& fs.len() == made
                &&& forall|j: int| 0 <= j < made ==> is_startup_faction(#[trigger] fs[j], j, j)
                &&& n > 9 ==> ps.len() == 0 && final(ship_manager).ships().len() == 0
                &&& n <= 9 ==> ps.len() == config.planet_count && final(ship_manager).ships()
                    == starting_ships(ps, ship_motions@, 0)
                &&& r.is_ok() ==> forall|i: int|
                    0 <= i < ps.len() ==> is_started_planet(
                        #[trigger] ps[i],
                        i,
                        planet_positions@[i],
                        config,
                    )
                &&& n <= 9 && r.is_err() ==> {
                    &&& forall|i: int|
                        0 <= i < ps.len() ==> is_new_planet(
                            with_current(#[trigger] ps[i], ResourceBundle::zero_spec()),
                            i as u32,
                            planet_positions@[i],
                            startup_controller(i, n),
                        )
                    &&& ps[0].resources.current == if covered {
                        config.starting_resources
                    } else {
                        ResourceBundle::zero_spec()
                    }
                    &&& forall|i: int|
                        0 < i < ps.len() ==> (#[trigger] ps[i]).resources.current
                            == ResourceBundle::zero_spec()
                    &&& r matches Err(GameError::InvalidOperation(m)) && m@ == if !covered {
                        "Storage capacity exceeded"@
                    } else {
                        "Population cannot be negative"@
                    }
                }
            }),
    {
        *planet_manager = PlanetManager::new();
        *ship_manager = ShipManager::new();
        *faction_manager = FactionManager::new();
        let ghost n = self.configuration.ai_opponents as int;
        proof {
            lemma_startup_created_on_empty(n + 1);
            assert(faction_manager.factions().take(0) =~= Seq::<Faction>::empty());
        }
        let fr = self.create_factions(faction_manager);
        proof {
            let fs = faction_manager.factions();
            assert forall|j: int| 0 <= j < fs.len() implies is_startup_faction(
                #[trigger] fs[j],
                j,
                j,
            ) by {
                assert(fs[0 + j] == fs[j]);
            }
        }
        match fr {
            Ok(()) => {},
            Err(e) => return Err(e),
        }
        match self.create_planets(planet_manager, planet_positions) {
            Ok(_) => {},
            Err(e) => return Err(e),
        }
        let ghost created = planet_manager.planets();
        proof {
            assert forall|i: int| 0 <= i < created.len() implies is_new_planet(
                #[trigger] created[i],
                i as u32,
                created[i].position,
                startup_controller(i, n),
            ) by {
                assert(created[0 + i] == created[i]);
            }
        }
        match self.create_starting_ships(ship_manager, planet_manager, ship_motions) {
            Ok(()) => {},
            Err(e) => return Err(e),
        }
        proof {
            lemma_start_run_fresh(planet_manager.planets(), self.configuration);
        }
        let r = self.apply_starting_conditions(planet_manager);
        proof {
            let ps = planet_manager.planets();
            assert(ps.len() == created.len());
            assert forall|i: int| 0 <= i < ps.len() implies (#[trigger] ps[i]).controller
                == created[i].controller by {
                if r.is_ok() {
                    assert(is_started_planet(ps[i], i, created[i].position, self.configuration));
                }
            }
            lemma_starting_ships_controllers(ps, created, ship_motions@, 0);
            assert forall|i: int| 0 <= i < ps.len() implies created[i].position
                == planet_positions@[i] by {
                assert(created[0 + i] == created[i]);
            }
            if r.is_err() {
                assert forall|i: int| 0 <= i < ps.len() implies is_new_planet(
                    with_current(#[trigger] ps[i], ResourceBundle::zero_spec()),
                    i as u32,
                    planet_positions@[i],
                    startup_controller(i, n),
                ) by {
                    assert(created[0 + i] == created[i]);
                }
            }
        }
        r
    }

    /// Creates the player's faction, then one faction per computer opponent, stopping at
    /// the first refused name (blank or taken), which gives `InvalidOperation`.
    pub fn create_factions(&self, faction_manager: &mut FactionManager) -> (r: GameResult<()>)
        requires
            old(faction_manager).wf(),
            old(faction_manager).next_id() + startup_created(
                old(faction_manager).factions(),
                self.configuration.ai_opponents + 1,
            ) <= 255,
        ensures
            final(faction_manager).wf(),
            r.is_ok() <==> startup_created(
                old(faction_manager).factions(),
                self.configuration.ai_opponents + 1,
            ) == self.configuration.ai_opponents + 1,
            r matches Err(e) ==> e is InvalidOperation,
            ({
                let old_fs = old(faction_manager).factions();
                let c = startup_created(old_fs, self.configuration.ai_opponents + 1);
                &&& final(faction_manager).factions().len() == old_fs.len() + c
                &&& final(faction_manager).factions().take(old_fs.len() as int) == old_fs
                &&& final(faction_manager).next_id() == old(faction_manager).next_id() + c
                &&& forall|j: int|
                    0 <= j < c ==> is_startup_faction(
                        #[trigger] final(faction_manager).factions()[old_fs.len() + j],
                        j,
                        old(faction_manager).next_id() + j,
                    )
            }),
    {
        let ghost old_fs = faction_manager.factions();
        let ghost id0 = faction_manager.next_id() as int;
        let n = self.configuration.ai_opponents;
        proof {
            lemma_startup_created_bounds(old_fs, n + 1);
            if startup_name_free(old_fs, 0) {
                reveal_with_fuel(startup_created, 2);
                assert(startup_created(old_fs, 1) == 1);
                lemma_startup_created_monotone(old_fs, 1, n + 1);
            }
        }
        let r0 = faction_manager.create_faction(
            "Player Empire".to_string(),
            true,
            AIPersonality::Balanced,
        );
        match r0 {
            Ok(_) => {},
            Err(e) => {
                proof {
                    assert(!startup_name_free(old_fs, 0));
                    lemma_startup_created_stops(old_fs, 0, n + 1);
                    assert(faction_manager.factions().take(old_fs.len() as int) =~= old_fs);
                }
                return Err(e);
            },
        }
        proof {
            assert(startup_name_free(old_fs, 0));
            reveal_with_fuel(startup_created, 2);
            assert(startup_created(old_fs, 1) == 1);
            assert(faction_manager.factions().take(old_fs.len() as int) =~= old_fs);
        }
        let mut i: usize = 0;
        while i < n
            invariant
                i <= n,
                n == self.configuration.ai_opponents,
                old_fs == old(faction_manager).factions(),
                id0 == old(faction_manager).next_id(),
                faction_manager.wf(),
                startup_created(old_fs, i + 1) == i + 1,
                id0 + startup_created(old_fs, n + 1) <= 255,
                startup_created(old_fs, n + 1) <= n + 1,
                faction_manager.factions().len() == old_fs.len() + i + 1,
                faction_manager.factions().take(old_fs.len() as int) == old_fs,
                faction_manager.next_id() == id0 + i + 1,
                forall|j: int|
                    0 <= j < i + 1 ==> is_startup_faction(
                        #[trigger] faction_manager.factions()[old_fs.len() + j],
                        j,
                        id0 + j,
                    ),
            decreases n - i,
        {
            let name = opponent_name(i).to_string();
            let personality = opponent_personality(i);
            let ghost before = faction_manager.factions();
            proof {
                lemma_startup_free_matches(old_fs, before, i + 1);
                if !has_faction_name(before, name@) && trimmed(name@).len() > 0 {
                    assert(startup_name_free(old_fs, i + 1));
                    assert(startup_created(old_fs, i + 2) == i + 2);
                    lemma_startup_created_monotone(old_fs, i + 2, n + 1);
                }
            }
            match faction_manager.create_faction(name, false, personality) {
                Ok(_) => {},
                Err(e) => {
                    proof {
                        assert(!startup_name_free(old_fs, i + 1));
                        lemma_startup_created_stops(old_fs, i + 1, n + 1);
                    }
                    return Err(e);
                },
            }
            proof {
                assert(startup_created(old_fs, i + 2) == i + 2);
                assert(faction_manager.factions().take(old_fs.len() as int) =~= old_fs) by {
                    assert(faction_manager.factions().take(old_fs.len() as int) =~= before.take(
                        old_fs.len() as int,
                    ));
                }
                assert forall|j: int| 0 <= j < i + 2 implies is_startup_faction(
                    #[trigger] faction_manager.factions()[old_fs.len() + j],
                    j,
                    id0 + j,
                ) by {
                    if j < i + 1 {
                        assert(faction_manager.factions()[old_fs.len() + j] == before[old_fs.len()
                            + j]);
                    }
                }
            }
            i = i + 1;
        }
        Ok(())
    }

    /// Creates one planet per entry of `positions` (as many as the configuration asks for)
    /// at that position: the first goes to the player's faction, the next ones to the
    /// computer opponents in turn, the rest stay neutral. Returns the new ids in order.
    pub fn create_planets<O: Copy>(
        &self,
        planet_manager: &mut PlanetManager<O>,
        positions: &Vec<O>,
    ) -> (r: GameResult<Vec<PlanetId>>)
        requires
            old(planet_manager).wf(),
            positions@.len() == self.configuration.planet_count,
            old(planet_manager).next_id() + self.configuration.planet_count <= u32::MAX,
        ensures
            final(planet_manager).wf(),
            ({
                let old_ps = old(planet_manager).planets();
                let id0 = old(planet_manager).next_id();
                let count = self.configuration.planet_count as int;
                &&& r matches Ok(ids) && ids@.len() == count && forall|i: int|
                    0 <= i < count ==> #[trigger] ids@[i] == id0 + i
                &&& final(planet_manager).next_id() == id0 + count
                &&& final(planet_manager).planets().len() == old_ps.len() + count
                &&& final(planet_manager).planets().take(old_ps.len() as int) == old_ps
                &&& forall|i: int|
                    0 <= i < count ==> is_new_planet(
                        #[trigger] final(planet_manager).planets()[old_ps.len() + i],
                        (id0 + i) as u32,
                        positions@[i],
                        startup_controller(i, self.configuration.ai_opponents as int),
                    )
            }),
    {
        let ghost old_ps = planet_manager.planets();
        let ghost id0 = planet_manager.next_id() as int;
        let n = self.configuration.ai_opponents;
        let count = self.configuration.planet_count;
        let mut planet_ids: Vec<PlanetId> = Vec::new();
        let mut i: usize = 0;
        while i < count
            invariant
                i <= count,
                count == self.configuration.planet_count,
                n == self.configuration.ai_opponents,
                positions@.len() == count,
                old_ps == old(planet_manager).planets(),
                id0 == old(planet_manager).next_id(),
                id0 + count <= u32::MAX,
                planet_manager.wf(),
                planet_manager.next_id() == id0 + i,
                planet_manager.planets().len() == old_ps.len() + i,
                planet_manager.planets().take(old_ps.len() as int) == old_ps,
                planet_ids@.len() == i,
                forall|j: int| 0 <= j < i ==> #[trigger] planet_ids@[j] == id0 + j,
                forall|j: int|
                    0 <= j < i ==> is_new_planet(
                        #[trigger] planet_manager.planets()[old_ps.len() + j],
                        (id0 + j) as u32,
                        positions@[j],
                        startup_controller(j, n as int),
                    ),
            decreases count - i,
        {
            let controller: Option<FactionId> = if i == 0 {
                Some(0)
            } else if i - 1 < n {
                Some(#[verifier::truncate] (i as u8))
            } else {
                None
            };
            let ghost before = planet_manager.planets();
            let planet_id = match planet_manager.create_planet(positions[i], controller) {
                Ok(id) => id,
                Err(e) => return Err(e),
            };
            proof {
                assert(planet_manager.planets().drop_last() == before);
                assert(planet_manager.planets().take(old_ps.len() as int) =~= old_ps) by {
                    assert(planet_manager.planets().take(old_ps.len() as int) =~= before.take(
                        old_ps.len() as int,
                    ));
                }
                assert forall|j: int| 0 <= j < i + 1 implies is_new_planet(
                    #[trigger] planet_manager.planets()[old_ps.len() + j],
                    (id0 + j) as u32,
                    positions@[j],
                    startup_controller(j, n as int),
                ) by {
                    if j < i {
                        assert(planet_manager.planets()[old_ps.len() + j] == before[old_ps.len()
                            + j]);
                    }
                }
            }
            planet_ids.push(planet_id);
            i = i + 1;
        }
        Ok(planet_ids)
    }

    /// Gives every controlled planet, in planet order, one ship owned by its controller:
    /// a scout for the player, a warship for the others. `motions` holds, for each planet,
    /// how a ship starting there moves.
    pub fn create_starting_ships<O, M: Copy>(
        &self,
        ship_manager: &mut ShipManager<M>,
        planet_manager: &PlanetManager<O>,
        motions: &Vec<M>,
    ) -> (r: GameResult<()>)
        requires
            old(ship_manager).wf(),
            motions@.len() == planet_manager.planets().len(),
            old(ship_manager).next_id() + planet_manager.planets().len() <= u32::MAX,
        ensures
            final(ship_manager).wf(),
            r is Ok,
            ({
                let added = starting_ships(
                    planet_manager.planets(),
                    motions@,
                    old(ship_manager).next_id() as int,
                );
                &&& final(ship_manager).ships() == old(ship_manager).ships() + added
                &&& final(ship_manager).next_id() == old(ship_manager).next_id() + added.len()
            }),
    {
        let planets = planet_manager.get_all_planets();
        let ghost ps = planets@;
        let ghost old_ships = ship_manager.ships();
        let ghost id0 = ship_manager.next_id() as int;
        let mut i: usize = 0;
        while i < planets.len()
            invariant
                i <= ps.len(),
                planets@ == ps,
                motions@.len() == ps.len(),
                id0 + ps.len() <= u32::MAX,
                ship_manager.wf(),
                ship_manager.ships() == old_ships + starting_ships(ps.take(i as int), motions@, id0),
                ship_manager.next_id() == id0 + starting_ships(ps.take(i as int), motions@, id0).len(),
            decreases ps.len() - i,
        {
            proof {
                lemma_starting_ships_len(ps.take(i as int), motions@, id0);
                assert(ps.take(i + 1).drop_last() =~= ps.take(i as int));
                assert(ps.take(i + 1).last() == ps[i as int]);
            }
            if let Some(faction_id) = planets[i].controller {
                let ship_class = if faction_id == 0 {
                    ShipClass::Scout
                } else {
                    ShipClass::Warship
                };
                match ship_manager.create_ship(ship_class, motions[i], faction_id) {
                    Ok(_) => {},
                    Err(e) => return Err(e),
                }
                proof {
                    assert(ship_manager.ships() =~= old_ships + starting_ships(
                        ps.take(i + 1),
                        motions@,
                        id0,
                    ));
                }
            }
            i = i + 1;
        }
        proof {
            assert(ps.take(ps.len() as int) =~= ps);
        }
        Ok(())
    }

    /// Gives every controlled planet, in order, the starting stores and population, and
    /// sets its workers: a tenth stays unassigned, the rest goes a quarter each to farming
    /// and mining, a sixth each to industry and research and a tenth to the military, and
    /// what is left over stays unassigned too. Each planet is reached by a lookup on its
    /// id. Stops at the first refusal.
    fn apply_starting_conditions<O>(&self, planet_manager: &mut PlanetManager<O>) -> (r:
        GameResult<()>)
        requires
            old(planet_manager).wf(),
            start_fits(old(planet_manager).planets(), self.configuration),
        ensures
            final(planet_manager).wf(),
            final(planet_manager).next_id() == old(planet_manager).next_id(),
            ({
                let config = self.configuration;
                let old_ps = old(planet_manager).planets();
                let (ps, stop) = start_run(old_ps, old_ps.len() as int, config);
                &&& final(planet_manager).planets() == ps
                &&& r.is_ok() <==> stop is None
                &&& r matches Err(e) ==> e is InvalidOperation
                &&& stop matches Some(p) ==> {
                    &&& !p.resources.capacity.covers(
                        p.resources.current.plus(config.starting_resources),
                    ) ==> (r matches Err(GameError::InvalidOperation(m)) && m@
                        == "Storage capacity exceeded"@)
                    &&& p.resources.capacity.covers(
                        p.resources.current.plus(config.starting_resources),
                    ) && p.population.total + config.starting_population < 0 ==> (r matches Err(
                        GameError::InvalidOperation(m),
                    ) && m@ == "Population cannot be negative"@)
                }
            }),
    {
        let resources = self.configuration.starting_resources;
        let total_pop = self.configuration.starting_population;
        let count = planet_manager.get_all_planets().len();
        let ghost old_ps = planet_manager.planets();
        let ghost config = self.configuration;
        let ghost next0 = planet_manager.next_id();
        let mut i: usize = 0;
        while i < count
            invariant
                i <= count,
                count == old_ps.len(),
                old_ps == old(planet_manager).planets(),
                next0 == old(planet_manager).next_id(),
                config == self.configuration,
                resources == config.starting_resources,
                total_pop == config.starting_population,
                start_fits(old_ps, config),
                planet_manager.wf(),
                planet_manager.next_id() == next0,
                planet_manager.planets() == start_run(old_ps, i as int, config).0,
                start_run(old_ps, i as int, config).1 is None,
            decreases count - i,
        {
            let ghost cur = planet_manager.planets();
            proof {
                lemma_start_run_shape(old_ps, i as int, config);
                assert(planet_ids(cur) =~= planet_ids(old_ps));
                assert(start_run(old_ps, i as int + 1, config) == (if old_ps[i as int].controller is None {
                    start_run(old_ps, i as int, config)
                } else {
                    let pos = last_position(planet_ids(old_ps), old_ps[i as int].id);
                    let p = cur[pos];
                    if takes_start(p, config) {
                        (cur.update(pos, with_start(p, config)), None)
                    } else {
                        (cur.update(pos, refused_start(p, config)), Some(p))
                    }
                }));
            }
            let id = planet_manager.get_all_planets()[i].id;
            let controlled = planet_manager.get_all_planets()[i].controller.is_some();
            if controlled {
                let ghost pos = last_position(planet_ids(old_ps), id);
                let ghost p = cur[pos];
                proof {
                    assert(planet_ids(old_ps)[i as int] == id);
                    lemma_last_position_exists(planet_ids(old_ps), id);
                    assert(planet_manager.has_planet(id));
                    assert(planet_manager.pos_of(id) == pos);
                    assert(planet_manager.planet_of(id) == p);
                    let _ = start_run(old_ps, i as int, config);
                }
                match planet_manager.add_resources(id, resources) {
                    Ok(()) => {},
                    Err(e) => {
                        proof {
                            assert(cur.update(pos, refused_start(p, config)) =~= cur);
                            lemma_start_run_stops(old_ps, i as int + 1, old_ps.len() as int, config);
                        }
                        return Err(e);
                    },
                }
                let ghost added = planet_manager.planets();
                proof {
                    assert(planet_ids(added) =~= planet_ids(cur));
                    assert(planet_manager.pos_of(id) == pos);
                }
                match planet_manager.update_population(id, total_pop) {
                    Ok(()) => {},
                    Err(e) => {
                        proof {
                            assert(planet_manager.planets() =~= cur.update(pos, refused_start(p, config)));
                            lemma_start_run_stops(old_ps, i as int + 1, old_ps.len() as int, config);
                        }
                        return Err(e);
                    },
                }
                let min_unassigned = total_pop / 10;
                let assignable = total_pop - min_unassigned;
                let agriculture = assignable / 4;
                let mining = assignable / 4;
                let industry = assignable / 6;
                let research = assignable / 6;
                let military = assignable / 10;
                let assigned_total = agriculture + mining + industry + research + military;
                let unassigned = total_pop - assigned_total;
                let allocation = WorkerAllocation {
                    agriculture,
                    mining,
                    industry,
                    research,
                    military,
                    unassigned,
                };
                proof {
                    assert(planet_ids(planet_manager.planets()) =~= planet_ids(cur));
                    assert(planet_manager.pos_of(id) == pos);
                    assert(allocation == startup_allocation(total_pop as int));
                }
                match planet_manager.set_worker_allocation(id, allocation) {
                    Ok(()) => {},
                    Err(e) => {
                        proof {
                            assert(planet_manager.planets() =~= cur.update(pos, refused_start(p, config)));
                            lemma_start_run_stops(old_ps, i as int + 1, old_ps.len() as int, config);
                        }
                        return Err(e);
                    },
                }
                proof {
                    assert(planet_manager.planets() =~= cur.update(pos, with_start(p, config)));
                }
            }
            i = i + 1;
        }
        Ok(())
    }
}

/// A run keeps the planets, their ids and their controllers.
proof fn lemma_start_run_shape<O>(ps: Seq<Planet<O>>, n: int, config: GameConfiguration)
    requires
        0 <= n <= ps.len(),
    ensures
        start_run(ps, n, config).0.len() == ps.len(),
        forall|j: int|
            0 <= j < ps.len() ==> (#[trigger] start_run(ps, n, config).0[j]).id == ps[j].id
                && start_run(ps, n, config).0[j].controller == ps[j].controller,
    decreases n,
{
    if n > 0 {
        lemma_start_run_shape(ps, n - 1, config);
        let (cur, stop) = start_run(ps, n - 1, config);
        if !(stop is Some || ps[n - 1].controller is None) {
            assert(planet_ids(ps)[n - 1] == ps[n - 1].id);
            lemma_last_position_exists(planet_ids(ps), ps[n - 1].id);
        }
    }
}

/// The planets of a new game, as `create_planets` makes them.
pub open spec fn fresh_planets<O>(ps: Seq<Planet<O>>, ai_opponents: int) -> bool {
    &&& ps.len() <= u32::MAX
    &&& forall|i: int|
        0 <= i < ps.len() ==> is_new_planet(
            #[trigger] ps[i],
            i as u32,
            ps[i].position,
            startup_controller(i, ai_opponents),
        )
}

/// On the planets of a new game, where the starting stores fit and the starting
/// population is not negative, the first `n` steps start each controlled planet.
proof fn lemma_start_run_fresh_accepts<O>(ps: Seq<Planet<O>>, n: int, config: GameConfiguration)
    requires
        fresh_planets(ps, config.ai_opponents as int),
        0 <= n <= ps.len(),
        initial_capacity().covers(config.starting_resources),
        config.starting_population >= 0,
    ensures
        start_run(ps, n, config).1 is None,
        start_run(ps, n, config).0.len() == ps.len(),
        forall|j: int|
            0 <= j < ps.len() ==> #[trigger] start_run(ps, n, config).0[j] == if j < n
                && ps[j].controller is Some {
                with_start(ps[j], config)
            } else {
                ps[j]
            },
    decreases n,
{
    if n > 0 {
        lemma_start_run_fresh_accepts(ps, n - 1, config);
        let k = n - 1;
        if ps[k].controller is Some {
            let ids = planet_ids(ps);
            assert forall|j: int| 0 <= j < ids.len() implies ids[j] == j by {
                assert(is_new_planet(
                    ps[j],
                    j as u32,
                    ps[j].position,
                    startup_controller(j, config.ai_opponents as int),
                ));
            }
            assert(is_new_planet(ps[k], k as u32, ps[k].position, startup_controller(k, config.ai_opponents as int)));
            lemma_sequential_ids(ids, k);
            assert(ids[k] == ps[k].id);
            assert(ResourceBundle::zero_spec().plus(config.starting_resources) == config.starting_resources);
            lemma_startup_allocation(config.starting_population as int);
            assert(takes_start(ps[k], config));
        }
    }
}

/// On the planets of a new game, where the starting stores do not fit or the starting
/// population is negative, the first planet refuses and nothing else happens.
proof fn lemma_start_run_fresh_refuses<O>(ps: Seq<Planet<O>>, n: int, config: GameConfiguration)
    requires
        fresh_planets(ps, config.ai_opponents as int),
        1 <= n <= ps.len(),
        !(initial_capacity().covers(config.starting_resources) && config.starting_population >= 0),
    ensures
        start_run(ps, n, config) == (ps.update(0, refused_start(ps[0], config)), Some(ps[0])),
{
    assert(is_new_planet(ps[0], 0u32, ps[0].position, startup_controller(0, config.ai_opponents as int)));
    let ids = planet_ids(ps);
    assert(ids[0] == 0);
    assert(is_last_position(ids, 0u32, 0)) by {
        assert forall|j: int| 0 < j < ids.len() implies ids[j] != 0u32 by {
            assert(is_new_planet(
                ps[j],
                j as u32,
                ps[j].position,
                startup_controller(j, config.ai_opponents as int),
            ));
        }
    }
    lemma_last_position_exists(ids, 0u32);
    lemma_last_position_unique(ids, 0u32, last_position(ids, 0u32), 0);
    assert(ResourceBundle::zero_spec().plus(config.starting_resources) == config.starting_resources);
    assert(!takes_start(ps[0], config));
    assert(start_run(ps, 0, config) == (ps, None::<Planet<O>>));
    assert(ps[0].controller is Some);
    assert(start_run(ps, 1, config) == (ps.update(0, refused_start(ps[0], config)), Some(ps[0])));
    if n > 1 {
        lemma_start_run_stops(ps, 1, n, config);
    }
}

/// The whole run on the planets of a new game: it fits in `i32`; it starts every planet
/// where the starting stores fit and the starting population is not negative, and
/// otherwise the first planet refuses, with the stores added where they fit.
proof fn lemma_start_run_fresh<O>(ps: Seq<Planet<O>>, config: GameConfiguration)
    requires
        fresh_planets(ps, config.ai_opponents as int),
    ensures
        start_fits(ps, config),
        ({
            let (qs, stop) = start_run(ps, ps.len() as int, config);
            let covered = initial_capacity().covers(config.starting_resources);
            &&& qs.len() == ps.len()
            &&& stop is None <==> (ps.len() == 0 || (covered && config.starting_population >= 0))
            &&& stop is None ==> forall|i: int|
                0 <= i < ps.len() ==> is_started_planet(#[trigger] qs[i], i, ps[i].position, config)
            &&& stop matches Some(p) ==> p == ps[0]
            &&& stop is Some && !covered ==> qs == ps
            &&& stop is Some && covered ==> qs == ps.update(
                0,
                with_current(ps[0], config.starting_resources),
            )
        }),
{
    let covered = initial_capacity().covers(config.starting_resources);
    let sp = config.starting_population;
    assert(ResourceBundle::zero_spec().plus(config.starting_resources) == config.starting_resources);
    if covered && sp >= 0 {
        lemma_start_run_fresh_accepts(ps, ps.len() as int, config);
        let qs = start_run(ps, ps.len() as int, config).0;
        assert forall|i: int| 0 <= i < ps.len() implies is_started_planet(#[trigger] qs[i], i, ps[i].position, config) by {
            assert(qs[i] == start_run(ps, ps.len() as int, config).0[i]);
            assert(is_new_planet(
                ps[i],
                i as u32,
                ps[i].position,
                startup_controller(i, config.ai_opponents as int),
            ));
        }
        assert forall|n: int| 0 <= n < ps.len() implies {
            let (cur, stop) = #[trigger] start_run(ps, n, config);
            let p = cur[last_position(planet_ids(ps), ps[n].id)];
            stop is None && ps[n].controller is Some ==> p.resources.current.plus_fits(
                config.starting_resources,
            ) && fits_i32(p.population.total + config.starting_population)
        } by {
            lemma_start_run_fresh_accepts(ps, n, config);
            let ids = planet_ids(ps);
            assert forall|j: int| 0 <= j < ids.len() implies ids[j] == j by {
                assert(is_new_planet(
                    ps[j],
                    j as u32,
                    ps[j].position,
                    startup_controller(j, config.ai_opponents as int),
                ));
            }
            lemma_sequential_ids(ids, n);
            assert(ids[n] == ps[n].id);
            assert(start_run(ps, n, config).0[n] == ps[n]);
        }
    } else if ps.len() > 0 {
        lemma_start_run_fresh_refuses(ps, ps.len() as int, config);
        assert(is_new_planet(ps[0], 0u32, ps[0].position, startup_controller(0, config.ai_opponents as int)));
        if covered {
            assert(refused_start(ps[0], config) == with_current(ps[0], config.starting_resources));
        } else {
            assert(ps.update(0, ps[0]) =~= ps);
        }
        assert forall|n: int| 0 <= n < ps.len() implies {
            let (cur, stop) = #[trigger] start_run(ps, n, config);
            let p = cur[last_position(planet_ids(ps), ps[n].id)];
            stop is None && ps[n].controller is Some ==> p.resources.current.plus_fits(
                config.starting_resources,
            ) && fits_i32(p.population.total + config.starting_population)
        } by {
            if n >= 1 {
                lemma_start_run_fresh_refuses(ps, n, config);
            } else {
                let ids = planet_ids(ps);
                assert(ids[0] == 0);
                assert(is_last_position(ids, 0u32, 0)) by {
                    assert forall|j: int| 0 < j < ids.len() implies ids[j] != 0u32 by {
                        assert(is_new_planet(
                            ps[j],
                            j as u32,
                            ps[j].position,
                            startup_controller(j, config.ai_opponents as int),
                        ));
                    }
                }
                lemma_last_position_exists(ids, 0u32);
                lemma_last_position_unique(ids, 0u32, last_position(ids, 0u32), 0);
            }
        }
    }
}

/// After a refusal a run changes nothing more.
proof fn lemma_start_run_stops<O>(ps: Seq<Planet<O>>, n: int, m: int, config: GameConfiguration)
    requires
        0 <= n <= m,
        start_run(ps, n, config).1 is Some,
    ensures
        start_run(ps, m, config) == start_run(ps, n, config),
    decreases m - n,
{
    if m > n {
        lemma_start_run_stops(ps, n, m - 1, config);
    }
}

proof fn lemma_startup_created_bounds(existing: Seq<Faction>, t: int)
    requires
        t >= 0,
    ensures
        0 <= startup_created(existing, t) <= t,
    decreases t,
{
    if t > 0 {
        lemma_startup_created_bounds(existing, t - 1);
    }
}

proof fn lemma_startup_created_monotone(existing: Seq<Faction>, t: int, u: int)
    requires
        0 <= t <= u,
        startup_created(existing, t) == t,
    ensures
        startup_created(existing, u) >= t,
    decreases u - t,
{
    if t < u {
        if startup_created(existing, u - 1) >= t {
            lemma_startup_created_bounds(existing, u - 1);
        } else {
            lemma_startup_created_monotone(existing, t, u - 1);
        }
    }
}

/// Once the `j`-th startup faction is refused, no more get created.
proof fn lemma_startup_created_stops(existing: Seq<Faction>, j: int, u: int)
    requires
        0 <= j < u,
        startup_created(existing, j) == j,
        !startup_name_free(existing, j),
    ensures
        startup_created(existing, u) == j,
    decreases u - j,
{
    if u == j + 1 {
    } else {
        lemma_startup_created_stops(existing, j, u - 1);
    }
}

/// With the first `j` startup factions created after `existing`, the `j`-th name is free
/// exactly when it is not blank and not among the factions present.
proof fn lemma_startup_free_matches(existing: Seq<Faction>, present: Seq<Faction>, j: int)
    requires
        j >= 1,
        present.len() == existing.len() + j,
        present.take(existing.len() as int) == existing,
        forall|k: int|
            0 <= k < j ==> (#[trigger] present[existing.len() + k]).name@ == startup_faction_name(k),
    ensures
        startup_name_free(existing, j) <==> (trimmed(startup_faction_name(j)).len() > 0
            && !has_faction_name(present, startup_faction_name(j))),
{
    let name = startup_faction_name(j);
    if has_faction_name(present, name) {
        let i = choose|i: int| 0 <= i < present.len() && (#[trigger] present[i]).name@ == name;
        if i < existing.len() {
            assert(present.take(existing.len() as int)[i] == present[i]);
            assert(has_faction_name(existing, name));
        } else {
            let k = i - existing.len();
            assert(present[existing.len() + k].name@ == startup_faction_name(k));
        }
    }
    if has_faction_name(existing, name) {
        let i = choose|i: int| 0 <= i < existing.len() && (#[trigger] existing[i]).name@ == name;
        assert(present.take(existing.len() as int)[i] == present[i]);
        assert(has_faction_name(present, name));
    }
    if exists|k: int| 0 <= k < j && startup_faction_name(k) == name {
        let k = choose|k: int| 0 <= k < j && startup_faction_name(k) == name;
        assert(present[existing.len() + k].name@ == name);
        assert(has_faction_name(present, name));
    }
}

/// With no faction present, the first ten startup names are free, and the eleventh
/// repeats the tenth.
proof fn lemma_startup_names_on_empty()
    ensures
        forall|j: int| 0 <= j < 10 ==> #[trigger] startup_name_free(Seq::<Faction>::empty(), j),
        !startup_name_free(Seq::<Faction>::empty(), 10),
{
    reveal_strlit("Player Empire");
    reveal_strlit("Stellar Federation");
    reveal_strlit("Cosmic Republic");
    reveal_strlit("Galactic Union");
    reveal_strlit("Star Alliance");
    reveal_strlit("Void Collective");
    reveal_strlit("Nebula Empire");
    reveal_strlit("Solar Dynasty");
    reveal_strlit("Astral Dominion");
    reveal_strlit("AI Empire");
    let e = Seq::<Faction>::empty();
    assert forall|j: int| 0 <= j < 10 implies #[trigger] startup_name_free(e, j) by {
        let name = startup_faction_name(j);
        lemma_trimmed_nonempty(name);
        assert forall|k: int| 0 <= k < j implies startup_faction_name(k) != name by {
            let other = startup_faction_name(k);
            if other.len() == name.len() {
                if other[0] == name[0] {
                    assert(other[1] != name[1]);
                } else {
                    assert(other[0] != name[0]);
                }
            }
        }
    }
    assert(startup_faction_name(9) == startup_faction_name(10));
}

/// With no faction present, the startup factions get created up to the tenth.
proof fn lemma_startup_created_on_empty(t: int)
    requires
        t >= 0,
    ensures
        startup_created(Seq::<Faction>::empty(), t) == if t <= 10 { t } else { 10 },
    decreases t,
{
    if t > 0 {
        lemma_startup_names_on_empty();
        lemma_startup_created_on_empty(t - 1);
        if t - 1 < 10 {
            assert(startup_name_free(Seq::<Faction>::empty(), t - 1));
        }
    }
}

/// The starting allocation of a population that is not negative puts every worker
/// somewhere and leaves at least a tenth unassigned.
proof fn lemma_startup_allocation(total: int)
    requires
        0 <= total <= i32::MAX,
    ensures
        startup_allocation(total).matches_total(total),
        startup_allocation(total).unassigned >= total / 10,
{
    let assignable = total - total / 10;
    assert(0 <= assignable <= total);
    assert(assignable / 4 + assignable / 4 + assignable / 6 + assignable / 6 + assignable / 10
        <= assignable);
}

/// The starting ships depend on the planets only through their controllers.
proof fn lemma_starting_ships_controllers<O, M>(
    ps: Seq<Planet<O>>,
    qs: Seq<Planet<O>>,
    ms: Seq<M>,
    next: int,
)
    requires
        ps.len() == qs.len(),
        forall|i: int| 0 <= i < ps.len() ==> (#[trigger] ps[i]).controller == qs[i].controller,
    ensures
        starting_ships(ps, ms, next) == starting_ships(qs, ms, next),
    decreases ps.len(),
{
    if ps.len() > 0 {
        lemma_starting_ships_controllers(ps.drop_last(), qs.drop_last(), ms, next);
        assert(ps.last().controller == qs.last().controller);
    }
}

/// There are at most as many starting ships as planets.
proof fn lemma_starting_ships_len<O, M>(ps: Seq<Planet<O>>, ms: Seq<M>, next: int)
    ensures
        starting_ships(ps, ms, next).len() <= ps.len(),
    decreases ps.len(),
{
    if ps.len() > 0 {
        lemma_starting_ships_len(ps.drop_last(), ms, next);
    }
}

} // verus!
