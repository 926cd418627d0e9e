//! What a save holds, the checks a loaded save must pass, the summary shown in the save
//! browser, and the naming of save slots. Reading and writing the files is done by the
//! program around the library.
use vstd::prelude::*;
use vstd::multiset::Multiset;
use crate::events::{GameEvent, PlayerCommand};
use crate::faction_manager::{FactionManager, loadable_factions, load_refusal};
use crate::game_initializer::GameConfiguration;
use crate::planet_manager::PlanetManager;
use crate::ship_manager::ShipManager;
use crate::text::decimal;
use crate::time_manager::{TickClock, MAX_SAFE_TICK};
use crate::types::{fits_i32, Faction, GameError, GameResult, Planet, Ship};

verus! {

/// The only save format version this library reads.
pub const SAVE_VERSION: u32 = 1;

/// The slot used when no save name was chosen yet.
pub open spec fn default_slot() -> Seq<char> {
    "quicksave"@
}

/// Everything a save file holds. `O` and `M` are the planets' orbits and the ships'
/// motions, which the rules only carry.
#[derive(Debug, Clone)]
pub struct SaveData<O, M> {
    pub version: u32,
    pub save_name: String,
    pub timestamp: u64,
    pub tick: u64,
    pub planets: Vec<Planet<O>>,
    pub ships: Vec<Ship<M>>,
    pub factions: Vec<Faction>,
    pub game_configuration: GameConfiguration,
}

/// What the save browser shows of a save.
#[derive(Debug, Clone)]
pub struct SaveInfo {
    pub name: String,
    pub timestamp: u64,
    pub tick: u64,
    pub planets: usize,
    pub ships: usize,
    pub factions: usize,
}

impl SaveInfo {
    /// The summary of `data`: its name, time and tick, and how many planets, ships and
    /// factions it holds.
    pub fn from_save_data<O, M>(data: &SaveData<O, M>) -> (r: SaveInfo)
        ensures
            r.name@ == data.save_name@,
            r.timestamp == data.timestamp,
            r.tick == data.tick,
            r.planets == data.planets@.len(),
            r.ships == data.ships@.len(),
            r.factions == data.factions@.len(),
    {
        SaveInfo {
            name: data.save_name.clone(),
            timestamp: data.timestamp,
            tick: data.tick,
            planets: data.planets.len(),
            ships: data.ships.len(),
            factions: data.factions.len(),
        }
    }
}

/// Every planet's workers are non-negative and add up to its population, and its stores
/// lie between zero and its capacity.
pub open spec fn planets_consistent<O>(ps: Seq<Planet<O>>) -> bool {
    forall|i: int|
        0 <= i < ps.len() ==> (#[trigger] ps[i]).population.allocation.matches_total(
            ps[i].population.total as int,
        ) && ps[i].resources.is_valid()
}

/// A loaded save can be used: the supported version, at least one planet and one
/// faction, and consistent planets.
pub open spec fn save_usable<O, M>(data: SaveData<O, M>) -> bool {
    &&& data.version == SAVE_VERSION
    &&& data.planets@.len() > 0
    &&& data.factions@.len() > 0
    &&& planets_consistent(data.planets@)
}

/// Where saves go and which slot was saved last.
pub struct SaveSystem {
    pub save_directory: String,
    pub current_save_name: Option<String>,
}

impl SaveSystem {
    /// Saves go to the directory "saves"; no slot was saved yet.
    pub fn new() -> (r: Self)
        ensures
            r.save_directory@ == "saves"@,
            r.current_save_name is None,
    {
        SaveSystem { save_directory: "saves".to_string(), current_save_name: None }
    }

    /// The slot a plain save goes to: the one saved last, or "quicksave".
    pub fn save_slot(&self) -> (r: String)
        ensures
            r@ == match self.current_save_name {
                Some(n) => n@,
                None => default_slot(),
            },
    {
        match &self.current_save_name {
            Some(n) => n.clone(),
            None => "quicksave".to_string(),
        }
    }

    /// The slot a plain load reads: "quicksave".
    pub fn load_slot(&self) -> (r: String)
        ensures
            r@ == default_slot(),
    {
        "quicksave".to_string()
    }

    /// The file name of slot `slot_name`: the name followed by ".sav".
    pub fn save_file_name(&self, slot_name: &str) -> (r: String)
        ensures
            r@ == slot_name@ + ".sav"@,
    {
        let mut s = String::from_str(slot_name);
        s.append(".sav");
        s
    }

    /// Records that slot `slot_name` was just saved.
    pub fn record_saved(&mut self, slot_name: &str)
        ensures
            final(self).save_directory@ == old(self).save_directory@,
            final(self).current_save_name matches Some(n) && n@ == slot_name@,
    {
        self.current_save_name = Some(String::from_str(slot_name));
    }

    /// Checks a loaded save: the version must be the supported one, there must be at least
    /// one planet and one faction, and every planet must have workers adding up to its
    /// population and stores between zero and its capacity. Fails with `SaveError` on the
    /// version and on empty lists, and with `InvalidOperation` on an inconsistent planet.
    pub fn validate_save_integrity<O, M>(&self, save_data: &SaveData<O, M>) -> (r: GameResult<()>)
        requires
            forall|i: int|
                0 <= i < save_data.planets@.len() ==> ((#[trigger] save_data.planets@[i]).population.allocation.is_non_negative()
                    ==> fits_i32(save_data.planets@[i].population.allocation.sum_spec())),
        ensures
            r.is_ok() <==> save_usable(*save_data),
            save_data.version != SAVE_VERSION ==> (r matches Err(GameError::SaveError(m)) && m@
                == "Unsupported save version: "@ + decimal(save_data.version as nat)),
            save_data.version == SAVE_VERSION && save_data.planets@.len() == 0 ==> (r matches Err(
                GameError::SaveError(m),
            ) && m@ == "Save file contains no planets"@),
            save_data.version == SAVE_VERSION && save_data.planets@.len() > 0
                && save_data.factions@.len() == 0 ==> (r matches Err(GameError::SaveError(m)) && m@
                == "Save file contains no factions"@),
            save_data.version == SAVE_VERSION && save_data.planets@.len() > 0
                && save_data.factions@.len() > 0 && r.is_err() ==> (r matches Err(e)
                && e is InvalidOperation),
    {
        if save_data.version != SAVE_VERSION {
            let mut m = String::from_str("Unsupported save version: ");
            crate::text::append_decimal(&mut m, save_data.version as u64);
            return Err(GameError::SaveError(m));
        }
        if save_data.planets.len() == 0 {
            return Err(GameError::SaveError("Save file contains no planets".to_string()));
        }
        if save_data.factions.len() == 0 {
            return Err(GameError::SaveError("Save file contains no factions".to_string()));
        }
        let mut i: usize = 0;
        while i < save_data.planets.len()
            invariant
                i <= save_data.planets@.len(),
                save_data.version == SAVE_VERSION,
                save_data.planets@.len() > 0,
                save_data.factions@.len() > 0,
                forall|j: int|
                    0 <= j < save_data.planets@.len() ==> ((#[trigger] save_data.planets@[j]).population.allocation.is_non_negative()
                        ==> fits_i32(save_data.planets@[j].population.allocation.sum_spec())),
                planets_consistent(save_data.planets@.take(i as int)),
            decreases save_data.planets@.len() - i,
        {
            let planet = &save_data.planets[i];
            match planet.population.allocation.validate(planet.population.total) {
                Ok(()) => {},
                Err(e) => return Err(e),
            }
            match planet.resources.validate() {
                Ok(()) => {},
                Err(e) => return Err(e),
            }
            proof {
                assert forall|j: int| 0 <= j < i + 1 implies (#[trigger] save_data.planets@.take(i + 1)[j]).population.allocation.matches_total(
                    save_data.planets@.take(i + 1)[j].population.total as int,
                ) && save_data.planets@.take(i + 1)[j].resources.is_valid() by {
                    if j < i {
                        assert(save_data.planets@.take(i + 1)[j] == save_data.planets@.take(i as int)[j]);
                    }
                }
            }
            i = i + 1;
        }
        proof {
            assert(save_data.planets@.take(save_data.planets@.len() as int) =~= save_data.planets@);
        }
        Ok(())
    }

    /// Save and load commands are carried out by the game as a whole; the save system
    /// itself changes nothing on any event.
    pub fn handle_event<V, F>(&mut self, event: &GameEvent<V, F>) -> (r: GameResult<()>)
        ensures
            r is Ok,
            *final(self) == *old(self),
    {
        match event {
            GameEvent::PlayerCommand(PlayerCommand::SaveGame)
            | GameEvent::PlayerCommand(PlayerCommand::LoadGame) => Ok(()),
            _ => Ok(()),
        }
    }
}

/// `data` holds the game made of `clock`, `planet_manager`, `ship_manager` and
/// `faction_manager`: its tick, a copy of each planet, its ships and its factions.
pub open spec fn saved_from<O, M>(
    data: SaveData<O, M>,
    clock: TickClock,
    planet_manager: PlanetManager<O>,
    ship_manager: ShipManager<M>,
    faction_manager: FactionManager,
) -> bool {
    &&& data.tick == clock.tick()
    &&& data.planets@.len() == planet_manager.planets().len()
    &&& forall|i: int| 0 <= i < data.planets@.len() ==> (#[trigger] data.planets@[i]).same_as(planet_manager.planets()[i])
    &&& data.ships@ == ship_manager.ships()
    &&& data.factions@ == faction_manager.factions()
}

/// The game made of `clock`, `planet_manager`, `ship_manager` and `faction_manager` holds
/// what `data` holds: its tick, planets, ships and factions.
pub open spec fn loaded_from<O, M>(
    data: SaveData<O, M>,
    clock: TickClock,
    planet_manager: PlanetManager<O>,
    ship_manager: ShipManager<M>,
    faction_manager: FactionManager,
) -> bool {
    &&& clock.tick() == data.tick
    &&& planet_manager.planets() == data.planets@
    &&& ship_manager.ships() == data.ships@
    &&& faction_manager.factions() == data.factions@
}

/// A save of the game as it stands: the current format version, slot `slot_name`, the
/// time `timestamp`, the current tick, copies of every planet, ship and faction, and the
/// configuration the game was started with.
pub fn build_save_data<O: Copy, M: Copy>(
    slot_name: &str,
    timestamp: u64,
    clock: &TickClock,
    planet_manager: &PlanetManager<O>,
    ship_manager: &ShipManager<M>,
    faction_manager: &FactionManager,
    configuration: &GameConfiguration,
) -> (r: SaveData<O, M>)
    ensures
        r.version == SAVE_VERSION,
        r.save_name@ == slot_name@,
        r.timestamp == timestamp,
        saved_from(r, *clock, *planet_manager, *ship_manager, *faction_manager),
        r.game_configuration == *configuration,
{
    let planets = match planet_manager.get_all_planets_cloned() {
        Ok(v) => v,
        Err(_) => Vec::new(),
    };
    let ships = match ship_manager.get_all_ships_cloned() {
        Ok(v) => v,
        Err(_) => Vec::new(),
    };
    let source = faction_manager.get_all_factions();
    let mut factions: Vec<Faction> = Vec::new();
    let mut i: usize = 0;
    while i < source.len()
        invariant
            i <= source@.len(),
            source@ == faction_manager.factions(),
            factions@ == source@.take(i as int),
        decreases source@.len() - i,
    {
        let f = &source[i];
        factions.push(Faction { id: f.id, name: f.name.clone(), is_player: f.is_player, ai_type: f.ai_type, score: f.score });
        assert(factions@ =~= source@.take(i + 1));
        i = i + 1;
    }
    assert(source@.take(source@.len() as int) =~= source@);
    SaveData {
        version: SAVE_VERSION,
        save_name: String::from_str(slot_name),
        timestamp,
        tick: clock.get_current_tick(),
        planets,
        ships,
        factions,
        game_configuration: *configuration,
    }
}

/// Puts a loaded save into the game, in this order: the tick, the planets, the ships, then
/// the factions, stopping at the first refusal (what was put in before it stays). The tick
/// is refused with `InvalidOperation` at or above `MAX_SAFE_TICK`, changing nothing; the
/// factions are refused as `FactionManager::load_factions` refuses them.
pub fn apply_save_data<O, M>(
    clock: &mut TickClock,
    planet_manager: &mut PlanetManager<O>,
    ship_manager: &mut ShipManager<M>,
    faction_manager: &mut FactionManager,
    save_data: SaveData<O, M>,
) -> (r: GameResult<()>)
    requires
        old(planet_manager).wf(),
        old(ship_manager).wf(),
        old(faction_manager).wf(),
        forall|i: int| 0 <= i < save_data.planets@.len() ==> (#[trigger] save_data.planets@[i]).id < u32::MAX,
        forall|i: int| 0 <= i < save_data.ships@.len() ==> (#[trigger] save_data.ships@[i]).id < u32::MAX,
        loadable_factions(save_data.factions@) ==> forall|i: int|
            0 <= i < save_data.factions@.len() ==> (#[trigger] save_data.factions@[i]).id < 255,
    ensures
        final(planet_manager).wf(),
        final(ship_manager).wf(),
        final(faction_manager).wf(),
        r.is_ok() <==> save_data.tick < MAX_SAFE_TICK && loadable_factions(save_data.factions@),
        save_data.tick >= MAX_SAFE_TICK ==> {
            &&& r matches Err(GameError::InvalidOperation(m))
            &&& m@ == "Tick value "@ + decimal(save_data.tick as nat) + " too large, maximum allowed: "@
                + decimal(MAX_SAFE_TICK as nat)
            &&& *final(clock) == *old(clock)
            &&& *final(planet_manager) == *old(planet_manager)
            &&& *final(ship_manager) == *old(ship_manager)
            &&& *final(faction_manager) == *old(faction_manager)
        },
        save_data.tick < MAX_SAFE_TICK ==> {
            &&& final(clock).tick() == save_data.tick
            &&& final(planet_manager).planets() == save_data.planets@
            &&& final(ship_manager).ships() == save_data.ships@
            &&& loadable_factions(save_data.factions@) ==> loaded_from(
                save_data,
                *final(clock),
                *final(planet_manager),
                *final(ship_manager),
                *final(faction_manager),
            )
            &&& !loadable_factions(save_data.factions@) ==> {
                &&& *final(faction_manager) == *old(faction_manager)
                &&& r matches Err(GameError::InvalidOperation(m))
                &&& load_refusal(save_data.factions@, m@)
            }
        },
{
    match clock.set_tick(save_data.tick) {
        Ok(()) => {},
        Err(e) => return Err(e),
    }
    match planet_manager.load_planets(save_data.planets) {
        Ok(()) => {},
        Err(e) => return Err(e),
    }
    match ship_manager.load_ships(save_data.ships) {
        Ok(()) => {},
        Err(e) => return Err(e),
    }
    faction_manager.load_factions(save_data.factions)
}

/// The timestamps of `s` never increase: the newest save comes first.
pub open spec fn newest_first(s: Seq<SaveInfo>) -> bool {
    forall|i: int, j: int| 0 <= i < j < s.len() ==> (#[trigger] s[i]).timestamp >= (#[trigger] s[j]).timestamp
}

/// The saves ordered newest first (saves with equal timestamps keep their order).
pub fn sort_saves_newest_first(saves: Vec<SaveInfo>) -> (r: Vec<SaveInfo>)
    ensures
        newest_first(r@),
        r@.to_multiset() == saves@.to_multiset(),
{
    broadcast use vstd::seq_lib::group_to_multiset_ensures;
    broadcast use vstd::multiset::group_multiset_axioms;

    let ghost all = saves@;
    let mut rest = saves;
    let mut out: Vec<SaveInfo> = Vec::new();
    assert(out@.to_multiset().add(rest@.to_multiset()) =~= all.to_multiset());
    while rest.len() > 0
        invariant
            newest_first(out@),
            out@.to_multiset().add(rest@.to_multiset()) == all.to_multiset(),
        decreases rest@.len(),
    {
        let ghost before_rest = rest@;
        let ghost before_out = out@;
        let x = rest.remove(0);
        let mut j: usize = 0;
        while j < out.len() && out[j].timestamp >= x.timestamp
            invariant
                j <= out@.len(),
                out@ == before_out,
                forall|k: int| 0 <= k < j ==> (#[trigger] out@[k]).timestamp >= x.timestamp,
            decreases out@.len() - j,
        {
            j = j + 1;
        }
        out.insert(j, x);
        proof {
            assert forall|a: int, b: int| 0 <= a < b < out@.len() implies (#[trigger] out@[a]).timestamp
                >= (#[trigger] out@[b]).timestamp by {
                if b < j {
                    assert(out@[a] == before_out[a] && out@[b] == before_out[b]);
                } else if b == j {
                    assert(out@[a] == before_out[a]);
                } else if a < j {
                    assert(out@[a] == before_out[a] && out@[b] == before_out[b - 1]);
                } else if a == j {
                    assert(out@[b] == before_out[b - 1]);
                    assert(before_out[j as int].timestamp < x.timestamp);
                    assert(before_out[j as int].timestamp >= before_out[b - 1].timestamp || b - 1 == j);
                } else {
                    assert(out@[a] == before_out[a - 1] && out@[b] == before_out[b - 1]);
                }
            }
            assert(before_rest.remove(0) == rest@);
            assert(x == before_rest[0]);
            assert(out@ == before_out.insert(j as int, x));
            vstd::seq_lib::to_multiset_insert(before_out, j as int, x);
            vstd::seq_lib::to_multiset_remove(before_rest, 0);
            assert(out@.to_multiset() == before_out.to_multiset().insert(x));
            assert(rest@.to_multiset() == before_rest.to_multiset().remove(x));
            vstd::seq_lib::to_multiset_contains(before_rest, x);
            assert(before_rest.contains(x)) by {
                assert(before_rest[0] == x);
            }
            assert(before_rest.to_multiset().contains(x));
            assert(out@.to_multiset().add(rest@.to_multiset()) =~= all.to_multiset());
        }
    }
    assert(rest@.to_multiset() =~= Multiset::<SaveInfo>::empty());
    assert(out@.to_multiset().add(Multiset::<SaveInfo>::empty()) =~= out@.to_multiset());
    out
}

} // verus!
