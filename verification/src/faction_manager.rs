//! Owner of the factions: creation, lookup by id and name, scores, and loading.
use vstd::prelude::*;
use std::collections::HashMap;
use crate::events::{GameEvent, SimulationEvent, StateChange};
use crate::text::{decimal, is_blank, trimmed, is_whitespace_char};
use crate::types::{AIPersonality, Faction, FactionId, GameError, GameResult, saturate_i32};

verus! {

broadcast use vstd::std_specs::hash::group_hash_axioms;

/// Some faction of `s` has the id `id`.
pub open spec fn has_faction_id(s: Seq<Faction>, id: FactionId) -> bool {
    exists|i: int| 0 <= i < s.len() && (#[trigger] s[i]).id == id
}

/// Every faction of `s` has an id below `n`.
pub open spec fn ids_below(s: Seq<Faction>, n: FactionId) -> bool {
    forall|i: int| 0 <= i < s.len() ==> (#[trigger] s[i]).id < n
}

/// Some faction of `s` has the name `name`.
pub open spec fn has_faction_name(s: Seq<Faction>, name: Seq<char>) -> bool {
    exists|i: int| 0 <= i < s.len() && (#[trigger] s[i]).name@ == name
}

/// No two factions of `s` share an id.
pub open spec fn faction_ids_distinct(s: Seq<Faction>) -> bool {
    forall|i: int, j: int| 0 <= i < j < s.len() ==> #[trigger] s[i].id != #[trigger] s[j].id
}

/// No two factions of `s` share a name.
pub open spec fn faction_names_distinct(s: Seq<Faction>) -> bool {
    forall|i: int, j: int|
        0 <= i < j < s.len() ==> #[trigger] s[i].name@ != #[trigger] s[j].name@
}

/// Every faction of `s` has a non-blank name and a non-negative score.
pub open spec fn factions_well_formed(s: Seq<Faction>) -> bool {
    forall|i: int|
        0 <= i < s.len() ==> trimmed((#[trigger] s[i]).name@).len() > 0 && s[i].score >= 0
}

/// What `load_factions` accepts: well-formed factions with distinct ids and names.
pub open spec fn loadable_factions(s: Seq<Faction>) -> bool {
    factions_well_formed(s) && faction_ids_distinct(s) && faction_names_distinct(s)
}

/// The faction has a non-blank name and a non-negative score.
pub open spec fn faction_fit(f: Faction) -> bool {
    trimmed(f.name@).len() > 0 && f.score >= 0
}

/// `m` is the message with which loading `fs` is refused: the first faction with a blank
/// name or a negative score is named for that; with none, the first faction whose id, or
/// else whose name, repeats an earlier one is named for that.
pub open spec fn load_refusal(fs: Seq<Faction>, m: Seq<char>) -> bool {
    if !factions_well_formed(fs) {
        exists|i: int|
            0 <= i < fs.len() && !faction_fit(#[trigger] fs[i]) && (forall|j: int|
                0 <= j < i ==> faction_fit(#[trigger] fs[j])) && m == (if trimmed(fs[i].name@).len()
                == 0 {
                "Loaded faction has empty name"@
            } else {
                "Loaded faction has negative score"@
            })
    } else {
        exists|i: int|
            0 <= i < fs.len() && faction_ids_distinct(#[trigger] fs.subrange(0, i))
                && faction_names_distinct(fs.subrange(0, i)) && if has_faction_id(
                fs.subrange(0, i),
                fs[i].id,
            ) {
                m == "Duplicate faction ID: "@ + decimal(fs[i].id as nat)
            } else {
                has_faction_name(fs.subrange(0, i), fs[i].name@) && m == "Duplicate faction name: "@
                    + fs[i].name@
            }
    }
}

/// One more than the largest id of `s`, or 0 for no factions.
pub open spec fn next_faction_id_after(s: Seq<Faction>) -> int
    decreases s.len(),
{
    if s.len() == 0 {
        0
    } else {
        let rest = next_faction_id_after(s.drop_last());
        if s.last().id + 1 > rest {
            s.last().id + 1
        } else {
            rest
        }
    }
}

/// The message of a failed lookup.
pub open spec fn faction_not_found(id: FactionId) -> Seq<char> {
    "Faction "@ + decimal(id as nat) + " not found"@
}

/// Factions in creation order, with an index from id to position.
pub struct FactionManager {
    factions: Vec<Faction>,
    faction_index: HashMap<FactionId, usize>,
    next_id: FactionId,
}

impl FactionManager {
    /// The factions, in order.
    pub closed spec fn factions(&self) -> Seq<Faction> {
        self.factions@
    }

    /// The id the next created faction gets.
    pub closed spec fn next_id(&self) -> FactionId {
        self.next_id
    }

    /// Ids are distinct and below `next_id`, and the index maps each id to its position.
    pub closed spec fn wf(&self) -> bool {
        &&& faction_ids_distinct(self.factions@)
        &&& forall|i: int|
            0 <= i < self.factions@.len() ==> (#[trigger] self.factions@[i]).id < self.next_id
        &&& forall|i: int|
            0 <= i < self.factions@.len() ==> self.faction_index@.contains_key(
                (#[trigger] self.factions@[i]).id,
            ) && self.faction_index@[self.factions@[i].id] == i
        &&& forall|k: FactionId|
            #[trigger] self.faction_index@.contains_key(k) ==> self.faction_index@[k]
                < self.factions@.len() && self.factions@[self.faction_index@[k] as int].id == k
    }

    /// An empty manager.
    pub fn new() -> (r: Self)
        ensures
            r.wf(),
            r.factions() == Seq::<Faction>::empty(),
            r.next_id() == 0,
            faction_ids_distinct(r.factions()),
            ids_below(r.factions(), r.next_id()),
    {
        FactionManager { factions: Vec::new(), faction_index: HashMap::new(), next_id: 0 }
    }

    /// A well-formed manager holds factions with distinct ids, all below the next id it
    /// hands out, so that id is fresh.
    pub proof fn lemma_ids_fresh(&self)
        requires
            self.wf(),
        ensures
            faction_ids_distinct(self.factions()),
            ids_below(self.factions(), self.next_id()),
            !has_faction_id(self.factions(), self.next_id()),
    {
    }

    proof fn lemma_lookup(&self, id: FactionId)
        requires
            self.wf(),
        ensures
            self.faction_index@.contains_key(id) <==> has_faction_id(self.factions(), id),
            self.faction_index@.contains_key(id) ==> self.factions()[self.faction_index@[id] as int].id
                == id && self.faction_index@[id] < self.factions().len(),
    {
        if has_faction_id(self.factions(), id) {
            let i = choose|i: int| 0 <= i < self.factions@.len() && (#[trigger] self.factions@[i]).id == id;
            assert(self.faction_index@.contains_key(self.factions@[i].id));
        }
    }

    fn position_of(&self, id: FactionId) -> (r: Option<usize>)
        requires
            self.wf(),
        ensures
            r.is_some() <==> has_faction_id(self.factions(), id),
            r matches Some(i) ==> i < self.factions().len() && self.factions()[i as int].id == id,
    {
        proof {
            self.lemma_lookup(id);
        }
        match self.faction_index.get(&id) {
            Some(i) => Some(*i),
            None => None,
        }
    }

    fn not_found(id: FactionId) -> (e: GameError)
        ensures
            e matches GameError::InvalidTarget(m) && m@ == faction_not_found(id),
    {
        let mut m = String::from_str("Faction ");
        crate::text::append_decimal(&mut m, id as u64);
        m.append(" not found");
        assert(m@ =~= faction_not_found(id));
        GameError::InvalidTarget(m)
    }

    fn name_in_use(&self, name: &String) -> (r: bool)
        ensures
            r == has_faction_name(self.factions(), name@),
    {
        let mut i: usize = 0;
        while i < self.factions.len()
            invariant
                i <= self.factions@.len(),
                forall|j: int| 0 <= j < i ==> (#[trigger] self.factions@[j]).name@ != name@,
            decreases self.factions@.len() - i,
        {
            if self.factions[i].name == *name {
                assert(self.factions@[i as int].name@ == name@);
                return true;
            }
            i = i + 1;
        }
        false
    }

    /// Creates a faction with score 0 under the next free id. Fails with
    /// `InvalidOperation` when the trimmed name is empty or the name is taken.
    pub fn create_faction(&mut self, name: String, is_player: bool, ai_type: AIPersonality) -> (r:
        GameResult<FactionId>)
        requires
            old(self).wf(),
            trimmed(name@).len() > 0 && !has_faction_name(old(self).factions(), name@) ==> old(
                self,
            ).next_id() < 255,
        ensures
            final(self).wf(),
            r.is_ok() <==> (trimmed(name@).len() > 0 && !has_faction_name(
                old(self).factions(),
                name@,
            )),
            r matches Err(e) ==> e is InvalidOperation && *final(self) == *old(self),
            r matches Err(GameError::InvalidOperation(m)) ==> m@ == (if trimmed(name@).len() == 0 {
                "Faction name cannot be empty"@
            } else {
                "Faction with name '"@ + name@ + "' already exists"@
            }),
            faction_ids_distinct(final(self).factions()),
            ids_below(final(self).factions(), final(self).next_id()),
            r matches Ok(id) ==> {
                &&& !has_faction_id(old(self).factions(), id)
                &&& id == old(self).next_id()
                &&& final(self).next_id() == old(self).next_id() + 1
                &&& final(self).factions() == old(self).factions().push(
                    Faction { id, name, is_player, ai_type, score: 0 },
                )
            },
    {
        if is_blank(name.as_str()) {
            return Err(GameError::InvalidOperation("Faction name cannot be empty".to_string()));
        }
        if self.name_in_use(&name) {
            let mut m = String::from_str("Faction with name '");
            m.append(name.as_str());
            m.append("' already exists");
            return Err(GameError::InvalidOperation(m));
        }
        let id = self.next_id;
        self.next_id = self.next_id + 1;
        let faction = Faction { id, name, is_player, ai_type, score: 0 };
        self.factions.push(faction);
        let pos = self.factions.len() - 1;
        self.faction_index.insert(id, pos);
        proof {
            assert forall|k: FactionId| #[trigger] self.faction_index@.contains_key(k) implies self.faction_index@[k]
                < self.factions@.len() && self.factions@[self.faction_index@[k] as int].id == k by {
                if k != id {
                    assert(old(self).faction_index@.contains_key(k));
                }
            }
            assert forall|i: int| 0 <= i < self.factions@.len() implies self.faction_index@.contains_key(
                (#[trigger] self.factions@[i]).id,
            ) && self.faction_index@[self.factions@[i].id] == i by {
                if i < pos {
                    assert(old(self).factions@[i] == self.factions@[i]);
                }
            }
        }
        Ok(id)
    }

    /// The faction with id `id`; fails with `InvalidTarget` when there is none.
    pub fn get_faction(&self, id: FactionId) -> (r: GameResult<&Faction>)
        requires
            self.wf(),
        ensures
            r.is_ok() <==> has_faction_id(self.factions(), id),
            r matches Ok(f) ==> f.id == id && self.factions().contains(*f),
            r matches Err(e) ==> e matches GameError::InvalidTarget(m) && m@ == faction_not_found(
                id,
            ),
    {
        match self.position_of(id) {
            Some(i) => {
                assert(self.factions()[i as int] == self.factions@[i as int]);
                Ok(&self.factions[i])
            },
            None => Err(Self::not_found(id)),
        }
    }

    /// Sets the score of faction `id`. Fails with `InvalidTarget` when there is no such
    /// faction, else with `InvalidOperation` when `score` is negative.
    pub fn update_score(&mut self, id: FactionId, score: i32) -> (r: GameResult<()>)
        requires
            old(self).wf(),
        ensures
            final(self).wf(),
            final(self).next_id() == old(self).next_id(),
            r.is_ok() <==> has_faction_id(old(self).factions(), id) && score >= 0,
            !has_faction_id(old(self).factions(), id) ==> (r matches Err(
                GameError::InvalidTarget(m),
            ) && m@ == faction_not_found(id)),
            has_faction_id(old(self).factions(), id) && score < 0 ==> (r matches Err(e)
                && e is InvalidOperation),
            r.is_err() ==> final(self).factions() == old(self).factions(),
            r.is_ok() ==> final(self).factions().len() == old(self).factions().len() && forall|
                i: int,
            |
                0 <= i < old(self).factions().len() ==> #[trigger] final(self).factions()[i] == (
                if old(self).factions()[i].id == id {
                    Faction { score, ..old(self).factions()[i] }
                } else {
                    old(self).factions()[i]
                }),
    {
        let i = match self.position_of(id) {
            Some(i) => i,
            None => return Err(Self::not_found(id)),
        };
        if score < 0 {
            return Err(GameError::InvalidOperation("Faction score cannot be negative".to_string()));
        }
        self.factions[i].score = score;
        Ok(())
    }

    /// Adds `points` to the score of faction `id`, saturating at the bounds of `i32`.
    /// Fails with `InvalidTarget` when there is no such faction.
    pub fn add_score(&mut self, id: FactionId, points: i32) -> (r: GameResult<()>)
        requires
            old(self).wf(),
        ensures
            final(self).wf(),
            final(self).next_id() == old(self).next_id(),
            r.is_ok() <==> has_faction_id(old(self).factions(), id),
            r matches Err(e) ==> e matches GameError::InvalidTarget(m) && m@ == faction_not_found(
                id,
            ),
            r.is_err() ==> final(self).factions() == old(self).factions(),
            r.is_ok() ==> final(self).factions().len() == old(self).factions().len() && forall|
                i: int,
            |
                0 <= i < old(self).factions().len() ==> #[trigger] final(self).factions()[i] == (
                if old(self).factions()[i].id == id {
                    Faction {
                        score: saturate_i32(old(self).factions()[i].score + points) as i32,
                        ..old(self).factions()[i]
                    }
                } else {
                    old(self).factions()[i]
                }),
    {
        let i = match self.position_of(id) {
            Some(i) => i,
            None => return Err(Self::not_found(id)),
        };
        let new_score = crate::types::saturating_add_i32(self.factions[i].score, points);
        self.factions[i].score = new_score;
        Ok(())
    }

    /// All factions, in creation order.
    pub fn get_all_factions(&self) -> (r: &[Faction])
        ensures
            r@ == self.factions(),
    {
        self.factions.as_slice()
    }

    /// Number of factions.
    pub fn count(&self) -> (r: usize)
        ensures
            r == self.factions().len(),
    {
        self.factions.len()
    }

    /// The first faction named `name`, if any.
    pub fn find_by_name(&self, name: &str) -> (r: Option<&Faction>)
        ensures
            r.is_some() <==> has_faction_name(self.factions(), name@),
            r matches Some(f) ==> exists|i: int|
                0 <= i < self.factions().len() && self.factions()[i] == *f && f.name@ == name@
                    && forall|j: int| 0 <= j < i ==> (#[trigger] self.factions()[j]).name@ != name@,
    {
        let target = String::from_str(name);
        let mut i: usize = 0;
        while i < self.factions.len()
            invariant
                i <= self.factions@.len(),
                target@ == name@,
                forall|j: int| 0 <= j < i ==> (#[trigger] self.factions@[j]).name@ != name@,
            decreases self.factions@.len() - i,
        {
            if self.factions[i].name == target {
                return Some(&self.factions[i]);
            }
            i = i + 1;
        }
        None
    }

    /// The first faction played by a person, if any.
    pub fn get_player_faction(&self) -> (r: Option<&Faction>)
        ensures
            r.is_some() <==> exists|i: int|
                0 <= i < self.factions().len() && (#[trigger] self.factions()[i]).is_player,
            r matches Some(f) ==> exists|i: int|
                0 <= i < self.factions().len() && self.factions()[i] == *f && f.is_player && forall|
                    j: int,
                | 0 <= j < i ==> !(#[trigger] self.factions()[j]).is_player,
    {
        let mut i: usize = 0;
        while i < self.factions.len()
            invariant
                i <= self.factions@.len(),
                forall|j: int| 0 <= j < i ==> !(#[trigger] self.factions@[j]).is_player,
            decreases self.factions@.len() - i,
        {
            if self.factions[i].is_player {
                return Some(&self.factions[i]);
            }
            i = i + 1;
        }
        None
    }

    /// Replaces all factions with `factions` and rebuilds the index; the next id becomes one
    /// more than the largest loaded id (0 when none). Fails with `InvalidOperation`, leaving
    /// the manager as it was, when a name is blank, a score negative, or an id or a name
    /// repeated.
    pub fn load_factions(&mut self, factions: Vec<Faction>) -> (r: GameResult<()>)
        requires
            old(self).wf(),
            loadable_factions(factions@) ==> forall|i: int|
                0 <= i < factions@.len() ==> (#[trigger] factions@[i]).id < 255,
        ensures
            final(self).wf(),
            r.is_ok() <==> loadable_factions(factions@),
            r matches Err(e) ==> e is InvalidOperation && *final(self) == *old(self),
            r matches Err(GameError::InvalidOperation(m)) ==> load_refusal(factions@, m@),
            r.is_ok() ==> final(self).factions() == factions@ && final(self).next_id()
                == next_faction_id_after(factions@),
            faction_ids_distinct(final(self).factions()),
            ids_below(final(self).factions(), final(self).next_id()),
    {
        let ghost fs = factions@;
        let mut i: usize = 0;
        while i < factions.len()
            invariant
                i <= factions@.len(),
                *self == *old(self),
                old(self).wf(),
                forall|j: int|
                    0 <= j < i ==> trimmed((#[trigger] factions@[j]).name@).len() > 0
                        && factions@[j].score >= 0,
            decreases factions@.len() - i,
        {
            if is_blank(factions[i].name.as_str()) {
                proof {
                    assert(!faction_fit(factions@[i as int]));
                    assert(forall|j: int| 0 <= j < i ==> faction_fit(#[trigger] factions@[j]));
                }
                return Err(GameError::InvalidOperation("Loaded faction has empty name".to_string()));
            }
            if factions[i].score < 0 {
                proof {
                    assert(!faction_fit(factions@[i as int]));
                    assert(forall|j: int| 0 <= j < i ==> faction_fit(#[trigger] factions@[j]));
                }
                return Err(
                    GameError::InvalidOperation("Loaded faction has negative score".to_string()),
                );
            }
            i = i + 1;
        }
        let mut i: usize = 0;
        while i < factions.len()
            invariant
                i <= factions@.len(),
                *self == *old(self),
                old(self).wf(),
                factions_well_formed(factions@),
                faction_ids_distinct(factions@.subrange(0, i as int)),
                faction_names_distinct(factions@.subrange(0, i as int)),
            decreases factions@.len() - i,
        {
            let ghost prefix = factions@.subrange(0, i as int);
            let mut j: usize = 0;
            while j < i
                invariant
                    j <= i < factions@.len(),
                    *self == *old(self),
                    old(self).wf(),
                    factions_well_formed(factions@),
                    prefix == factions@.subrange(0, i as int),
                    faction_ids_distinct(prefix),
                    faction_names_distinct(prefix),
                    forall|k: int| 0 <= k < j ==> (#[trigger] factions@[k]).id != factions@[i as int].id,
                decreases i - j,
            {
                if factions[j].id == factions[i].id {
                    proof {
                        assert(prefix[j as int] == factions@[j as int]);
                        assert(has_faction_id(prefix, factions@[i as int].id));
                        assert(!faction_ids_distinct(factions@)) by {
                            assert(factions@[j as int].id == factions@[i as int].id);
                        }
                    }
                    let mut m = String::from_str("Duplicate faction ID: ");
                    crate::text::append_decimal(&mut m, factions[i].id as u64);
                    proof {
                        assert(faction_ids_distinct(factions@.subrange(0, i as int)));
                    }
                    return Err(GameError::InvalidOperation(m));
                }
                j = j + 1;
            }
            proof {
                assert(!has_faction_id(prefix, factions@[i as int].id)) by {
                    assert forall|k: int| 0 <= k < prefix.len() implies (#[trigger] prefix[k]).id
                        != factions@[i as int].id by {
                        assert(prefix[k] == factions@[k]);
                    }
                }
            }
            let mut j: usize = 0;
            while j < i
                invariant
                    j <= i < factions@.len(),
                    *self == *old(self),
                    old(self).wf(),
                    factions_well_formed(factions@),
                    prefix == factions@.subrange(0, i as int),
                    faction_ids_distinct(prefix),
                    faction_names_distinct(prefix),
                    !has_faction_id(prefix, factions@[i as int].id),
                    forall|k: int| 0 <= k < j ==> (#[trigger] factions@[k]).name@ != factions@[i as int].name@,
                decreases i - j,
            {
                if factions[j].name == factions[i].name {
                    proof {
                        assert(prefix[j as int] == factions@[j as int]);
                        assert(has_faction_name(prefix, factions@[i as int].name@));
                        assert(!faction_names_distinct(factions@)) by {
                            assert(factions@[j as int].name@ == factions@[i as int].name@);
                        }
                    }
                    let mut m = String::from_str("Duplicate faction name: ");
                    m.append(factions[i].name.as_str());
                    proof {
                        assert(faction_ids_distinct(factions@.subrange(0, i as int)));
                    }
                    return Err(GameError::InvalidOperation(m));
                }
                j = j + 1;
            }
            proof {
                assert(!has_faction_name(prefix, factions@[i as int].name@)) by {
                    assert forall|k: int| 0 <= k < prefix.len() implies (#[trigger] prefix[k]).name@
                        != factions@[i as int].name@ by {
                        assert(prefix[k] == factions@[k]);
                    }
                }
                let s = factions@.subrange(0, i + 1);
                assert forall|a: int, b: int| 0 <= a < b < s.len() implies #[trigger] s[a].id
                    != #[trigger] s[b].id by {
                    if b < i {
                        assert(prefix[a] == s[a]);
                        assert(prefix[b] == s[b]);
                    } else {
                        assert(s[a] == factions@[a] && s[b] == factions@[i as int]);
                    }
                }
                assert forall|a: int, b: int| 0 <= a < b < s.len() implies #[trigger] s[a].name@
                    != #[trigger] s[b].name@ by {
                    if b < i {
                        assert(prefix[a] == s[a]);
                        assert(prefix[b] == s[b]);
                    } else {
                        assert(s[a] == factions@[a] && s[b] == factions@[i as int]);
                    }
                }
            }
            i = i + 1;
        }
        assert(factions@.subrange(0, factions@.len() as int) =~= factions@);
        self.factions = factions;
        self.faction_index.clear();
        let mut k: usize = 0;
        let mut next: u8 = 0;
        let ghost mut max_plus_one: int = 0;
        assert(factions@.subrange(0, 0) =~= Seq::<Faction>::empty());
        while k < self.factions.len()
            invariant
                k <= self.factions@.len(),
                self.factions@ == fs,
                faction_ids_distinct(self.factions@),
                forall|i: int| 0 <= i < self.factions@.len() ==> (#[trigger] self.factions@[i]).id < 255,
                next == next_faction_id_after(self.factions@.subrange(0, k as int)),
                forall|i: int| 0 <= i < k ==> (#[trigger] self.factions@[i]).id < next,
                forall|i: int|
                    0 <= i < k ==> self.faction_index@.contains_key((#[trigger] self.factions@[i]).id)
                        && self.faction_index@[self.factions@[i].id] == i,
                forall|key: FactionId|
                    #[trigger] self.faction_index@.contains_key(key) ==> self.faction_index@[key] < k
                        && self.factions@[self.faction_index@[key] as int].id == key,
            decreases self.factions@.len() - k,
        {
            let id = self.factions[k].id;
            self.faction_index.insert(id, k);
            proof {
                let s = self.factions@.subrange(0, k + 1);
                assert(s.drop_last() =~= self.factions@.subrange(0, k as int));
                assert(s.last() == self.factions@[k as int]);
            }
            if id + 1 > next {
                next = id + 1;
            }
            proof {
                assert forall|key: FactionId| #[trigger] self.faction_index@.contains_key(key) implies self.faction_index@[key]
                    < k + 1 && self.factions@[self.faction_index@[key] as int].id == key by {
                }
                assert forall|i: int| 0 <= i < k + 1 implies self.faction_index@.contains_key(
                    (#[trigger] self.factions@[i]).id,
                ) && self.faction_index@[self.factions@[i].id] == i by {
                    if i < k {
                        assert(self.factions@[i].id != id);
                    }
                }
            }
            k = k + 1;
        }
        assert(self.factions@.subrange(0, self.factions@.len() as int) =~= self.factions@);
        self.next_id = next;
        Ok(())
    }

    /// Checks that the faction an event names exists: the updated faction, the winner of a
    /// finished game, the new owner of a conquered planet. Changes nothing.
    pub fn handle_event<V, F>(&mut self, event: &GameEvent<V, F>) -> (r: GameResult<()>)
        requires
            old(self).wf(),
        ensures
            *final(self) == *old(self),
            match *event {
                GameEvent::StateChanged(StateChange::FactionUpdated(id))
                | GameEvent::StateChanged(StateChange::GameOver(id))
                | GameEvent::SimulationEvent(SimulationEvent::PlanetConquered { new_owner: id, .. }) => {
                    &&& r.is_ok() <==> has_faction_id(old(self).factions(), id)
                    &&& r matches Err(e) ==> e matches GameError::InvalidTarget(m) && m@
                        == faction_not_found(id)
                },
                _ => r is Ok,
            },
    {
        match event {
            GameEvent::StateChanged(StateChange::FactionUpdated(faction_id)) => {
                match self.get_faction(*faction_id) {
                    Ok(_) => Ok(()),
                    Err(e) => Err(e),
                }
            },
            GameEvent::StateChanged(StateChange::GameOver(winner_id)) => {
                match self.get_faction(*winner_id) {
                    Ok(_) => Ok(()),
                    Err(e) => Err(e),
                }
            },
            GameEvent::SimulationEvent(SimulationEvent::PlanetConquered { new_owner, .. }) => {
                match self.get_faction(*new_owner) {
                    Ok(_) => Ok(()),
                    Err(e) => Err(e),
                }
            },
            _ => Ok(()),
        }
    }
}

} // verus!
