//! The registry of assets: which assets exist, what kind and rarity they are, where they
//! have been assigned, and the collections that group them.
use vstd::prelude::*;
use crate::asset_types::{AssetCategory, AssetId, AssetRarity, CollectionType};
use crate::text::{append_decimal, decimal};
use crate::types::{FactionId, GameError, GameResult, PlanetId, ShipId};

verus! {

/// Identifiers in strictly increasing order, so each occurs once.
pub open spec fn strictly_sorted(s: Seq<AssetId>) -> bool {
    forall|i: int, j: int| 0 <= i < j < s.len() ==> #[trigger] s[i].0 < #[trigger] s[j].0
}

/// Two increasing lists with the same identifiers are the same list: a lookup whose result
/// lists exactly some identifiers in increasing order has only one possible answer.
pub proof fn lemma_sorted_lists_agree(s1: Seq<AssetId>, s2: Seq<AssetId>)
    requires
        strictly_sorted(s1),
        strictly_sorted(s2),
        forall|id: AssetId| s1.contains(id) <==> s2.contains(id),
    ensures
        s1 == s2,
    decreases s1.len(),
{
    if s1.len() == 0 {
        if s2.len() > 0 {
            assert(s2.contains(s2[0]));
        }
        assert(s1 =~= s2);
    } else {
        assert(s1.contains(s1[0]));
        let k = choose|k: int| 0 <= k < s2.len() && s2[k] == s1[0];
        assert(s2.contains(s2[0]));
        let m = choose|m: int| 0 <= m < s1.len() && s1[m] == s2[0];
        if m > 0 {
            assert(s1[0].0 < s1[m].0);
        }
        if k > 0 {
            assert(s2[0].0 < s2[k].0);
        }
        assert(s1[0] == s2[0]);
        let t1 = s1.drop_first();
        let t2 = s2.drop_first();
        assert forall|id: AssetId| t1.contains(id) <==> t2.contains(id) by {
            if t1.contains(id) {
                let a = choose|a: int| 0 <= a < t1.len() && t1[a] == id;
                assert(s1[a + 1] == id);
                assert(s1[0].0 < s1[a + 1].0);
                assert(s2.contains(id));
                let b = choose|b: int| 0 <= b < s2.len() && s2[b] == id;
                assert(b != 0);
                assert(t2[b - 1] == id);
            }
            if t2.contains(id) {
                let a = choose|a: int| 0 <= a < t2.len() && t2[a] == id;
                assert(s2[a + 1] == id);
                assert(s2[0].0 < s2[a + 1].0);
                assert(s1.contains(id));
                let b = choose|b: int| 0 <= b < s1.len() && s1[b] == id;
                assert(b != 0);
                assert(t1[b - 1] == id);
            }
        }
        assert forall|i: int, j: int| 0 <= i < j < t1.len() implies #[trigger] t1[i].0 < #[trigger] t1[j].0 by {
            assert(s1[i + 1].0 < s1[j + 1].0);
        }
        assert forall|i: int, j: int| 0 <= i < j < t2.len() implies #[trigger] t2[i].0 < #[trigger] t2[j].0 by {
            assert(s2[i + 1].0 < s2[j + 1].0);
        }
        lemma_sorted_lists_agree(t1, t2);
        assert(s1 =~= s2) by {
            assert(s1.len() == t1.len() + 1);
            assert(s2.len() == t2.len() + 1);
            assert forall|i: int| 0 <= i < s1.len() implies s1[i] == s2[i] by {
                if i > 0 {
                    assert(s1[i] == t1[i - 1]);
                    assert(s2[i] == t2[i - 1]);
                }
            }
        }
    }
}

/// Adds `x` to the increasing list `v`, where it is not already.
pub fn insert_sorted(v: &mut Vec<AssetId>, x: AssetId)
    requires
        strictly_sorted(old(v)@),
    ensures
        strictly_sorted(final(v)@),
        forall|id: AssetId| #[trigger] final(v)@.contains(id) <==> (old(v)@.contains(id) || id == x),
{
    let mut i: usize = 0;
    while i < v.len() && v[i].0 < x.0
        invariant
            i <= v.len(),
            v@ == old(v)@,
            strictly_sorted(v@),
            forall|k: int| 0 <= k < i ==> #[trigger] v@[k].0 < x.0,
        decreases v.len() - i,
    {
        i = i + 1;
    }
    if i < v.len() && v[i].0 == x.0 {
        assert(v@[i as int] == x);
        assert forall|id: AssetId| #[trigger] v@.contains(id) <==> (old(v)@.contains(id) || id == x) by {
            if id == x {
                assert(v@[i as int] == id);
            }
        }
        return;
    }
    let ghost before = v@;
    v.insert(i, x);
    assert(v@ == before.insert(i as int, x));
    assert forall|a: int, b: int| 0 <= a < b < v@.len() implies #[trigger] v@[a].0 < #[trigger] v@[
        b
    ].0 by {
        if b < i {
        } else if b == i {
            assert(v@[a] == before[a]);
        } else if a < i {
            assert(v@[b] == before[b - 1]);
            assert(before[i as int].0 > x.0);
            if b - 1 > i {
                assert(before[i as int].0 < before[b - 1].0);
            }
        } else if a == i {
            assert(v@[b] == before[b - 1]);
            assert(before[i as int].0 > x.0);
            if b - 1 > i {
                assert(before[i as int].0 < before[b - 1].0);
            }
        } else {
            assert(v@[a] == before[a - 1]);
            assert(v@[b] == before[b - 1]);
        }
    }
    assert forall|id: AssetId| #[trigger] v@.contains(id) <==> (before.contains(id) || id == x) by {
        if v@.contains(id) {
            let k = choose|k: int| 0 <= k < v@.len() && v@[k] == id;
            if k < i {
                assert(before[k] == id);
            } else if k > i {
                assert(before[k - 1] == id);
            }
        }
        if before.contains(id) {
            let k = choose|k: int| 0 <= k < before.len() && before[k] == id;
            if k < i {
                assert(v@[k] == id);
            } else {
                assert(v@[k + 1] == id);
            }
        }
        if id == x {
            assert(v@[i as int] == id);
        }
    }
}

/// Where an asset can be assigned. A point in space is kept as the bit patterns of its
/// two coordinates, so that two points are the same place when their bits agree.
#[derive(Debug, Clone, Copy, PartialEq, Eq, Hash, Structural)]
pub enum AssignmentLocation {
    Planet(PlanetId),
    Ship(ShipId),
    Faction(FactionId),
    Space(u32, u32),
}

/// The kinds of asset a game describes, one for each form of asset description.
#[derive(Debug, Clone, Copy, PartialEq, Eq, Hash, Structural)]
pub enum AssetKind {
    PlanetaryFacility,
    PlanetaryDefense,
    PlanetaryWonder,
    ShipWeapon,
    ShipArmor,
    ShipEngine,
    ShipComputer,
    ShipSpecialModule,
    SpaceStation,
    StarBase,
    Megastructure,
    RelicArtifact,
    TechnologyBlueprint,
    UniquePersonnel,
    ResourceDeposit,
    ExoticMaterial,
}

impl AssetKind {
    /// The kinds the registry knows how to file: planetary facilities and ship weapons.
    pub open spec fn is_handled(self) -> bool {
        self is PlanetaryFacility || self is ShipWeapon
    }

    /// The category an asset of this kind is filed under.
    pub open spec fn category_spec(self) -> AssetCategory {
        match self {
            AssetKind::PlanetaryFacility => AssetCategory::PlanetaryStructure,
            AssetKind::ShipWeapon => AssetCategory::ShipEquipment,
            _ => AssetCategory::Resource,
        }
    }

    /// Whether the registry knows how to file this kind.
    pub fn is_handled_kind(&self) -> (r: bool)
        ensures
            r == self.is_handled(),
    {
        match self {
            AssetKind::PlanetaryFacility => true,
            AssetKind::ShipWeapon => true,
            _ => false,
        }
    }

    /// The category an asset of this kind is filed under.
    pub fn category(&self) -> (r: AssetCategory)
        ensures
            r == self.category_spec(),
    {
        match self {
            AssetKind::PlanetaryFacility => AssetCategory::PlanetaryStructure,
            AssetKind::ShipWeapon => AssetCategory::ShipEquipment,
            _ => AssetCategory::Resource,
        }
    }
}

/// An asset as the registry receives it: its kind, the identifier and rarity it carries,
/// and the asset itself.
pub struct AssetEntry<A> {
    pub kind: AssetKind,
    pub asset_id: AssetId,
    pub rarity: AssetRarity,
    pub asset: A,
}

/// A named group of assets.
pub struct AssetCollection {
    pub collection_id: AssetId,
    pub name: String,
    pub description: Option<String>,
    pub assets: Vec<AssetId>,
    pub collection_type: CollectionType,
    pub owner: Option<FactionId>,
    pub location: Option<AssignmentLocation>,
}

/// `after` is `before` with `x` among its assets, and otherwise the same.
pub open spec fn collection_with_asset(
    before: AssetCollection,
    after: AssetCollection,
    x: AssetId,
) -> bool {
    &&& after.collection_id == before.collection_id
    &&& after.name == before.name
    &&& after.description == before.description
    &&& after.collection_type == before.collection_type
    &&& after.owner == before.owner
    &&& after.location == before.location
    &&& strictly_sorted(after.assets@)
    &&& forall|id: AssetId| #[trigger]
        after.assets@.contains(id) <==> (before.assets@.contains(id) || id == x)
}

/// The message of a registration whose identifier is taken.
pub open spec fn asset_exists_message(id: AssetId) -> Seq<char> {
    "Asset ID "@ + decimal(id.0 as nat) + " already exists"@
}

/// The message of a lookup of an unknown asset.
pub open spec fn asset_not_found_message(id: AssetId) -> Seq<char> {
    "Asset "@ + decimal(id.0 as nat) + " not found"@
}

/// The message of a lookup of an unknown collection.
pub open spec fn collection_not_found_message(id: AssetId) -> Seq<char> {
    "Collection "@ + decimal(id.0 as nat) + " not found"@
}

/// `prefix`, the decimal notation of `id`, then `suffix`.
fn id_message(prefix: &str, id: AssetId, suffix: &str) -> (r: String)
    ensures
        r@ == prefix@ + decimal(id.0 as nat) + suffix@,
{
    let mut s = String::from_str(prefix);
    append_decimal(&mut s, id.0);
    s.append(suffix);
    s
}

/// Every asset registered, every assignment made and every collection created, with the
/// counter that hands out fresh identifiers.
pub struct AssetRegistry<A> {
    assets: Vec<AssetEntry<A>>,
    assignments: Vec<(AssignmentLocation, AssetId)>,
    collections: Vec<AssetCollection>,
    next_asset_id: u64,
}

impl<A> AssetRegistry<A> {
    /// The registered assets, in the order they came.
    pub closed spec fn entries(&self) -> Seq<AssetEntry<A>> {
        self.assets@
    }

    /// The assignments made, in order: a place and the asset put there.
    pub closed spec fn assignments(&self) -> Seq<(AssignmentLocation, AssetId)> {
        self.assignments@
    }

    /// The collections, in the order they were created.
    pub closed spec fn collections(&self) -> Seq<AssetCollection> {
        self.collections@
    }

    /// The identifier the next generated one will have.
    pub closed spec fn next_id(&self) -> u64 {
        self.next_asset_id
    }

    /// An asset with identifier `id` is registered.
    pub open spec fn has_asset(&self, id: AssetId) -> bool {
        exists|i: int| 0 <= i < self.entries().len() && (#[trigger] self.entries()[i]).asset_id == id
    }

    /// A collection with identifier `id` exists.
    pub open spec fn has_collection(&self, id: AssetId) -> bool {
        exists|i: int|
            0 <= i < self.collections().len() && (#[trigger] self.collections()[i]).collection_id == id
    }

    /// Some registered asset with identifier `id` is filed under `category`.
    pub open spec fn in_category(&self, id: AssetId, category: AssetCategory) -> bool {
        exists|i: int|
            0 <= i < self.entries().len() && (#[trigger] self.entries()[i]).asset_id == id
                && self.entries()[i].kind.category_spec() == category
    }

    /// Some registered asset with identifier `id` has rarity `rarity`.
    pub open spec fn has_rarity(&self, id: AssetId, rarity: AssetRarity) -> bool {
        exists|i: int|
            0 <= i < self.entries().len() && (#[trigger] self.entries()[i]).asset_id == id
                && self.entries()[i].rarity == rarity
    }

    /// Asset `id` has been assigned to `location`.
    pub open spec fn assigned_to(&self, id: AssetId, location: AssignmentLocation) -> bool {
        exists|i: int|
            0 <= i < self.assignments().len() && #[trigger] self.assignments()[i] == (location, id)
    }

    /// Registered identifiers are distinct and their kinds handled; collections have
    /// distinct identifiers below the counter and list their assets in order.
    pub closed spec fn wf(&self) -> bool {
        &&& forall|i: int, j: int|
            0 <= i < j < self.assets@.len() ==> #[trigger] self.assets@[i].asset_id
                != #[trigger] self.assets@[j].asset_id
        &&& forall|i: int| 0 <= i < self.assets@.len() ==> (#[trigger] self.assets@[i]).kind.is_handled()
        &&& forall|i: int|
            0 <= i < self.collections@.len() ==> (#[trigger] self.collections@[i]).collection_id.0
                < self.next_asset_id
        &&& forall|i: int, j: int|
            0 <= i < j < self.collections@.len() ==> #[trigger] self.collections@[i].collection_id
                != #[trigger] self.collections@[j].collection_id
        &&& forall|i: int|
            0 <= i < self.collections@.len() ==> strictly_sorted(
                (#[trigger] self.collections@[i]).assets@,
            )
    }

    /// An empty registry whose first generated identifier is 1.
    pub fn new() -> (r: Self)
        ensures
            r.wf(),
            r.entries().len() == 0,
            r.assignments().len() == 0,
            r.collections().len() == 0,
            r.next_id() == 1,
    {
        AssetRegistry { assets: Vec::new(), assignments: Vec::new(), collections: Vec::new(), next_asset_id: 1 }
    }

    /// Hands out the counter's identifier and advances the counter.
    pub fn generate_asset_id(&mut self) -> (r: AssetId)
        requires
            old(self).wf(),
            old(self).next_id() < u64::MAX,
        ensures
            final(self).wf(),
            r.0 == old(self).next_id(),
            final(self).next_id() == old(self).next_id() + 1,
            final(self).entries() == old(self).entries(),
            final(self).assignments() == old(self).assignments(),
            final(self).collections() == old(self).collections(),
    {
        let id = AssetId::from_u64(self.next_asset_id);
        self.next_asset_id = self.next_asset_id + 1;
        id
    }

    /// Registers `asset` under the identifier it carries. An asset of a kind the registry
    /// does not file is refused with `SystemError`; one whose identifier is taken, with
    /// `InvalidOperation`. Nothing changes on a refusal.
    pub fn register_asset(&mut self, asset: AssetEntry<A>) -> (r: GameResult<AssetId>)
        requires
            old(self).wf(),
        ensures
            final(self).wf(),
            final(self).next_id() == old(self).next_id(),
            final(self).assignments() == old(self).assignments(),
            final(self).collections() == old(self).collections(),
            !asset.kind.is_handled() ==> (r matches Err(GameError::SystemError(m)) && m@
                == "Unhandled asset type in registration"@),
            asset.kind.is_handled() && old(self).has_asset(asset.asset_id) ==> (r matches Err(
                GameError::InvalidOperation(m),
            ) && m@ == asset_exists_message(asset.asset_id)),
            r.is_err() ==> final(self).entries() == old(self).entries(),
            r.is_ok() <==> (asset.kind.is_handled() && !old(self).has_asset(asset.asset_id)),
            r.is_ok() ==> r == Ok::<AssetId, GameError>(asset.asset_id) && final(self).entries()
                == old(self).entries().push(asset),
    {
        if !asset.kind.is_handled_kind() {
            return Err(GameError::SystemError("Unhandled asset type in registration".to_string()));
        }
        let id = asset.asset_id;
        if self.is_registered(id) {
            return Err(GameError::InvalidOperation(id_message("Asset ID ", id, " already exists")));
        }
        self.assets.push(asset);
        Ok(id)
    }
}

/// A condition on registered assets that a lookup selects by.
enum EntryFilter {
    Category(AssetCategory),
    Rarity(AssetRarity),
}

/// Whether entry `e` meets filter `f`.
spec fn passes<A>(e: AssetEntry<A>, f: EntryFilter) -> bool {
    match f {
        EntryFilter::Category(c) => e.kind.category_spec() == c,
        EntryFilter::Rarity(r) => e.rarity == r,
    }
}

/// Some entry among the first `n` of `es` has identifier `id` and meets `f`.
spec fn some_entry_before<A>(es: Seq<AssetEntry<A>>, n: int, f: EntryFilter, id: AssetId) -> bool {
    exists|k: int| 0 <= k < n && (#[trigger] es[k]).asset_id == id && passes(es[k], f)
}

/// Some assignment among the first `n` of `xs` puts `id` at `location`.
spec fn some_assignment_before(
    xs: Seq<(AssignmentLocation, AssetId)>,
    n: int,
    location: AssignmentLocation,
    id: AssetId,
) -> bool {
    exists|k: int| 0 <= k < n && #[trigger] xs[k] == (location, id)
}

impl<A> AssetRegistry<A> {
    /// The identifiers of the registered assets that meet `f`, in increasing order.
    fn ids_where(&self, f: EntryFilter) -> (r: Vec<AssetId>)
        ensures
            strictly_sorted(r@),
            forall|id: AssetId| #[trigger]
                r@.contains(id) <==> some_entry_before(self.entries(), self.entries().len() as int, f, id),
    {
        let mut r: Vec<AssetId> = Vec::new();
        let mut i: usize = 0;
        while i < self.assets.len()
            invariant
                i <= self.assets@.len(),
                strictly_sorted(r@),
                forall|id: AssetId| #[trigger]
                    r@.contains(id) <==> some_entry_before(self.assets@, i as int, f, id),
            decreases self.assets@.len() - i,
        {
            let ghost before = r@;
            let keep = match f {
                EntryFilter::Category(c) => self.assets[i].kind.category() == c,
                EntryFilter::Rarity(q) => self.assets[i].rarity == q,
            };
            if keep {
                insert_sorted(&mut r, self.assets[i].asset_id);
            }
            proof {
                let es = self.assets@;
                assert forall|id: AssetId| #[trigger] r@.contains(id) <==> some_entry_before(
                    es,
                    i + 1,
                    f,
                    id,
                ) by {
                    if some_entry_before(es, i + 1, f, id) {
                        let k = choose|k: int|
                            0 <= k < i + 1 && (#[trigger] es[k]).asset_id == id && passes(es[k], f);
                        if k < i {
                            assert(some_entry_before(es, i as int, f, id));
                            assert(before.contains(id));
                        }
                    }
                    if before.contains(id) {
                        assert(some_entry_before(es, i as int, f, id));
                        let k = choose|k: int|
                            0 <= k < i && (#[trigger] es[k]).asset_id == id && passes(es[k], f);
                        assert(0 <= k < i + 1 && es[k].asset_id == id && passes(es[k], f));
                    }
                    if keep && id == es[i as int].asset_id {
                        assert(0 <= i < i + 1 && es[i as int].asset_id == id && passes(es[i as int], f));
                    }
                }
            }
            i = i + 1;
        }
        r
    }

    /// The assets filed under `category`, by increasing identifier.
    pub fn get_assets_by_category(&self, category: &AssetCategory) -> (r: Vec<AssetId>)
        ensures
            strictly_sorted(r@),
            forall|id: AssetId| #[trigger] r@.contains(id) <==> self.in_category(id, *category),
    {
        let r = self.ids_where(EntryFilter::Category(*category));
        proof {
            assert forall|id: AssetId| #[trigger] r@.contains(id) <==> self.in_category(id, *category) by {
                if r@.contains(id) {
                    let k = choose|k: int|
                        0 <= k < self.entries().len() && (#[trigger] self.entries()[k]).asset_id == id
                            && passes(self.entries()[k], EntryFilter::Category(*category));
                    assert(self.entries()[k].asset_id == id);
                }
                if self.in_category(id, *category) {
                    let k = choose|k: int|
                        0 <= k < self.entries().len() && (#[trigger] self.entries()[k]).asset_id == id
                            && self.entries()[k].kind.category_spec() == *category;
                    assert(passes(self.entries()[k], EntryFilter::Category(*category)));
                }
            }
        }
        r
    }

    /// The assets of rarity `rarity`, by increasing identifier.
    pub fn get_assets_by_rarity(&self, rarity: &AssetRarity) -> (r: Vec<AssetId>)
        ensures
            strictly_sorted(r@),
            forall|id: AssetId| #[trigger] r@.contains(id) <==> self.has_rarity(id, *rarity),
    {
        let r = self.ids_where(EntryFilter::Rarity(*rarity));
        proof {
            assert forall|id: AssetId| #[trigger] r@.contains(id) <==> self.has_rarity(id, *rarity) by {
                if r@.contains(id) {
                    let k = choose|k: int|
                        0 <= k < self.entries().len() && (#[trigger] self.entries()[k]).asset_id == id
                            && passes(self.entries()[k], EntryFilter::Rarity(*rarity));
                    assert(self.entries()[k].asset_id == id);
                }
                if self.has_rarity(id, *rarity) {
                    let k = choose|k: int|
                        0 <= k < self.entries().len() && (#[trigger] self.entries()[k]).asset_id == id
                            && self.entries()[k].rarity == *rarity;
                    assert(passes(self.entries()[k], EntryFilter::Rarity(*rarity)));
                }
            }
        }
        r
    }

    /// The assets assigned to `location`, by increasing identifier.
    pub fn get_assets_at_location(&self, location: &AssignmentLocation) -> (r: Vec<AssetId>)
        ensures
            strictly_sorted(r@),
            forall|id: AssetId| #[trigger] r@.contains(id) <==> self.assigned_to(id, *location),
    {
        let mut r: Vec<AssetId> = Vec::new();
        let mut i: usize = 0;
        while i < self.assignments.len()
            invariant
                i <= self.assignments@.len(),
                strictly_sorted(r@),
                forall|id: AssetId| #[trigger]
                    r@.contains(id) <==> some_assignment_before(self.assignments@, i as int, *location, id),
            decreases self.assignments@.len() - i,
        {
            let ghost before = r@;
            let (place, id) = self.assignments[i];
            if place == *location {
                insert_sorted(&mut r, id);
            }
            proof {
                let xs = self.assignments@;
                assert forall|x: AssetId| #[trigger] r@.contains(x) <==> some_assignment_before(
                    xs,
                    i + 1,
                    *location,
                    x,
                ) by {
                    if some_assignment_before(xs, i + 1, *location, x) {
                        let k = choose|k: int| 0 <= k < i + 1 && #[trigger] xs[k] == (*location, x);
                        if k < i {
                            assert(some_assignment_before(xs, i as int, *location, x));
                        }
                    }
                    if before.contains(x) {
                        let k = choose|k: int| 0 <= k < i && #[trigger] xs[k] == (*location, x);
                        assert(0 <= k < i + 1 && xs[k] == (*location, x));
                    }
                    if place == *location && x == id {
                        assert(xs[i as int] == (*location, x));
                    }
                }
            }
            i = i + 1;
        }
        proof {
            assert forall|x: AssetId| #[trigger] r@.contains(x) <==> self.assigned_to(x, *location) by {
                if self.assigned_to(x, *location) {
                    let k = choose|k: int|
                        0 <= k < self.assignments().len() && #[trigger] self.assignments()[k] == (
                        *location,
                        x,
                    );
                    assert(some_assignment_before(self.assignments@, i as int, *location, x));
                }
            }
        }
        r
    }
}

impl<A> AssetRegistry<A> {
    /// Whether an asset with identifier `id` is registered.
    fn is_registered(&self, id: AssetId) -> (r: bool)
        ensures
            r == self.has_asset(id),
    {
        let mut i: usize = 0;
        while i < self.assets.len()
            invariant
                i <= self.assets@.len(),
                forall|k: int| 0 <= k < i ==> (#[trigger] self.assets@[k]).asset_id != id,
            decreases self.assets@.len() - i,
        {
            if self.assets[i].asset_id.0 == id.0 {
                assert(self.entries()[i as int].asset_id == id);
                return true;
            }
            i = i + 1;
        }
        false
    }

    /// Where the collection with identifier `id` stands, if there is one.
    fn collection_position(&self, id: AssetId) -> (r: Option<usize>)
        ensures
            r matches Some(i) ==> i < self.collections().len() && self.collections()[i as int].collection_id
                == id,
            r is None <==> !self.has_collection(id),
    {
        let mut i: usize = 0;
        while i < self.collections.len()
            invariant
                i <= self.collections@.len(),
                forall|k: int| 0 <= k < i ==> (#[trigger] self.collections@[k]).collection_id != id,
            decreases self.collections@.len() - i,
        {
            if self.collections[i].collection_id.0 == id.0 {
                assert(self.collections()[i as int].collection_id == id);
                return Some(i);
            }
            i = i + 1;
        }
        None
    }

    /// Puts the registered asset `asset_id` at `location` (an asset may be at several
    /// places). An unknown asset is refused with `InvalidTarget`, and nothing changes.
    pub fn assign_asset(&mut self, asset_id: AssetId, location: AssignmentLocation) -> (r: GameResult<()>)
        requires
            old(self).wf(),
        ensures
            final(self).wf(),
            final(self).next_id() == old(self).next_id(),
            final(self).entries() == old(self).entries(),
            final(self).collections() == old(self).collections(),
            r.is_ok() <==> old(self).has_asset(asset_id),
            r.is_ok() ==> final(self).assignments() == old(self).assignments().push((location, asset_id)),
            r.is_err() ==> final(self).assignments() == old(self).assignments() && (r matches Err(
                GameError::InvalidTarget(m),
            ) && m@ == asset_not_found_message(asset_id)),
    {
        if !self.is_registered(asset_id) {
            return Err(GameError::InvalidTarget(id_message("Asset ", asset_id, " not found")));
        }
        self.assignments.push((location, asset_id));
        Ok(())
    }

    /// Creates an empty collection named `name` under a freshly generated identifier,
    /// which it returns.
    pub fn create_collection(&mut self, name: String, collection_type: CollectionType) -> (r: AssetId)
        requires
            old(self).wf(),
            old(self).next_id() < u64::MAX,
        ensures
            final(self).wf(),
            r.0 == old(self).next_id(),
            final(self).next_id() == old(self).next_id() + 1,
            final(self).entries() == old(self).entries(),
            final(self).assignments() == old(self).assignments(),
            final(self).collections().len() == old(self).collections().len() + 1,
            final(self).collections().drop_last() == old(self).collections(),
            final(self).collections().last().collection_id == r,
            final(self).collections().last().name == name,
            final(self).collections().last().description is None,
            final(self).collections().last().assets@.len() == 0,
            final(self).collections().last().collection_type == collection_type,
            final(self).collections().last().owner is None,
            final(self).collections().last().location is None,
    {
        let collection_id = self.generate_asset_id();
        let collection = AssetCollection {
            collection_id,
            name,
            description: None,
            assets: Vec::new(),
            collection_type,
            owner: None,
            location: None,
        };
        let ghost before = self.collections@;
        self.collections.push(collection);
        assert(self.collections@.drop_last() =~= before);
        collection_id
    }

    /// Adds asset `asset_id` to the collection `collection_id` (whether or not the asset
    /// is registered). An unknown collection is refused with `InvalidTarget`, and nothing
    /// changes.
    pub fn add_to_collection(&mut self, collection_id: AssetId, asset_id: AssetId) -> (r: GameResult<()>)
        requires
            old(self).wf(),
        ensures
            final(self).wf(),
            final(self).next_id() == old(self).next_id(),
            final(self).entries() == old(self).entries(),
            final(self).assignments() == old(self).assignments(),
            r.is_ok() <==> old(self).has_collection(collection_id),
            r.is_err() ==> final(self).collections() == old(self).collections() && (r matches Err(
                GameError::InvalidTarget(m),
            ) && m@ == collection_not_found_message(collection_id)),
            final(self).collections().len() == old(self).collections().len(),
            forall|j: int|
                0 <= j < old(self).collections().len() ==> if (#[trigger] old(self).collections()[j]).collection_id
                    == collection_id {
                    collection_with_asset(old(self).collections()[j], final(self).collections()[j], asset_id)
                } else {
                    final(self).collections()[j] == old(self).collections()[j]
                },
    {
        match self.collection_position(collection_id) {
            None => Err(
                GameError::InvalidTarget(id_message("Collection ", collection_id, " not found")),
            ),
            Some(i) => {
                let ghost before = self.collections@;
                let mut c = self.collections.remove(i);
                let ghost old_c = c;
                insert_sorted(&mut c.assets, asset_id);
                self.collections.insert(i, c);
                assert(self.collections@ =~= before.update(i as int, c));
                assert forall|j: int| 0 <= j < before.len() implies if (#[trigger] before[j]).collection_id
                    == collection_id {
                    collection_with_asset(before[j], self.collections@[j], asset_id)
                } else {
                    self.collections@[j] == before[j]
                } by {
                    if j != i {
                        assert(before[j].collection_id != before[i as int].collection_id);
                    }
                }
                Ok(())
            },
        }
    }

    /// The collection with identifier `collection_id`, if there is one.
    pub fn get_collection(&self, collection_id: AssetId) -> (r: Option<&AssetCollection>)
        ensures
            r is Some <==> self.has_collection(collection_id),
            r matches Some(c) ==> c.collection_id == collection_id && exists|i: int|
                0 <= i < self.collections().len() && #[trigger] self.collections()[i] == *c,
    {
        match self.collection_position(collection_id) {
            None => None,
            Some(i) => {
                let c = &self.collections[i];
                assert(self.collections()[i as int] == *c);
                Some(c)
            },
        }
    }
}

} // verus!
