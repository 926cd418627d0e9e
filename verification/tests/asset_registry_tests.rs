use stellar_dominion::asset_registry::{AssetEntry, AssetKind, AssetRegistry, AssignmentLocation};
use stellar_dominion::asset_types::{AssetCategory, AssetId, AssetRarity, CollectionType};
use stellar_dominion::types::GameError;

fn entry(kind: AssetKind, id: u64, rarity: AssetRarity) -> AssetEntry<&'static str> {
    AssetEntry { kind, asset_id: AssetId(id), rarity, asset: "asset" }
}

fn ids(v: &[u64]) -> Vec<AssetId> {
    v.iter().map(|&x| AssetId(x)).collect()
}

#[test]
fn generated_ids_count_up_from_one() {
    let mut reg: AssetRegistry<&str> = AssetRegistry::new();
    assert_eq!(reg.generate_asset_id(), AssetId(1));
    assert_eq!(reg.generate_asset_id(), AssetId(2));
    assert_eq!(reg.generate_asset_id(), AssetId(3));
}

#[test]
fn facilities_and_weapons_are_filed_by_category() {
    let mut reg: AssetRegistry<&str> = AssetRegistry::new();
    assert_eq!(reg.register_asset(entry(AssetKind::PlanetaryFacility, 9, AssetRarity::Rare)).unwrap(), AssetId(9));
    assert_eq!(reg.register_asset(entry(AssetKind::ShipWeapon, 4, AssetRarity::Common)).unwrap(), AssetId(4));
    assert_eq!(reg.register_asset(entry(AssetKind::PlanetaryFacility, 3, AssetRarity::Epic)).unwrap(), AssetId(3));
    assert_eq!(reg.register_asset(entry(AssetKind::PlanetaryFacility, 7, AssetRarity::Rare)).unwrap(), AssetId(7));
    assert_eq!(reg.get_assets_by_category(&AssetCategory::PlanetaryStructure), ids(&[3, 7, 9]));
    assert_eq!(reg.get_assets_by_category(&AssetCategory::ShipEquipment), ids(&[4]));
    assert_eq!(reg.get_assets_by_category(&AssetCategory::Resource), ids(&[]));
    assert_eq!(reg.get_assets_by_rarity(&AssetRarity::Rare), ids(&[7, 9]));
    assert_eq!(reg.get_assets_by_rarity(&AssetRarity::Legendary), ids(&[]));
}

#[test]
fn a_taken_id_is_refused() {
    let mut reg: AssetRegistry<&str> = AssetRegistry::new();
    reg.register_asset(entry(AssetKind::ShipWeapon, 42, AssetRarity::Common)).unwrap();
    match reg.register_asset(entry(AssetKind::PlanetaryFacility, 42, AssetRarity::Epic)) {
        Err(GameError::InvalidOperation(m)) => assert_eq!(m, "Asset ID 42 already exists"),
        other => panic!("unexpected {:?}", other),
    }
    assert_eq!(reg.get_assets_by_rarity(&AssetRarity::Epic), ids(&[]));
}

#[test]
fn other_kinds_are_not_filed() {
    let mut reg: AssetRegistry<&str> = AssetRegistry::new();
    match reg.register_asset(entry(AssetKind::StarBase, 1, AssetRarity::Common)) {
        Err(GameError::SystemError(m)) => assert_eq!(m, "Unhandled asset type in registration"),
        other => panic!("unexpected {:?}", other),
    }
    assert_eq!(reg.get_assets_by_category(&AssetCategory::Resource), ids(&[]));
    assert_eq!(reg.get_assets_by_rarity(&AssetRarity::Common), ids(&[]));
}

#[test]
fn assigned_assets_are_found_at_their_place() {
    let mut reg: AssetRegistry<&str> = AssetRegistry::new();
    reg.register_asset(entry(AssetKind::ShipWeapon, 8, AssetRarity::Common)).unwrap();
    reg.register_asset(entry(AssetKind::ShipWeapon, 2, AssetRarity::Common)).unwrap();
    reg.assign_asset(AssetId(8), AssignmentLocation::Ship(1)).unwrap();
    reg.assign_asset(AssetId(2), AssignmentLocation::Ship(1)).unwrap();
    reg.assign_asset(AssetId(8), AssignmentLocation::Ship(1)).unwrap();
    reg.assign_asset(AssetId(8), AssignmentLocation::Planet(1)).unwrap();
    assert_eq!(reg.get_assets_at_location(&AssignmentLocation::Ship(1)), ids(&[2, 8]));
    assert_eq!(reg.get_assets_at_location(&AssignmentLocation::Planet(1)), ids(&[8]));
    assert_eq!(reg.get_assets_at_location(&AssignmentLocation::Faction(1)), ids(&[]));
    let here = AssignmentLocation::Space(1.5f32.to_bits(), (-2.0f32).to_bits());
    reg.assign_asset(AssetId(2), here).unwrap();
    assert_eq!(
        reg.get_assets_at_location(&AssignmentLocation::Space(1.5f32.to_bits(), (-2.0f32).to_bits())),
        ids(&[2])
    );
}

#[test]
fn an_unknown_asset_cannot_be_assigned() {
    let mut reg: AssetRegistry<&str> = AssetRegistry::new();
    match reg.assign_asset(AssetId(4), AssignmentLocation::Faction(0)) {
        Err(GameError::InvalidTarget(m)) => assert_eq!(m, "Asset 4 not found"),
        other => panic!("unexpected {:?}", other),
    }
    assert_eq!(reg.get_assets_at_location(&AssignmentLocation::Faction(0)), ids(&[]));
}

#[test]
fn collections_gather_assets_in_order() {
    let mut reg: AssetRegistry<&str> = AssetRegistry::new();
    let first = reg.create_collection("Home fleet".to_string(), CollectionType::FleetConfiguration);
    let second = reg.create_collection("Walls".to_string(), CollectionType::DefenseGrid);
    assert_eq!(first, AssetId(1));
    assert_eq!(second, AssetId(2));
    assert_eq!(reg.generate_asset_id(), AssetId(3));
    reg.add_to_collection(first, AssetId(30)).unwrap();
    reg.add_to_collection(first, AssetId(10)).unwrap();
    reg.add_to_collection(first, AssetId(30)).unwrap();
    reg.add_to_collection(first, AssetId(20)).unwrap();
    let c = reg.get_collection(first).unwrap();
    assert_eq!(c.name, "Home fleet");
    assert_eq!(c.assets, ids(&[10, 20, 30]));
    assert_eq!(c.collection_type, CollectionType::FleetConfiguration);
    assert!(c.description.is_none() && c.owner.is_none() && c.location.is_none());
    let d = reg.get_collection(second).unwrap();
    assert_eq!(d.assets, ids(&[]));
    assert!(reg.get_collection(AssetId(3)).is_none());
}

#[test]
fn an_unknown_collection_is_refused() {
    let mut reg: AssetRegistry<&str> = AssetRegistry::new();
    match reg.add_to_collection(AssetId(99), AssetId(1)) {
        Err(GameError::InvalidTarget(m)) => assert_eq!(m, "Collection 99 not found"),
        other => panic!("unexpected {:?}", other),
    }
}
