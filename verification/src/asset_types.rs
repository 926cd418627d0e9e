//! Kinds of assets a game can hold beyond buildings and ships: facilities, equipment,
//! structures, artifacts, technologies, personnel and materials.
use vstd::prelude::*;
use crate::types::{PlanetId, ResourceBundle};

verus! {

/// The identifier of an asset.
#[derive(Debug, Clone, Copy, PartialEq, Eq, Hash, PartialOrd, Ord, Structural)]
pub struct AssetId(pub u64);

impl AssetId {
    /// The identifier with number `id`.
    pub fn from_u64(id: u64) -> (r: AssetId)
        ensures
            r.0 == id,
    {
        AssetId(id)
    }

    /// The number of this identifier.
    pub fn as_u64(&self) -> (r: u64)
        ensures
            r == self.0,
    {
        self.0
    }
}

/// Asset rarity classifications for unique items
#[derive(Debug, Clone, Copy, PartialEq, Eq, Hash, Structural)]
pub enum AssetRarity {
    Common,
    Uncommon, 
    Rare,
    Epic,
    Legendary,
    Artifact,
}

/// Categories of assets that can exist in the game world
#[derive(Debug, Clone, Copy, PartialEq, Eq, Hash, Structural)]
pub enum AssetCategory {
    PlanetaryStructure,
    ShipEquipment,
    ShipModule,
    FactionArtifact,
    SpaceStructure,
    Resource,
    Technology,
    Personnel,
}

/// Planetary facility type.
#[derive(Debug, Clone, Copy, PartialEq, Eq, Hash, Structural)]
pub enum PlanetaryFacilityType {
    AdvancedMine,
    HydroponicFarm,
    FusionReactor,
    NanoFactory,
    QuantumLab,
    MegaSpaceport,
    PlanetaryShield,
    ArtificialHabitat,
    TerraformingStation,
}

/// Planetary defense type.
#[derive(Debug, Clone, Copy, PartialEq, Eq, Hash, Structural)]
pub enum PlanetaryDefenseType {
    IonCannon,
    ParticleBeam,
    MissileArray,
    PlanetaryShield,
    GraviticMine,
}

/// Planetary wonder type.
#[derive(Debug, Clone, Copy, PartialEq, Eq, Hash, Structural)]
pub enum PlanetaryWonderType {
    RingWorld,
    DysonSphere,
    QuantumComputer,
    GalacticLibrary,
    AscensionGate,
}

/// Weapon type.
#[derive(Debug, Clone, Copy, PartialEq, Eq, Hash, Structural)]
pub enum WeaponType {
    KineticCannon,
    LaserBeam,
    PlasmaLauncher,
    MissileSystem,
    DisruptorRay,
    GraviticTorpedo,
}

/// Armor type.
#[derive(Debug, Clone, Copy, PartialEq, Eq, Hash, Structural)]
pub enum ArmorType {
    CompositePlating,
    EnergyShield,
    AdaptiveArmor,
    QuantumBarrier,
    NeutroniumHull,
}

/// Engine type.
#[derive(Debug, Clone, Copy, PartialEq, Eq, Hash, Structural)]
pub enum EngineType {
    ChemicalRocket,
    IonDrive,
    FusionTorch,
    WarpDrive,
    JumpDrive,
    QuantumTunnel,
}

/// Computer type.
#[derive(Debug, Clone, Copy, PartialEq, Eq, Hash, Structural)]
pub enum ComputerType {
    BasicAI,
    TacticalComputer,
    QuantumProcessor,
    SentientAI,
    PrecursorCore,
}

/// Special module type.
#[derive(Debug, Clone, Copy, PartialEq, Eq, Hash, Structural)]
pub enum SpecialModuleType {
    SensorArray,
    CloakingDevice,
    ShieldRecharger,
    CargoExpansion,
    ScienceLab,
    PlanetCracker,
}

/// Space station type.
#[derive(Debug, Clone, Copy, PartialEq, Eq, Hash, Structural)]
pub enum SpaceStationType {
    TradingPost,
    RefuelStation,
    RepairYard,
    ResearchStation,
    MilitaryOutpost,
    DeepSpaceFortress,
}

/// Star base type.
#[derive(Debug, Clone, Copy, PartialEq, Eq, Hash, Structural)]
pub enum StarBaseType {
    CommandCenter,
    Fortress,
    Shipyard,
    SensorGrid,
    ResourceProcessor,
}

/// Megastructure type.
#[derive(Debug, Clone, Copy, PartialEq, Eq, Hash, Structural)]
pub enum MegastructureType {
    RingWorld,
    DysonSphere,
    AldersonDisk,
    MatrioshkaBrain,
    StellarEngine,
}

/// Artifact type.
#[derive(Debug, Clone, Copy, PartialEq, Eq, Hash, Structural)]
pub enum ArtifactType {
    PrecursorRelic,
    AncientTechnology,
    PsionicCrystal,
    TemporalDevice,
    DimensionalKey,
}

/// Technology type.
#[derive(Debug, Clone, Copy, PartialEq, Eq, Hash, Structural)]
pub enum TechnologyType {
    Physics,
    Engineering,
    Biology,
    Computing,
    Psionics,
    Precursor,
}

/// Personnel type.
#[derive(Debug, Clone, Copy, PartialEq, Eq, Hash, Structural)]
pub enum PersonnelType {
    Admiral,
    General,
    Governor,
    Scientist,
    Engineer,
    Diplomat,
    Spy,
}

/// Deposit type.
#[derive(Debug, Clone, Copy, PartialEq, Eq, Hash, Structural)]
pub enum DepositType {
    MineralVein,
    GasGiant,
    AsteroidField,
    ExoticMatter,
    DarkEnergy,
    Neutronium,
}

/// Exotic material type.
#[derive(Debug, Clone, Copy, PartialEq, Eq, Hash, Structural)]
pub enum ExoticMaterialType {
    Neutronium,
    DarkMatter,
    QuarkMatter,
    StrangeMatter,
    TimeDistortion,
    PsionicCrystal,
}

/// Collection type.
#[derive(Debug, Clone, Copy, PartialEq, Eq, Hash, Structural)]
pub enum CollectionType {
    ShipLoadout,
    PlanetaryInfrastructure,
    FactionArtifacts,
    FleetConfiguration,
    TechnologySuite,
    DefenseGrid,
}

/// Defense ability.
#[derive(Debug, Clone, Copy, PartialEq, Eq, Structural)]
pub enum DefenseAbility {
    Regeneration,
    EnergyAbsorption,
    Counterbattery,
    AreaDenial,
    ShieldReflection,
}

/// Weapon property.
#[derive(Debug, Clone, Copy, PartialEq, Eq, Structural)]
pub enum WeaponProperty {
    ArmorPiercing,
    ShieldPenetrating,
    AreaOfEffect,
    EnergyDrain,
    DisruptorField,
}

/// Engine capability.
#[derive(Debug, Clone, Copy, PartialEq, Eq, Structural)]
pub enum EngineCapability {
    FastTravel,
    StealthMode,
    GravityResistance,
    DimensionalPhasing,
    TemporalShift,
}

/// Computer function.
#[derive(Debug, Clone, Copy, PartialEq, Eq, Structural)]
pub enum ComputerFunction {
    AutoTargeting,
    EvasiveManeuvers,
    FleetCoordination,
    TacticalAnalysis,
    PredictiveAlgorithms,
}

/// Module ability.
#[derive(Debug, Clone, Copy, PartialEq, Eq, Structural)]
pub enum ModuleAbility {
    ExtendedRange,
    EnhancedYield,
    SelfRepair,
    EnergyEfficiency,
    MultiFunctionality,
}

/// Station capability.
#[derive(Debug, Clone, Copy, PartialEq, Eq, Structural)]
pub enum StationCapability {
    ShipRepair,
    ResourceProcessing,
    Research,
    Manufacturing,
    DefenseCoordination,
}

/// Base system.
#[derive(Debug, Clone, Copy, PartialEq, Eq, Structural)]
pub enum BaseSystem {
    CommandAndControl,
    SensorNetwork,
    WeaponBattery,
    ShieldGenerator,
    HangarBay,
}

/// Artifact power.
#[derive(Debug, Clone, Copy, PartialEq, Eq, Structural)]
pub enum ArtifactPower {
    ResourceGeneration(ResourceBundle),
    TechnologyAcceleration,
    FleetEnhancement,
    PlanetaryTransformation,
    DimensionalGateway,
}

/// Artifact restriction.
#[derive(Debug, Clone, Copy, PartialEq, Eq, Structural)]
pub enum ArtifactRestriction {
    SingleUse,
    FactionExclusive,
    LocationBound,
    TechnologyRequired(TechnologyType),
    ResourceCost(ResourceBundle),
}

/// Unlockable asset.
#[derive(Debug, Clone, PartialEq)]
pub enum UnlockableAsset {
    Building(PlanetaryFacilityType),
    ShipComponent(WeaponType),
    SpaceStructure(SpaceStationType),
    SpecialAbility(String),
}

/// Personnel skill.
#[derive(Debug, Clone, Copy, PartialEq, Eq, Structural)]
pub enum PersonnelSkill {
    Leadership(u8),
    Tactics(u8),
    Engineering(u8),
    Diplomacy(u8),
    Espionage(u8),
    Research(u8),
}

/// Personnel trait.
#[derive(Debug, Clone, Copy, PartialEq, Eq, Structural)]
pub enum PersonnelTrait {
    Brilliant,
    Cautious,
    Aggressive,
    Diplomatic,
    Innovative,
    Veteran,
}

/// Extraction requirement.
#[derive(Debug, Clone, Copy, PartialEq, Eq, Structural)]
pub enum ExtractionRequirement {
    Technology(TechnologyType),
    Facility(PlanetaryFacilityType),
    Personnel(PersonnelType),
    Resources(ResourceBundle),
}

/// Material property.
#[derive(Debug, Clone, Copy, PartialEq, Eq, Structural)]
pub enum MaterialProperty {
    SelfReplicating,
    EnergyConductive,
    Indestructible,
    Phaseshift,
    QuantumEntangled,
}

/// Material application.
#[derive(Debug, Clone, Copy, PartialEq, Eq, Structural)]
pub enum MaterialApplication {
    ShipConstruction,
    PlanetaryEngineering,
    WeaponManufacturing,
    DefenseSystem,
    Megastructure,
}

/// Special ship modules
#[derive(Debug, Clone, PartialEq)]
pub struct ShipSpecialModule {
    pub asset_id: AssetId,
    pub module_type: SpecialModuleType,
    pub tier: u8,
    pub rarity: AssetRarity,
    pub name: String,
    pub description: Option<String>,
    pub power_requirement: i32,
    pub special_abilities: Vec<ModuleAbility>,
}

/// Faction artifacts and relics
#[derive(Debug, Clone, PartialEq)]
pub struct RelicArtifact {
    pub asset_id: AssetId,
    pub artifact_type: ArtifactType,
    pub rarity: AssetRarity,
    pub name: String,
    pub description: String,
    pub discovery_location: Option<PlanetId>,
    pub activation_cost: ResourceBundle,
    pub powers: Vec<ArtifactPower>,
    pub restrictions: Vec<ArtifactRestriction>,
}

/// Technology blueprints
#[derive(Debug, Clone, PartialEq)]
pub struct TechnologyBlueprint {
    pub asset_id: AssetId,
    pub tech_type: TechnologyType,
    pub tier: u8,
    pub rarity: AssetRarity,
    pub name: String,
    pub description: String,
    pub research_cost: ResourceBundle,
    pub prerequisites: Vec<TechnologyType>,
    pub unlocks: Vec<UnlockableAsset>,
}

/// Exotic materials
#[derive(Debug, Clone, PartialEq)]
pub struct ExoticMaterial {
    pub asset_id: AssetId,
    pub material_type: ExoticMaterialType,
    pub quantity: i32,
    pub rarity: AssetRarity,
    pub name: String,
    pub description: String,
    pub properties: Vec<MaterialProperty>,
    pub applications: Vec<MaterialApplication>,
}

} // verus!
