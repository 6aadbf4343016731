//! Research: programme boards with schools. Six fields, each Tier I (open)
//! → Tier II (field verb gate) → two schools (own verb gate, Tiers III–V).
//! Every programme is researchable by every syndicate; identity is the order
//! chosen. This module holds the catalog, the tier-gate and cost tables and
//! the pure availability and unlock logic over a syndicate's completed ids.

use vstd::prelude::*;

use crate::ids::EntityId;
use crate::module::ModuleKind;
use crate::ship::ShipKind;
use crate::specialist::SpecialistKind;
use crate::structure::StructureKind;
use crate::text::str_eq;

verus! {

/// The six research fields (boards).
#[derive(Debug, Clone, Copy, PartialEq, Eq, PartialOrd, Ord, Hash, Structural)]
pub enum Field {
    Propulsion,
    Materials,
    Computation,
    Weapons,
    Hulls,
    Life,
}

/// The twelve schools, two per field.
#[derive(Debug, Clone, Copy, PartialEq, Eq, PartialOrd, Ord, Hash, Structural)]
pub enum School {
    LineHaul,
    Expedition,
    DeepCrust,
    Foundry,
    Watch,
    Shadow,
    Strike,
    Countermeasures,
    Line,
    Corsair,
    Growth,
    Talent,
}

/// The field a school belongs to.
pub open spec fn spec_school_field(s: School) -> Field {
    match s {
        School::LineHaul | School::Expedition => Field::Propulsion,
        School::DeepCrust | School::Foundry => Field::Materials,
        School::Watch | School::Shadow => Field::Computation,
        School::Strike | School::Countermeasures => Field::Weapons,
        School::Line | School::Corsair => Field::Hulls,
        School::Growth | School::Talent => Field::Life,
    }
}

impl School {
    /// The field this school belongs to (a school only opens within its field).
    pub fn field(self) -> (f: Field)
        ensures
            f == spec_school_field(self),
    {
        match self {
            School::LineHaul | School::Expedition => Field::Propulsion,
            School::DeepCrust | School::Foundry => Field::Materials,
            School::Watch | School::Shadow => Field::Computation,
            School::Strike | School::Countermeasures => Field::Weapons,
            School::Line | School::Corsair => Field::Hulls,
            School::Growth | School::Talent => Field::Life,
        }
    }
}

/// Cumulative, corporation-wide counters that gates read.
#[derive(Debug, Clone, Copy, PartialEq, Eq, PartialOrd, Ord, Hash, Structural)]
pub enum Verb {
    LyFlown,
    WarshipLyFlown,
    ConvoyDeliveries,
    UnitsExtracted,
    UnitsProcessed,
    UnitsThroughIndustry,
    SystemsScouted,
    RivalFleetsObserved,
    BattlesFought,
    BattlesWon,
    HullMassDestroyed,
    DamageAbsorbed,
    SuccessfulRaids,
    WarshipsCommissioned,
    PopulationGrown,
    SpecialistsTrained,
}

/// Instantaneous state metrics (read at each check, not accumulated).
#[derive(Debug, Clone, Copy, PartialEq, Eq, PartialOrd, Ord, Hash, Structural)]
pub enum Metric {
    TotalPopulation,
    WellSuppliedSystems,
}

/// A tunable effect key. Most aggregate multiplicatively; the two bucket keys
/// aggregate additively.
#[derive(Debug, Clone, Copy, PartialEq, Eq, PartialOrd, Ord, Hash, Structural)]
pub enum ModKey {
    SpeedAll,
    SpeedWarship,
    FuelCapacity,
    FuelConsumption,
    FuelOffensive,
    ConvoyCargo,
    ConvoySpeed,
    ColonySeedPop,
    ColonyCost,
    ColonyBuildTime,
    ExtractionRate,
    ExtractionMoons,
    ProcessingYield,
    MachineryInputs,
    AgroplexYield,
    AgroplexInputs,
    DepotCap,
    StructureBuildTime,
    WarshipBuildTime,
    WarshipCost,
    ModuleBuildTime,
    ModuleCost,
    RefitTime,
    BeamDmg,
    DriverDmg,
    TorpDmg,
    OpeningRoundDmg,
    PdIntercept,
    ReflectBlunt,
    WhippleBlunt,
    DmgVsPlatforms,
    HullMass,
    DamagePoolDepth,
    RearmRate,
    AnchoredDmgTaken,
    RaiderDisengageExposure,
    RaidSteal,
    EscortedConvoyRaidDmg,
    WolfpackPerStack,
    SensorRadius,
    SensorRange,
    /// Additive: rival fleets read this many classes finer to you.
    BucketFineness,
    /// Additive: your fleets read this many classes coarser to rivals.
    BucketCoarseness,
    KnowledgeLadderRate,
    PopGrowth,
    HabitatCap,
    RationingFloor,
    ProvisionsUse,
    GrowthBelowHalf,
    TrainingTime,
    AcademyConcurrent,
    SpecialistHousing,
}

impl ModKey {
    /// The two bucket keys aggregate additively; every other key multiplies.
    pub fn is_additive(self) -> (r: bool)
        ensures
            r == (self == ModKey::BucketFineness || self == ModKey::BucketCoarseness),
    {
        match self {
            ModKey::BucketFineness | ModKey::BucketCoarseness => true,
            _ => false,
        }
    }
}

/// A capability flag: a boolean unlock.
#[derive(Debug, Clone, Copy, PartialEq, Eq, PartialOrd, Ord, Hash, Structural)]
pub enum Cap {
    StandingTriggers,
    AutonomousFreight,
    MassStreams,
    FleetTenders,
    UnderwayRefit,
    Ramscoop,
    TraceRefining,
    SlagReclamation,
    CrownVein,
    CrownProject,
    FlashForges,
    ProspectingCharters,
    MantleTaps,
    Xenoacclimation,
    SurveyCorps,
    StandingWatch,
    PanopticonCatalog,
    EcmEmitters,
    SignatureMimicry,
    CounterIntel,
    TrafficAnalysis,
    WakeAnalysis,
    BattleArchives,
    PlatformLances,
    PlatformNetfire,
    GrandBatteries,
    FirstStrike,
    FortressDoctrine,
    ExpertTraining,
    FoundersInstitutes,
    BroadCurricula,
    TwinCampuses,
    CryoBerths,
    GenerationCharters,
    SalvageRigs,
    BoardingParties,
}

/// A live target a capability designates.
#[derive(Debug, Clone, Copy, PartialEq, Eq, Structural)]
pub enum DesignationTarget {
    Body(EntityId),
    SystemPair(EntityId, EntityId),
    Fleet(EntityId),
}

/// A tier gate: the counter or metric condition to enter a tier. Thresholds
/// are whole numbers in the counter's own unit (population in millions).
#[derive(Debug, Clone, Copy, PartialEq, Eq, Structural)]
pub enum Gate {
    /// No verb gate.
    Open,
    /// A cumulative counter must reach the threshold.
    Cumulative(Verb, u32),
    /// A state metric must reach the threshold.
    State(Metric, u32),
    /// A state metric must hold at least the threshold for this many seconds.
    Sustained(Metric, u32, u64),
}

/// The field's Tier-II gate.
pub open spec fn spec_field_gate(field: Field) -> Gate {
    match field {
        Field::Propulsion => Gate::Cumulative(Verb::LyFlown, 200),
        Field::Materials => Gate::Cumulative(Verb::UnitsThroughIndustry, 10_000),
        Field::Computation => Gate::Cumulative(Verb::SystemsScouted, 10),
        Field::Weapons => Gate::Cumulative(Verb::BattlesFought, 5),
        Field::Hulls => Gate::Cumulative(Verb::WarshipsCommissioned, 15),
        Field::Life => Gate::Cumulative(Verb::PopulationGrown, 5),
    }
}

/// The school's Tier-III gate.
pub open spec fn spec_school_gate(school: School) -> Gate {
    match school {
        School::LineHaul => Gate::Cumulative(Verb::ConvoyDeliveries, 30),
        School::Expedition => Gate::Cumulative(Verb::WarshipLyFlown, 800),
        School::DeepCrust => Gate::Cumulative(Verb::UnitsExtracted, 15_000),
        School::Foundry => Gate::Cumulative(Verb::UnitsProcessed, 12_000),
        School::Watch => Gate::Cumulative(Verb::SystemsScouted, 25),
        School::Shadow => Gate::Cumulative(Verb::RivalFleetsObserved, 15),
        School::Strike => Gate::Cumulative(Verb::HullMassDestroyed, 150),
        School::Countermeasures => Gate::Cumulative(Verb::DamageAbsorbed, 150),
        School::Line => Gate::Cumulative(Verb::BattlesWon, 8),
        School::Corsair => Gate::Cumulative(Verb::SuccessfulRaids, 8),
        School::Growth => Gate::State(Metric::TotalPopulation, 20),
        School::Talent => Gate::Cumulative(Verb::SpecialistsTrained, 8),
    }
}

/// Seconds the Life · Growth capstone's metric must hold: seven days.
pub const GROWTH_CAPSTONE_SECS: u64 = 604_800;

/// The condition for entering a tier. The first tier has none; the second
/// uses the field's counter and the third the school's; the fourth and fifth
/// rely on the ladder alone, save for the Life · Growth capstone, which needs
/// five well-supplied systems held for a week.
pub open spec fn spec_tier_gate(field: Field, school: Option<School>, tier: u8) -> Gate {
    if field == Field::Life && school == Some(School::Growth) && tier == 5 {
        Gate::Sustained(Metric::WellSuppliedSystems, 5, GROWTH_CAPSTONE_SECS)
    } else if tier == 1 {
        Gate::Open
    } else if tier == 2 {
        spec_field_gate(field)
    } else if tier == 3 {
        match school {
            Some(s) => spec_school_gate(s),
            None => Gate::Open,
        }
    } else {
        Gate::Open
    }
}

fn field_gate(field: Field) -> (g: Gate)
    ensures
        g == spec_field_gate(field),
{
    match field {
        Field::Propulsion => Gate::Cumulative(Verb::LyFlown, 200),
        Field::Materials => Gate::Cumulative(Verb::UnitsThroughIndustry, 10_000),
        Field::Computation => Gate::Cumulative(Verb::SystemsScouted, 10),
        Field::Weapons => Gate::Cumulative(Verb::BattlesFought, 5),
        Field::Hulls => Gate::Cumulative(Verb::WarshipsCommissioned, 15),
        Field::Life => Gate::Cumulative(Verb::PopulationGrown, 5),
    }
}

fn school_gate(school: School) -> (g: Gate)
    ensures
        g == spec_school_gate(school),
{
    match school {
        School::LineHaul => Gate::Cumulative(Verb::ConvoyDeliveries, 30),
        School::Expedition => Gate::Cumulative(Verb::WarshipLyFlown, 800),
        School::DeepCrust => Gate::Cumulative(Verb::UnitsExtracted, 15_000),
        School::Foundry => Gate::Cumulative(Verb::UnitsProcessed, 12_000),
        School::Watch => Gate::Cumulative(Verb::SystemsScouted, 25),
        School::Shadow => Gate::Cumulative(Verb::RivalFleetsObserved, 15),
        School::Strike => Gate::Cumulative(Verb::HullMassDestroyed, 150),
        School::Countermeasures => Gate::Cumulative(Verb::DamageAbsorbed, 150),
        School::Line => Gate::Cumulative(Verb::BattlesWon, 8),
        School::Corsair => Gate::Cumulative(Verb::SuccessfulRaids, 8),
        School::Growth => Gate::State(Metric::TotalPopulation, 20),
        School::Talent => Gate::Cumulative(Verb::SpecialistsTrained, 8),
    }
}

/// The verb gate to enter `tier` of a field (and school, for Tiers III–V).
pub fn tier_gate(field: Field, school: Option<School>, tier: u8) -> (g: Gate)
    ensures
        g == spec_tier_gate(field, school, tier),
{
    let growth = match school {
        Some(School::Growth) => true,
        _ => false,
    };
    if field == Field::Life && growth && tier == 5 {
        return Gate::Sustained(Metric::WellSuppliedSystems, 5, GROWTH_CAPSTONE_SECS);
    }
    if tier == 1 {
        Gate::Open
    } else if tier == 2 {
        field_gate(field)
    } else if tier == 3 {
        match school {
            Some(s) => school_gate(s),
            None => Gate::Open,
        }
    } else {
        Gate::Open
    }
}

/// Throughput-seconds a programme of each tier costs: 2 h, 8 h, 24 h, 72 h,
/// and 168 h for Tier V and above.
pub open spec fn spec_tier_cost_secs(tier: u8) -> u32 {
    if tier == 1 {
        7_200
    } else if tier == 2 {
        28_800
    } else if tier == 3 {
        86_400
    } else if tier == 4 {
        259_200
    } else {
        604_800
    }
}

/// Cost of a programme of `tier`, in throughput-seconds at reference rate.
pub fn tier_cost_secs(tier: u8) -> (s: u32)
    ensures
        s == spec_tier_cost_secs(tier),
{
    if tier == 1 {
        7_200
    } else if tier == 2 {
        28_800
    } else if tier == 3 {
        86_400
    } else if tier == 4 {
        259_200
    } else {
        604_800
    }
}

/// The professions whose skill speeds each field's research.
pub open spec fn spec_field_affinity(field: Field) -> Seq<SpecialistKind> {
    match field {
        Field::Propulsion => seq![SpecialistKind::PetrochemicalEngineer],
        Field::Materials => seq![SpecialistKind::Geologist, SpecialistKind::IndustrialEngineer],
        Field::Computation => seq![SpecialistKind::IndustrialEngineer],
        Field::Weapons => seq![SpecialistKind::NavalArchitect, SpecialistKind::IndustrialEngineer],
        Field::Hulls => seq![SpecialistKind::NavalArchitect],
        Field::Life => seq![SpecialistKind::Xenobiologist],
    }
}

/// Specialist affinity per field: a matching resident specialist posted to an
/// Academy's research line multiplies its rate.
pub fn field_affinity(field: Field) -> (v: Vec<SpecialistKind>)
    ensures
        v@ == spec_field_affinity(field),
{
    match field {
        Field::Propulsion => vec![SpecialistKind::PetrochemicalEngineer],
        Field::Materials => vec![SpecialistKind::Geologist, SpecialistKind::IndustrialEngineer],
        Field::Computation => vec![SpecialistKind::IndustrialEngineer],
        Field::Weapons => vec![SpecialistKind::NavalArchitect, SpecialistKind::IndustrialEngineer],
        Field::Hulls => vec![SpecialistKind::NavalArchitect],
        Field::Life => vec![SpecialistKind::Xenobiologist],
    }
}

/// A tuning factor, written as the quotient of two hundredths:
/// `(num / 100) / (den / 100)`.
#[derive(Debug, Clone, Copy, PartialEq, Eq, Structural)]
pub struct Factor {
    pub num: u32,
    pub den: u32,
}

/// The effect keys one programme tunes: none yet (new content still pending),
/// one, or two.
#[derive(Debug, Clone, Copy, PartialEq, Eq, Structural)]
pub enum Tuning {
    Pending,
    One(ModKey, Factor),
    Two(ModKey, Factor, ModKey, Factor),
}

/// What completing a programme does.
#[derive(Debug, Clone, Copy, PartialEq, Eq, Structural)]
pub enum Effect {
    Mods(Tuning),
    UnlockModule(ModuleKind),
    UnlockHull(ShipKind),
    UnlockStructureTier(StructureKind, u32),
    Flag(Cap),
}

/// One authored programme.
#[derive(Debug, Clone, Copy)]
pub struct Programme {
    pub id: &'static str,
    pub field: Field,
    /// `None` for a shared Tier I/II programme; the school for Tiers III–V.
    pub school: Option<School>,
    pub tier: u8,
    pub name: &'static str,
    pub blurb: &'static str,
    pub effect: Effect,
    /// Hidden entries never render and are never researchable.
    pub hidden: bool,
}

/// Programmes in the catalog.
pub const CATALOG_LEN: usize = 108;

/// The catalog entry at position `i` (the authored order).
pub open spec fn spec_programme(i: int) -> Programme {
    if i == 0 {
        Programme { id: "prop_drive_tuning", field: Field::Propulsion, school: None, tier: 1,
            name: "Drive Tuning", blurb: "+10% speed, all ship kinds.",
            effect: Effect::Mods(Tuning::One(ModKey::SpeedAll, Factor { num: 110, den: 100 })), hidden: false }
    } else if i == 1 {
        Programme { id: "prop_bunkerage", field: Field::Propulsion, school: None, tier: 1,
            name: "Bunkerage", blurb: "+25% fuel capacity.",
            effect: Effect::Mods(Tuning::One(ModKey::FuelCapacity, Factor { num: 125, den: 100 })), hidden: false }
    } else if i == 2 {
        Programme { id: "prop_freight_frames", field: Field::Propulsion, school: None, tier: 1,
            name: "Freight Frames", blurb: "+20% convoy cargo.",
            effect: Effect::Mods(Tuning::One(ModKey::ConvoyCargo, Factor { num: 120, den: 100 })), hidden: false }
    } else if i == 3 {
        Programme { id: "prop_efficient_burns", field: Field::Propulsion, school: None, tier: 2,
            name: "Efficient Burns", blurb: "−25% fuel consumption.",
            effect: Effect::Mods(Tuning::One(ModKey::FuelConsumption, Factor { num: 75, den: 100 })), hidden: false }
    } else if i == 4 {
        Programme { id: "prop_heavy_lifters", field: Field::Propulsion, school: None, tier: 2,
            name: "Heavy Lifters", blurb: "Colony ships seed +50% population.",
            effect: Effect::Mods(Tuning::One(ModKey::ColonySeedPop, Factor { num: 150, den: 100 })), hidden: false }
    } else if i == 5 {
        Programme { id: "prop_military_drives", field: Field::Propulsion, school: None, tier: 2,
            name: "Military Drives", blurb: "+20% warship speed.",
            effect: Effect::Mods(Tuning::One(ModKey::SpeedWarship, Factor { num: 120, den: 100 })), hidden: false }
    } else if i == 6 {
        Programme { id: "prop_line_logistics_doctrine", field: Field::Propulsion, school: Some(School::LineHaul), tier: 3,
            name: "Logistics Doctrine", blurb: "Standing-order triggers: thresholds, conditionals.",
            effect: Effect::Flag(Cap::StandingTriggers), hidden: false }
    } else if i == 7 {
        Programme { id: "prop_line_express_charters", field: Field::Propulsion, school: Some(School::LineHaul), tier: 3,
            name: "Express Charters", blurb: "+25% convoy speed.",
            effect: Effect::Mods(Tuning::One(ModKey::ConvoySpeed, Factor { num: 125, den: 100 })), hidden: false }
    } else if i == 8 {
        Programme { id: "prop_line_drop_berths", field: Field::Propulsion, school: Some(School::LineHaul), tier: 4,
            name: "Drop Berths", blurb: "Colony ships −30% cost and build time.",
            effect: Effect::Mods(Tuning::Two(ModKey::ColonyCost, Factor { num: 70, den: 100 }, ModKey::ColonyBuildTime, Factor { num: 70, den: 100 })), hidden: false }
    } else if i == 9 {
        Programme { id: "prop_line_bulk_charters", field: Field::Propulsion, school: Some(School::LineHaul), tier: 4,
            name: "Bulk Charters", blurb: "+40% convoy cargo.",
            effect: Effect::Mods(Tuning::One(ModKey::ConvoyCargo, Factor { num: 140, den: 100 })), hidden: false }
    } else if i == 10 {
        Programme { id: "prop_line_autonomous_freight", field: Field::Propulsion, school: Some(School::LineHaul), tier: 5,
            name: "Autonomous Freight", blurb: "Convoys chain multi-leg standing routes without CC round-trips.",
            effect: Effect::Flag(Cap::AutonomousFreight), hidden: false }
    } else if i == 11 {
        Programme { id: "prop_line_mass_streams", field: Field::Propulsion, school: Some(School::LineHaul), tier: 5,
            name: "Mass Streams", blurb: "One designated owned-pair route: +40% speed (rivals can learn + interdict).",
            effect: Effect::Flag(Cap::MassStreams), hidden: false }
    } else if i == 12 {
        Programme { id: "prop_expedition_iii_extended_tanks", field: Field::Propulsion, school: Some(School::Expedition), tier: 3,
            name: "Extended Tanks", blurb: "Utility module: +fuel capacity (arrives with the utility-module pass).",
            effect: Effect::Mods(Tuning::Pending), hidden: false }
    } else if i == 13 {
        Programme { id: "prop_expedition_iii_torch_regime", field: Field::Propulsion, school: Some(School::Expedition), tier: 3,
            name: "Torch Regime", blurb: "+30% warship speed, +40% burn — loud and thirsty.",
            effect: Effect::Mods(Tuning::Two(ModKey::SpeedWarship, Factor { num: 130, den: 100 }, ModKey::FuelConsumption, Factor { num: 140, den: 100 })), hidden: false }
    } else if i == 14 {
        Programme { id: "prop_expedition_iv_fleet_tenders", field: Field::Propulsion, school: Some(School::Expedition), tier: 4,
            name: "Fleet Tenders", blurb: "Convoys refuel fleets underway.",
            effect: Effect::Flag(Cap::FleetTenders), hidden: false }
    } else if i == 15 {
        Programme { id: "prop_expedition_iv_long_patrol", field: Field::Propulsion, school: Some(School::Expedition), tier: 4,
            name: "Long Patrol", blurb: "Warship fuel consumption −30%.",
            effect: Effect::Mods(Tuning::One(ModKey::FuelOffensive, Factor { num: 70, den: 100 })), hidden: false }
    } else if i == 16 {
        Programme { id: "prop_expedition_v_ramscoop", field: Field::Propulsion, school: Some(School::Expedition), tier: 5,
            name: "Ramscoop Skimming", blurb: "Ships regain fuel transiting gas-giant systems.",
            effect: Effect::Flag(Cap::Ramscoop), hidden: false }
    } else if i == 17 {
        Programme { id: "prop_expedition_v_underway_refit", field: Field::Propulsion, school: Some(School::Expedition), tier: 5,
            name: "Underway Refit", blurb: "Fleet Tenders perform module refits in the field.",
            effect: Effect::Flag(Cap::UnderwayRefit), hidden: false }
    } else if i == 18 {
        Programme { id: "mat_deep_bores", field: Field::Materials, school: None, tier: 1,
            name: "Deep Bores", blurb: "+15% extraction.",
            effect: Effect::Mods(Tuning::One(ModKey::ExtractionRate, Factor { num: 115, den: 100 })), hidden: false }
    } else if i == 19 {
        Programme { id: "mat_enrichment", field: Field::Materials, school: None, tier: 1,
            name: "Enrichment", blurb: "+15% processing yield.",
            effect: Effect::Mods(Tuning::One(ModKey::ProcessingYield, Factor { num: 115, den: 100 })), hidden: false }
    } else if i == 20 {
        Programme { id: "mat_bulk_storage", field: Field::Materials, school: None, tier: 1,
            name: "Bulk Storage", blurb: "+50% Depot caps.",
            effect: Effect::Mods(Tuning::One(ModKey::DepotCap, Factor { num: 150, den: 100 })), hidden: false }
    } else if i == 21 {
        Programme { id: "mat_beneficiation", field: Field::Materials, school: None, tier: 2,
            name: "Beneficiation", blurb: "Poor deposits gain a richness floor (arrives with the extraction pass).",
            effect: Effect::Mods(Tuning::Pending), hidden: false }
    } else if i == 22 {
        Programme { id: "mat_prefab_construction", field: Field::Materials, school: None, tier: 2,
            name: "Prefab Construction", blurb: "−25% structure build time.",
            effect: Effect::Mods(Tuning::One(ModKey::StructureBuildTime, Factor { num: 75, den: 100 })), hidden: false }
    } else if i == 23 {
        Programme { id: "mat_autoforges", field: Field::Materials, school: None, tier: 2,
            name: "Autoforges", blurb: "Machinery recipe −20% inputs.",
            effect: Effect::Mods(Tuning::One(ModKey::MachineryInputs, Factor { num: 80, den: 100 })), hidden: false }
    } else if i == 24 {
        Programme { id: "mat_deepcrust_iii_tier4_extraction", field: Field::Materials, school: Some(School::DeepCrust), tier: 3,
            name: "Tier-IV Extraction", blurb: "Extraction structures reach tier IV.",
            effect: Effect::UnlockStructureTier(StructureKind::MiningComplex, 4), hidden: false }
    } else if i == 25 {
        Programme { id: "mat_deepcrust_iii_strip_rigs", field: Field::Materials, school: Some(School::DeepCrust), tier: 3,
            name: "Strip Rigs", blurb: "+25% extraction on moons.",
            effect: Effect::Mods(Tuning::One(ModKey::ExtractionMoons, Factor { num: 125, den: 100 })), hidden: false }
    } else if i == 26 {
        Programme { id: "mat_deepcrust_iv_trace_refining", field: Field::Materials, school: Some(School::DeepCrust), tier: 4,
            name: "Trace Refining", blurb: "Mining Complexes yield 5% Rare Elements on metallic deposits.",
            effect: Effect::Flag(Cap::TraceRefining), hidden: false }
    } else if i == 27 {
        Programme { id: "mat_deepcrust_iv_prospecting_charters", field: Field::Materials, school: Some(School::DeepCrust), tier: 4,
            name: "Prospecting Charters", blurb: "New colonies start at full deposit knowledge.",
            effect: Effect::Flag(Cap::ProspectingCharters), hidden: false }
    } else if i == 28 {
        Programme { id: "mat_deepcrust_v_mantle_taps", field: Field::Materials, school: Some(School::DeepCrust), tier: 5,
            name: "Mantle Taps", blurb: "Extraction ignores accessibility penalties.",
            effect: Effect::Flag(Cap::MantleTaps), hidden: false }
    } else if i == 29 {
        Programme { id: "mat_deepcrust_v_crown_vein", field: Field::Materials, school: Some(School::DeepCrust), tier: 5,
            name: "Crown Vein", blurb: "One designated body: deposits +1 richness band.",
            effect: Effect::Flag(Cap::CrownVein), hidden: false }
    } else if i == 30 {
        Programme { id: "mat_foundry_iii_tier4_processors", field: Field::Materials, school: Some(School::Foundry), tier: 3,
            name: "Tier-IV Processors", blurb: "Processing structures reach tier IV.",
            effect: Effect::UnlockStructureTier(StructureKind::Smelter, 4), hidden: false }
    } else if i == 31 {
        Programme { id: "mat_foundry_iii_slag_reclamation", field: Field::Materials, school: Some(School::Foundry), tier: 3,
            name: "Slag Reclamation", blurb: "Smelters emit 10% bonus Silicates.",
            effect: Effect::Flag(Cap::SlagReclamation), hidden: false }
    } else if i == 32 {
        Programme { id: "mat_foundry_iv_orbital_yards", field: Field::Materials, school: Some(School::Foundry), tier: 4,
            name: "Orbital Yards", blurb: "Shipyard tier IV.",
            effect: Effect::UnlockStructureTier(StructureKind::Shipyard, 4), hidden: false }
    } else if i == 33 {
        Programme { id: "mat_foundry_iv_arcology_frames", field: Field::Materials, school: Some(School::Foundry), tier: 4,
            name: "Arcology Frames", blurb: "Habitat tier IV.",
            effect: Effect::UnlockStructureTier(StructureKind::Habitat, 4), hidden: false }
    } else if i == 34 {
        Programme { id: "mat_foundry_v_flash_forges", field: Field::Materials, school: Some(School::Foundry), tier: 5,
            name: "Flash Forges", blurb: "Systems run 2 concurrent structure builds.",
            effect: Effect::Flag(Cap::FlashForges), hidden: false }
    } else if i == 35 {
        Programme { id: "mat_foundry_v_crown_project", field: Field::Materials, school: Some(School::Foundry), tier: 5,
            name: "Crown Project", blurb: "One designated body gains +1 slot in every pool.",
            effect: Effect::Flag(Cap::CrownProject), hidden: false }
    } else if i == 36 {
        Programme { id: "comp_sensor_gain", field: Field::Computation, school: None, tier: 1,
            name: "Sensor Gain", blurb: "+15% sensor radius.",
            effect: Effect::Mods(Tuning::One(ModKey::SensorRadius, Factor { num: 115, den: 100 })), hidden: false }
    } else if i == 37 {
        Programme { id: "comp_signal_libraries", field: Field::Computation, school: None, tier: 1,
            name: "Signal Libraries", blurb: "Rival fleets bucket one class finer to you.",
            effect: Effect::Mods(Tuning::One(ModKey::BucketFineness, Factor { num: 100, den: 100 })), hidden: false }
    } else if i == 38 {
        Programme { id: "comp_survey_protocols", field: Field::Computation, school: None, tier: 1,
            name: "Survey Protocols", blurb: "Deposit ladder advances faster.",
            effect: Effect::Mods(Tuning::One(ModKey::KnowledgeLadderRate, Factor { num: 125, den: 100 })), hidden: false }
    } else if i == 39 {
        Programme { id: "comp_predictive_plots", field: Field::Computation, school: None, tier: 2,
            name: "Predictive Plots", blurb: "Stale-intel confidence bands (view feature; arrives with the intel pass).",
            effect: Effect::Mods(Tuning::Pending), hidden: false }
    } else if i == 40 {
        Programme { id: "comp_deep_space_arrays", field: Field::Computation, school: None, tier: 2,
            name: "Deep-Space Arrays", blurb: "Sensor Array tier IV.",
            effect: Effect::UnlockStructureTier(StructureKind::SensorArray, 4), hidden: false }
    } else if i == 41 {
        Programme { id: "comp_gravimetric_survey", field: Field::Computation, school: None, tier: 2,
            name: "Gravimetric Survey", blurb: "Deposits read one R-level deeper at range (arrives with the explore pass).",
            effect: Effect::Mods(Tuning::Pending), hidden: false }
    } else if i == 42 {
        Programme { id: "comp_watch_iii_picket_networks", field: Field::Computation, school: Some(School::Watch), tier: 3,
            name: "Picket Networks", blurb: "Owned sensor radii +25%; overlaps form surveilled corridors.",
            effect: Effect::Mods(Tuning::One(ModKey::SensorRadius, Factor { num: 125, den: 100 })), hidden: false }
    } else if i == 43 {
        Programme { id: "comp_watch_iii_long_baselines", field: Field::Computation, school: Some(School::Watch), tier: 3,
            name: "Long Baselines", blurb: "+15% sensor range.",
            effect: Effect::Mods(Tuning::One(ModKey::SensorRange, Factor { num: 115, den: 100 })), hidden: false }
    } else if i == 44 {
        Programme { id: "comp_watch_iv_battle_archives", field: Field::Computation, school: Some(School::Watch), tier: 4,
            name: "Battle Archives", blurb: "Third-party battle records gain bucketed kill detail.",
            effect: Effect::Flag(Cap::BattleArchives), hidden: false }
    } else if i == 45 {
        Programme { id: "comp_watch_iv_standing_watch", field: Field::Computation, school: Some(School::Watch), tier: 4,
            name: "Standing Watch", blurb: "Contacts persist as tracked estimates after leaving coverage.",
            effect: Effect::Flag(Cap::StandingWatch), hidden: false }
    } else if i == 46 {
        Programme { id: "comp_watch_v_panopticon", field: Field::Computation, school: Some(School::Watch), tier: 5,
            name: "Panopticon Catalog", blurb: "CC auto-catalogs every battle flash whose light reaches any asset.",
            effect: Effect::Flag(Cap::PanopticonCatalog), hidden: false }
    } else if i == 47 {
        Programme { id: "comp_watch_v_survey_corps", field: Field::Computation, school: Some(School::Watch), tier: 5,
            name: "Survey Corps", blurb: "Scouts auto-advance the deposit ladder in-system.",
            effect: Effect::Flag(Cap::SurveyCorps), hidden: false }
    } else if i == 48 {
        Programme { id: "comp_shadow_iii_ecm_emitters", field: Field::Computation, school: Some(School::Shadow), tier: 3,
            name: "ECM Emitters", blurb: "Your fleets bucket one class coarser — sensor warfare; the combat matrix untouched.",
            effect: Effect::Mods(Tuning::One(ModKey::BucketCoarseness, Factor { num: 100, den: 100 })), hidden: false }
    } else if i == 49 {
        Programme { id: "comp_shadow_iii_traffic_analysis", field: Field::Computation, school: Some(School::Shadow), tier: 3,
            name: "Traffic Analysis", blurb: "Contacts reveal convoy manifest class: goods / personnel / modules.",
            effect: Effect::Flag(Cap::TrafficAnalysis), hidden: false }
    } else if i == 50 {
        Programme { id: "comp_shadow_iv_wake_analysis", field: Field::Computation, school: Some(School::Shadow), tier: 4,
            name: "Wake Analysis", blurb: "Observed fleets show estimated fuel state and origin bearing.",
            effect: Effect::Flag(Cap::WakeAnalysis), hidden: false }
    } else if i == 51 {
        Programme { id: "comp_shadow_iv_recon_suite", field: Field::Computation, school: Some(School::Shadow), tier: 4,
            name: "Recon Suite", blurb: "Utility module: +sensor radius (arrives with the utility-module pass).",
            effect: Effect::Mods(Tuning::Pending), hidden: false }
    } else if i == 52 {
        Programme { id: "comp_shadow_v_signature_mimicry", field: Field::Computation, school: Some(School::Shadow), tier: 5,
            name: "Signature Mimicry", blurb: "A designated fleet reads one count-class smaller and can present as a convoy until it engages.",
            effect: Effect::Flag(Cap::SignatureMimicry), hidden: false }
    } else if i == 53 {
        Programme { id: "comp_shadow_v_counter_intel", field: Field::Computation, school: Some(School::Shadow), tier: 5,
            name: "Counter-Intelligence", blurb: "Rival Signal Libraries / Traffic / Wake analysis read null against you.",
            effect: Effect::Flag(Cap::CounterIntel), hidden: false }
    } else if i == 54 {
        Programme { id: "weap_fire_control", field: Field::Weapons, school: None, tier: 1,
            name: "Fire Control", blurb: "+10% beam damage.",
            effect: Effect::Mods(Tuning::One(ModKey::BeamDmg, Factor { num: 110, den: 100 })), hidden: false }
    } else if i == 55 {
        Programme { id: "weap_magnetic_accelerators", field: Field::Weapons, school: None, tier: 1,
            name: "Magnetic Accelerators", blurb: "+10% driver damage.",
            effect: Effect::Mods(Tuning::One(ModKey::DriverDmg, Factor { num: 110, den: 100 })), hidden: false }
    } else if i == 56 {
        Programme { id: "weap_warhead_yields", field: Field::Weapons, school: None, tier: 1,
            name: "Warhead Yields", blurb: "+10% torpedo damage.",
            effect: Effect::Mods(Tuning::One(ModKey::TorpDmg, Factor { num: 110, den: 100 })), hidden: false }
    } else if i == 57 {
        Programme { id: "weap_hardened_magazines", field: Field::Weapons, school: None, tier: 2,
            name: "Hardened Magazines", blurb: "Warship Armaments cost −15%.",
            effect: Effect::Mods(Tuning::One(ModKey::WarshipCost, Factor { num: 85, den: 100 })), hidden: false }
    } else if i == 58 {
        Programme { id: "weap_munitions_lines", field: Field::Weapons, school: None, tier: 2,
            name: "Munitions Lines", blurb: "Modules −25% build time, −15% cost.",
            effect: Effect::Mods(Tuning::Two(ModKey::ModuleBuildTime, Factor { num: 75, den: 100 }, ModKey::ModuleCost, Factor { num: 85, den: 100 })), hidden: false }
    } else if i == 59 {
        Programme { id: "weap_fire_discipline", field: Field::Weapons, school: None, tier: 2,
            name: "Fire Discipline", blurb: "Your opening-round damage +10%.",
            effect: Effect::Mods(Tuning::One(ModKey::OpeningRoundDmg, Factor { num: 110, den: 100 })), hidden: false }
    } else if i == 60 {
        Programme { id: "weap_strike_iii_lance_array", field: Field::Weapons, school: Some(School::Strike), tier: 3,
            name: "Lance Array", blurb: "Heavy-beam module, doubly vulnerable to Reflective (arrives with the weapon-module pass).",
            effect: Effect::Mods(Tuning::Pending), hidden: false }
    } else if i == 61 {
        Programme { id: "weap_strike_iii_breaching_ordnance", field: Field::Weapons, school: Some(School::Strike), tier: 3,
            name: "Breaching Ordnance", blurb: "+25% damage to Defense Platforms.",
            effect: Effect::Mods(Tuning::One(ModKey::DmgVsPlatforms, Factor { num: 125, den: 100 })), hidden: false }
    } else if i == 62 {
        Programme { id: "weap_strike_iv_platform_lances", field: Field::Weapons, school: Some(School::Strike), tier: 4,
            name: "Platform Lances", blurb: "Defense Platforms mount Lance-profile beam fire.",
            effect: Effect::Flag(Cap::PlatformLances), hidden: false }
    } else if i == 63 {
        Programme { id: "weap_strike_iv_penetrator_slugs", field: Field::Weapons, school: Some(School::Strike), tier: 4,
            name: "Penetrator Slugs", blurb: "+15% driver damage.",
            effect: Effect::Mods(Tuning::One(ModKey::DriverDmg, Factor { num: 115, den: 100 })), hidden: false }
    } else if i == 64 {
        Programme { id: "weap_strike_v_first_strike", field: Field::Weapons, school: Some(School::Strike), tier: 5,
            name: "First Strike", blurb: "Attacking side's opening round +50%.",
            effect: Effect::Flag(Cap::FirstStrike), hidden: false }
    } else if i == 65 {
        Programme { id: "weap_strike_v_overpressure", field: Field::Weapons, school: Some(School::Strike), tier: 5,
            name: "Overpressure Warheads", blurb: "Torpedo kills splash 10% into the victim's stack (arrives with the combat pass).",
            effect: Effect::Mods(Tuning::Pending), hidden: false }
    } else if i == 66 {
        Programme { id: "weap_cm_iii_flak_doctrine", field: Field::Weapons, school: Some(School::Countermeasures), tier: 3,
            name: "Flak Doctrine", blurb: "Point-Defense interception 0.60 → 0.75.",
            effect: Effect::Mods(Tuning::One(ModKey::PdIntercept, Factor { num: 75, den: 60 })), hidden: false }
    } else if i == 67 {
        Programme { id: "weap_cm_iii_ablative_refits", field: Field::Weapons, school: Some(School::Countermeasures), tier: 3,
            name: "Ablative Refits", blurb: "Reflective blunt 0.35 → 0.45.",
            effect: Effect::Mods(Tuning::One(ModKey::ReflectBlunt, Factor { num: 45, den: 35 })), hidden: false }
    } else if i == 68 {
        Programme { id: "weap_cm_iv_platform_netfire", field: Field::Weapons, school: Some(School::Countermeasures), tier: 4,
            name: "Platform Netfire", blurb: "Defense Platforms project PD interception over the defending side.",
            effect: Effect::Flag(Cap::PlatformNetfire), hidden: false }
    } else if i == 69 {
        Programme { id: "weap_cm_iv_spall_liners", field: Field::Weapons, school: Some(School::Countermeasures), tier: 4,
            name: "Spall Liners", blurb: "Whipple blunt 0.45 → 0.55.",
            effect: Effect::Mods(Tuning::One(ModKey::WhippleBlunt, Factor { num: 55, den: 45 })), hidden: false }
    } else if i == 70 {
        Programme { id: "weap_cm_v_grand_batteries", field: Field::Weapons, school: Some(School::Countermeasures), tier: 5,
            name: "Grand Batteries", blurb: "Defense Platform V; defended side gains an opening-round alpha.",
            effect: Effect::Flag(Cap::GrandBatteries), hidden: false }
    } else if i == 71 {
        Programme { id: "weap_cm_v_citadel_compartments", field: Field::Weapons, school: Some(School::Countermeasures), tier: 5,
            name: "Citadel Compartments", blurb: "Your warships' damage pools run 20% deeper.",
            effect: Effect::Mods(Tuning::One(ModKey::DamagePoolDepth, Factor { num: 120, den: 100 })), hidden: false }
    } else if i == 72 {
        Programme { id: "hull_drydock_efficiency", field: Field::Hulls, school: None, tier: 1,
            name: "Drydock Efficiency", blurb: "Warship build time −20%.",
            effect: Effect::Mods(Tuning::One(ModKey::WarshipBuildTime, Factor { num: 80, den: 100 })), hidden: false }
    } else if i == 73 {
        Programme { id: "hull_reinforced_frames", field: Field::Hulls, school: None, tier: 1,
            name: "Reinforced Frames", blurb: "Warship hull mass +10% — tougher in the attrition math.",
            effect: Effect::Mods(Tuning::One(ModKey::HullMass, Factor { num: 110, den: 100 })), hidden: false }
    } else if i == 74 {
        Programme { id: "hull_slipway_standards", field: Field::Hulls, school: None, tier: 1,
            name: "Slipway Standards", blurb: "Warship goods cost −10%.",
            effect: Effect::Mods(Tuning::One(ModKey::WarshipCost, Factor { num: 90, den: 100 })), hidden: false }
    } else if i == 75 {
        Programme { id: "hull_rapid_rearm", field: Field::Hulls, school: None, tier: 2,
            name: "Rapid Rearm", blurb: "Damage pools recover faster at friendly Shipyards.",
            effect: Effect::Mods(Tuning::One(ModKey::RearmRate, Factor { num: 125, den: 100 })), hidden: false }
    } else if i == 76 {
        Programme { id: "hull_modular_berths", field: Field::Hulls, school: None, tier: 2,
            name: "Modular Berths", blurb: "Refits −50% time.",
            effect: Effect::Mods(Tuning::One(ModKey::RefitTime, Factor { num: 50, den: 100 })), hidden: false }
    } else if i == 77 {
        Programme { id: "hull_compartmentalization", field: Field::Hulls, school: None, tier: 2,
            name: "Compartmentalization", blurb: "Warship damage pools run 10% deeper.",
            effect: Effect::Mods(Tuning::One(ModKey::DamagePoolDepth, Factor { num: 110, den: 100 })), hidden: false }
    } else if i == 78 {
        Programme { id: "hull_line_iii_hardened_anchorage", field: Field::Hulls, school: Some(School::Line), tier: 3,
            name: "Hardened Anchorage", blurb: "Anchored fleets at owned systems take −15% damage.",
            effect: Effect::Mods(Tuning::One(ModKey::AnchoredDmgTaken, Factor { num: 85, den: 100 })), hidden: false }
    } else if i == 79 {
        Programme { id: "hull_line_iii_escort_datalink", field: Field::Hulls, school: Some(School::Line), tier: 3,
            name: "Escort Datalink", blurb: "Corvette utility module: +screening (arrives with the utility-module pass).",
            effect: Effect::Mods(Tuning::Pending), hidden: false }
    } else if i == 80 {
        Programme { id: "hull_line_iv_destroyer", field: Field::Hulls, school: Some(School::Line), tier: 4,
            name: "Destroyer Hull", blurb: "Heavy combatant: 3 module slots, slow, Armaments+Machinery-hungry (arrives with the hull pass).",
            effect: Effect::Mods(Tuning::Pending), hidden: false }
    } else if i == 81 {
        Programme { id: "hull_line_iv_fleet_escorts", field: Field::Hulls, school: Some(School::Line), tier: 4,
            name: "Fleet Escorts", blurb: "Convoys under Corvette escort take −25% raid damage.",
            effect: Effect::Mods(Tuning::One(ModKey::EscortedConvoyRaidDmg, Factor { num: 75, den: 100 })), hidden: false }
    } else if i == 82 {
        Programme { id: "hull_line_v_cruiser", field: Field::Hulls, school: Some(School::Line), tier: 5,
            name: "Cruiser Hull", blurb: "The season's prestige ship: 4 module slots, slowest combatant (arrives with the hull pass).",
            effect: Effect::Mods(Tuning::Pending), hidden: false }
    } else if i == 83 {
        Programme { id: "hull_line_v_fortress_doctrine", field: Field::Hulls, school: Some(School::Line), tier: 5,
            name: "Fortress Doctrine", blurb: "Friendly fleets disengage without exposure at your defended systems.",
            effect: Effect::Flag(Cap::FortressDoctrine), hidden: false }
    } else if i == 84 {
        Programme { id: "hull_corsair_iii_wolfpack", field: Field::Hulls, school: Some(School::Corsair), tier: 3,
            name: "Wolfpack Doctrine", blurb: "Raider stacks +15% attack per additional raider stack, capped ×2.",
            effect: Effect::Mods(Tuning::One(ModKey::WolfpackPerStack, Factor { num: 115, den: 100 })), hidden: false }
    } else if i == 85 {
        Programme { id: "hull_corsair_iii_prize_holds", field: Field::Hulls, school: Some(School::Corsair), tier: 3,
            name: "Prize Holds", blurb: "Raids steal +50% cargo.",
            effect: Effect::Mods(Tuning::One(ModKey::RaidSteal, Factor { num: 150, den: 100 })), hidden: false }
    } else if i == 86 {
        Programme { id: "hull_corsair_iv_slip_anchors", field: Field::Hulls, school: Some(School::Corsair), tier: 4,
            name: "Slip Anchors", blurb: "Raiders disengage with −50% exposure.",
            effect: Effect::Mods(Tuning::One(ModKey::RaiderDisengageExposure, Factor { num: 50, den: 100 })), hidden: false }
    } else if i == 87 {
        Programme { id: "hull_corsair_iv_blockade_runners", field: Field::Hulls, school: Some(School::Corsair), tier: 4,
            name: "Blockade Runners", blurb: "Convoy refit variant: +30% speed, −20% cargo (arrives with the refit pass).",
            effect: Effect::Mods(Tuning::Pending), hidden: false }
    } else if i == 88 {
        Programme { id: "hull_corsair_v_salvage_rigs", field: Field::Hulls, school: Some(School::Corsair), tier: 5,
            name: "Salvage Rigs", blurb: "Wreck module salvage (deferred).",
            effect: Effect::Flag(Cap::SalvageRigs), hidden: true }
    } else if i == 89 {
        Programme { id: "hull_corsair_v_boarding_parties", field: Field::Hulls, school: Some(School::Corsair), tier: 5,
            name: "Boarding Parties", blurb: "Capture intercepted cargo (deferred).",
            effect: Effect::Flag(Cap::BoardingParties), hidden: true }
    } else if i == 90 {
        Programme { id: "life_hydroponics", field: Field::Life, school: None, tier: 1,
            name: "Hydroponics", blurb: "+15% Agroplex output.",
            effect: Effect::Mods(Tuning::One(ModKey::AgroplexYield, Factor { num: 115, den: 100 })), hidden: false }
    } else if i == 91 {
        Programme { id: "life_med_bays", field: Field::Life, school: None, tier: 1,
            name: "Med Bays", blurb: "+10% population growth.",
            effect: Effect::Mods(Tuning::One(ModKey::PopGrowth, Factor { num: 110, den: 100 })), hidden: false }
    } else if i == 92 {
        Programme { id: "life_dense_housing", field: Field::Life, school: None, tier: 1,
            name: "Dense Housing", blurb: "+25% Habitat capacity.",
            effect: Effect::Mods(Tuning::One(ModKey::HabitatCap, Factor { num: 125, den: 100 })), hidden: false }
    } else if i == 93 {
        Programme { id: "life_civic_rations", field: Field::Life, school: None, tier: 2,
            name: "Civic Rations", blurb: "Rationing penalty 85% → 92%.",
            effect: Effect::Mods(Tuning::One(ModKey::RationingFloor, Factor { num: 92, den: 85 })), hidden: false }
    } else if i == 94 {
        Programme { id: "life_cryo_berths", field: Field::Life, school: None, tier: 2,
            name: "Cryo Berths", blurb: "Colony ships arrive at half capacity.",
            effect: Effect::Flag(Cap::CryoBerths), hidden: false }
    } else if i == 95 {
        Programme { id: "life_gene_crops", field: Field::Life, school: None, tier: 2,
            name: "Gene-Tailored Crops", blurb: "Agroplex +25% output, −20% Biomass input.",
            effect: Effect::Mods(Tuning::Two(ModKey::AgroplexYield, Factor { num: 125, den: 100 }, ModKey::AgroplexInputs, Factor { num: 80, den: 100 })), hidden: false }
    } else if i == 96 {
        Programme { id: "life_growth_iii_orbital_habitats", field: Field::Life, school: Some(School::Growth), tier: 3,
            name: "Orbital Habitats", blurb: "Habitat buildable on station bodies (arrives with the habitat pass).",
            effect: Effect::Mods(Tuning::Pending), hidden: false }
    } else if i == 97 {
        Programme { id: "life_growth_iii_boom_charters", field: Field::Life, school: Some(School::Growth), tier: 3,
            name: "Boom Charters", blurb: "+20% growth on bodies below half capacity.",
            effect: Effect::Mods(Tuning::One(ModKey::GrowthBelowHalf, Factor { num: 120, den: 100 })), hidden: false }
    } else if i == 98 {
        Programme { id: "life_growth_iv_xenoacclimation", field: Field::Life, school: Some(School::Growth), tier: 4,
            name: "Xenoacclimation", blurb: "Marginal body kinds become colonizable.",
            effect: Effect::Flag(Cap::Xenoacclimation), hidden: false }
    } else if i == 99 {
        Programme { id: "life_growth_iv_closed_loop", field: Field::Life, school: Some(School::Growth), tier: 4,
            name: "Closed-Loop Ecology", blurb: "Provisions consumption −30%.",
            effect: Effect::Mods(Tuning::One(ModKey::ProvisionsUse, Factor { num: 70, den: 100 })), hidden: false }
    } else if i == 100 {
        Programme { id: "life_growth_v_arcologies", field: Field::Life, school: Some(School::Growth), tier: 5,
            name: "Arcologies", blurb: "Habitat tier V.",
            effect: Effect::UnlockStructureTier(StructureKind::Habitat, 5), hidden: false }
    } else if i == 101 {
        Programme { id: "life_growth_v_generation_charters", field: Field::Life, school: Some(School::Growth), tier: 5,
            name: "Generation Charters", blurb: "Colony ships carry one specialist and arrive WellSupplied.",
            effect: Effect::Flag(Cap::GenerationCharters), hidden: false }
    } else if i == 102 {
        Programme { id: "life_talent_iii_expert_training", field: Field::Life, school: Some(School::Talent), tier: 3,
            name: "Expert Training", blurb: "Unlocks the 2.25× expert specialist tier.",
            effect: Effect::Flag(Cap::ExpertTraining), hidden: false }
    } else if i == 103 {
        Programme { id: "life_talent_iii_deep_careers", field: Field::Life, school: Some(School::Talent), tier: 3,
            name: "Deep Careers", blurb: "Specialist training time −40%.",
            effect: Effect::Mods(Tuning::One(ModKey::TrainingTime, Factor { num: 60, den: 100 })), hidden: false }
    } else if i == 104 {
        Programme { id: "life_talent_iv_academy_iv", field: Field::Life, school: Some(School::Talent), tier: 4,
            name: "Academy IV", blurb: "Academy tier IV.",
            effect: Effect::UnlockStructureTier(StructureKind::Academy, 4), hidden: false }
    } else if i == 105 {
        Programme { id: "life_talent_iv_broad_curricula", field: Field::Life, school: Some(School::Talent), tier: 4,
            name: "Broad Curricula", blurb: "Academies run 2 concurrent training jobs.",
            effect: Effect::Flag(Cap::BroadCurricula), hidden: false }
    } else if i == 106 {
        Programme { id: "life_talent_v_twin_campuses", field: Field::Life, school: Some(School::Talent), tier: 5,
            name: "Twin Campuses", blurb: "Each Habitat tier houses +1 specialist.",
            effect: Effect::Flag(Cap::TwinCampuses), hidden: false }
    } else {
        Programme { id: "life_talent_v_founders_institutes", field: Field::Life, school: Some(School::Talent), tier: 5,
            name: "Founders' Institutes", blurb: "Newly trained specialists start expert.",
            effect: Effect::Flag(Cap::FoundersInstitutes), hidden: false }
    }
}

/// The catalog entry at position `i`.
pub fn programme_at(i: usize) -> (p: Programme)
    requires
        i < CATALOG_LEN,
    ensures
        p == spec_programme(i as int),
{
    match i {
        0 => Programme { id: "prop_drive_tuning", field: Field::Propulsion, school: None, tier: 1,
                name: "Drive Tuning", blurb: "+10% speed, all ship kinds.",
                effect: Effect::Mods(Tuning::One(ModKey::SpeedAll, Factor { num: 110, den: 100 })), hidden: false },
        1 => Programme { id: "prop_bunkerage", field: Field::Propulsion, school: None, tier: 1,
                name: "Bunkerage", blurb: "+25% fuel capacity.",
                effect: Effect::Mods(Tuning::One(ModKey::FuelCapacity, Factor { num: 125, den: 100 })), hidden: false },
        2 => Programme { id: "prop_freight_frames", field: Field::Propulsion, school: None, tier: 1,
                name: "Freight Frames", blurb: "+20% convoy cargo.",
                effect: Effect::Mods(Tuning::One(ModKey::ConvoyCargo, Factor { num: 120, den: 100 })), hidden: false },
        3 => Programme { id: "prop_efficient_burns", field: Field::Propulsion, school: None, tier: 2,
                name: "Efficient Burns", blurb: "−25% fuel consumption.",
                effect: Effect::Mods(Tuning::One(ModKey::FuelConsumption, Factor { num: 75, den: 100 })), hidden: false },
        4 => Programme { id: "prop_heavy_lifters", field: Field::Propulsion, school: None, tier: 2,
                name: "Heavy Lifters", blurb: "Colony ships seed +50% population.",
                effect: Effect::Mods(Tuning::One(ModKey::ColonySeedPop, Factor { num: 150, den: 100 })), hidden: false },
        5 => Programme { id: "prop_military_drives", field: Field::Propulsion, school: None, tier: 2,
                name: "Military Drives", blurb: "+20% warship speed.",
                effect: Effect::Mods(Tuning::One(ModKey::SpeedWarship, Factor { num: 120, den: 100 })), hidden: false },
        6 => Programme { id: "prop_line_logistics_doctrine", field: Field::Propulsion, school: Some(School::LineHaul), tier: 3,
                name: "Logistics Doctrine", blurb: "Standing-order triggers: thresholds, conditionals.",
                effect: Effect::Flag(Cap::StandingTriggers), hidden: false },
        7 => Programme { id: "prop_line_express_charters", field: Field::Propulsion, school: Some(School::LineHaul), tier: 3,
                name: "Express Charters", blurb: "+25% convoy speed.",
                effect: Effect::Mods(Tuning::One(ModKey::ConvoySpeed, Factor { num: 125, den: 100 })), hidden: false },
        8 => Programme { id: "prop_line_drop_berths", field: Field::Propulsion, school: Some(School::LineHaul), tier: 4,
                name: "Drop Berths", blurb: "Colony ships −30% cost and build time.",
                effect: Effect::Mods(Tuning::Two(ModKey::ColonyCost, Factor { num: 70, den: 100 }, ModKey::ColonyBuildTime, Factor { num: 70, den: 100 })), hidden: false },
        9 => Programme { id: "prop_line_bulk_charters", field: Field::Propulsion, school: Some(School::LineHaul), tier: 4,
                name: "Bulk Charters", blurb: "+40% convoy cargo.",
                effect: Effect::Mods(Tuning::One(ModKey::ConvoyCargo, Factor { num: 140, den: 100 })), hidden: false },
        10 => Programme { id: "prop_line_autonomous_freight", field: Field::Propulsion, school: Some(School::LineHaul), tier: 5,
                name: "Autonomous Freight", blurb: "Convoys chain multi-leg standing routes without CC round-trips.",
                effect: Effect::Flag(Cap::AutonomousFreight), hidden: false },
        11 => Programme { id: "prop_line_mass_streams", field: Field::Propulsion, school: Some(School::LineHaul), tier: 5,
                name: "Mass Streams", blurb: "One designated owned-pair route: +40% speed (rivals can learn + interdict).",
                effect: Effect::Flag(Cap::MassStreams), hidden: false },
        12 => Programme { id: "prop_expedition_iii_extended_tanks", field: Field::Propulsion, school: Some(School::Expedition), tier: 3,
                name: "Extended Tanks", blurb: "Utility module: +fuel capacity (arrives with the utility-module pass).",
                effect: Effect::Mods(Tuning::Pending), hidden: false },
        13 => Programme { id: "prop_expedition_iii_torch_regime", field: Field::Propulsion, school: Some(School::Expedition), tier: 3,
                name: "Torch Regime", blurb: "+30% warship speed, +40% burn — loud and thirsty.",
                effect: Effect::Mods(Tuning::Two(ModKey::SpeedWarship, Factor { num: 130, den: 100 }, ModKey::FuelConsumption, Factor { num: 140, den: 100 })), hidden: false },
        14 => Programme { id: "prop_expedition_iv_fleet_tenders", field: Field::Propulsion, school: Some(School::Expedition), tier: 4,
                name: "Fleet Tenders", blurb: "Convoys refuel fleets underway.",
                effect: Effect::Flag(Cap::FleetTenders), hidden: false },
        15 => Programme { id: "prop_expedition_iv_long_patrol", field: Field::Propulsion, school: Some(School::Expedition), tier: 4,
                name: "Long Patrol", blurb: "Warship fuel consumption −30%.",
                effect: Effect::Mods(Tuning::One(ModKey::FuelOffensive, Factor { num: 70, den: 100 })), hidden: false },
        16 => Programme { id: "prop_expedition_v_ramscoop", field: Field::Propulsion, school: Some(School::Expedition), tier: 5,
                name: "Ramscoop Skimming", blurb: "Ships regain fuel transiting gas-giant systems.",
                effect: Effect::Flag(Cap::Ramscoop), hidden: false },
        17 => Programme { id: "prop_expedition_v_underway_refit", field: Field::Propulsion, school: Some(School::Expedition), tier: 5,
                name: "Underway Refit", blurb: "Fleet Tenders perform module refits in the field.",
                effect: Effect::Flag(Cap::UnderwayRefit), hidden: false },
        18 => Programme { id: "mat_deep_bores", field: Field::Materials, school: None, tier: 1,
                name: "Deep Bores", blurb: "+15% extraction.",
                effect: Effect::Mods(Tuning::One(ModKey::ExtractionRate, Factor { num: 115, den: 100 })), hidden: false },
        19 => Programme { id: "mat_enrichment", field: Field::Materials, school: None, tier: 1,
                name: "Enrichment", blurb: "+15% processing yield.",
                effect: Effect::Mods(Tuning::One(ModKey::ProcessingYield, Factor { num: 115, den: 100 })), hidden: false },
        20 => Programme { id: "mat_bulk_storage", field: Field::Materials, school: None, tier: 1,
                name: "Bulk Storage", blurb: "+50% Depot caps.",
                effect: Effect::Mods(Tuning::One(ModKey::DepotCap, Factor { num: 150, den: 100 })), hidden: false },
        21 => Programme { id: "mat_beneficiation", field: Field::Materials, school: None, tier: 2,
                name: "Beneficiation", blurb: "Poor deposits gain a richness floor (arrives with the extraction pass).",
                effect: Effect::Mods(Tuning::Pending), hidden: false },
        22 => Programme { id: "mat_prefab_construction", field: Field::Materials, school: None, tier: 2,
                name: "Prefab Construction", blurb: "−25% structure build time.",
                effect: Effect::Mods(Tuning::One(ModKey::StructureBuildTime, Factor { num: 75, den: 100 })), hidden: false },
        23 => Programme { id: "mat_autoforges", field: Field::Materials, school: None, tier: 2,
                name: "Autoforges", blurb: "Machinery recipe −20% inputs.",
                effect: Effect::Mods(Tuning::One(ModKey::MachineryInputs, Factor { num: 80, den: 100 })), hidden: false },
        24 => Programme { id: "mat_deepcrust_iii_tier4_extraction", field: Field::Materials, school: Some(School::DeepCrust), tier: 3,
                name: "Tier-IV Extraction", blurb: "Extraction structures reach tier IV.",
                effect: Effect::UnlockStructureTier(StructureKind::MiningComplex, 4), hidden: false },
        25 => Programme { id: "mat_deepcrust_iii_strip_rigs", field: Field::Materials, school: Some(School::DeepCrust), tier: 3,
                name: "Strip Rigs", blurb: "+25% extraction on moons.",
                effect: Effect::Mods(Tuning::One(ModKey::ExtractionMoons, Factor { num: 125, den: 100 })), hidden: false },
        26 => Programme { id: "mat_deepcrust_iv_trace_refining", field: Field::Materials, school: Some(School::DeepCrust), tier: 4,
                name: "Trace Refining", blurb: "Mining Complexes yield 5% Rare Elements on metallic deposits.",
                effect: Effect::Flag(Cap::TraceRefining), hidden: false },
        27 => Programme { id: "mat_deepcrust_iv_prospecting_charters", field: Field::Materials, school: Some(School::DeepCrust), tier: 4,
                name: "Prospecting Charters", blurb: "New colonies start at full deposit knowledge.",
                effect: Effect::Flag(Cap::ProspectingCharters), hidden: false },
        28 => Programme { id: "mat_deepcrust_v_mantle_taps", field: Field::Materials, school: Some(School::DeepCrust), tier: 5,
                name: "Mantle Taps", blurb: "Extraction ignores accessibility penalties.",
                effect: Effect::Flag(Cap::MantleTaps), hidden: false },
        29 => Programme { id: "mat_deepcrust_v_crown_vein", field: Field::Materials, school: Some(School::DeepCrust), tier: 5,
                name: "Crown Vein", blurb: "One designated body: deposits +1 richness band.",
                effect: Effect::Flag(Cap::CrownVein), hidden: false },
        30 => Programme { id: "mat_foundry_iii_tier4_processors", field: Field::Materials, school: Some(School::Foundry), tier: 3,
                name: "Tier-IV Processors", blurb: "Processing structures reach tier IV.",
                effect: Effect::UnlockStructureTier(StructureKind::Smelter, 4), hidden: false },
        31 => Programme { id: "mat_foundry_iii_slag_reclamation", field: Field::Materials, school: Some(School::Foundry), tier: 3,
                name: "Slag Reclamation", blurb: "Smelters emit 10% bonus Silicates.",
                effect: Effect::Flag(Cap::SlagReclamation), hidden: false },
        32 => Programme { id: "mat_foundry_iv_orbital_yards", field: Field::Materials, school: Some(School::Foundry), tier: 4,
                name: "Orbital Yards", blurb: "Shipyard tier IV.",
                effect: Effect::UnlockStructureTier(StructureKind::Shipyard, 4), hidden: false },
        33 => Programme { id: "mat_foundry_iv_arcology_frames", field: Field::Materials, school: Some(School::Foundry), tier: 4,
                name: "Arcology Frames", blurb: "Habitat tier IV.",
                effect: Effect::UnlockStructureTier(StructureKind::Habitat, 4), hidden: false },
        34 => Programme { id: "mat_foundry_v_flash_forges", field: Field::Materials, school: Some(School::Foundry), tier: 5,
                name: "Flash Forges", blurb: "Systems run 2 concurrent structure builds.",
                effect: Effect::Flag(Cap::FlashForges), hidden: false },
        35 => Programme { id: "mat_foundry_v_crown_project", field: Field::Materials, school: Some(School::Foundry), tier: 5,
                name: "Crown Project", blurb: "One designated body gains +1 slot in every pool.",
                effect: Effect::Flag(Cap::CrownProject), hidden: false },
        36 => Programme { id: "comp_sensor_gain", field: Field::Computation, school: None, tier: 1,
                name: "Sensor Gain", blurb: "+15% sensor radius.",
                effect: Effect::Mods(Tuning::One(ModKey::SensorRadius, Factor { num: 115, den: 100 })), hidden: false },
        37 => Programme { id: "comp_signal_libraries", field: Field::Computation, school: None, tier: 1,
                name: "Signal Libraries", blurb: "Rival fleets bucket one class finer to you.",
                effect: Effect::Mods(Tuning::One(ModKey::BucketFineness, Factor { num: 100, den: 100 })), hidden: false },
        38 => Programme { id: "comp_survey_protocols", field: Field::Computation, school: None, tier: 1,
                name: "Survey Protocols", blurb: "Deposit ladder advances faster.",
                effect: Effect::Mods(Tuning::One(ModKey::KnowledgeLadderRate, Factor { num: 125, den: 100 })), hidden: false },
        39 => Programme { id: "comp_predictive_plots", field: Field::Computation, school: None, tier: 2,
                name: "Predictive Plots", blurb: "Stale-intel confidence bands (view feature; arrives with the intel pass).",
                effect: Effect::Mods(Tuning::Pending), hidden: false },
        40 => Programme { id: "comp_deep_space_arrays", field: Field::Computation, school: None, tier: 2,
                name: "Deep-Space Arrays", blurb: "Sensor Array tier IV.",
                effect: Effect::UnlockStructureTier(StructureKind::SensorArray, 4), hidden: false },
        41 => Programme { id: "comp_gravimetric_survey", field: Field::Computation, school: None, tier: 2,
                name: "Gravimetric Survey", blurb: "Deposits read one R-level deeper at range (arrives with the explore pass).",
                effect: Effect::Mods(Tuning::Pending), hidden: false },
        42 => Programme { id: "comp_watch_iii_picket_networks", field: Field::Computation, school: Some(School::Watch), tier: 3,
                name: "Picket Networks", blurb: "Owned sensor radii +25%; overlaps form surveilled corridors.",
                effect: Effect::Mods(Tuning::One(ModKey::SensorRadius, Factor { num: 125, den: 100 })), hidden: false },
        43 => Programme { id: "comp_watch_iii_long_baselines", field: Field::Computation, school: Some(School::Watch), tier: 3,
                name: "Long Baselines", blurb: "+15% sensor range.",
                effect: Effect::Mods(Tuning::One(ModKey::SensorRange, Factor { num: 115, den: 100 })), hidden: false },
        44 => Programme { id: "comp_watch_iv_battle_archives", field: Field::Computation, school: Some(School::Watch), tier: 4,
                name: "Battle Archives", blurb: "Third-party battle records gain bucketed kill detail.",
                effect: Effect::Flag(Cap::BattleArchives), hidden: false },
        45 => Programme { id: "comp_watch_iv_standing_watch", field: Field::Computation, school: Some(School::Watch), tier: 4,
                name: "Standing Watch", blurb: "Contacts persist as tracked estimates after leaving coverage.",
                effect: Effect::Flag(Cap::StandingWatch), hidden: false },
        46 => Programme { id: "comp_watch_v_panopticon", field: Field::Computation, school: Some(School::Watch), tier: 5,
                name: "Panopticon Catalog", blurb: "CC auto-catalogs every battle flash whose light reaches any asset.",
                effect: Effect::Flag(Cap::PanopticonCatalog), hidden: false },
        47 => Programme { id: "comp_watch_v_survey_corps", field: Field::Computation, school: Some(School::Watch), tier: 5,
                name: "Survey Corps", blurb: "Scouts auto-advance the deposit ladder in-system.",
                effect: Effect::Flag(Cap::SurveyCorps), hidden: false },
        48 => Programme { id: "comp_shadow_iii_ecm_emitters", field: Field::Computation, school: Some(School::Shadow), tier: 3,
                name: "ECM Emitters", blurb: "Your fleets bucket one class coarser — sensor warfare; the combat matrix untouched.",
                effect: Effect::Mods(Tuning::One(ModKey::BucketCoarseness, Factor { num: 100, den: 100 })), hidden: false },
        49 => Programme { id: "comp_shadow_iii_traffic_analysis", field: Field::Computation, school: Some(School::Shadow), tier: 3,
                name: "Traffic Analysis", blurb: "Contacts reveal convoy manifest class: goods / personnel / modules.",
                effect: Effect::Flag(Cap::TrafficAnalysis), hidden: false },
        50 => Programme { id: "comp_shadow_iv_wake_analysis", field: Field::Computation, school: Some(School::Shadow), tier: 4,
                name: "Wake Analysis", blurb: "Observed fleets show estimated fuel state and origin bearing.",
                effect: Effect::Flag(Cap::WakeAnalysis), hidden: false },
        51 => Programme { id: "comp_shadow_iv_recon_suite", field: Field::Computation, school: Some(School::Shadow), tier: 4,
                name: "Recon Suite", blurb: "Utility module: +sensor radius (arrives with the utility-module pass).",
                effect: Effect::Mods(Tuning::Pending), hidden: false },
        52 => Programme { id: "comp_shadow_v_signature_mimicry", field: Field::Computation, school: Some(School::Shadow), tier: 5,
                name: "Signature Mimicry", blurb: "A designated fleet reads one count-class smaller and can present as a convoy until it engages.",
                effect: Effect::Flag(Cap::SignatureMimicry), hidden: false },
        53 => Programme { id: "comp_shadow_v_counter_intel", field: Field::Computation, school: Some(School::Shadow), tier: 5,
                name: "Counter-Intelligence", blurb: "Rival Signal Libraries / Traffic / Wake analysis read null against you.",
                effect: Effect::Flag(Cap::CounterIntel), hidden: false },
        54 => Programme { id: "weap_fire_control", field: Field::Weapons, school: None, tier: 1,
                name: "Fire Control", blurb: "+10% beam damage.",
                effect: Effect::Mods(Tuning::One(ModKey::BeamDmg, Factor { num: 110, den: 100 })), hidden: false },
        55 => Programme { id: "weap_magnetic_accelerators", field: Field::Weapons, school: None, tier: 1,
                name: "Magnetic Accelerators", blurb: "+10% driver damage.",
                effect: Effect::Mods(Tuning::One(ModKey::DriverDmg, Factor { num: 110, den: 100 })), hidden: false },
        56 => Programme { id: "weap_warhead_yields", field: Field::Weapons, school: None, tier: 1,
                name: "Warhead Yields", blurb: "+10% torpedo damage.",
                effect: Effect::Mods(Tuning::One(ModKey::TorpDmg, Factor { num: 110, den: 100 })), hidden: false },
        57 => Programme { id: "weap_hardened_magazines", field: Field::Weapons, school: None, tier: 2,
                name: "Hardened Magazines", blurb: "Warship Armaments cost −15%.",
                effect: Effect::Mods(Tuning::One(ModKey::WarshipCost, Factor { num: 85, den: 100 })), hidden: false },
        58 => Programme { id: "weap_munitions_lines", field: Field::Weapons, school: None, tier: 2,
                name: "Munitions Lines", blurb: "Modules −25% build time, −15% cost.",
                effect: Effect::Mods(Tuning::Two(ModKey::ModuleBuildTime, Factor { num: 75, den: 100 }, ModKey::ModuleCost, Factor { num: 85, den: 100 })), hidden: false },
        59 => Programme { id: "weap_fire_discipline", field: Field::Weapons, school: None, tier: 2,
                name: "Fire Discipline", blurb: "Your opening-round damage +10%.",
                effect: Effect::Mods(Tuning::One(ModKey::OpeningRoundDmg, Factor { num: 110, den: 100 })), hidden: false },
        60 => Programme { id: "weap_strike_iii_lance_array", field: Field::Weapons, school: Some(School::Strike), tier: 3,
                name: "Lance Array", blurb: "Heavy-beam module, doubly vulnerable to Reflective (arrives with the weapon-module pass).",
                effect: Effect::Mods(Tuning::Pending), hidden: false },
        61 => Programme { id: "weap_strike_iii_breaching_ordnance", field: Field::Weapons, school: Some(School::Strike), tier: 3,
                name: "Breaching Ordnance", blurb: "+25% damage to Defense Platforms.",
                effect: Effect::Mods(Tuning::One(ModKey::DmgVsPlatforms, Factor { num: 125, den: 100 })), hidden: false },
        62 => Programme { id: "weap_strike_iv_platform_lances", field: Field::Weapons, school: Some(School::Strike), tier: 4,
                name: "Platform Lances", blurb: "Defense Platforms mount Lance-profile beam fire.",
                effect: Effect::Flag(Cap::PlatformLances), hidden: false },
        63 => Programme { id: "weap_strike_iv_penetrator_slugs", field: Field::Weapons, school: Some(School::Strike), tier: 4,
                name: "Penetrator Slugs", blurb: "+15% driver damage.",
                effect: Effect::Mods(Tuning::One(ModKey::DriverDmg, Factor { num: 115, den: 100 })), hidden: false },
        64 => Programme { id: "weap_strike_v_first_strike", field: Field::Weapons, school: Some(School::Strike), tier: 5,
                name: "First Strike", blurb: "Attacking side's opening round +50%.",
                effect: Effect::Flag(Cap::FirstStrike), hidden: false },
        65 => Programme { id: "weap_strike_v_overpressure", field: Field::Weapons, school: Some(School::Strike), tier: 5,
                name: "Overpressure Warheads", blurb: "Torpedo kills splash 10% into the victim's stack (arrives with the combat pass).",
                effect: Effect::Mods(Tuning::Pending), hidden: false },
        66 => Programme { id: "weap_cm_iii_flak_doctrine", field: Field::Weapons, school: Some(School::Countermeasures), tier: 3,
                name: "Flak Doctrine", blurb: "Point-Defense interception 0.60 → 0.75.",
                effect: Effect::Mods(Tuning::One(ModKey::PdIntercept, Factor { num: 75, den: 60 })), hidden: false },
        67 => Programme { id: "weap_cm_iii_ablative_refits", field: Field::Weapons, school: Some(School::Countermeasures), tier: 3,
                name: "Ablative Refits", blurb: "Reflective blunt 0.35 → 0.45.",
                effect: Effect::Mods(Tuning::One(ModKey::ReflectBlunt, Factor { num: 45, den: 35 })), hidden: false },
        68 => Programme { id: "weap_cm_iv_platform_netfire", field: Field::Weapons, school: Some(School::Countermeasures), tier: 4,
                name: "Platform Netfire", blurb: "Defense Platforms project PD interception over the defending side.",
                effect: Effect::Flag(Cap::PlatformNetfire), hidden: false },
        69 => Programme { id: "weap_cm_iv_spall_liners", field: Field::Weapons, school: Some(School::Countermeasures), tier: 4,
                name: "Spall Liners", blurb: "Whipple blunt 0.45 → 0.55.",
                effect: Effect::Mods(Tuning::One(ModKey::WhippleBlunt, Factor { num: 55, den: 45 })), hidden: false },
        70 => Programme { id: "weap_cm_v_grand_batteries", field: Field::Weapons, school: Some(School::Countermeasures), tier: 5,
                name: "Grand Batteries", blurb: "Defense Platform V; defended side gains an opening-round alpha.",
                effect: Effect::Flag(Cap::GrandBatteries), hidden: false },
        71 => Programme { id: "weap_cm_v_citadel_compartments", field: Field::Weapons, school: Some(School::Countermeasures), tier: 5,
                name: "Citadel Compartments", blurb: "Your warships' damage pools run 20% deeper.",
                effect: Effect::Mods(Tuning::One(ModKey::DamagePoolDepth, Factor { num: 120, den: 100 })), hidden: false },
        72 => Programme { id: "hull_drydock_efficiency", field: Field::Hulls, school: None, tier: 1,
                name: "Drydock Efficiency", blurb: "Warship build time −20%.",
                effect: Effect::Mods(Tuning::One(ModKey::WarshipBuildTime, Factor { num: 80, den: 100 })), hidden: false },
        73 => Programme { id: "hull_reinforced_frames", field: Field::Hulls, school: None, tier: 1,
                name: "Reinforced Frames", blurb: "Warship hull mass +10% — tougher in the attrition math.",
                effect: Effect::Mods(Tuning::One(ModKey::HullMass, Factor { num: 110, den: 100 })), hidden: false },
        74 => Programme { id: "hull_slipway_standards", field: Field::Hulls, school: None, tier: 1,
                name: "Slipway Standards", blurb: "Warship goods cost −10%.",
                effect: Effect::Mods(Tuning::One(ModKey::WarshipCost, Factor { num: 90, den: 100 })), hidden: false },
        75 => Programme { id: "hull_rapid_rearm", field: Field::Hulls, school: None, tier: 2,
                name: "Rapid Rearm", blurb: "Damage pools recover faster at friendly Shipyards.",
                effect: Effect::Mods(Tuning::One(ModKey::RearmRate, Factor { num: 125, den: 100 })), hidden: false },
        76 => Programme { id: "hull_modular_berths", field: Field::Hulls, school: None, tier: 2,
                name: "Modular Berths", blurb: "Refits −50% time.",
                effect: Effect::Mods(Tuning::One(ModKey::RefitTime, Factor { num: 50, den: 100 })), hidden: false },
        77 => Programme { id: "hull_compartmentalization", field: Field::Hulls, school: None, tier: 2,
                name: "Compartmentalization", blurb: "Warship damage pools run 10% deeper.",
                effect: Effect::Mods(Tuning::One(ModKey::DamagePoolDepth, Factor { num: 110, den: 100 })), hidden: false },
        78 => Programme { id: "hull_line_iii_hardened_anchorage", field: Field::Hulls, school: Some(School::Line), tier: 3,
                name: "Hardened Anchorage", blurb: "Anchored fleets at owned systems take −15% damage.",
                effect: Effect::Mods(Tuning::One(ModKey::AnchoredDmgTaken, Factor { num: 85, den: 100 })), hidden: false },
        79 => Programme { id: "hull_line_iii_escort_datalink", field: Field::Hulls, school: Some(School::Line), tier: 3,
                name: "Escort Datalink", blurb: "Corvette utility module: +screening (arrives with the utility-module pass).",
                effect: Effect::Mods(Tuning::Pending), hidden: false },
        80 => Programme { id: "hull_line_iv_destroyer", field: Field::Hulls, school: Some(School::Line), tier: 4,
                name: "Destroyer Hull", blurb: "Heavy combatant: 3 module slots, slow, Armaments+Machinery-hungry (arrives with the hull pass).",
                effect: Effect::Mods(Tuning::Pending), hidden: false },
        81 => Programme { id: "hull_line_iv_fleet_escorts", field: Field::Hulls, school: Some(School::Line), tier: 4,
                name: "Fleet Escorts", blurb: "Convoys under Corvette escort take −25% raid damage.",
                effect: Effect::Mods(Tuning::One(ModKey::EscortedConvoyRaidDmg, Factor { num: 75, den: 100 })), hidden: false },
        82 => Programme { id: "hull_line_v_cruiser", field: Field::Hulls, school: Some(School::Line), tier: 5,
                name: "Cruiser Hull", blurb: "The season's prestige ship: 4 module slots, slowest combatant (arrives with the hull pass).",
                effect: Effect::Mods(Tuning::Pending), hidden: false },
        83 => Programme { id: "hull_line_v_fortress_doctrine", field: Field::Hulls, school: Some(School::Line), tier: 5,
                name: "Fortress Doctrine", blurb: "Friendly fleets disengage without exposure at your defended systems.",
                effect: Effect::Flag(Cap::FortressDoctrine), hidden: false },
        84 => Programme { id: "hull_corsair_iii_wolfpack", field: Field::Hulls, school: Some(School::Corsair), tier: 3,
                name: "Wolfpack Doctrine", blurb: "Raider stacks +15% attack per additional raider stack, capped ×2.",
                effect: Effect::Mods(Tuning::One(ModKey::WolfpackPerStack, Factor { num: 115, den: 100 })), hidden: false },
        85 => Programme { id: "hull_corsair_iii_prize_holds", field: Field::Hulls, school: Some(School::Corsair), tier: 3,
                name: "Prize Holds", blurb: "Raids steal +50% cargo.",
                effect: Effect::Mods(Tuning::One(ModKey::RaidSteal, Factor { num: 150, den: 100 })), hidden: false },
        86 => Programme { id: "hull_corsair_iv_slip_anchors", field: Field::Hulls, school: Some(School::Corsair), tier: 4,
                name: "Slip Anchors", blurb: "Raiders disengage with −50% exposure.",
                effect: Effect::Mods(Tuning::One(ModKey::RaiderDisengageExposure, Factor { num: 50, den: 100 })), hidden: false },
        87 => Programme { id: "hull_corsair_iv_blockade_runners", field: Field::Hulls, school: Some(School::Corsair), tier: 4,
                name: "Blockade Runners", blurb: "Convoy refit variant: +30% speed, −20% cargo (arrives with the refit pass).",
                effect: Effect::Mods(Tuning::Pending), hidden: false },
        88 => Programme { id: "hull_corsair_v_salvage_rigs", field: Field::Hulls, school: Some(School::Corsair), tier: 5,
                name: "Salvage Rigs", blurb: "Wreck module salvage (deferred).",
                effect: Effect::Flag(Cap::SalvageRigs), hidden: true },
        89 => Programme { id: "hull_corsair_v_boarding_parties", field: Field::Hulls, school: Some(School::Corsair), tier: 5,
                name: "Boarding Parties", blurb: "Capture intercepted cargo (deferred).",
                effect: Effect::Flag(Cap::BoardingParties), hidden: true },
        90 => Programme { id: "life_hydroponics", field: Field::Life, school: None, tier: 1,
                name: "Hydroponics", blurb: "+15% Agroplex output.",
                effect: Effect::Mods(Tuning::One(ModKey::AgroplexYield, Factor { num: 115, den: 100 })), hidden: false },
        91 => Programme { id: "life_med_bays", field: Field::Life, school: None, tier: 1,
                name: "Med Bays", blurb: "+10% population growth.",
                effect: Effect::Mods(Tuning::One(ModKey::PopGrowth, Factor { num: 110, den: 100 })), hidden: false },
        92 => Programme { id: "life_dense_housing", field: Field::Life, school: None, tier: 1,
                name: "Dense Housing", blurb: "+25% Habitat capacity.",
                effect: Effect::Mods(Tuning::One(ModKey::HabitatCap, Factor { num: 125, den: 100 })), hidden: false },
        93 => Programme { id: "life_civic_rations", field: Field::Life, school: None, tier: 2,
                name: "Civic Rations", blurb: "Rationing penalty 85% → 92%.",
                effect: Effect::Mods(Tuning::One(ModKey::RationingFloor, Factor { num: 92, den: 85 })), hidden: false },
        94 => Programme { id: "life_cryo_berths", field: Field::Life, school: None, tier: 2,
                name: "Cryo Berths", blurb: "Colony ships arrive at half capacity.",
                effect: Effect::Flag(Cap::CryoBerths), hidden: false },
        95 => Programme { id: "life_gene_crops", field: Field::Life, school: None, tier: 2,
                name: "Gene-Tailored Crops", blurb: "Agroplex +25% output, −20% Biomass input.",
                effect: Effect::Mods(Tuning::Two(ModKey::AgroplexYield, Factor { num: 125, den: 100 }, ModKey::AgroplexInputs, Factor { num: 80, den: 100 })), hidden: false },
        96 => Programme { id: "life_growth_iii_orbital_habitats", field: Field::Life, school: Some(School::Growth), tier: 3,
                name: "Orbital Habitats", blurb: "Habitat buildable on station bodies (arrives with the habitat pass).",
                effect: Effect::Mods(Tuning::Pending), hidden: false },
        97 => Programme { id: "life_growth_iii_boom_charters", field: Field::Life, school: Some(School::Growth), tier: 3,
                name: "Boom Charters", blurb: "+20% growth on bodies below half capacity.",
                effect: Effect::Mods(Tuning::One(ModKey::GrowthBelowHalf, Factor { num: 120, den: 100 })), hidden: false },
        98 => Programme { id: "life_growth_iv_xenoacclimation", field: Field::Life, school: Some(School::Growth), tier: 4,
                name: "Xenoacclimation", blurb: "Marginal body kinds become colonizable.",
                effect: Effect::Flag(Cap::Xenoacclimation), hidden: false },
        99 => Programme { id: "life_growth_iv_closed_loop", field: Field::Life, school: Some(School::Growth), tier: 4,
                name: "Closed-Loop Ecology", blurb: "Provisions consumption −30%.",
                effect: Effect::Mods(Tuning::One(ModKey::ProvisionsUse, Factor { num: 70, den: 100 })), hidden: false },
        100 => Programme { id: "life_growth_v_arcologies", field: Field::Life, school: Some(School::Growth), tier: 5,
                name: "Arcologies", blurb: "Habitat tier V.",
                effect: Effect::UnlockStructureTier(StructureKind::Habitat, 5), hidden: false },
        101 => Programme { id: "life_growth_v_generation_charters", field: Field::Life, school: Some(School::Growth), tier: 5,
                name: "Generation Charters", blurb: "Colony ships carry one specialist and arrive WellSupplied.",
                effect: Effect::Flag(Cap::GenerationCharters), hidden: false },
        102 => Programme { id: "life_talent_iii_expert_training", field: Field::Life, school: Some(School::Talent), tier: 3,
                name: "Expert Training", blurb: "Unlocks the 2.25× expert specialist tier.",
                effect: Effect::Flag(Cap::ExpertTraining), hidden: false },
        103 => Programme { id: "life_talent_iii_deep_careers", field: Field::Life, school: Some(School::Talent), tier: 3,
                name: "Deep Careers", blurb: "Specialist training time −40%.",
                effect: Effect::Mods(Tuning::One(ModKey::TrainingTime, Factor { num: 60, den: 100 })), hidden: false },
        104 => Programme { id: "life_talent_iv_academy_iv", field: Field::Life, school: Some(School::Talent), tier: 4,
                name: "Academy IV", blurb: "Academy tier IV.",
                effect: Effect::UnlockStructureTier(StructureKind::Academy, 4), hidden: false },
        105 => Programme { id: "life_talent_iv_broad_curricula", field: Field::Life, school: Some(School::Talent), tier: 4,
                name: "Broad Curricula", blurb: "Academies run 2 concurrent training jobs.",
                effect: Effect::Flag(Cap::BroadCurricula), hidden: false },
        106 => Programme { id: "life_talent_v_twin_campuses", field: Field::Life, school: Some(School::Talent), tier: 5,
                name: "Twin Campuses", blurb: "Each Habitat tier houses +1 specialist.",
                effect: Effect::Flag(Cap::TwinCampuses), hidden: false },
        _ => Programme { id: "life_talent_v_founders_institutes", field: Field::Life, school: Some(School::Talent), tier: 5,
                name: "Founders' Institutes", blurb: "Newly trained specialists start expert.",
                effect: Effect::Flag(Cap::FoundersInstitutes), hidden: false },
    }
}

/// The first catalog entry at or after position `i` whose id is `id`.
pub open spec fn lookup_from(id: Seq<char>, i: int) -> Option<Programme>
    decreases CATALOG_LEN - i,
{
    if i < 0 || i >= CATALOG_LEN {
        None
    } else if spec_programme(i).id@ == id {
        Some(spec_programme(i))
    } else {
        lookup_from(id, i + 1)
    }
}

/// The catalog entry with this id, if there is one.
pub open spec fn spec_lookup(id: Seq<char>) -> Option<Programme> {
    lookup_from(id, 0)
}

/// Look up a catalog programme by id.
pub fn programme(id: &str) -> (r: Option<Programme>)
    ensures
        r == spec_lookup(id@),
{
    let mut i: usize = 0;
    while i < CATALOG_LEN
        invariant
            i <= CATALOG_LEN,
            spec_lookup(id@) == lookup_from(id@, i as int),
        decreases CATALOG_LEN - i,
    {
        let p = programme_at(i);
        if str_eq(p.id, id) {
            return Some(p);
        }
        i = i + 1;
    }
    None
}

/// The ids of the visible entries among the first `n`, in catalog order.
pub open spec fn visible_prefix(n: int) -> Seq<&'static str>
    decreases n,
{
    if n <= 0 {
        Seq::empty()
    } else if spec_programme(n - 1).hidden {
        visible_prefix(n - 1)
    } else {
        visible_prefix(n - 1).push(spec_programme(n - 1).id)
    }
}

/// Every visible (non-hidden) programme id, in catalog order: the
/// researchable universe.
pub fn visible_ids() -> (v: Vec<&'static str>)
    ensures
        v@ == visible_prefix(CATALOG_LEN as int),
{
    let mut v: Vec<&'static str> = Vec::new();
    let mut i: usize = 0;
    while i < CATALOG_LEN
        invariant
            i <= CATALOG_LEN,
            v@ == visible_prefix(i as int),
        decreases CATALOG_LEN - i,
    {
        let p = programme_at(i);
        if !p.hidden {
            v.push(p.id);
        }
        i = i + 1;
    }
    v
}

/// Whether completed programme `q` opens the ladder for `p`: one tier below
/// in the same field — off the field's shared ladder for Tiers II and III,
/// off the same school for Tiers IV and V.
pub open spec fn spec_is_predecessor(q: Programme, p: Programme) -> bool {
    &&& q.tier + 1 == p.tier
    &&& q.field == p.field
    &&& if p.tier == 2 || p.tier == 3 { q.school is None } else { q.school == p.school }
}

fn same_school(a: Option<School>, b: Option<School>) -> (r: bool)
    ensures
        r == (a == b),
{
    match (a, b) {
        (None, None) => true,
        (Some(x), Some(y)) => x == y,
        _ => false,
    }
}

/// Does completed programme `q` satisfy the ladder predecessor of `p`?
pub fn is_predecessor(q: &Programme, p: &Programme) -> (r: bool)
    ensures
        r == spec_is_predecessor(*q, *p),
{
    if (q.tier as u32) + 1 != p.tier as u32 || q.field != p.field {
        return false;
    }
    if p.tier == 2 || p.tier == 3 {
        q.school.is_none()
    } else {
        same_school(q.school, p.school)
    }
}

/// Whether `id` is among the completed ids.
pub open spec fn spec_has(completed: Seq<String>, id: Seq<char>) -> bool {
    exists|j: int| 0 <= j < completed.len() && #[trigger] completed[j]@ == id
}

/// Whether some completed programme opens the ladder for `p`.
pub open spec fn ladder_open(completed: Seq<String>, p: Programme) -> bool {
    exists|j: int|
        0 <= j < completed.len() && match spec_lookup(#[trigger] completed[j]@) {
            Some(q) => spec_is_predecessor(q, p),
            None => false,
        }
}

/// Whether `id` is researchable now: a known, visible programme not yet
/// researched, that is Tier I, or whose tier gate is met and whose ladder a
/// completed programme opens.
pub open spec fn spec_is_available(id: Seq<char>, completed: Seq<String>, gate_met: bool) -> bool {
    match spec_lookup(id) {
        None => false,
        Some(p) => !p.hidden && !spec_has(completed, id) && (p.tier == 1 || (gate_met
            && ladder_open(completed, p))),
    }
}

/// Has this syndicate completed `id`?
pub fn has(completed: &Vec<String>, id: &str) -> (r: bool)
    ensures
        r == spec_has(completed@, id@),
{
    let mut j: usize = 0;
    while j < completed.len()
        invariant
            j <= completed.len(),
            forall|k: int| 0 <= k < j ==> completed@[k]@ != id@,
        decreases completed.len() - j,
    {
        if str_eq(completed[j].as_str(), id) {
            return true;
        }
        j = j + 1;
    }
    false
}

fn ladder_opened(completed: &Vec<String>, p: &Programme) -> (r: bool)
    ensures
        r == ladder_open(completed@, *p),
{
    let mut j: usize = 0;
    while j < completed.len()
        invariant
            j <= completed.len(),
            forall|k: int|
                0 <= k < j ==> !match spec_lookup(#[trigger] completed@[k]@) {
                    Some(q) => spec_is_predecessor(q, *p),
                    None => false,
                },
        decreases completed.len() - j,
    {
        match programme(completed[j].as_str()) {
            Some(q) => {
                if is_predecessor(&q, p) {
                    return true;
                }
            },
            None => {},
        }
        j = j + 1;
    }
    false
}

/// Is programme `id` researchable now, given the completed ids and whether
/// its tier gate ([`tier_gate`] of its field, school and tier) is currently
/// met? Tier I is always open; hidden entries never are.
pub fn is_available(id: &str, completed: &Vec<String>, gate_met: bool) -> (r: bool)
    ensures
        r == spec_is_available(id@, completed@, gate_met),
{
    let p = match programme(id) {
        Some(p) => p,
        None => return false,
    };
    if p.hidden {
        return false;
    }
    if has(completed, id) {
        return false;
    }
    if p.tier == 1 {
        return true;
    }
    if !gate_met {
        return false;
    }
    ladder_opened(completed, &p)
}

/// The throughput-seconds cost of `id` (0 for an unknown id).
pub fn cost_of(id: &str) -> (c: u32)
    ensures
        c == match spec_lookup(id@) {
            Some(p) => spec_tier_cost_secs(p.tier),
            None => 0,
        },
{
    match programme(id) {
        Some(p) => tier_cost_secs(p.tier),
        None => 0,
    }
}

/// Whether the programme with this id has exactly effect `e`.
pub open spec fn grants(id: Seq<char>, e: Effect) -> bool {
    match spec_lookup(id) {
        Some(q) => q.effect == e,
        None => false,
    }
}

/// Whether some completed programme grants `e`.
pub open spec fn any_grants(completed: Seq<String>, e: Effect) -> bool {
    exists|j: int| 0 <= j < completed.len() && grants(#[trigger] completed[j]@, e)
}

fn completed_grants(completed: &Vec<String>, e: Effect) -> (r: bool)
    ensures
        r == any_grants(completed@, e),
{
    let mut j: usize = 0;
    while j < completed.len()
        invariant
            j <= completed.len(),
            forall|k: int| 0 <= k < j ==> !grants(#[trigger] completed@[k]@, e),
        decreases completed.len() - j,
    {
        match programme(completed[j].as_str()) {
            Some(q) => {
                if q.effect == e {
                    return true;
                }
            },
            None => {},
        }
        j = j + 1;
    }
    false
}

/// Has this syndicate unlocked the given capability flag?
pub fn has_flag(completed: &Vec<String>, cap: Cap) -> (r: bool)
    ensures
        r == any_grants(completed@, Effect::Flag(cap)),
{
    completed_grants(completed, Effect::Flag(cap))
}

/// Has this syndicate unlocked the given hull?
pub fn has_hull(completed: &Vec<String>, kind: ShipKind) -> (r: bool)
    ensures
        r == any_grants(completed@, Effect::UnlockHull(kind)),
{
    completed_grants(completed, Effect::UnlockHull(kind))
}

/// Has this syndicate unlocked the given module kind?
pub fn has_module(completed: &Vec<String>, kind: ModuleKind) -> (r: bool)
    ensures
        r == any_grants(completed@, Effect::UnlockModule(kind)),
{
    completed_grants(completed, Effect::UnlockModule(kind))
}

/// The best structure tier for `kind` unlocked by the first `n` completed ids.
pub open spec fn best_tier(completed: Seq<String>, kind: StructureKind, n: int) -> u32
    decreases n,
{
    if n <= 0 {
        0
    } else {
        let prev = best_tier(completed, kind, n - 1);
        match spec_lookup(completed[n - 1]@) {
            Some(q) => match q.effect {
                Effect::UnlockStructureTier(k, t) => if k == kind && t > prev { t } else { prev },
                _ => prev,
            },
            None => prev,
        }
    }
}

/// The best tier of `kind` research has unlocked (0 if none).
pub fn unlocked_structure_tier(completed: &Vec<String>, kind: StructureKind) -> (t: u32)
    ensures
        t == best_tier(completed@, kind, completed@.len() as int),
{
    let mut best: u32 = 0;
    let mut j: usize = 0;
    while j < completed.len()
        invariant
            j <= completed.len(),
            best == best_tier(completed@, kind, j as int),
        decreases completed.len() - j,
    {
        match programme(completed[j].as_str()) {
            Some(q) => match q.effect {
                Effect::UnlockStructureTier(k, t) => {
                    if k == kind && t > best {
                        best = t;
                    }
                },
                _ => {},
            },
            None => {},
        }
        j = j + 1;
    }
    best
}

/// Replace the research queue, promoting its front to active when the
/// clock is idle.
pub fn set_queue(active: &mut Option<String>, queue: &mut Vec<String>, new_queue: Vec<String>)
    ensures
        old(active).is_none() && new_queue@.len() > 0 ==> {
            &&& *final(active) == Some(new_queue@[0])
            &&& final(queue)@ == new_queue@.drop_first()
        },
        !(old(active).is_none() && new_queue@.len() > 0) ==> {
            &&& *final(active) == *old(active)
            &&& final(queue)@ == new_queue@
        },
{
    *queue = new_queue;
    if active.is_none() && queue.len() > 0 {
        let front = queue.remove(0);
        *active = Some(front);
        proof {
            assert(final(queue)@ =~= new_queue@.drop_first());
        }
    }
}

/// Take the next queued programme to fund, if any (the front of the queue).
pub fn next_active(queue: &mut Vec<String>) -> (r: Option<String>)
    ensures
        old(queue)@.len() == 0 ==> r.is_none() && final(queue)@ == old(queue)@,
        old(queue)@.len() > 0 ==> {
            &&& r == Some(old(queue)@[0])
            &&& final(queue)@ == old(queue)@.drop_first()
        },
{
    if queue.len() == 0 {
        None
    } else {
        let front = queue.remove(0);
        proof {
            assert(queue@ =~= old(queue)@.drop_first());
        }
        Some(front)
    }
}

/// The availability rules: a hidden or unknown programme is never
/// researchable, nor one already completed; a visible Tier I programme not
/// yet completed always is, whatever the gates; and above Tier I nothing opens
/// without both its gate and a completed predecessor on its ladder.
pub proof fn availability_follows_the_ladder(id: Seq<char>, completed: Seq<String>, gate_met: bool)
    ensures
        (spec_lookup(id) is None || spec_lookup(id)->0.hidden) ==> !spec_is_available(id, completed, gate_met),
        spec_has(completed, id) ==> !spec_is_available(id, completed, gate_met),
        (spec_lookup(id) is Some && !spec_lookup(id)->0.hidden && spec_lookup(id)->0.tier == 1 && !spec_has(
            completed,
            id,
        )) ==> spec_is_available(id, completed, gate_met),
        (spec_is_available(id, completed, gate_met) && spec_lookup(id)->0.tier != 1) ==> gate_met
            && ladder_open(completed, spec_lookup(id)->0),
{
}

/// Which completed programme opens which ladder: for a programme of
/// Tier II or III, a completed programme one tier below in the same field
/// off the field's shared ladder (no school); for Tier IV or V, one tier
/// below in the same field and of the very same school, never the other
/// school's.
pub proof fn predecessors_are_one_rung_down_the_same_ladder(q: Programme, p: Programme)
    requires
        2 <= p.tier <= 5,
    ensures
        spec_is_predecessor(q, p) <==> {
            &&& q.tier + 1 == p.tier
            &&& q.field == p.field
            &&& p.tier <= 3 ==> q.school is None
            &&& p.tier >= 4 ==> q.school == p.school
        },
{
}

/// Tiers IV and V climb their own school's ladder: a visible programme
/// above Tier I is researchable exactly when it is not yet researched, its
/// gate is met, and some completed programme sits one tier below it in its
/// field — for Tiers IV and V in its own school, so a completed Tier III of
/// the field's other school opens nothing; for Tiers II and III on the
/// field's shared ladder.
pub proof fn upper_tiers_climb_their_own_school(id: Seq<char>, completed: Seq<String>, gate_met: bool, p: Programme)
    requires
        spec_lookup(id) == Some(p),
        p.tier >= 2,
    ensures
        spec_is_available(id, completed, gate_met) <==> {
            &&& !p.hidden
            &&& !spec_has(completed, id)
            &&& gate_met
            &&& exists|j: int|
                0 <= j < completed.len() && (#[trigger] spec_lookup(completed[j]@)) is Some && {
                    let q = spec_lookup(completed[j]@)->0;
                    &&& q.tier + 1 == p.tier
                    &&& q.field == p.field
                    &&& p.tier <= 3 ==> q.school is None
                    &&& p.tier >= 4 ==> q.school == p.school
                }
        },
{
    if spec_is_available(id, completed, gate_met) {
        let j = choose|j: int|
            0 <= j < completed.len() && match spec_lookup(#[trigger] completed[j]@) {
                Some(q) => spec_is_predecessor(q, p),
                None => false,
            };
        let q = spec_lookup(completed[j]@)->0;
        assert(spec_lookup(completed[j]@) == Some(q));
    }
    if !p.hidden && !spec_has(completed, id) && gate_met && exists|j: int|
        0 <= j < completed.len() && (#[trigger] spec_lookup(completed[j]@)) is Some && {
            let q = spec_lookup(completed[j]@)->0;
            &&& q.tier + 1 == p.tier
            &&& q.field == p.field
            &&& p.tier <= 3 ==> q.school is None
            &&& p.tier >= 4 ==> q.school == p.school
        } {
        let j = choose|j: int|
            0 <= j < completed.len() && (#[trigger] spec_lookup(completed[j]@)) is Some && {
                let q = spec_lookup(completed[j]@)->0;
                &&& q.tier + 1 == p.tier
                &&& q.field == p.field
                &&& p.tier <= 3 ==> q.school is None
                &&& p.tier >= 4 ==> q.school == p.school
            };
        let q = spec_lookup(completed[j]@)->0;
        assert(spec_is_predecessor(q, p));
        assert(ladder_open(completed, p));
    }
}

/// Whether the programme with this id grants `kind` structure tier `t`.
#[verifier::opaque]
pub open spec fn grants_tier(id: Seq<char>, kind: StructureKind, t: u32) -> bool {
    grants(id, Effect::UnlockStructureTier(kind, t))
}

proof fn lemma_best_tier_is_max(completed: Seq<String>, kind: StructureKind, n: int)
    requires
        0 <= n <= completed.len(),
    ensures
        forall|j: int, t: u32|
            0 <= j < n && #[trigger] grants_tier(completed[j]@, kind, t) ==> t
                <= best_tier(completed, kind, n),
        best_tier(completed, kind, n) == 0 || exists|j: int|
            0 <= j < n && #[trigger] grants_tier(completed[j]@, kind, best_tier(completed, kind, n)),
    decreases n,
{
    reveal(grants_tier);
    if n > 0 {
        lemma_best_tier_is_max(completed, kind, n - 1);
        let prev = best_tier(completed, kind, n - 1);
        let b = best_tier(completed, kind, n);
        if b != prev {
            assert(grants_tier(completed[n - 1]@, kind, (b)));
        } else if b != 0 {
            let j = choose|j: int|
                0 <= j < n - 1 && #[trigger] grants_tier(completed[j]@, kind, (prev));
            assert(grants_tier(completed[j]@, kind, (b)));
        }
        assert forall|j: int, t: u32|
            0 <= j < n && #[trigger] grants_tier(completed[j]@, kind, t) implies t
                <= b by {
            if j == n - 1 {
            }
        }
    }
}

/// Two lists naming the same programmes have the same best granted tier.
proof fn lemma_same_best(completed: Seq<String>, other: Seq<String>, kind: StructureKind, b1: u32, b2: u32)
    requires
        forall|j: int, t: u32|
            0 <= j < completed.len() && #[trigger] grants_tier(completed[j]@, kind, t) ==> t <= b1,
        b1 == 0 || exists|j: int| 0 <= j < completed.len() && #[trigger] grants_tier(completed[j]@, kind, b1),
        forall|k: int, t: u32| 0 <= k < other.len() && #[trigger] grants_tier(other[k]@, kind, t) ==> t <= b2,
        b2 == 0 || exists|k: int| 0 <= k < other.len() && #[trigger] grants_tier(other[k]@, kind, b2),
    ensures
        (forall|j: int| 0 <= j < completed.len() ==> exists|k: int| 0 <= k < other.len() && #[trigger] other[k]@
            == #[trigger] completed[j]@) && (forall|k: int| 0 <= k < other.len() ==> exists|j: int|
            0 <= j < completed.len() && #[trigger] completed[j]@ == #[trigger] other[k]@) ==> b1 == b2,
{
    if (forall|j: int| 0 <= j < completed.len() ==> exists|k: int| 0 <= k < other.len() && #[trigger] other[k]@
        == #[trigger] completed[j]@) && (forall|k: int| 0 <= k < other.len() ==> exists|j: int|
        0 <= j < completed.len() && #[trigger] completed[j]@ == #[trigger] other[k]@) {
        if b1 != 0 {
            let j = choose|j: int| 0 <= j < completed.len() && #[trigger] grants_tier(completed[j]@, kind, b1);
            let k = choose|k: int| 0 <= k < other.len() && #[trigger] other[k]@ == completed[j]@;
            assert(grants_tier(other[k]@, kind, b1));
        }
        if b2 != 0 {
            let k = choose|k: int| 0 <= k < other.len() && #[trigger] grants_tier(other[k]@, kind, b2);
            let j = choose|j: int| 0 <= j < completed.len() && #[trigger] completed[j]@ == other[k]@;
            assert(grants_tier(completed[j]@, kind, b2));
        }
    }
}

/// The structure tier research has unlocked is the best one any completed
/// programme grants: no completed programme grants `kind` a higher tier,
/// and, unless it is 0 (none granted), some completed programme grants
/// exactly it. So it does not depend on the order the programmes were
/// completed in: two lists naming the same programmes unlock the same tier.
pub proof fn the_unlocked_tier_is_the_best_granted(completed: Seq<String>, other: Seq<String>, kind: StructureKind)
    ensures
        forall|j: int, t: u32|
            0 <= j < completed.len() && #[trigger] grants_tier(completed[j]@, kind, t)
                ==> t <= best_tier(completed, kind, completed.len() as int),
        best_tier(completed, kind, completed.len() as int) == 0 || exists|j: int|
            0 <= j < completed.len() && #[trigger] grants_tier(completed[j]@, kind, best_tier(completed, kind, completed.len() as int)),
        (forall|j: int| 0 <= j < completed.len() ==> exists|k: int| 0 <= k < other.len() && #[trigger] other[k]@
            == #[trigger] completed[j]@) && (forall|k: int| 0 <= k < other.len() ==> exists|j: int|
            0 <= j < completed.len() && #[trigger] completed[j]@ == #[trigger] other[k]@) ==> best_tier(
            completed,
            kind,
            completed.len() as int,
        ) == best_tier(other, kind, other.len() as int),
{
    lemma_best_tier_is_max(completed, kind, completed.len() as int);
    lemma_best_tier_is_max(other, kind, other.len() as int);
    lemma_same_best(
        completed,
        other,
        kind,
        best_tier(completed, kind, completed.len() as int),
        best_tier(other, kind, other.len() as int),
    );
}

/// Whether a catalog entry is shaped as the boards require: tier I–V, shared
/// at Tiers I and II, and in a school of its own field at Tiers III–V.
pub open spec fn well_formed_entry(p: Programme) -> bool {
    &&& 1 <= p.tier <= 5
    &&& if p.tier <= 2 {
        p.school is None
    } else {
        p.school is Some && spec_school_field(p.school->0) == p.field
    }
}

/// Every catalog entry is shaped as the boards require.
pub proof fn catalog_is_well_formed()
    ensures
        forall|i: int| 0 <= i < CATALOG_LEN ==> well_formed_entry(#[trigger] spec_programme(i)),
{
}

} // verus!
