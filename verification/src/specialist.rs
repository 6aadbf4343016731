//! Specialists: rare people, not goods — five professions, the structures
//! each one's skill applies to, and the passenger berths that carry them.

use vstd::prelude::*;

use crate::structure::StructureKind;
use crate::ship::ShipKind;

verus! {

/// The five specialist professions.
#[derive(Debug, Clone, Copy, PartialEq, Eq, PartialOrd, Ord, Hash, Structural)]
pub enum SpecialistKind {
    Geologist,
    PetrochemicalEngineer,
    Xenobiologist,
    IndustrialEngineer,
    NavalArchitect,
}

/// The affinity table: which structures a profession's skill applies to.
pub open spec fn spec_affine(k: SpecialistKind, s: StructureKind) -> bool {
    match k {
        SpecialistKind::Geologist => s == StructureKind::MiningComplex,
        SpecialistKind::PetrochemicalEngineer => s == StructureKind::VolatileHarvester
            || s == StructureKind::FuelRefinery || s == StructureKind::ChemicalWorks,
        SpecialistKind::Xenobiologist => s == StructureKind::Bioharvester || s == StructureKind::Agroplex,
        SpecialistKind::IndustrialEngineer => s == StructureKind::Smelter
            || s == StructureKind::ElectronicsFabricator || s == StructureKind::MachineWorks
            || s == StructureKind::ArmamentsComplex,
        SpecialistKind::NavalArchitect => s == StructureKind::Shipyard || s == StructureKind::ArmamentsComplex,
    }
}

/// Passenger berths per hull.
pub open spec fn spec_passenger_capacity(kind: ShipKind) -> u32 {
    match kind {
        ShipKind::Convoy => 4,
        ShipKind::Colony => 8,
        _ => 0,
    }
}

impl SpecialistKind {
    /// Every profession, in stable order.
    pub const ALL: [SpecialistKind; 5] = [
        SpecialistKind::Geologist,
        SpecialistKind::PetrochemicalEngineer,
        SpecialistKind::Xenobiologist,
        SpecialistKind::IndustrialEngineer,
        SpecialistKind::NavalArchitect,
    ];

    /// Stable wire slug.
    pub fn slug(self) -> (s: &'static str)
        ensures
            s@ == match self {
                SpecialistKind::Geologist => "geologist"@,
                SpecialistKind::PetrochemicalEngineer => "petrochemical_engineer"@,
                SpecialistKind::Xenobiologist => "xenobiologist"@,
                SpecialistKind::IndustrialEngineer => "industrial_engineer"@,
                SpecialistKind::NavalArchitect => "naval_architect"@,
            },
    {
        match self {
            SpecialistKind::Geologist => "geologist",
            SpecialistKind::PetrochemicalEngineer => "petrochemical_engineer",
            SpecialistKind::Xenobiologist => "xenobiologist",
            SpecialistKind::IndustrialEngineer => "industrial_engineer",
            SpecialistKind::NavalArchitect => "naval_architect",
        }
    }

    /// The human title.
    pub fn title(self) -> (s: &'static str)
        ensures
            s@ == match self {
                SpecialistKind::Geologist => "Geologist"@,
                SpecialistKind::PetrochemicalEngineer => "Petrochemical Engineer"@,
                SpecialistKind::Xenobiologist => "Xenobiologist"@,
                SpecialistKind::IndustrialEngineer => "Industrial Engineer"@,
                SpecialistKind::NavalArchitect => "Naval Architect"@,
            },
    {
        match self {
            SpecialistKind::Geologist => "Geologist",
            SpecialistKind::PetrochemicalEngineer => "Petrochemical Engineer",
            SpecialistKind::Xenobiologist => "Xenobiologist",
            SpecialistKind::IndustrialEngineer => "Industrial Engineer",
            SpecialistKind::NavalArchitect => "Naval Architect",
        }
    }

    /// Whether this profession's skill bonus applies to `structure`.
    /// Off-affinity a specialist still works as a generic crew member.
    pub fn affine(self, structure: StructureKind) -> (r: bool)
        ensures
            r == spec_affine(self, structure),
    {
        match (self, structure) {
            (SpecialistKind::Geologist, StructureKind::MiningComplex) => true,
            (SpecialistKind::PetrochemicalEngineer, StructureKind::VolatileHarvester)
            | (SpecialistKind::PetrochemicalEngineer, StructureKind::FuelRefinery)
            | (SpecialistKind::PetrochemicalEngineer, StructureKind::ChemicalWorks) => true,
            (SpecialistKind::Xenobiologist, StructureKind::Bioharvester)
            | (SpecialistKind::Xenobiologist, StructureKind::Agroplex) => true,
            (SpecialistKind::IndustrialEngineer, StructureKind::Smelter)
            | (SpecialistKind::IndustrialEngineer, StructureKind::ElectronicsFabricator)
            | (SpecialistKind::IndustrialEngineer, StructureKind::MachineWorks)
            | (SpecialistKind::IndustrialEngineer, StructureKind::ArmamentsComplex) => true,
            (SpecialistKind::NavalArchitect, StructureKind::Shipyard)
            | (SpecialistKind::NavalArchitect, StructureKind::ArmamentsComplex) => true,
            _ => false,
        }
    }
}

/// Passenger berths per ship of each kind: only the logistics hulls carry
/// people; warships, scouts and the Authority freighter carry none.
pub fn passenger_capacity(kind: ShipKind) -> (r: u32)
    ensures
        r == spec_passenger_capacity(kind),
{
    match kind {
        ShipKind::Convoy => 4,
        ShipKind::Colony => 8,
        ShipKind::Freighter | ShipKind::Scout | ShipKind::Raider | ShipKind::Corvette
        | ShipKind::Destroyer | ShipKind::Cruiser | ShipKind::Battleship | ShipKind::Dreadnought
        | ShipKind::Titan | ShipKind::Transport | ShipKind::Builder => 0,
    }
}

/// Every producing structure (each converter, each extraction structure and
/// the shipyard) has at least one affine profession; housing, training and
/// sensor structures produce nothing.
pub proof fn every_producing_structure_has_an_affine_profession(s: StructureKind)
    requires
        s != StructureKind::Habitat,
        s != StructureKind::Academy,
        s != StructureKind::SensorArray,
    ensures
        exists|k: SpecialistKind| #[trigger] spec_affine(k, s),
{
    match s {
        StructureKind::MiningComplex => assert(spec_affine(SpecialistKind::Geologist, s)),
        StructureKind::VolatileHarvester | StructureKind::FuelRefinery | StructureKind::ChemicalWorks =>
            assert(spec_affine(SpecialistKind::PetrochemicalEngineer, s)),
        StructureKind::Bioharvester | StructureKind::Agroplex => assert(spec_affine(SpecialistKind::Xenobiologist, s)),
        StructureKind::Shipyard => assert(spec_affine(SpecialistKind::NavalArchitect, s)),
        _ => assert(spec_affine(SpecialistKind::IndustrialEngineer, s)),
    }
}

} // verus!
