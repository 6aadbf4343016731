//! Structure kinds sited on a colony's bodies.

use vstd::prelude::*;

verus! {

/// A colony structure.
#[derive(Debug, Clone, Copy, PartialEq, Eq, PartialOrd, Ord, Hash, Structural)]
pub enum StructureKind {
    // Extraction.
    MiningComplex,
    VolatileHarvester,
    Bioharvester,
    // Conversion.
    Smelter,
    ElectronicsFabricator,
    ChemicalWorks,
    FuelRefinery,
    Agroplex,
    MachineWorks,
    ArmamentsComplex,
    // Yards, housing, training, sensors.
    Shipyard,
    Habitat,
    Academy,
    SensorArray,
}

/// Is this an extraction structure (one that works a deposit)?
pub open spec fn is_extraction(s: StructureKind) -> bool {
    s == StructureKind::MiningComplex || s == StructureKind::VolatileHarvester
        || s == StructureKind::Bioharvester
}

} // verus!
