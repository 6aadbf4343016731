//! The tradeable goods: raw, processed and advanced.

use vstd::prelude::*;

verus! {

/// A tradeable good.
#[derive(Debug, Clone, Copy, PartialEq, Eq, PartialOrd, Ord, Hash, Structural)]
pub enum Commodity {
    // Raw (extracted from deposits).
    Biomass,
    Volatiles,
    MetallicOre,
    Silicates,
    RareElements,
    // The ore ladder and what it refines into.
    CupriteOre,
    TitaniumOre,
    CrystallineOre,
    RareMetalOre,
    ConductiveMetals,
    Titanium,
    // Processed.
    Alloys,
    Electronics,
    Polymers,
    Fuel,
    Provisions,
    Composites,
    // Advanced.
    Machinery,
    Armaments,
    DriveAssemblies,
    PrecisionComponents,
    HullSections,
}

/// Is this a raw good (one a deposit yields)?
pub open spec fn is_raw(c: Commodity) -> bool {
    c == Commodity::Biomass || c == Commodity::Volatiles || c == Commodity::MetallicOre
        || c == Commodity::Silicates || c == Commodity::RareElements
}

} // verus!
