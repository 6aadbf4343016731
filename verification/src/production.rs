//! The production assignment engine's tables: which structure works each
//! deposit, the converter recipes of the industrial web, and the latched
//! suspension reasons.
//!
//! Recipe quantities are exact hundredths of a unit (every rate and basket
//! has two decimals), so the basket invariants are integer facts proved over
//! the table.

use vstd::prelude::*;

use crate::structure::{StructureKind, is_extraction};
use crate::cargo::{Commodity, is_raw};
use crate::specialist::SpecialistKind;
use std::collections::BTreeMap;

verus! {

/// Hundredths in one unit.
pub const HUNDREDTHS_PER_UNIT: u32 = 100;

/// The extraction structure for a raw commodity.
pub open spec fn spec_extraction_structure(c: Commodity) -> Option<StructureKind> {
    match c {
        Commodity::Biomass => Some(StructureKind::Bioharvester),
        Commodity::Volatiles => Some(StructureKind::VolatileHarvester),
        Commodity::MetallicOre | Commodity::Silicates | Commodity::RareElements => Some(
            StructureKind::MiningComplex,
        ),
        _ => None,
    }
}

/// Which structure works a deposit of this commodity (extraction only — a
/// processed or advanced good has no deposit).
pub fn extraction_structure(c: Commodity) -> (s: Option<StructureKind>)
    ensures
        s == spec_extraction_structure(c),
        s is Some <==> is_raw(c),
        s matches Some(k) ==> is_extraction(k),
{
    match c {
        Commodity::Biomass => Some(StructureKind::Bioharvester),
        Commodity::Volatiles => Some(StructureKind::VolatileHarvester),
        Commodity::MetallicOre | Commodity::Silicates | Commodity::RareElements => {
            Some(StructureKind::MiningComplex)
        },
        _ => None,
    }
}

/// One industrial conversion: `structure` turns `inputs` (hundredths of a
/// unit, per unit of output) into `output` at `rate_hundredths` hundredths of
/// a unit per second at throughput 1.
#[derive(Debug, Clone, PartialEq)]
pub struct Converter {
    pub structure: StructureKind,
    pub output: Commodity,
    pub rate_hundredths: u32,
    pub inputs: Vec<(Commodity, u32)>,
}

/// Number of conversions in the industrial web.
pub const CONVERTER_COUNT: usize = 7;

/// Row `i` of the converter table: structure, output, rate, basket.
pub open spec fn converter_row(i: int) -> (StructureKind, Commodity, u32, Seq<(Commodity, u32)>) {
    if i == 0 {
        (StructureKind::Smelter, Commodity::Alloys, 100, seq![(Commodity::MetallicOre, 150u32), (Commodity::Fuel, 30u32)])
    } else if i == 1 {
        (StructureKind::ElectronicsFabricator, Commodity::Electronics, 50, seq![(Commodity::RareElements, 80u32), (Commodity::Silicates, 80u32)])
    } else if i == 2 {
        (StructureKind::ChemicalWorks, Commodity::Polymers, 80, seq![(Commodity::Volatiles, 100u32), (Commodity::Biomass, 80u32)])
    } else if i == 3 {
        (StructureKind::FuelRefinery, Commodity::Fuel, 80, seq![(Commodity::Volatiles, 100u32)])
    } else if i == 4 {
        (StructureKind::Agroplex, Commodity::Provisions, 120, seq![(Commodity::Biomass, 100u32)])
    } else if i == 5 {
        (StructureKind::MachineWorks, Commodity::Machinery, 30, seq![(Commodity::Alloys, 120u32), (Commodity::Electronics, 60u32), (Commodity::Fuel, 40u32)])
    } else {
        (StructureKind::ArmamentsComplex, Commodity::Armaments, 35, seq![(Commodity::Alloys, 100u32), (Commodity::Electronics, 50u32), (Commodity::Polymers, 50u32)])
    }
}

/// Total hundredths a basket draws per unit of output.
pub open spec fn basket_total(b: Seq<(Commodity, u32)>) -> nat
    decreases b.len(),
{
    if b.len() == 0 {
        0
    } else {
        basket_total(b.drop_last()) + b.last().1 as nat
    }
}

/// A converter value matches row `i` of the table.
pub open spec fn matches_row(c: Converter, i: int) -> bool {
    let (s, o, r, b) = converter_row(i);
    c.structure == s && c.output == o && c.rate_hundredths == r && c.inputs@ == b
}

fn row(
    structure: StructureKind,
    output: Commodity,
    rate_hundredths: u32,
    inputs: Vec<(Commodity, u32)>,
) -> (c: Converter)
    ensures
        c.structure == structure,
        c.output == output,
        c.rate_hundredths == rate_hundredths,
        c.inputs@ == inputs@,
{
    Converter { structure, output, rate_hundredths, inputs }
}

/// The seven conversions of the industrial web (five processed goods, two
/// advanced), in table order.
pub fn converters() -> (v: Vec<Converter>)
    ensures
        v@.len() == CONVERTER_COUNT,
        forall|i: int| 0 <= i < CONVERTER_COUNT ==> matches_row(#[trigger] v@[i], i),
{
    let mut v: Vec<Converter> = Vec::new();
    v.push(row(StructureKind::Smelter, Commodity::Alloys, 100, vec![(Commodity::MetallicOre, 150), (Commodity::Fuel, 30)]));
    v.push(row(StructureKind::ElectronicsFabricator, Commodity::Electronics, 50, vec![(Commodity::RareElements, 80), (Commodity::Silicates, 80)]));
    v.push(row(StructureKind::ChemicalWorks, Commodity::Polymers, 80, vec![(Commodity::Volatiles, 100), (Commodity::Biomass, 80)]));
    v.push(row(StructureKind::FuelRefinery, Commodity::Fuel, 80, vec![(Commodity::Volatiles, 100)]));
    v.push(row(StructureKind::Agroplex, Commodity::Provisions, 120, vec![(Commodity::Biomass, 100)]));
    v.push(row(StructureKind::MachineWorks, Commodity::Machinery, 30, vec![(Commodity::Alloys, 120), (Commodity::Electronics, 60), (Commodity::Fuel, 40)]));
    v.push(row(StructureKind::ArmamentsComplex, Commodity::Armaments, 35, vec![(Commodity::Alloys, 100), (Commodity::Electronics, 50), (Commodity::Polymers, 50)]));
    proof {
        assert(matches_row(v@[0], 0));
        assert(matches_row(v@[1], 1));
        assert(matches_row(v@[2], 2));
        assert(v@[3].inputs@ =~= seq![(Commodity::Volatiles, 100u32)]);
        assert(matches_row(v@[3], 3));
        assert(v@[4].inputs@ =~= seq![(Commodity::Biomass, 100u32)]);
        assert(matches_row(v@[4], 4));
        assert(matches_row(v@[5], 5));
        assert(matches_row(v@[6], 6));
    }
    v
}

/// The conversion a structure kind runs, if it is a converter.
pub fn converter_for(kind: StructureKind) -> (c: Option<Converter>)
    ensures
        match c {
            Some(conv) => exists|i: int| 0 <= i < CONVERTER_COUNT && converter_row(i).0 == kind
                && #[trigger] matches_row(conv, i),
            None => forall|i: int| 0 <= i < CONVERTER_COUNT ==> #[trigger] converter_row(i).0 != kind,
        },
{
    let table = converters();
    let mut i: usize = 0;
    let mut table = table;
    while i < table.len()
        invariant
            table@.len() == CONVERTER_COUNT,
            i <= CONVERTER_COUNT,
            forall|j: int| 0 <= j < CONVERTER_COUNT ==> matches_row(#[trigger] table@[j], j),
            forall|j: int| 0 <= j < i ==> #[trigger] converter_row(j).0 != kind,
        decreases table@.len() - i,
    {
        if table[i].structure == kind {
            let ghost gi = i as int;
            let c = table.swap_remove(i);
            proof {
                assert(matches_row(c, gi));
            }
            return Some(c);
        }
        proof {
            assert(matches_row(table@[i as int], i as int));
        }
        i = i + 1;
    }
    None
}

/// Conversion never net-adds units: every basket draws at least one whole
/// unit of input per unit of output, so industry cannot overflow storage.
pub proof fn converter_baskets_never_net_add_units(i: int)
    requires
        0 <= i < CONVERTER_COUNT,
    ensures
        basket_total(converter_row(i).3) >= HUNDREDTHS_PER_UNIT,
{
    reveal_with_fuel(basket_total, 4);
    let b = converter_row(i).3;
    if b.len() == 1 {
        assert(b.drop_last() =~= Seq::<(Commodity, u32)>::empty());
    } else if b.len() == 2 {
        assert(b.drop_last().drop_last() =~= Seq::<(Commodity, u32)>::empty());
        assert(b.drop_last() =~= seq![b[0]]);
    } else {
        assert(b.drop_last().drop_last().drop_last() =~= Seq::<(Commodity, u32)>::empty());
        assert(b.drop_last().drop_last() =~= seq![b[0]]);
        assert(b.drop_last() =~= seq![b[0], b[1]]);
    }
}

/// Converters and extraction partition the producing structures: no two
/// converters share a structure, and no extraction structure converts.
pub proof fn converters_partition_the_producing_structures(i: int, j: int)
    requires
        0 <= i < CONVERTER_COUNT,
        0 <= j < CONVERTER_COUNT,
    ensures
        i != j ==> converter_row(i).0 != converter_row(j).0,
        !is_extraction(converter_row(i).0),
{
}

/// Why a production line is suspended (food > inputs > storage).
#[derive(Debug, Clone, Copy, PartialEq, Eq, Structural)]
pub enum SuspendReason {
    /// The colony cannot feed this line's workers.
    NoFood,
    /// The input basket is empty locally.
    NoInputs,
    /// The stockpile is at the storage cap.
    StorageFull,
}

impl SuspendReason {
    /// Stable wire slug.
    pub fn slug(self) -> (s: &'static str)
        ensures
            s@ == match self {
                SuspendReason::NoFood => "no_food"@,
                SuspendReason::NoInputs => "no_inputs"@,
                SuspendReason::StorageFull => "storage_full"@,
            },
    {
        match self {
            SuspendReason::NoFood => "no_food",
            SuspendReason::NoInputs => "no_inputs",
            SuspendReason::StorageFull => "storage_full",
        }
    }
}

/// A standing production assignment: `workers` crews posted to one
/// structure, specialists drawn from the resident pool, and the latched
/// suspension (`None` = running).
#[derive(Debug, Clone, PartialEq)]
pub struct Assignment {
    pub workers: u32,
    pub specialists: BTreeMap<SpecialistKind, u32>,
    pub suspended: Option<SuspendReason>,
}

impl Assignment {
    /// A plain posting of `workers` generic crews: no specialists, running.
    pub fn crew(workers: u32) -> (a: Assignment)
        ensures
            a.workers == workers,
            a.specialists@ == Map::<SpecialistKind, u32>::empty(),
            a.suspended is None,
    {
        Assignment { workers, specialists: BTreeMap::new(), suspended: None }
    }
}

} // verus!
