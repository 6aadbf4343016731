use sim::cargo::Commodity;
use sim::production::{converter_for, converters, extraction_structure, HUNDREDTHS_PER_UNIT};
use sim::specialist::{passenger_capacity, SpecialistKind};
use sim::ship::ShipKind;
use sim::structure::StructureKind;

#[test]
fn converter_baskets_never_net_add_units() {
    for conv in converters() {
        let total_in: u32 = conv.inputs.iter().map(|(_, per)| *per).sum();
        assert!(
            total_in >= HUNDREDTHS_PER_UNIT,
            "{:?}: basket {total_in} hundredths < 1 unit per output",
            conv.structure
        );
    }
}

#[test]
fn converters_and_extraction_partition_the_producing_structures() {
    let all = converters();
    for (i, a) in all.iter().enumerate() {
        for b in &all[i + 1..] {
            assert_ne!(a.structure, b.structure);
        }
        assert!(!matches!(
            a.structure,
            StructureKind::MiningComplex | StructureKind::VolatileHarvester | StructureKind::Bioharvester
        ));
    }
}

#[test]
fn extraction_structures_work_only_the_raw_goods() {
    assert_eq!(extraction_structure(Commodity::Biomass), Some(StructureKind::Bioharvester));
    assert_eq!(extraction_structure(Commodity::Volatiles), Some(StructureKind::VolatileHarvester));
    assert_eq!(extraction_structure(Commodity::MetallicOre), Some(StructureKind::MiningComplex));
    assert_eq!(extraction_structure(Commodity::Silicates), Some(StructureKind::MiningComplex));
    assert_eq!(extraction_structure(Commodity::RareElements), Some(StructureKind::MiningComplex));
    for c in [Commodity::Alloys, Commodity::Electronics, Commodity::Fuel, Commodity::Machinery, Commodity::Armaments] {
        assert_eq!(extraction_structure(c), None, "{c:?} has no deposit");
    }
}

#[test]
fn a_converter_is_found_by_its_structure() {
    let smelter = converter_for(StructureKind::Smelter).expect("the smelter converts");
    assert_eq!(smelter.output, Commodity::Alloys);
    assert_eq!(smelter.inputs, vec![(Commodity::MetallicOre, 150), (Commodity::Fuel, 30)]);
    assert!(converter_for(StructureKind::MiningComplex).is_none());
    assert!(converter_for(StructureKind::Habitat).is_none());
    assert_eq!(converters().len(), 7);
}

#[test]
fn only_logistics_hulls_carry_passengers() {
    assert!(passenger_capacity(ShipKind::Convoy) > 0);
    assert!(passenger_capacity(ShipKind::Colony) > 0);
    assert_eq!(passenger_capacity(ShipKind::Raider), 0);
    assert_eq!(passenger_capacity(ShipKind::Corvette), 0);
    assert_eq!(passenger_capacity(ShipKind::Scout), 0);
}

#[test]
fn every_producing_structure_has_at_least_one_affine_profession() {
    let mut producing: Vec<StructureKind> = converters().iter().map(|c| c.structure).collect();
    producing.extend([
        StructureKind::MiningComplex,
        StructureKind::VolatileHarvester,
        StructureKind::Bioharvester,
        StructureKind::Shipyard,
    ]);
    for s in producing {
        assert!(SpecialistKind::ALL.iter().any(|k| k.affine(s)), "{s:?} has no affine specialist");
    }
}

#[test]
fn specialist_slugs_and_titles() {
    assert_eq!(SpecialistKind::NavalArchitect.slug(), "naval_architect");
    assert_eq!(SpecialistKind::PetrochemicalEngineer.title(), "Petrochemical Engineer");
    assert!(SpecialistKind::Geologist.affine(StructureKind::MiningComplex));
    assert!(!SpecialistKind::Geologist.affine(StructureKind::Smelter));
}
