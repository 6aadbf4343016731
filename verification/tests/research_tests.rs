use std::collections::BTreeSet;

use sim::research::{
    cost_of, field_affinity, has, has_flag, has_hull, is_available, next_active, programme, programme_at,
    set_queue, tier_cost_secs, tier_gate, unlocked_structure_tier, visible_ids, Cap, Effect, Factor, Field, Gate,
    Metric, ModKey, Programme, School, Tuning, Verb, CATALOG_LEN,
};
use sim::ship::ShipKind;
use sim::specialist::SpecialistKind;
use sim::structure::StructureKind;

fn catalog() -> Vec<Programme> {
    (0..CATALOG_LEN).map(programme_at).collect()
}

fn gate_met(gate: Gate, verbs: &[(Verb, u32)], metric: &dyn Fn(Metric) -> u32) -> bool {
    match gate {
        Gate::Open => true,
        Gate::Cumulative(v, t) => verbs.iter().filter(|(x, _)| *x == v).map(|(_, n)| *n).sum::<u32>() >= t,
        Gate::State(m, t) => metric(m) >= t,
        Gate::Sustained(..) => false,
    }
}

fn available(id: &str, completed: &Vec<String>, verbs: &[(Verb, u32)], metric: &dyn Fn(Metric) -> u32) -> bool {
    let gate = match programme(id) {
        Some(p) => tier_gate(p.field, p.school, p.tier),
        None => Gate::Open,
    };
    is_available(id, completed, gate_met(gate, verbs, metric))
}

fn no_metrics(_: Metric) -> u32 {
    0
}

#[test]
fn catalog_is_well_formed() {
    let mut seen = BTreeSet::new();
    for p in catalog() {
        assert!(seen.insert(p.id), "duplicate catalog id {}", p.id);
        assert!((1..=5).contains(&p.tier), "{} has bad tier {}", p.id, p.tier);
        if p.tier <= 2 {
            assert!(p.school.is_none(), "{} tier {} must be shared", p.id, p.tier);
        } else {
            let s = p.school.expect("school tier needs a school");
            assert_eq!(s.field(), p.field, "{}'s school is in the wrong field", p.id);
        }
    }
}

#[test]
fn catalog_is_the_full_six_board_tree() {
    let all = catalog();
    assert_eq!(all.len(), 108, "the full tree is 108 programmes");
    for field in [Field::Propulsion, Field::Materials, Field::Computation, Field::Weapons, Field::Hulls, Field::Life] {
        let of_field: Vec<&Programme> = all.iter().filter(|p| p.field == field).collect();
        assert_eq!(of_field.len(), 18, "{field:?} has 18 programmes");
        let schools: BTreeSet<School> = of_field.iter().filter_map(|p| p.school).collect();
        assert_eq!(schools.len(), 2, "{field:?} forks into exactly two schools");
        for s in schools {
            for t in 3..=5u8 {
                let n = of_field.iter().filter(|p| p.school == Some(s) && p.tier == t).count();
                assert_eq!(n, 2, "{s:?} tier {t} has two programmes");
            }
        }
        for t in 1..=2u8 {
            let n = of_field.iter().filter(|p| p.school.is_none() && p.tier == t).count();
            assert_eq!(n, 3, "{field:?} shared tier {t} has three programmes");
        }
    }
    let hidden: Vec<&str> = all.iter().filter(|p| p.hidden).map(|p| p.id).collect();
    assert_eq!(hidden, vec!["hull_corsair_v_salvage_rigs", "hull_corsair_v_boarding_parties"]);
    assert_eq!(visible_ids().len(), 106);
}

#[test]
fn tier_one_is_always_open_and_hidden_never() {
    let st: Vec<String> = Vec::new();
    assert!(available("prop_drive_tuning", &st, &[], &no_metrics), "Tier I opens immediately");
    assert!(!available("hull_corsair_v_salvage_rigs", &st, &[], &no_metrics), "hidden is never researchable");
    assert!(!available("nonexistent", &st, &[], &no_metrics));
}

#[test]
fn tier_two_needs_the_field_gate_and_a_tier_one_completion() {
    let mut st: Vec<String> = Vec::new();
    let mut verbs: Vec<(Verb, u32)> = Vec::new();
    assert!(!available("prop_military_drives", &st, &verbs, &no_metrics), "gated + no predecessor");
    st.push("prop_drive_tuning".into());
    assert!(!available("prop_military_drives", &st, &verbs, &no_metrics), "predecessor alone isn't enough");
    verbs.push((Verb::LyFlown, 200));
    assert!(available("prop_military_drives", &st, &verbs, &no_metrics), "gate + predecessor opens it");
}

#[test]
fn ladder_rule_deep_rush_skips_siblings_but_they_remain_researchable() {
    let mut st: Vec<String> = Vec::new();
    let mut verbs: Vec<(Verb, u32)> = Vec::new();
    st.push("prop_drive_tuning".into());
    verbs.push((Verb::LyFlown, 200));
    st.push("prop_military_drives".into());
    verbs.push((Verb::ConvoyDeliveries, 30));
    assert!(available("prop_line_express_charters", &st, &verbs, &no_metrics), "school III opens");
    st.push("prop_line_express_charters".into());
    assert!(available("prop_line_drop_berths", &st, &verbs, &no_metrics), "IV opens off a III completion");
    assert!(!available("prop_line_autonomous_freight", &st, &verbs, &no_metrics), "V still needs a IV first");
}

#[test]
fn unlock_lookups() {
    let mut st: Vec<String> = Vec::new();
    assert_eq!(unlocked_structure_tier(&st, StructureKind::Shipyard), 0);
    assert!(!has_flag(&st, Cap::AutonomousFreight));
    st.push("mat_foundry_iv_orbital_yards".into());
    st.push("prop_line_autonomous_freight".into());
    assert_eq!(unlocked_structure_tier(&st, StructureKind::Shipyard), 4);
    assert!(has_flag(&st, Cap::AutonomousFreight));
    assert!(!has_flag(&st, Cap::SalvageRigs), "hidden entry never completed");
    assert!(!has_hull(&st, ShipKind::Corvette));
}

#[test]
fn the_best_unlocked_structure_tier_wins() {
    let mut st: Vec<String> = vec!["life_growth_v_arcologies".into()];
    assert_eq!(unlocked_structure_tier(&st, StructureKind::Habitat), 5);
    st.push("mat_foundry_iv_arcology_frames".into());
    assert_eq!(unlocked_structure_tier(&st, StructureKind::Habitat), 5, "a later, lower unlock does not lower it");
    assert_eq!(unlocked_structure_tier(&st, StructureKind::Academy), 0);
}

#[test]
fn tier_gates_and_costs() {
    assert_eq!(tier_gate(Field::Propulsion, None, 1), Gate::Open);
    assert_eq!(tier_gate(Field::Propulsion, None, 2), Gate::Cumulative(Verb::LyFlown, 200));
    assert_eq!(tier_gate(Field::Materials, None, 2), Gate::Cumulative(Verb::UnitsThroughIndustry, 10_000));
    assert_eq!(tier_gate(Field::Life, Some(School::Growth), 3), Gate::State(Metric::TotalPopulation, 20));
    assert_eq!(
        tier_gate(Field::Life, Some(School::Growth), 5),
        Gate::Sustained(Metric::WellSuppliedSystems, 5, 7 * 24 * 3600)
    );
    assert_eq!(tier_gate(Field::Hulls, Some(School::Corsair), 4), Gate::Open, "IV is ladder-governed");
    assert_eq!(tier_cost_secs(1), 2 * 3600);
    assert_eq!(tier_cost_secs(3), 24 * 3600);
    assert_eq!(tier_cost_secs(5), 168 * 3600);
    assert_eq!(cost_of("prop_drive_tuning"), 7_200);
    assert_eq!(cost_of("nonexistent"), 0);
}

#[test]
fn lookups_and_tuning_factors() {
    let p = programme("prop_line_drop_berths").expect("catalogued");
    assert_eq!(p.tier, 4);
    assert_eq!(p.school, Some(School::LineHaul));
    assert_eq!(
        p.effect,
        Effect::Mods(Tuning::Two(
            ModKey::ColonyCost,
            Factor { num: 70, den: 100 },
            ModKey::ColonyBuildTime,
            Factor { num: 70, den: 100 }
        ))
    );
    assert!(ModKey::BucketFineness.is_additive());
    assert!(!ModKey::SpeedAll.is_additive());
    assert_eq!(field_affinity(Field::Materials), vec![SpecialistKind::Geologist, SpecialistKind::IndustrialEngineer]);
    assert_eq!(School::Corsair.field(), Field::Hulls);
}

#[test]
fn a_completed_programme_is_not_available_again() {
    let st: Vec<String> = vec!["prop_drive_tuning".into()];
    assert!(has(&st, "prop_drive_tuning"));
    assert!(!available("prop_drive_tuning", &st, &[], &no_metrics));
    assert!(available("prop_bunkerage", &st, &[], &no_metrics));
}

#[test]
fn set_queue_promotes_only_an_idle_clock() {
    let mut active: Option<String> = None;
    let mut queue: Vec<String> = Vec::new();
    set_queue(&mut active, &mut queue, vec!["prop_drive_tuning".into(), "prop_bunkerage".into()]);
    assert_eq!(active.as_deref(), Some("prop_drive_tuning"), "front promoted to active");
    assert_eq!(queue, vec!["prop_bunkerage".to_string()]);
    set_queue(&mut active, &mut queue, vec!["prop_freight_frames".into()]);
    assert_eq!(active.as_deref(), Some("prop_drive_tuning"), "a running clock keeps its programme");
    assert_eq!(queue, vec!["prop_freight_frames".to_string()]);
    assert_eq!(next_active(&mut queue).as_deref(), Some("prop_freight_frames"));
    assert_eq!(next_active(&mut queue), None);
}
