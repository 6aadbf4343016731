use sim::module::{Loadout, ModuleKind, MODULE_KINDS};
use sim::ship::{fitting_points, ShipKind};

#[test]
fn torpedo_corvette_cannot_take_heavy_armor() {
    let lo = Loadout::new(vec![ModuleKind::TorpedoRack, ModuleKind::WhippleArmor]);
    assert_eq!(lo.fitting_cost(), 6);
    assert!(!lo.validate(ShipKind::Corvette), "torpedo Corvette can't also armor up");
}

#[test]
fn driver_whipple_corvette_is_the_classic_brawler() {
    let lo = Loadout::new(vec![ModuleKind::MassDriver, ModuleKind::WhippleArmor]);
    assert_eq!(lo.fitting_cost(), fitting_points(ShipKind::Corvette));
    assert!(lo.validate(ShipKind::Corvette));
}

#[test]
fn torpedo_raider_is_a_glass_cannon() {
    let torp = Loadout::new(vec![ModuleKind::TorpedoRack]);
    assert!(torp.validate(ShipKind::Raider));
    for extra in MODULE_KINDS {
        let lo = Loadout::new(vec![ModuleKind::TorpedoRack, extra]);
        assert!(!lo.validate(ShipKind::Raider), "torp + {extra:?} must overflow the Raider budget");
    }
}

#[test]
fn validate_binds_both_slots_and_budget() {
    let two_cheap = Loadout::new(vec![ModuleKind::MassDriver, ModuleKind::ReflectivePlating]);
    assert!(two_cheap.fitting_cost() <= fitting_points(ShipKind::Corvette));
    assert!(!two_cheap.validate(ShipKind::Scout), "2 modules > the Scout's 1 slot");
    assert!(Loadout::new(vec![ModuleKind::MassDriver]).validate(ShipKind::Scout));
    assert!(!Loadout::new(vec![ModuleKind::MassDriver]).validate(ShipKind::Convoy));
    assert!(Loadout::default().validate(ShipKind::Convoy));
    assert!(Loadout::default().validate(ShipKind::Corvette));
}

#[test]
fn key_round_trips_and_canonicalizes() {
    let a = Loadout::new(vec![ModuleKind::WhippleArmor, ModuleKind::MassDriver]);
    let b = Loadout::new(vec![ModuleKind::MassDriver, ModuleKind::WhippleArmor]);
    assert_eq!(a, b, "order-insensitive canonical form");
    assert_eq!(a.key(), "mass_driver+whipple_armor");
    assert_eq!(Loadout::from_key(&a.key()), a, "key round-trips");
    assert_eq!(Loadout::from_key(""), Loadout::default(), "empty key = unfitted");
    assert!(Loadout::default().is_empty());
}

#[test]
fn mitigation_flags() {
    let l = Loadout::new(vec![ModuleKind::ReflectivePlating]);
    assert!(l.reflects() && !l.whipples() && !l.has_pd());
    let w = Loadout::new(vec![ModuleKind::WhippleArmor]);
    assert!(w.whipples() && !w.reflects());
    let p = Loadout::new(vec![ModuleKind::PointDefenseScreen]);
    assert!(p.has_pd());
}

#[test]
fn canonical_order_keeps_duplicates_and_sorts_by_catalog_order() {
    let lo = Loadout::new(vec![
        ModuleKind::WhippleArmor,
        ModuleKind::TorpedoRack,
        ModuleKind::MassDriver,
        ModuleKind::TorpedoRack,
    ]);
    assert_eq!(
        lo.modules(),
        &[ModuleKind::MassDriver, ModuleKind::TorpedoRack, ModuleKind::TorpedoRack, ModuleKind::WhippleArmor]
    );
    assert_eq!(lo.len(), 4);
    assert_eq!(lo.key(), "mass_driver+torpedo_rack+torpedo_rack+whipple_armor");
    assert_eq!(lo.fitting_cost(), 2 + 3 + 3 + 3);
}

#[test]
fn from_key_drops_unknown_slugs() {
    let lo = Loadout::from_key("whipple_armor+warp_sail+mass_driver");
    assert_eq!(lo, Loadout::new(vec![ModuleKind::MassDriver, ModuleKind::WhippleArmor]));
}

#[test]
fn every_slug_parses_back_to_its_module() {
    for m in MODULE_KINDS {
        assert_eq!(ModuleKind::from_slug(m.slug()), Some(m));
    }
    assert_eq!(ModuleKind::from_slug("hull_sections"), None);
}

#[test]
fn fitting_cost_ignores_order_and_adds_over_lists() {
    let a = vec![ModuleKind::WhippleArmor, ModuleKind::TorpedoRack];
    let b = vec![ModuleKind::MassDriver, ModuleKind::WhippleArmor, ModuleKind::MassDriver];
    let mut both = a.clone();
    both.extend(b.iter().copied());
    let ca = Loadout::new(a).fitting_cost();
    let cb = Loadout::new(b).fitting_cost();
    assert_eq!(ca, 6);
    assert_eq!(cb, 7);
    assert_eq!(Loadout::new(both).fitting_cost(), ca + cb);
}
