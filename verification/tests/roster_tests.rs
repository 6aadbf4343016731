use sim::module::{Loadout, ModuleKind};
use sim::roster::{Roster, Ship};
use sim::ship::{CountClass, ShipKind};

fn fleet(comp: &[(ShipKind, u32)]) -> Roster {
    let mut f = Roster::single(ShipKind::Scout);
    f.reset_to(ShipKind::Scout, 0);
    for (k, n) in comp {
        f.add(*k, *n);
    }
    f
}

fn fitted_ids(f: &Roster, kind: ShipKind) -> Vec<u32> {
    f.ships().iter().filter(|s| s.kind == kind && !s.loadout.is_empty()).map(|s| s.id).collect()
}

fn in_id_order(f: &Roster) -> bool {
    f.ships().windows(2).all(|w| w[0].id < w[1].id)
}

#[test]
fn broadcasts_if_any_member_broadcasts() {
    assert!(fleet(&[(ShipKind::Raider, 2), (ShipKind::Convoy, 1)]).broadcasts());
    assert!(fleet(&[(ShipKind::Corvette, 1)]).broadcasts());
    assert!(!fleet(&[(ShipKind::Raider, 3)]).broadcasts());
    assert!(!fleet(&[(ShipKind::Raider, 2), (ShipKind::Scout, 1)]).broadcasts());
}

#[test]
fn flagship_follows_precedence_colony_convoy_corvette_raider_scout() {
    assert_eq!(fleet(&[(ShipKind::Convoy, 1), (ShipKind::Colony, 1)]).flagship_kind(), ShipKind::Colony);
    assert_eq!(fleet(&[(ShipKind::Convoy, 1), (ShipKind::Corvette, 2)]).flagship_kind(), ShipKind::Convoy);
    assert_eq!(fleet(&[(ShipKind::Raider, 5), (ShipKind::Scout, 1)]).flagship_kind(), ShipKind::Raider);
    assert_eq!(fleet(&[(ShipKind::Scout, 2)]).flagship_kind(), ShipKind::Scout);
}

#[test]
fn damage_travels_with_the_hull_through_split_and_merge() {
    let mut f = fleet(&[(ShipKind::Raider, 3)]);
    let wounded_id = f.ships()[1].id;
    assert!(f.set_hp(ShipKind::Raider, wounded_id, 50.0f64.to_bits()));
    let full = 200.0f64;
    let max: f64 = f.ships().len() as f64 * full;
    let deficit: f64 = f.ships().iter().map(|s| (full - f64::from_bits(s.hp)).max(0.0)).sum();
    assert!((deficit / max - (full - 50.0) / (3.0 * full)).abs() < 1e-9);
    let taken = f.detach_ships(ShipKind::Raider, 3);
    assert_eq!(f64::from_bits(taken.iter().find(|s| s.id == wounded_id).unwrap().hp), 50.0);
    let mut g = fleet(&[(ShipKind::Raider, 1)]);
    g.absorb_ships(taken);
    assert_eq!(g.ships().iter().filter(|s| f64::from_bits(s.hp) == 50.0).count(), 1, "exactly one hull is still hurt");
    assert_eq!(g.count(ShipKind::Raider), 4);
}

#[test]
fn a_fresh_formation_of_one() {
    let f = Roster::single(ShipKind::Convoy);
    assert_eq!(f.total_count(), 1);
    assert_eq!(f.flagship_kind(), ShipKind::Convoy);
    assert_eq!(f.ships()[0].id, 0);
    assert_eq!(f64::from_bits(f.ships()[0].hp), 4500.0, "a fresh hull is at full health");
    assert_eq!(f.cargo_capacity(), 250);
    assert_eq!(f.count_class(), CountClass::One);
}

#[test]
fn full_health_is_the_hull_mass_for_every_kind() {
    let masses = [
        (ShipKind::Convoy, 4500.0),
        (ShipKind::Builder, 2500.0),
        (ShipKind::Raider, 200.0),
        (ShipKind::Corvette, 800.0),
        (ShipKind::Colony, 6000.0),
        (ShipKind::Scout, 80.0),
        (ShipKind::Destroyer, 2000.0),
        (ShipKind::Cruiser, 4000.0),
        (ShipKind::Battleship, 8000.0),
        (ShipKind::Dreadnought, 16000.0),
        (ShipKind::Titan, 32000.0),
        (ShipKind::Transport, 7000.0),
        (ShipKind::Freighter, 6000.0),
    ];
    for (kind, mass) in masses {
        assert_eq!(f64::from_bits(Ship::new(0, kind, Loadout::default()).hp), mass, "{kind:?}");
    }
}

#[test]
fn detach_takes_fitted_hulls_first_then_by_id() {
    let md = Loadout::new(vec![ModuleKind::MassDriver]);
    let mut f = fleet(&[(ShipKind::Raider, 5)]);
    assert_eq!(f.set_fitted(ShipKind::Raider, &md, 2), 2);
    assert_eq!(fitted_ids(&f, ShipKind::Raider), vec![0, 1], "unfitted hulls are refitted first, by id");
    let taken = f.detach_ships(ShipKind::Raider, 3);
    let ids: Vec<u32> = taken.iter().map(|s| s.id).collect();
    assert_eq!(ids, vec![0, 1, 2], "both fitted hulls, then the lowest unfitted id");
    assert_eq!(taken.iter().filter(|s| !s.loadout.is_empty()).count(), 2, "escorts keep their fits");
    assert_eq!(f.count(ShipKind::Raider), 2);
    assert_eq!(f.fitted_count(ShipKind::Raider), 0);
}

#[test]
fn remove_sheds_unfitted_hulls_first_and_reports_how_many_went() {
    let md = Loadout::new(vec![ModuleKind::MassDriver]);
    let mut f = fleet(&[(ShipKind::Raider, 4), (ShipKind::Corvette, 2)]);
    f.set_fitted(ShipKind::Raider, &md, 3);
    assert_eq!(f.remove(ShipKind::Raider, 2), 2);
    assert_eq!(f.count(ShipKind::Raider), 2);
    assert_eq!(f.fitted_count(ShipKind::Raider), 2, "the unfitted hull went first");
    assert_eq!(f.remove(ShipKind::Raider, 10), 2, "clamped to what is aboard");
    assert!(!f.contains(ShipKind::Raider));
    assert_eq!(f.count(ShipKind::Corvette), 2, "other kinds untouched");
    assert!(f.remove_one(ShipKind::Corvette));
    assert!(f.remove_one(ShipKind::Corvette));
    assert!(!f.remove_one(ShipKind::Corvette));
    assert!(f.is_empty());
}

#[test]
fn set_fitted_changes_at_most_what_is_aboard() {
    let wa = Loadout::new(vec![ModuleKind::WhippleArmor]);
    let mut f = fleet(&[(ShipKind::Corvette, 2), (ShipKind::Raider, 1)]);
    assert_eq!(f.set_fitted(ShipKind::Corvette, &wa, 5), 2);
    assert_eq!(f.fitted_count(ShipKind::Corvette), 2);
    assert_eq!(f.fitted_count(ShipKind::Raider), 0);
    assert!(f.ships().iter().filter(|s| s.kind == ShipKind::Corvette).all(|s| s.loadout == wa));
}

#[test]
fn absorbed_hulls_get_fresh_ids_and_keep_their_fits() {
    let md = Loadout::new(vec![ModuleKind::MassDriver]);
    let mut f = fleet(&[(ShipKind::Raider, 2)]);
    let mut g = fleet(&[(ShipKind::Raider, 2)]);
    g.set_fitted(ShipKind::Raider, &md, 2);
    let moved = g.detach_ships(ShipKind::Raider, 2);
    f.absorb_ships(moved);
    let ids: Vec<u32> = f.ships().iter().map(|s| s.id).collect();
    assert_eq!(ids, vec![0, 1, 2, 3]);
    assert_eq!(f.fitted_count(ShipKind::Raider), 2);
    assert_eq!(f.count(ShipKind::Raider), 4);
    assert!(g.is_empty());
}

#[test]
fn the_roster_stays_in_id_order_through_every_mutation() {
    let md = Loadout::new(vec![ModuleKind::MassDriver]);
    let wa = Loadout::new(vec![ModuleKind::WhippleArmor]);
    let mut f = fleet(&[(ShipKind::Raider, 4), (ShipKind::Corvette, 2)]);
    assert!(in_id_order(&f));
    f.set_fitted(ShipKind::Raider, &md, 2);
    assert!(in_id_order(&f));
    f.add_fitted(ShipKind::Corvette, &wa, 3);
    assert!(in_id_order(&f));
    assert_eq!(f.fitted_count(ShipKind::Corvette), 3);
    f.remove(ShipKind::Raider, 1);
    assert!(in_id_order(&f));
    let taken = f.detach_ships(ShipKind::Corvette, 2);
    assert!(in_id_order(&f));
    f.absorb_ships(taken);
    assert!(in_id_order(&f));
    assert_eq!(f.total_count(), 8);
    f.reset_to(ShipKind::Scout, 5);
    assert!(in_id_order(&f));
    assert_eq!(f.count(ShipKind::Scout), 5);
    assert_eq!(f.ships().last().unwrap().id, 4);
}

#[test]
fn split_and_merge_conserve_every_count() {
    let md = Loadout::new(vec![ModuleKind::MassDriver]);
    let mut a = fleet(&[(ShipKind::Raider, 5), (ShipKind::Corvette, 3)]);
    a.set_fitted(ShipKind::Raider, &md, 2);
    let mut b = fleet(&[(ShipKind::Raider, 1)]);
    let before = (a.count(ShipKind::Raider) + b.count(ShipKind::Raider), a.fitted_count(ShipKind::Raider));
    let taken = a.detach_ships(ShipKind::Raider, 4);
    b.absorb_ships(taken);
    assert_eq!(a.count(ShipKind::Raider) + b.count(ShipKind::Raider), before.0);
    assert_eq!(a.fitted_count(ShipKind::Raider) + b.fitted_count(ShipKind::Raider), before.1);
    assert_eq!(a.count(ShipKind::Corvette), 3);
}

#[test]
fn marines_are_committed_once_and_reembarked() {
    let mut f = fleet(&[(ShipKind::Transport, 1), (ShipKind::Cruiser, 2), (ShipKind::Raider, 3)]);
    assert_eq!(f.marines(), 40 + 2 * 7);
    f.commit_marines();
    assert_eq!(f.marines(), 0);
    f.add(ShipKind::Destroyer, 1);
    assert_eq!(f.marines(), 4, "only the newly joined hull's troops are fresh");
    f.reembark_marines();
    assert_eq!(f.marines(), 58);
}

#[test]
fn take_indices_removes_exactly_the_listed_hulls() {
    let mut f = fleet(&[(ShipKind::Raider, 3), (ShipKind::Corvette, 2)]);
    let out = f.take_indices(&vec![1, 3]);
    let out_ids: Vec<u32> = out.iter().map(|s| s.id).collect();
    let kept_ids: Vec<u32> = f.ships().iter().map(|s| s.id).collect();
    assert_eq!(out_ids, vec![1, 3]);
    assert_eq!(kept_ids, vec![0, 2, 4]);
}

#[test]
fn combatant_and_stack_keys() {
    let f = fleet(&[(ShipKind::Convoy, 4)]);
    assert!(!f.is_combatant());
    let g = fleet(&[(ShipKind::Convoy, 1), (ShipKind::Corvette, 1)]);
    assert!(g.is_combatant());
    let s = Ship::new(7, ShipKind::Raider, Loadout::new(vec![ModuleKind::TorpedoRack]));
    assert_eq!(s.stack_key(), "torpedo_rack");
    assert_eq!(fleet(&[(ShipKind::Raider, 9)]).count_class(), CountClass::EightToFifteen);
}

#[test]
fn a_split_hands_over_whole_hulls_and_all_preferred_ones_when_it_must() {
    let md = Loadout::new(vec![ModuleKind::MassDriver]);
    let mut f = fleet(&[(ShipKind::Raider, 5), (ShipKind::Corvette, 2)]);
    f.set_fitted(ShipKind::Raider, &md, 2);
    let mut before: Vec<(u32, ShipKind, bool)> =
        f.ships().iter().map(|s| (s.id, s.kind, s.loadout.is_empty())).collect();
    let taken = f.detach_ships(ShipKind::Raider, 4);
    let mut after: Vec<(u32, ShipKind, bool)> = taken
        .iter()
        .chain(f.ships().iter())
        .map(|s| (s.id, s.kind, s.loadout.is_empty()))
        .collect();
    before.sort_by_key(|t| t.0);
    after.sort_by_key(|t| t.0);
    assert_eq!(before, after, "no hull copied or lost, each keeps its fit");
    assert_eq!(taken.len(), 4);
    assert_eq!(f.fitted_count(ShipKind::Raider), 0, "more asked than fitted: every fitted hull went");
}
