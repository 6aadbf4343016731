use sim::lane::Regime;
use sim::ship::DriveState;
use sim::ship::{fitting_points, is_siege_anchor, marine_capacity, requires_hull_unlock, CountClass, ShipKind, ALL_SHIP_KINDS};

#[test]
fn count_class_buckets_are_deterministic_and_never_narrower_than_the_count() {
    let cases = [
        (1, CountClass::One),
        (2, CountClass::TwoToThree),
        (3, CountClass::TwoToThree),
        (4, CountClass::FourToSeven),
        (7, CountClass::FourToSeven),
        (8, CountClass::EightToFifteen),
        (15, CountClass::EightToFifteen),
        (16, CountClass::SixteenToThirty),
        (30, CountClass::SixteenToThirty),
        (31, CountClass::ThirtyOnePlus),
        (999, CountClass::ThirtyOnePlus),
    ];
    for (n, class) in cases {
        assert_eq!(CountClass::from_count(n), class, "n={n}");
        let lo_hi = match class {
            CountClass::One => (1, 1),
            CountClass::TwoToThree => (2, 3),
            CountClass::FourToSeven => (4, 7),
            CountClass::EightToFifteen => (8, 15),
            CountClass::SixteenToThirty => (16, 30),
            CountClass::ThirtyOnePlus => (31, u32::MAX),
        };
        assert!(n >= lo_hi.0 && n <= lo_hi.1, "count must lie inside its own bucket");
    }
}

#[test]
fn count_class_labels_and_midpoints() {
    assert_eq!(CountClass::from_count(0), CountClass::One);
    assert_eq!(CountClass::EightToFifteen.label(), "8–15");
    assert_eq!(CountClass::ThirtyOnePlus.label(), "31+");
    assert_eq!(CountClass::FourToSeven.midpoint(), 5);
    assert_eq!(CountClass::ThirtyOnePlus.midpoint(), 40);
    for n in 1..200u32 {
        let c = CountClass::from_count(n);
        assert_eq!(CountClass::from_count(c.midpoint()), c, "a bucket's midpoint lies in the bucket");
    }
}

#[test]
fn count_class_never_shrinks_as_the_count_grows() {
    let order = |c: CountClass| match c {
        CountClass::One => 0,
        CountClass::TwoToThree => 1,
        CountClass::FourToSeven => 2,
        CountClass::EightToFifteen => 3,
        CountClass::SixteenToThirty => 4,
        CountClass::ThirtyOnePlus => 5,
    };
    for n in 1..100u32 {
        assert!(order(CountClass::from_count(n)) <= order(CountClass::from_count(n + 1)));
    }
}

#[test]
fn hull_tables_carry_their_published_values() {
    assert_eq!(fitting_points(ShipKind::Corvette), 5);
    assert_eq!(fitting_points(ShipKind::Titan), 45);
    assert_eq!(ShipKind::Cruiser.module_slots(), 4);
    assert_eq!(marine_capacity(ShipKind::Transport), 40);
    assert_eq!(marine_capacity(ShipKind::Raider), 0);
    assert!(requires_hull_unlock(ShipKind::Destroyer));
    assert!(!requires_hull_unlock(ShipKind::Corvette));
    assert!(is_siege_anchor(ShipKind::Battleship));
    assert!(!is_siege_anchor(ShipKind::Cruiser));
    assert!(!is_siege_anchor(ShipKind::Transport), "a heavy trooper is no warship");
    assert!(ShipKind::Convoy.broadcasts());
    assert!(!ShipKind::Raider.broadcasts());
    assert!(ShipKind::Raider.is_combatant());
    assert!(!ShipKind::Convoy.is_combatant());
    assert_eq!(ALL_SHIP_KINDS.len(), 13);
}

#[test]
fn only_a_hull_on_thrusters_steers_and_only_a_caught_hyperspace_drive_stirs_the_lane() {
    let spooling = DriveState::Spooling { to: Regime::Hyperspace, left: 2.5f64.to_bits() };
    let dropping_hyper = DriveState::Dropping { from: Regime::Hyperspace, left: 1.0f64.to_bits() };
    let dropping_warp = DriveState::Dropping { from: Regime::Warp, left: 1.0f64.to_bits() };
    assert_eq!(DriveState::default(), DriveState::Thrusters);
    assert!(DriveState::Thrusters.can_steer());
    assert!(!spooling.can_steer() && !dropping_warp.can_steer());
    assert!(!DriveState::Cruising(Regime::Warp).can_steer());
    assert!(!spooling.stirs_the_lane(), "spin-up is the approach, not the ride");
    assert!(DriveState::Cruising(Regime::Hyperspace).stirs_the_lane());
    assert!(dropping_hyper.stirs_the_lane(), "the wind-down is the lane's last word");
    assert!(!dropping_warp.stirs_the_lane());
    assert!(!DriveState::Cruising(Regime::Warp).stirs_the_lane());
    assert_eq!(spooling.regime(), Regime::Thrusters);
    assert_eq!(dropping_hyper.regime(), Regime::Thrusters);
    assert_eq!(DriveState::Cruising(Regime::Warp).regime(), Regime::Warp);
}

#[test]
fn the_drive_changes_regime_only_by_way_of_thrusters() {
    let warp = Regime::Warp;
    let lane = Regime::Hyperspace;
    let idle = Regime::Thrusters;
    let d = DriveState::Thrusters.advance(warp, false, 0, false);
    assert_eq!(d, DriveState::Spooling { to: warp, left: 1.5f64.to_bits() });
    let d = d.advance(warp, false, 0.5f64.to_bits(), false);
    assert_eq!(d, DriveState::Spooling { to: warp, left: 0.5f64.to_bits() });
    let d = d.advance(warp, false, (-0.5f64).to_bits(), true);
    assert_eq!(d, DriveState::Cruising(warp));
    assert_eq!(d.advance(warp, false, 0, false), DriveState::Cruising(warp));
    assert_eq!(d.advance(warp, true, 0, false), DriveState::Dropping { from: warp, left: 1.0f64.to_bits() });
    let d = d.advance(lane, false, 0, false);
    assert_eq!(d, DriveState::Dropping { from: warp, left: 1.0f64.to_bits() });
    assert_eq!(d.advance(lane, false, 0, true), DriveState::Thrusters);
    let lane_cruise = DriveState::Cruising(lane);
    assert_eq!(lane_cruise.advance(lane, true, 0, false), lane_cruise, "a lane steers for the fleet");
    assert_eq!(
        DriveState::Spooling { to: warp, left: 1 }.advance(lane, false, 0, false),
        DriveState::Spooling { to: lane, left: 4.0f64.to_bits() }
    );
    assert_eq!(DriveState::Spooling { to: warp, left: 1 }.advance(idle, false, 0, false), DriveState::Thrusters);
    assert_eq!(lane_cruise.advance(idle, false, 0, false), DriveState::Dropping { from: lane, left: 3.0f64.to_bits() });
}

#[test]
fn the_wanted_regime_follows_the_route_the_drive_and_the_wells() {
    let cases = [
        (true, true, false, false, Regime::Hyperspace),
        (true, false, false, false, Regime::Thrusters),
        (false, false, true, false, Regime::Hyperspace),
        (false, true, false, false, Regime::Warp),
        (false, true, false, true, Regime::Thrusters),
        (true, false, false, true, Regime::Thrusters),
    ];
    for (lane_leg, drive, holding, in_well, expected) in cases {
        assert_eq!(sim::ship::wanted_regime(lane_leg, drive, holding, in_well), expected);
    }
}
