use sim::ids::EntityId;
use sim::ship::ShipKind;
use sim::tactical::replay::{
    state_checksum, BattleReplay, CombatantRecord, Cooldowns, HeldShipRecord, KernelSnapshot, PointBits, ReplayError,
    TacticalKernel, TorpedoRecord, CHECKPOINT_STEPS, RULES_VERSION,
};
use sim::tactical::rules_v1::{featured, Rng};
use sim::tactical::Rules;

/// A small deterministic kernel: enough state to make every input and
/// every step show up in the fingerprint.
#[derive(Debug, Clone, PartialEq)]
struct Toy {
    version: u32,
    value: u64,
    reinforcements: u64,
    withdrawn: [bool; 2],
}

impl Toy {
    fn new(version: u32) -> Self {
        Toy { version, value: 1, reinforcements: 0, withdrawn: [false; 2] }
    }
}

impl TacticalKernel for Toy {
    type Delta = (u8, u64);
    type Controls = u64;
    type Outcome = u64;
    type Frame = u64;

    fn spec_rules_version(&self) -> u32 {
        self.version
    }
    fn spec_checksum(&self) -> u64 {
        self.checksum()
    }
    fn spec_delta_side(delta: (u8, u64)) -> u8 {
        delta.0
    }
    fn spec_apply_delta(self, changes: Vec<(u8, u64)>) -> Self {
        let mut s = self;
        s.apply_roster_delta(&changes);
        s
    }
    fn spec_withdraw(self, side: u8) -> Self {
        let mut s = self;
        s.order_withdraw(side);
        s
    }
    fn spec_step(self, controls: u64) -> Self {
        let mut s = self;
        s.step(controls);
        s
    }
    fn spec_outcome(self, controls: u64) -> u64 {
        let mut s = self;
        s.step(controls)
    }
    fn spec_keyframe(self, outcome: u64) -> u64 {
        self.keyframe(outcome)
    }

    fn rules_version(&self) -> u32 {
        self.version
    }
    fn checksum(&self) -> u64 {
        self.value.wrapping_mul(0x100_0000_01b3)
            ^ self.reinforcements.rotate_left(17)
            ^ (self.withdrawn[0] as u64) << 1
            ^ (self.withdrawn[1] as u64) << 2
    }
    fn delta_side(delta: &(u8, u64)) -> u8 {
        delta.0
    }
    fn apply_roster_delta(&mut self, changes: &Vec<(u8, u64)>) {
        for (_, n) in changes {
            self.reinforcements += n;
        }
    }
    fn order_withdraw(&mut self, side: u8) {
        self.withdrawn[side as usize] = true;
    }
    fn step(&mut self, controls: u64) -> u64 {
        self.value = self.value.wrapping_mul(6364136223846793005).wrapping_add(controls + self.reinforcements);
        self.value >> 7
    }
    fn keyframe(&self, outcome: u64) -> u64 {
        outcome ^ self.value
    }
    fn duplicate(&self) -> Self {
        self.clone()
    }
}

/// Record `steps` steps of a scripted battle: a reinforcement at 17, a
/// control change at 43, a withdrawal at 70. Returns the archive, the live
/// state and every keyframe in order.
fn scripted(version: u32, steps: usize) -> (BattleReplay<Toy>, Toy, Vec<u64>) {
    let mut live = Toy::new(version);
    let mut rec = BattleReplay::new(&live);
    let mut frames = Vec::new();
    for i in 0..steps {
        let tick = (i as u64) * 15 + 15;
        if i == 17 {
            let changes = vec![(1u8, 9u64)];
            live.apply_roster_delta(&changes);
            rec.roster(tick - 3, changes);
        }
        rec.roster(tick - 3, Vec::new());
        let controls = if i < 43 { 3 } else { 5 };
        rec.controls(tick - 3, controls);
        let out = live.step(controls);
        frames.push(live.keyframe(out));
        rec.stepped(tick, i, &live);
        if i == 70 {
            live.order_withdraw(1);
            rec.withdraw(tick + 2, 1);
        }
    }
    (rec, live, frames)
}

#[test]
fn deterministic_archive_records_interventions_not_shots() {
    let (rec, live, frames) = scripted(1, 160);
    assert_eq!(rec.step_count(), 160);
    assert_eq!(rec.input_count(), 4, "one roster change, two control changes, one withdrawal");
    assert_eq!(rec.reconstruct(), Ok(live));
    for (from, to) in [(139, 157), (62, 67), (1, 6), (0, 160), (139, 157)] {
        let got = rec.frames_range(from, to).unwrap();
        let expected: Vec<(usize, u64)> = (from..to).map(|r| (r, frames[r])).collect();
        assert_eq!(got, expected, "slice {from}..{to}");
    }
    assert_eq!(rec.frames_range(150, 150).unwrap(), Vec::new());
    assert_eq!(rec.frames_range(170, 200).unwrap(), Vec::new());
}

#[test]
fn battles_of_every_current_rules_version_replay() {
    for version in 1..=6 {
        let (rec, live, frames) = scripted(version, 80);
        assert_eq!(rec.reconstruct(), Ok(live), "version {version}");
        let got = rec.frames_range(64, 80).unwrap();
        let expected: Vec<(usize, u64)> = (64..80).map(|r| (r, frames[r])).collect();
        assert_eq!(got, expected, "version {version}");
    }
    assert_eq!(RULES_VERSION, 6);
}

#[test]
fn checkpoints_bound_a_cold_seek() {
    let (rec, _, _) = scripted(1, 160);
    assert_eq!(CHECKPOINT_STEPS, 64);
    assert_eq!(rec.checkpoint_for(10), None);
    assert_eq!(rec.checkpoint_for(64), Some(0));
    assert_eq!(rec.checkpoint_for(127), Some(0));
    assert_eq!(rec.checkpoint_for(128), Some(1));
    assert_eq!(rec.checkpoint_for(159), Some(1));
}

#[test]
fn recorded_rounds_are_found() {
    let (rec, _, _) = scripted(1, 40);
    assert!(rec.records_round(0));
    assert!(rec.records_round(39));
    assert!(!rec.records_round(40));
    assert_eq!(rec.steps_before_round(25), 25);
    assert_eq!(rec.steps_before_round(1000), 40);
}

#[test]
fn an_unsupported_version_is_refused() {
    let (rec, _, _) = scripted(RULES_VERSION + 1, 5);
    assert_eq!(rec.reconstruct(), Err(ReplayError::UnsupportedVersion(RULES_VERSION + 1)));
    assert_eq!(rec.frames_range(0, 1), Err(ReplayError::UnsupportedVersion(RULES_VERSION + 1)));
    let (zero, _, _) = scripted(0, 5);
    assert_eq!(zero.reconstruct(), Err(ReplayError::UnsupportedVersion(0)));
}

#[test]
fn a_step_that_does_not_match_its_fingerprint_is_detected() {
    let mut live = Toy::new(2);
    let mut rec = BattleReplay::new(&live);
    for i in 0..10usize {
        rec.controls(i as u64, 3);
        live.step(3);
        if i == 6 {
            // The recorded state is not what the inputs produce.
            live.reinforcements += 1;
        }
        rec.stepped(i as u64 + 1, i, &live);
    }
    assert_eq!(rec.reconstruct(), Err(ReplayError::Diverged { step: 7 }));
}

#[test]
fn a_step_without_controls_is_an_invalid_archive() {
    let mut live = Toy::new(1);
    let mut rec = BattleReplay::new(&live);
    live.step(0);
    rec.stepped(15, 0, &live);
    assert_eq!(rec.reconstruct(), Err(ReplayError::InvalidArchive));
}

#[test]
fn an_impossible_side_is_an_invalid_archive() {
    let mut live = Toy::new(1);
    let mut rec = BattleReplay::new(&live);
    rec.controls(1, 3);
    live.step(3);
    rec.stepped(15, 0, &live);
    rec.withdraw(16, 2);
    assert_eq!(rec.reconstruct(), Err(ReplayError::InvalidArchive));
    let mut bad_roster = BattleReplay::new(&Toy::new(1));
    bad_roster.roster(1, vec![(7, 1)]);
    bad_roster.controls(1, 3);
    let mut s = Toy::new(1);
    s.apply_roster_delta(&vec![(7, 1)]);
    s.step(3);
    bad_roster.stepped(15, 0, &s);
    assert_eq!(bad_roster.reconstruct(), Err(ReplayError::InvalidArchive));
}

#[test]
fn inputs_after_the_last_step_are_applied() {
    let mut live = Toy::new(1);
    let mut rec = BattleReplay::new(&live);
    rec.controls(1, 3);
    live.step(3);
    rec.stepped(15, 0, &live);
    rec.withdraw(20, 0);
    live.order_withdraw(0);
    assert_eq!(rec.reconstruct(), Ok(live));
}

#[test]
fn unchanged_controls_are_not_recorded_twice() {
    let live = Toy::new(1);
    let mut rec = BattleReplay::new(&live);
    rec.controls(1, 3);
    rec.controls(2, 3);
    assert_eq!(rec.input_count(), 1);
    rec.controls(3, 4);
    assert_eq!(rec.input_count(), 2);
    rec.withdraw(4, 0);
    rec.withdraw(5, 0);
    assert_eq!(rec.input_count(), 4, "repeated withdrawals are all recorded");
}

fn snapshot(rules: Rules) -> KernelSnapshot {
    KernelSnapshot {
        rules,
        rng: Rng::new(5),
        step: 3,
        next_cid: 2,
        combatants: vec![CombatantRecord {
            cid: 1,
            side: 0,
            kind: ShipKind::Raider,
            stack: "torpedo_rack".to_string(),
            hp: 150.0f64.to_bits(),
            max_hp: 200.0f64.to_bits(),
            pos: PointBits { x: 1.0f64.to_bits(), y: 2.0f64.to_bits() },
            vel: PointBits { x: 0, y: 0 },
            cooldowns: Cooldowns { beam: 1, driver: 2, torpedo: 3 },
            role: 4,
            platform: false,
            origin: Some((EntityId(9), 7)),
        }],
        torpedoes: vec![TorpedoRecord { side: 1, pos: PointBits { x: 0, y: 0 }, target: 1, dmg: 1.5f64.to_bits() }],
        waves: [
            Vec::new(),
            vec![HeldShipRecord {
                fleet: EntityId(9),
                ship_id: 3,
                kind: ShipKind::Corvette,
                stack_key: String::new(),
                hp: 800.0f64.to_bits(),
            }],
        ],
        start_hp: [200.0f64.to_bits(), 800.0f64.to_bits()],
        bearing: PointBits { x: 1.0f64.to_bits(), y: 0 },
        withdrawing: [false, true],
    }
}

#[test]
fn the_fingerprint_has_its_published_values() {
    assert_eq!(state_checksum(&snapshot(Rules::V1)), 4924379832729328999);
    assert_eq!(state_checksum(&snapshot(Rules::V3 { maneuver_seed: 77 })), 15758716740097936957);
    assert_eq!(state_checksum(&snapshot(Rules::V4 { maneuver_seed: 77 })), 11073318622132939306);
}

#[test]
fn the_fingerprint_covers_the_private_seed_and_every_field() {
    let base = state_checksum(&snapshot(Rules::V3 { maneuver_seed: 77 }));
    assert_ne!(base, state_checksum(&snapshot(Rules::V3 { maneuver_seed: 76 })));
    for seed in [0u64, 77, u64::MAX] {
        for rules in [
            Rules::V4 { maneuver_seed: seed },
            Rules::V5 { maneuver_seed: seed },
            Rules::V6 { maneuver_seed: seed },
        ] {
            let flipped = match rules {
                Rules::V4 { .. } => Rules::V4 { maneuver_seed: seed ^ 1 },
                Rules::V5 { .. } => Rules::V5 { maneuver_seed: seed ^ 1 },
                _ => Rules::V6 { maneuver_seed: seed ^ 1 },
            };
            assert_ne!(state_checksum(&snapshot(rules)), state_checksum(&snapshot(flipped)));
        }
    }
    let mut s = snapshot(Rules::V1);
    let v1 = state_checksum(&s);
    s.combatants[0].hp = 151.0f64.to_bits();
    assert_ne!(v1, state_checksum(&s));
    let mut t = snapshot(Rules::V1);
    t.waves[1][0].stack_key = "mass_driver".to_string();
    assert_ne!(v1, state_checksum(&t));
    let mut u = snapshot(Rules::V1);
    u.withdrawing = [true, true];
    assert_ne!(v1, state_checksum(&u));
}

#[test]
fn live_platforms_are_counted_per_side() {
    let mut s = snapshot(Rules::V1);
    let mut platform = s.combatants[0].clone();
    platform.platform = true;
    platform.side = 1;
    s.combatants.push(platform.clone());
    let mut dead = platform.clone();
    dead.hp = 0.0f64.to_bits();
    s.combatants.push(dead);
    let mut negative = platform.clone();
    negative.hp = (-5.0f64).to_bits();
    s.combatants.push(negative);
    let mut unbounded = platform;
    unbounded.hp = f64::INFINITY.to_bits();
    s.combatants.push(unbounded);
    assert_eq!(s.platform_tiers_for(1), 2);
    assert_eq!(s.platform_tiers_for(0), 0);
}

#[test]
fn rules_versions_and_featured_hulls() {
    assert_eq!(Rules::default(), Rules::V1);
    assert!(Rules::V1.is_v1());
    assert!(!Rules::V2.is_v1());
    assert_eq!(Rules::V2.rules_version(), 2);
    assert_eq!(Rules::V6 { maneuver_seed: 1 }.rules_version(), 6);
    assert_eq!(snapshot(Rules::V3 { maneuver_seed: 0 }).rules_version(), 3);
    for kind in sim::ship::ALL_SHIP_KINDS {
        assert_eq!(featured(kind), kind.is_combatant() && sim::ship::requires_hull_unlock(kind));
    }
}
