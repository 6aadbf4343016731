use sim::ids::{EntityId, PlayerId, SyndicateId};
use sim::lane::{route_name, LaneKind, Regime};
use sim::migration::MigrationPolicy;
use sim::module::{Loadout, ModuleKind};
use sim::nebula::NebulaKind;
use sim::node::{node_bonus_for, Node, NodeBonus};
use sim::operation::{accepts, Contribution, MidgameStage, OperationScope, OperationState};
use sim::pirate::{base_defense_tiers, formation, pack_size, patrol_fitting, permanent_site, site_name, PirateFaction, SitePrize};
use sim::rankings::{efficiency_ranked, RankingCategory};
use sim::ship::ShipKind;
use sim::sites::ExpeditionTask;
use sim::standing::Endpoint;
use sim::syndicate::syndicate_cap;
use sim::text::str_eq;

#[test]
fn route_names_cycle_through_the_table() {
    assert_eq!(route_name(0), "The Rip");
    assert_eq!(route_name(9), "Tanner's Reach");
    assert_eq!(route_name(15), "Corvid Run");
    assert_eq!(route_name(16), "The Rip");
    assert_eq!(route_name(77), route_name(77 % 16));
    assert_eq!(route_name(u32::MAX), "Corvid Run");
}

#[test]
fn drive_regimes_and_lane_kinds() {
    assert_eq!(Regime::default(), Regime::Thrusters);
    assert_eq!(Regime::warp(), Regime::Warp);
    assert_eq!(Regime::Thrusters.label(), "impulse");
    assert_eq!(Regime::Warp.label(), "warp");
    assert_eq!(Regime::Hyperspace.label(), "hyperspace");
    assert_eq!(LaneKind::default_trunk(), LaneKind::Trunk);
}

#[test]
fn nebula_titles() {
    assert_eq!(NebulaKind::ALL.len(), 5);
    assert_eq!(NebulaKind::MolecularCloud.title(), "Nacre Molecular Cloud");
    assert_eq!(NebulaKind::PrecursorCloud.title(), "Orison Precursor Cloud");
}

#[test]
fn ranking_columns_and_titles() {
    assert_eq!(RankingCategory::ALL.len(), 9);
    assert_eq!(RankingCategory::ALL[0], RankingCategory::Valuation);
    assert_eq!(RankingCategory::CargoCaptured.slug(), "cargo_captured");
    assert_eq!(RankingCategory::CargoCaptured.title(), "Most Feared");
    assert_eq!(RankingCategory::Recovery.title(), "Phoenix");
    assert!(!efficiency_ranked(2));
    assert!(efficiency_ranked(3));
}

#[test]
fn expedition_task_durations() {
    assert_eq!(ExpeditionTask::Investigate.seconds(), 20);
    assert_eq!(ExpeditionTask::Restore.seconds(), 60);
    assert_eq!(ExpeditionTask::Extract.seconds(), 45);
}

#[test]
fn operations_accept_by_scope_until_they_end() {
    let me = PlayerId(1);
    let you = PlayerId(2);
    let guild = SyndicateId(5);
    assert!(accepts(OperationState::Offered, OperationScope::Public, me, None));
    assert!(!accepts(OperationState::Completed, OperationScope::Public, me, None));
    assert!(accepts(OperationState::Active, OperationScope::Private { player: me }, me, None));
    assert!(!accepts(OperationState::Active, OperationScope::Private { player: me }, you, None));
    assert!(accepts(OperationState::Active, OperationScope::Syndicate { syndicate: guild }, you, Some(guild)));
    assert!(!accepts(OperationState::Active, OperationScope::Syndicate { syndicate: guild }, you, Some(SyndicateId(6))));
    assert!(!accepts(OperationState::Active, OperationScope::Syndicate { syndicate: guild }, you, None));
    assert!(OperationState::Expired.terminal());
    assert!(!OperationState::Offered.terminal());
    let c = Contribution { progress: 3, goods: 4, combat: 5, exploration: 6, escort: 7 };
    assert_eq!(c.score(), 25);
    assert_eq!(MidgameStage::default(), MidgameStage::HomeDevelopment);
    assert_eq!(MidgameStage::RegionalPower.ordinal(), 6);
}

#[test]
fn exotic_nodes_follow_the_published_hash_roll() {
    assert_eq!(node_bonus_for(EntityId(0)), None);
    assert_eq!(node_bonus_for(EntityId(4)), Some(NodeBonus::RelayAnchor));
    assert_eq!(node_bonus_for(EntityId(21)), Some(NodeBonus::DeepScan));
    assert_eq!(node_bonus_for(EntityId(91)), Some(NodeBonus::Veil));
    let exotic = (0..100_000u64).filter(|i| node_bonus_for(EntityId(*i)).is_some()).count();
    assert!((14_000..18_000).contains(&exotic), "about sixteen systems in a hundred are exotic: {exotic}");
    let n = Node::dormant(NodeBonus::Veil);
    assert!(!n.active());
    assert!(Node { awakened: true, ..n }.active());
    assert!(!Node { awakened: true, fed: false, ..n }.active());
    assert_eq!(NodeBonus::DeepScan.slug(), "deep_scan");
    assert_eq!(NodeBonus::RelayAnchor.title(), "Relay Anchor");
}

#[test]
fn pirate_tables() {
    assert_eq!(PirateFaction::for_base(EntityId(3)), PirateFaction::Ashwake);
    assert_eq!(PirateFaction::for_base(EntityId(4)), PirateFaction::Ironclad);
    assert_eq!(PirateFaction::for_base(EntityId(5)), PirateFaction::Rift);
    let patrol = PirateFaction::Ironclad.patrol(0);
    assert_eq!(patrol.len(), 1);
    assert_eq!(patrol[0].0, ShipKind::Corvette);
    assert_eq!(patrol[0].1, Loadout::new(vec![ModuleKind::WhippleArmor, ModuleKind::ReflectivePlating]));
    assert_eq!(patrol[0].2, 1, "a patrol flies at least one hull");
    assert!(permanent_site(4) && permanent_site(5) && !permanent_site(3));
    assert_eq!(site_name(5), "Regional stronghold");
    assert_eq!(site_name(2), "Privateer hideout");
    assert_eq!(pack_size(0), 1);
    assert_eq!(pack_size(3), 3);
    assert_eq!(base_defense_tiers(2), 4);
    assert_eq!(base_defense_tiers(4), 3);
    assert_eq!(base_defense_tiers(5), 6);
    let stronghold = formation(5);
    assert_eq!(stronghold.len(), 3);
    assert_eq!(stronghold[2], (ShipKind::Corvette, Loadout::new(vec![ModuleKind::PointDefenseScreen, ModuleKind::ReflectivePlating]), 2));
    assert_eq!(formation(2), vec![(ShipKind::Raider, Loadout::default(), 2)]);
    assert_eq!(patrol_fitting(4), Loadout::new(vec![ModuleKind::TorpedoRack]));
    assert_eq!(SitePrize::for_tier(4), Some(SitePrize::BreacherCache));
    assert_eq!(SitePrize::for_tier(3), None);
    assert_eq!(SitePrize::ScreenCache.modules(), vec![(ModuleKind::PointDefenseScreen, 4), (ModuleKind::ReflectivePlating, 4)]);
}

#[test]
fn syndicates_cap_at_a_third_of_the_galaxy_with_a_floor() {
    assert_eq!(syndicate_cap(0), 2);
    assert_eq!(syndicate_cap(5), 2);
    assert_eq!(syndicate_cap(9), 3);
    assert_eq!(syndicate_cap(10), 3);
    assert_eq!(syndicate_cap(30), 10);
}

#[test]
fn small_enumerations() {
    assert_eq!(MigrationPolicy::default(), MigrationPolicy::Managed);
    assert_eq!(MigrationPolicy::Priority.slug(), "priority");
    assert_eq!(Endpoint::System { id: EntityId(4) }.system_id(), Some(EntityId(4)));
    assert_eq!(Endpoint::Hub.system_id(), None);
    assert!(str_eq("abc", "abc"));
    assert!(!str_eq("abc", "abd"));
    assert!(!str_eq("abc", "ab"));
}
