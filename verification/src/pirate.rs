//! Pirate enclaves: the fixed factions, their published patrol fittings, the
//! escalation and permanent-site tiers with their garrisons, and the finite
//! equipment caches permanent sites mint on clearance.

use vstd::prelude::*;

use crate::doctrine::{DamageWithdrawal, MissionProfile, ScreeningRole, TargetPriority};
use crate::ids::EntityId;
use crate::module::{canonical, Loadout, ModuleKind};
use crate::ship::ShipKind;

verus! {

/// The fortified depot's tier tag.
pub const DEPOT_TIER: u32 = 4;
/// The regional stronghold's tier tag.
pub const STRONGHOLD_TIER: u32 = 5;
/// Raiders per escalation tier in a launched pack.
pub const PIRATE_PACK_PER_TIER: u32 = 1;
/// Platform-equivalent defense tiers per escalation tier.
pub const PIRATE_DEFENSE_PER_TIER: u32 = 2;
/// Cap on the escalation tier.
pub const PIRATE_MAX_TIER: u32 = 3;
/// How many hidden enclaves generation seeds.
pub const PIRATE_ENCLAVE_COUNT: usize = 3;

/// Recognizable, fixed opponents.
#[derive(Debug, Clone, Copy, PartialEq, Eq, Structural)]
pub enum PirateFaction {
    Ashwake,
    Ironclad,
    Rift,
}

/// A published patrol or garrison line: hull, fit, count.
pub open spec fn row_matches(row: (ShipKind, Loadout, u32), spec_row: (ShipKind, Seq<ModuleKind>, u32)) -> bool {
    row.0 == spec_row.0 && row.1@ == canonical(spec_row.1) && row.2 == spec_row.2
}

/// The faction that holds the base with this id.
pub open spec fn spec_faction_for(id: EntityId) -> PirateFaction {
    if id.0 % 3 == 0 {
        PirateFaction::Ashwake
    } else if id.0 % 3 == 1 {
        PirateFaction::Ironclad
    } else {
        PirateFaction::Rift
    }
}

impl PirateFaction {
    /// Bases are assigned to factions round-robin by id.
    pub fn for_base(id: EntityId) -> (f: Self)
        ensures
            f == spec_faction_for(id),
    {
        match id.0 % 3 {
            0 => PirateFaction::Ashwake,
            1 => PirateFaction::Ironclad,
            _ => PirateFaction::Rift,
        }
    }

    /// The faction's name.
    pub fn name(self) -> (s: &'static str)
        ensures
            s@ == match self {
                PirateFaction::Ashwake => "Ashwake Corsairs"@,
                PirateFaction::Ironclad => "Ironclad Reclaimers"@,
                PirateFaction::Rift => "Rift Stalkers"@,
            },
    {
        match self {
            PirateFaction::Ashwake => "Ashwake Corsairs",
            PirateFaction::Ironclad => "Ironclad Reclaimers",
            PirateFaction::Rift => "Rift Stalkers",
        }
    }

    /// The published counter-advice for the faction.
    pub fn counter(self) -> (s: &'static str)
        ensures
            s@ == match self {
                PirateFaction::Ashwake => "Torpedo salvos; bring point-defense screens and prioritize missile ships."@,
                PirateFaction::Ironclad => "Slow armored scavengers; torpedoes bypass their plating. Avoid a beam slugging match."@,
                PirateFaction::Rift => "Fast driver ambushers; use Whipple Armor and screen transports. They retreat at 50% hull."@,
            },
    {
        match self {
            PirateFaction::Ashwake => "Torpedo salvos; bring point-defense screens and prioritize missile ships.",
            PirateFaction::Ironclad => "Slow armored scavengers; torpedoes bypass their plating. Avoid a beam slugging match.",
            PirateFaction::Rift => "Fast driver ambushers; use Whipple Armor and screen transports. They retreat at 50% hull.",
        }
    }

    /// The faction's standing mission: hunt transports, screen automatically,
    /// and (Rift only) withdraw at half hull.
    pub fn mission(self) -> (m: MissionProfile)
        ensures
            m == (MissionProfile {
                priority: TargetPriority::Transports,
                screening: ScreeningRole::Automatic,
                withdrawal: if self == PirateFaction::Rift { DamageWithdrawal::Hull50 } else { DamageWithdrawal::Never },
            }),
    {
        MissionProfile {
            priority: TargetPriority::Transports,
            screening: ScreeningRole::Automatic,
            withdrawal: match self {
                PirateFaction::Rift => DamageWithdrawal::Hull50,
                _ => DamageWithdrawal::Never,
            },
        }
    }

    /// The faction's patrol: one line of `count` hulls (at least one).
    pub fn patrol(self, count: u32) -> (v: Vec<(ShipKind, Loadout, u32)>)
        ensures
            v@.len() == 1,
            row_matches(v@[0], match self {
                PirateFaction::Ashwake => (ShipKind::Raider, seq![ModuleKind::TorpedoRack], if count >= 1 { count } else { 1 }),
                PirateFaction::Ironclad => (ShipKind::Corvette, seq![ModuleKind::ReflectivePlating, ModuleKind::WhippleArmor], if count >= 1 { count } else { 1 }),
                PirateFaction::Rift => (ShipKind::Raider, seq![ModuleKind::MassDriver], if count >= 1 { count } else { 1 }),
            }),
    {
        let n = if count >= 1 { count } else { 1 };
        let (hull, fit) = match self {
            PirateFaction::Ashwake => (ShipKind::Raider, vec![ModuleKind::TorpedoRack]),
            PirateFaction::Ironclad => (ShipKind::Corvette, vec![ModuleKind::ReflectivePlating, ModuleKind::WhippleArmor]),
            PirateFaction::Rift => (ShipKind::Raider, vec![ModuleKind::MassDriver]),
        };
        proof {
            match self {
                PirateFaction::Ashwake => assert(fit@ =~= seq![ModuleKind::TorpedoRack]),
                PirateFaction::Ironclad => assert(fit@ =~= seq![ModuleKind::ReflectivePlating, ModuleKind::WhippleArmor]),
                PirateFaction::Rift => assert(fit@ =~= seq![ModuleKind::MassDriver]),
            }
        }
        let mut v = Vec::new();
        v.push((hull, Loadout::new(fit), n));
        v
    }
}

/// The combat objective a support site carries.
#[derive(Debug, Clone, Copy, PartialEq, Eq, Structural)]
pub enum CombatObjective {
    DisableFireControl,
    DisableSupply,
    HoldExtraction,
    BreakBlockade,
    ProtectEvacuation,
}

/// Immutable mission actors that survive expired contracts.
#[derive(Debug, Clone, PartialEq, Eq)]
pub struct ObjectiveActors {
    pub pirates: Vec<EntityId>,
    pub evacuees: Option<EntityId>,
    pub launched: bool,
    pub arrived: bool,
}

/// Depots and strongholds are permanent, fixed-strength sites.
pub fn permanent_site(tier: u32) -> (r: bool)
    ensures
        r == (tier >= DEPOT_TIER),
{
    tier >= DEPOT_TIER
}

/// The site's published name.
pub fn site_name(tier: u32) -> (s: &'static str)
    ensures
        s@ == if tier == DEPOT_TIER {
            "Fortified pirate depot"@
        } else if tier == STRONGHOLD_TIER {
            "Regional stronghold"@
        } else {
            "Privateer hideout"@
        },
{
    if tier == DEPOT_TIER {
        "Fortified pirate depot"
    } else if tier == STRONGHOLD_TIER {
        "Regional stronghold"
    } else {
        "Privateer hideout"
    }
}

/// The raider count a pack launches at a given tier (at least one).
pub open spec fn spec_pack_size(tier: u32) -> u32 {
    if tier * PIRATE_PACK_PER_TIER >= 1 { (tier * PIRATE_PACK_PER_TIER) as u32 } else { 1 }
}

/// The raider count a pack launches at a given tier (at least one).
pub fn pack_size(tier: u32) -> (n: u32)
    ensures
        n == spec_pack_size(tier),
        n >= 1,
{
    let n = tier * PIRATE_PACK_PER_TIER;
    if n >= 1 { n } else { 1 }
}

/// The base's platform-equivalent defense tiers at a given tier.
pub fn base_defense_tiers(tier: u32) -> (d: u32)
    requires
        tier <= u32::MAX / PIRATE_DEFENSE_PER_TIER,
    ensures
        d == if tier == DEPOT_TIER { 3 } else if tier == STRONGHOLD_TIER { 6 } else { tier * PIRATE_DEFENSE_PER_TIER },
{
    if tier == DEPOT_TIER {
        3
    } else if tier == STRONGHOLD_TIER {
        6
    } else {
        tier * PIRATE_DEFENSE_PER_TIER
    }
}

/// The published garrison rows of a site tier.
pub open spec fn formation_rows(tier: u32) -> Seq<(ShipKind, Seq<ModuleKind>, u32)> {
    if tier == DEPOT_TIER {
        seq![
            (ShipKind::Destroyer, seq![ModuleKind::MassDriver, ModuleKind::ReflectivePlating], 1u32),
            (ShipKind::Corvette, seq![ModuleKind::PointDefenseScreen, ModuleKind::ReflectivePlating], 1u32),
        ]
    } else if tier == STRONGHOLD_TIER {
        seq![
            (ShipKind::Cruiser, seq![ModuleKind::MassDriver, ModuleKind::WhippleArmor, ModuleKind::ReflectivePlating], 1u32),
            (ShipKind::Destroyer, seq![ModuleKind::TorpedoRack, ModuleKind::ReflectivePlating], 1u32),
            (ShipKind::Corvette, seq![ModuleKind::PointDefenseScreen, ModuleKind::ReflectivePlating], 2u32),
        ]
    } else {
        seq![(ShipKind::Raider, Seq::<ModuleKind>::empty(), spec_pack_size(tier))]
    }
}

fn line(hull: ShipKind, fit: Vec<ModuleKind>, n: u32) -> (r: (ShipKind, Loadout, u32))
    ensures
        row_matches(r, (hull, fit@, n)),
{
    (hull, Loadout::new(fit), n)
}

/// Published, fixed encounter fittings. Research can counter them; bringing
/// a better fleet never silently increases the opposition.
pub fn formation(tier: u32) -> (v: Vec<(ShipKind, Loadout, u32)>)
    ensures
        v@.len() == formation_rows(tier).len(),
        forall|i: int| 0 <= i < v@.len() ==> row_matches(#[trigger] v@[i], formation_rows(tier)[i]),
{
    let mut v = Vec::new();
    if tier == DEPOT_TIER {
        v.push(line(ShipKind::Destroyer, vec![ModuleKind::MassDriver, ModuleKind::ReflectivePlating], 1));
        v.push(line(ShipKind::Corvette, vec![ModuleKind::PointDefenseScreen, ModuleKind::ReflectivePlating], 1));
    } else if tier == STRONGHOLD_TIER {
        v.push(line(ShipKind::Cruiser, vec![ModuleKind::MassDriver, ModuleKind::WhippleArmor, ModuleKind::ReflectivePlating], 1));
        v.push(line(ShipKind::Destroyer, vec![ModuleKind::TorpedoRack, ModuleKind::ReflectivePlating], 1));
        v.push(line(ShipKind::Corvette, vec![ModuleKind::PointDefenseScreen, ModuleKind::ReflectivePlating], 2));
    } else {
        v.push(line(ShipKind::Raider, Vec::new(), pack_size(tier)));
    }
    proof {
        let rows = formation_rows(tier);
        if tier == DEPOT_TIER {
            assert(seq![ModuleKind::MassDriver, ModuleKind::ReflectivePlating] =~= rows[0].1);
        }
        assert forall|i: int| 0 <= i < v@.len() implies row_matches(#[trigger] v@[i], formation_rows(tier)[i]) by {
            if tier != DEPOT_TIER && tier != STRONGHOLD_TIER {
                assert(Seq::<ModuleKind>::empty() =~= rows[0].1);
            }
        }
    }
    v
}

/// The fitting a patrol variant flies: driver, torpedo or plating, cycling.
pub fn patrol_fitting(variant: u8) -> (l: Loadout)
    ensures
        l@ == canonical(if variant % 3 == 0 {
            seq![ModuleKind::MassDriver]
        } else if variant % 3 == 1 {
            seq![ModuleKind::TorpedoRack]
        } else {
            seq![ModuleKind::ReflectivePlating]
        }),
{
    let fit = match variant % 3 {
        0 => vec![ModuleKind::MassDriver],
        1 => vec![ModuleKind::TorpedoRack],
        _ => vec![ModuleKind::ReflectivePlating],
    };
    proof {
        if variant % 3 == 0 {
            assert(fit@ =~= seq![ModuleKind::MassDriver]);
        } else if variant % 3 == 1 {
            assert(fit@ =~= seq![ModuleKind::TorpedoRack]);
        } else {
            assert(fit@ =~= seq![ModuleKind::ReflectivePlating]);
        }
    }
    Loadout::new(fit)
}

/// An authored, finite equipment cache a permanent site mints once.
#[derive(Debug, Clone, Copy, PartialEq, Eq, Structural)]
pub enum SitePrize {
    BreacherCache,
    ScreenCache,
}

impl SitePrize {
    /// The cache a site tier holds: depots a breacher cache, strongholds a
    /// screen cache, hideouts none.
    pub fn for_tier(tier: u32) -> (p: Option<Self>)
        ensures
            p == if tier == DEPOT_TIER {
                Some(SitePrize::BreacherCache)
            } else if tier == STRONGHOLD_TIER {
                Some(SitePrize::ScreenCache)
            } else {
                None
            },
    {
        if tier == DEPOT_TIER {
            Some(SitePrize::BreacherCache)
        } else if tier == STRONGHOLD_TIER {
            Some(SitePrize::ScreenCache)
        } else {
            None
        }
    }

    /// The cache's title.
    pub fn title(self) -> (s: &'static str)
        ensures
            s@ == match self {
                SitePrize::BreacherCache => "Breacher cache"@,
                SitePrize::ScreenCache => "Fleet-screen cache"@,
            },
    {
        match self {
            SitePrize::BreacherCache => "Breacher cache",
            SitePrize::ScreenCache => "Fleet-screen cache",
        }
    }

    /// The module crates in the cache, by module order.
    pub fn modules(self) -> (v: Vec<(ModuleKind, u32)>)
        ensures
            v@ == match self {
                SitePrize::BreacherCache => seq![(ModuleKind::MassDriver, 2u32), (ModuleKind::WhippleArmor, 2u32)],
                SitePrize::ScreenCache => seq![(ModuleKind::PointDefenseScreen, 4u32), (ModuleKind::ReflectivePlating, 4u32)],
            },
    {
        let v = match self {
            SitePrize::BreacherCache => vec![(ModuleKind::MassDriver, 2), (ModuleKind::WhippleArmor, 2)],
            SitePrize::ScreenCache => vec![(ModuleKind::PointDefenseScreen, 4), (ModuleKind::ReflectivePlating, 4)],
        };
        proof {
            match self {
                SitePrize::BreacherCache => assert(v@ =~= seq![(ModuleKind::MassDriver, 2u32), (ModuleKind::WhippleArmor, 2u32)]),
                SitePrize::ScreenCache => assert(v@ =~= seq![(ModuleKind::PointDefenseScreen, 4u32), (ModuleKind::ReflectivePlating, 4u32)]),
            }
        }
        v
    }

    /// The research programme the cache's dossier offsets.
    pub fn programme(self) -> (s: &'static str)
        ensures
            s@ == match self {
                SitePrize::BreacherCache => "hull_line_v_cruiser"@,
                SitePrize::ScreenCache => "hull_line_vi_battleship"@,
            },
    {
        match self {
            SitePrize::BreacherCache => "hull_line_v_cruiser",
            SitePrize::ScreenCache => "hull_line_vi_battleship",
        }
    }

    /// The cache's published summary.
    pub fn summary(self) -> (s: &'static str)
        ensures
            s@ == match self {
                SitePrize::BreacherCache => "2 Mass Drivers + 2 Whipple Armor: outfit two breachers; no torpedo cover. Cruiser Hull dossier: 30% research work."@,
                SitePrize::ScreenCache => "4 Point-Defense Screens + 4 Reflective Plating: outfit four escorts; reduced gun damage. Battleship dossier: 30% research work."@,
            },
    {
        match self {
            SitePrize::BreacherCache => "2 Mass Drivers + 2 Whipple Armor: outfit two breachers; no torpedo cover. Cruiser Hull dossier: 30% research work.",
            SitePrize::ScreenCache => "4 Point-Defense Screens + 4 Reflective Plating: outfit four escorts; reduced gun damage. Battleship dossier: 30% research work.",
        }
    }
}

} // verus!
