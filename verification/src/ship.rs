//! Ship kinds: the hull catalog's integer tables (slots, fitting budgets,
//! marine complements, broadcast and combat classes) and the fog's
//! estimated-size buckets.

use vstd::prelude::*;

use crate::ids::EntityId;
use crate::lane::Regime;

verus! {

/// Every hull kind in the game.
#[derive(Debug, Clone, Copy, PartialEq, Eq, PartialOrd, Ord, Hash, Structural)]
pub enum ShipKind {
    /// Slow, heavy hauler — carries trade.
    Convoy,
    /// Fast, light interceptor.
    Raider,
    /// The dedicated defender: screens civilians, cannot raid.
    Corvette,
    /// The settlement ship, consumed on arrival.
    Colony,
    /// The lightest hull: active intel, runs dark.
    Scout,
    /// Line IV: the first true ship of the line.
    Destroyer,
    /// Line V: the armored core of a fleet.
    Cruiser,
    /// Line VI: the siege anchor.
    Battleship,
    /// Line VII: the fleet screen.
    Dreadnought,
    /// Line VIII: the flagship (at most one per syndicate).
    Titan,
    /// The troop transport.
    Transport,
    /// The construction ship.
    Builder,
    /// The Authority's common carrier (never buildable by a corporation).
    Freighter,
}

/// Whole cargo units one Convoy hull can lift.
pub const CARGO_UNITS_PER_CONVOY: u32 = 250;

/// The hull-mass line (whole units) at or above which a hull counts as a capital.
pub const CAPITAL_MASS_THRESHOLD: u32 = 7000;

/// All ship kinds, in a fixed deterministic order.
pub const ALL_SHIP_KINDS: [ShipKind; 13] = [
    ShipKind::Convoy,
    ShipKind::Raider,
    ShipKind::Corvette,
    ShipKind::Colony,
    ShipKind::Scout,
    ShipKind::Destroyer,
    ShipKind::Cruiser,
    ShipKind::Battleship,
    ShipKind::Dreadnought,
    ShipKind::Titan,
    ShipKind::Transport,
    ShipKind::Builder,
    ShipKind::Freighter,
];

/// The flagship precedence: a fleet is drawn and named for its most
/// significant member, highest precedence first.
pub const FLAGSHIP_PRECEDENCE: [ShipKind; 13] = [
    ShipKind::Titan,
    ShipKind::Dreadnought,
    ShipKind::Battleship,
    ShipKind::Cruiser,
    ShipKind::Destroyer,
    ShipKind::Transport,
    ShipKind::Colony,
    ShipKind::Convoy,
    ShipKind::Freighter,
    ShipKind::Corvette,
    ShipKind::Raider,
    ShipKind::Builder,
    ShipKind::Scout,
];

/// Whether a kind broadcasts under the Convention (visible galaxy-wide).
pub open spec fn spec_broadcasts(k: ShipKind) -> bool {
    !(k == ShipKind::Raider || k == ShipKind::Scout || k == ShipKind::Builder)
}

/// Whether a kind counts toward force-ratio assessments.
pub open spec fn spec_is_combatant(k: ShipKind) -> bool {
    k == ShipKind::Raider || k == ShipKind::Corvette || spec_requires_hull_unlock(k)
}

/// The five research-gated ladder hulls.
pub open spec fn spec_requires_hull_unlock(k: ShipKind) -> bool {
    k == ShipKind::Destroyer || k == ShipKind::Cruiser || k == ShipKind::Battleship
        || k == ShipKind::Dreadnought || k == ShipKind::Titan
}

/// Module slots per hull.
pub open spec fn spec_module_slots(k: ShipKind) -> u32 {
    match k {
        ShipKind::Builder => 0,
        ShipKind::Corvette => 2,
        ShipKind::Raider => 2,
        ShipKind::Scout => 1,
        ShipKind::Convoy | ShipKind::Colony | ShipKind::Transport | ShipKind::Freighter => 0,
        ShipKind::Destroyer => 3,
        ShipKind::Cruiser => 4,
        ShipKind::Battleship => 4,
        ShipKind::Dreadnought => 5,
        ShipKind::Titan => 6,
    }
}

/// Fitting-point budget per hull.
pub open spec fn spec_fitting_points(k: ShipKind) -> u32 {
    match k {
        ShipKind::Builder => 0,
        ShipKind::Scout => 2,
        ShipKind::Convoy => 2,
        ShipKind::Colony => 2,
        ShipKind::Transport => 2,
        ShipKind::Raider => 4,
        ShipKind::Corvette => 5,
        ShipKind::Destroyer => 8,
        ShipKind::Cruiser => 12,
        ShipKind::Battleship => 18,
        ShipKind::Dreadnought => 28,
        ShipKind::Titan => 45,
        ShipKind::Freighter => 0,
    }
}

/// Empty-hull mass (whole units; every catalog mass is a whole number).
pub open spec fn spec_hull_mass(k: ShipKind) -> u32 {
    match k {
        ShipKind::Convoy => 4500,
        ShipKind::Builder => 2500,
        ShipKind::Raider => 200,
        ShipKind::Corvette => 800,
        ShipKind::Colony => 6000,
        ShipKind::Scout => 80,
        ShipKind::Destroyer => 2000,
        ShipKind::Cruiser => 4000,
        ShipKind::Battleship => 8000,
        ShipKind::Dreadnought => 16000,
        ShipKind::Titan => 32000,
        ShipKind::Transport => 7000,
        ShipKind::Freighter => 6000,
    }
}

/// Marine complement per hull.
pub open spec fn spec_marine_capacity(k: ShipKind) -> u32 {
    match k {
        ShipKind::Transport => 40,
        ShipKind::Titan => 30,
        ShipKind::Dreadnought => 18,
        ShipKind::Battleship => 12,
        ShipKind::Cruiser => 7,
        ShipKind::Destroyer => 4,
        _ => 0,
    }
}

impl ShipKind {
    /// Whether this kind broadcasts under the Convention. Raiders and scouts
    /// run dark; so does the builder.
    pub fn broadcasts(self) -> (r: bool)
        ensures
            r == spec_broadcasts(self),
    {
        match self {
            ShipKind::Convoy | ShipKind::Corvette | ShipKind::Colony | ShipKind::Destroyer
            | ShipKind::Cruiser | ShipKind::Battleship | ShipKind::Dreadnought | ShipKind::Titan
            | ShipKind::Transport | ShipKind::Freighter => true,
            _ => false,
        }
    }

    /// Whether this kind carries teeth for force-ratio assessments.
    pub fn is_combatant(self) -> (r: bool)
        ensures
            r == spec_is_combatant(self),
    {
        match self {
            ShipKind::Raider | ShipKind::Corvette | ShipKind::Destroyer | ShipKind::Cruiser
            | ShipKind::Battleship | ShipKind::Dreadnought | ShipKind::Titan => true,
            _ => false,
        }
    }

    /// Whether a corporation can build this kind: everything but the
    /// Authority freighter.
    pub fn is_buildable(self) -> (r: bool)
        ensures
            r == (self != ShipKind::Freighter),
    {
        match self {
            ShipKind::Freighter => false,
            _ => true,
        }
    }

    /// How many module slots this hull carries.
    pub fn module_slots(self) -> (r: u32)
        ensures
            r == spec_module_slots(self),
    {
        match self {
            ShipKind::Builder => 0,
            ShipKind::Corvette => 2,
            ShipKind::Raider => 2,
            ShipKind::Scout => 1,
            ShipKind::Convoy | ShipKind::Colony | ShipKind::Transport | ShipKind::Freighter => 0,
            ShipKind::Destroyer => 3,
            ShipKind::Cruiser => 4,
            ShipKind::Battleship => 4,
            ShipKind::Dreadnought => 5,
            ShipKind::Titan => 6,
        }
    }
}

/// The hull's fitting-point budget (the second constraint besides slots).
pub fn fitting_points(kind: ShipKind) -> (r: u32)
    ensures
        r == spec_fitting_points(kind),
{
    match kind {
        ShipKind::Builder => 0,
        ShipKind::Scout => 2,
        ShipKind::Convoy => 2,
        ShipKind::Colony => 2,
        ShipKind::Transport => 2,
        ShipKind::Raider => 4,
        ShipKind::Corvette => 5,
        ShipKind::Destroyer => 8,
        ShipKind::Cruiser => 12,
        ShipKind::Battleship => 18,
        ShipKind::Dreadnought => 28,
        ShipKind::Titan => 45,
        ShipKind::Freighter => 0,
    }
}

/// Does this hull need its research programme before it can be built?
pub fn requires_hull_unlock(kind: ShipKind) -> (r: bool)
    ensures
        r == spec_requires_hull_unlock(kind),
{
    match kind {
        ShipKind::Destroyer | ShipKind::Cruiser | ShipKind::Battleship | ShipKind::Dreadnought
        | ShipKind::Titan => true,
        _ => false,
    }
}

fn hull_mass_whole(kind: ShipKind) -> (r: u32)
    ensures
        r == spec_hull_mass(kind),
{
    match kind {
        ShipKind::Convoy => 4500,
        ShipKind::Builder => 2500,
        ShipKind::Raider => 200,
        ShipKind::Corvette => 800,
        ShipKind::Colony => 6000,
        ShipKind::Scout => 80,
        ShipKind::Destroyer => 2000,
        ShipKind::Cruiser => 4000,
        ShipKind::Battleship => 8000,
        ShipKind::Dreadnought => 16000,
        ShipKind::Titan => 32000,
        ShipKind::Transport => 7000,
        ShipKind::Freighter => 6000,
    }
}

/// Is this hull a siege anchor: a combatant at or above the capital mass line?
pub fn is_siege_anchor(kind: ShipKind) -> (r: bool)
    ensures
        r == (spec_is_combatant(kind) && spec_hull_mass(kind) >= CAPITAL_MASS_THRESHOLD),
        r <==> (kind == ShipKind::Battleship || kind == ShipKind::Dreadnought
            || kind == ShipKind::Titan),
{
    kind.is_combatant() && hull_mass_whole(kind) >= CAPITAL_MASS_THRESHOLD
}

/// Marine complement carried by one hull of this kind.
pub fn marine_capacity(kind: ShipKind) -> (r: u32)
    ensures
        r == spec_marine_capacity(kind),
{
    match kind {
        ShipKind::Transport => 40,
        ShipKind::Titan => 30,
        ShipKind::Dreadnought => 18,
        ShipKind::Battleship => 12,
        ShipKind::Cruiser => 7,
        ShipKind::Destroyer => 4,
        _ => 0,
    }
}

/// An estimated-size bucket for a fleet seen through the fog.
#[derive(Debug, Clone, Copy, PartialEq, Eq, Structural)]
pub enum CountClass {
    One,
    TwoToThree,
    FourToSeven,
    EightToFifteen,
    SixteenToThirty,
    ThirtyOnePlus,
}

/// The least count a bucket admits.
pub open spec fn class_lo(c: CountClass) -> u32 {
    match c {
        CountClass::One => 1,
        CountClass::TwoToThree => 2,
        CountClass::FourToSeven => 4,
        CountClass::EightToFifteen => 8,
        CountClass::SixteenToThirty => 16,
        CountClass::ThirtyOnePlus => 31,
    }
}

/// The greatest count a bucket admits.
pub open spec fn class_hi(c: CountClass) -> u32 {
    match c {
        CountClass::One => 1,
        CountClass::TwoToThree => 3,
        CountClass::FourToSeven => 7,
        CountClass::EightToFifteen => 15,
        CountClass::SixteenToThirty => 30,
        CountClass::ThirtyOnePlus => u32::MAX,
    }
}

/// The bucket a count falls in (a count of zero reads as `One`).
pub open spec fn spec_from_count(n: u32) -> CountClass {
    if n <= 1 {
        CountClass::One
    } else if n <= 3 {
        CountClass::TwoToThree
    } else if n <= 7 {
        CountClass::FourToSeven
    } else if n <= 15 {
        CountClass::EightToFifteen
    } else if n <= 30 {
        CountClass::SixteenToThirty
    } else {
        CountClass::ThirtyOnePlus
    }
}

impl CountClass {
    /// The deterministic bucket for an exact total count:
    /// `1 · 2–3 · 4–7 · 8–15 · 16–30 · 31+`.
    pub fn from_count(n: u32) -> (c: Self)
        ensures
            c == spec_from_count(n),
            n >= 1 ==> class_lo(c) <= n <= class_hi(c),
    {
        if n <= 1 {
            CountClass::One
        } else if n <= 3 {
            CountClass::TwoToThree
        } else if n <= 7 {
            CountClass::FourToSeven
        } else if n <= 15 {
            CountClass::EightToFifteen
        } else if n <= 30 {
            CountClass::SixteenToThirty
        } else {
            CountClass::ThirtyOnePlus
        }
    }

    /// The human-facing label.
    pub fn label(self) -> (s: &'static str)
        ensures
            s@ == match self {
                CountClass::One => "1"@,
                CountClass::TwoToThree => "2–3"@,
                CountClass::FourToSeven => "4–7"@,
                CountClass::EightToFifteen => "8–15"@,
                CountClass::SixteenToThirty => "16–30"@,
                CountClass::ThirtyOnePlus => "31+"@,
            },
    {
        match self {
            CountClass::One => "1",
            CountClass::TwoToThree => "2–3",
            CountClass::FourToSeven => "4–7",
            CountClass::EightToFifteen => "8–15",
            CountClass::SixteenToThirty => "16–30",
            CountClass::ThirtyOnePlus => "31+",
        }
    }

    /// The representative count the stale-intel calculator assumes: the
    /// bucket's midpoint, never the true count.
    pub fn midpoint(self) -> (m: u32)
        ensures
            m == match self {
                CountClass::One => 1u32,
                CountClass::TwoToThree => 2,
                CountClass::FourToSeven => 5,
                CountClass::EightToFifteen => 11,
                CountClass::SixteenToThirty => 23,
                CountClass::ThirtyOnePlus => 40,
            },
            class_lo(self) <= m <= class_hi(self),
    {
        match self {
            CountClass::One => 1,
            CountClass::TwoToThree => 2,
            CountClass::FourToSeven => 5,
            CountClass::EightToFifteen => 11,
            CountClass::SixteenToThirty => 23,
            CountClass::ThirtyOnePlus => 40,
        }
    }
}

/// The buckets partition the positive counts: every count from one up lies
/// in exactly the bucket `from_count` names, and in no other.
pub proof fn count_class_partitions_the_counts(n: u32, c: CountClass)
    requires
        n >= 1,
    ensures
        (class_lo(c) <= n <= class_hi(c)) <==> c == spec_from_count(n),
{
}

/// A bucket is monotone in the count: a larger fleet never reads as a
/// smaller bucket.
pub proof fn count_class_is_monotone(a: u32, b: u32)
    requires
        a <= b,
    ensures
        class_lo(spec_from_count(a)) <= class_lo(spec_from_count(b)),
{
}

/// Where a fleet is berthed: the Market Hub, or a held star system.
#[derive(Debug, Clone, Copy, PartialEq, Eq, Structural)]
pub enum DockSite {
    Hub,
    System(EntityId),
}

/// A fleet's transit throttle: full formation speed, or a quiet creep.
#[derive(Debug, Clone, Copy, PartialEq, Eq, Structural)]
pub enum TransitMode {
    Full,
    Stealth,
}

/// The drive spin-up / shut-down state machine. Remaining seconds are held
/// as the raw bit patterns of IEEE-754 doubles; no rule here reads them.
#[derive(Debug, Clone, Copy, PartialEq, Eq, Structural)]
pub enum DriveState {
    /// On thrusters: the only state in which a fleet may change heading.
    Thrusters,
    /// Spinning a drive up into `to`; still at thruster speed.
    Spooling { to: Regime, left: u64 },
    /// Under way at the regime's speed, locked on course.
    Cruising(Regime),
    /// Shutting the `from` drive down; still moving, still unable to steer.
    Dropping { from: Regime, left: u64 },
}

impl Default for DriveState {
    /// A fleet starts on thrusters.
    fn default() -> (d: Self)
        ensures
            d == DriveState::Thrusters,
    {
        DriveState::Thrusters
    }
}

/// Whether a hull is in the lane: from the moment its hyperspace drive
/// catches until that drive is fully out. Spin-up is the approach, not the
/// ride; a warp drive touches no lane in any state.
pub open spec fn spec_stirs_the_lane(d: DriveState) -> bool {
    d == DriveState::Cruising(Regime::Hyperspace) || (d matches DriveState::Dropping { from, .. }
        && from == Regime::Hyperspace)
}

impl DriveState {
    /// Can the fleet change heading right now? Only on thrusters.
    pub fn can_steer(self) -> (r: bool)
        ensures
            r == (self == DriveState::Thrusters),
    {
        match self {
            DriveState::Thrusters => true,
            _ => false,
        }
    }

    /// Is this drive stirring the lane medium, that is, is the hull in the lane?
    pub fn stirs_the_lane(self) -> (r: bool)
        ensures
            r == spec_stirs_the_lane(self),
    {
        match self {
            DriveState::Cruising(Regime::Hyperspace) => true,
            DriveState::Dropping { from: Regime::Hyperspace, .. } => true,
            _ => false,
        }
    }

    /// The regime this state moves at: the cruising drive's, else thrusters
    /// (a drive that has not caught, or is letting go, carries nobody).
    pub fn regime(self) -> (r: Regime)
        ensures
            r == match self {
                DriveState::Cruising(g) => g,
                _ => Regime::Thrusters,
            },
    {
        match self {
            DriveState::Cruising(g) => g,
            _ => Regime::Thrusters,
        }
    }
}

/// The raw IEEE-754 bits of the seconds a drive takes to spin up into
/// `to`: none for thrusters, a second and a half for warp, four for a lane.
pub open spec fn spool_bits(to: Regime) -> u64 {
    match to {
        Regime::Thrusters => 0,
        Regime::Warp => 0x3FF8_0000_0000_0000,
        Regime::Hyperspace => 0x4010_0000_0000_0000,
    }
}

/// The raw IEEE-754 bits of the seconds a drive takes to shut `from` down
/// to thrusters: none for thrusters, one second for warp, three for a lane.
pub open spec fn drop_bits(from: Regime) -> u64 {
    match from {
        Regime::Thrusters => 0,
        Regime::Warp => 0x3FF0_0000_0000_0000,
        Regime::Hyperspace => 0x4008_0000_0000_0000,
    }
}

/// One tick of the drive state machine. `want` is the regime the fleet
/// wants; `off_course` whether its heading is beyond the course lock from
/// where it wants to go; `ticked` the bits of the running timer less the
/// tick, and `expired` whether that is no longer positive.
pub open spec fn spec_drive_next(
    d: DriveState,
    want: Regime,
    off_course: bool,
    ticked: u64,
    expired: bool,
) -> DriveState {
    match d {
        DriveState::Thrusters => if want != Regime::Thrusters {
            DriveState::Spooling { to: want, left: spool_bits(want) }
        } else {
            DriveState::Thrusters
        },
        DriveState::Spooling { to, left } => if to != want {
            if want == Regime::Thrusters {
                DriveState::Thrusters
            } else {
                DriveState::Spooling { to: want, left: spool_bits(want) }
            }
        } else if expired {
            DriveState::Cruising(to)
        } else {
            DriveState::Spooling { to, left: ticked }
        },
        DriveState::Cruising(r) => if r != want || (r == Regime::Warp && off_course) {
            DriveState::Dropping { from: r, left: drop_bits(r) }
        } else {
            DriveState::Cruising(r)
        },
        DriveState::Dropping { from, left } => if expired {
            DriveState::Thrusters
        } else {
            DriveState::Dropping { from, left: ticked }
        },
    }
}

impl DriveState {
    /// Advance the drive one tick: spin up into the wanted regime from
    /// thrusters, finish or abandon a spin-up, shut down a cruising drive
    /// whose regime is no longer wanted (or, in warp, whose course is), and
    /// finish a shut-down on thrusters.
    pub fn advance(self, want: Regime, off_course: bool, ticked: u64, expired: bool) -> (n: DriveState)
        ensures
            n == spec_drive_next(self, want, off_course, ticked, expired),
    {
        match self {
            DriveState::Thrusters => {
                if want != Regime::Thrusters {
                    DriveState::Spooling { to: want, left: spool_seconds_bits(want) }
                } else {
                    DriveState::Thrusters
                }
            },
            DriveState::Spooling { to, left: _ } => {
                if to != want {
                    if want == Regime::Thrusters {
                        DriveState::Thrusters
                    } else {
                        DriveState::Spooling { to: want, left: spool_seconds_bits(want) }
                    }
                } else if expired {
                    DriveState::Cruising(to)
                } else {
                    DriveState::Spooling { to, left: ticked }
                }
            },
            DriveState::Cruising(r) => {
                if r != want || (r == Regime::Warp && off_course) {
                    DriveState::Dropping { from: r, left: drop_seconds_bits(r) }
                } else {
                    DriveState::Cruising(r)
                }
            },
            DriveState::Dropping { from, left: _ } => {
                if expired {
                    DriveState::Thrusters
                } else {
                    DriveState::Dropping { from, left: ticked }
                }
            },
        }
    }
}

/// The regime a fleet wants this tick: a lane's hyperspace when its next leg
/// runs on a lane and its drive is lit, or when it holds a lane it arrived
/// in; else warp when its drive is lit clear of a gravity well; else
/// thrusters.
pub fn wanted_regime(next_leg_on_lane: bool, drive: bool, holding_lane: bool, in_well: bool) -> (r: Regime)
    ensures
        r == if next_leg_on_lane && drive {
            Regime::Hyperspace
        } else if holding_lane {
            Regime::Hyperspace
        } else if drive && !in_well {
            Regime::Warp
        } else {
            Regime::Thrusters
        },
{
    if next_leg_on_lane && drive {
        Regime::Hyperspace
    } else if holding_lane {
        Regime::Hyperspace
    } else if drive && !in_well {
        Regime::Warp
    } else {
        Regime::Thrusters
    }
}

/// The bits of the seconds to spin a drive up into `to`.
pub fn spool_seconds_bits(to: Regime) -> (b: u64)
    ensures
        b == spool_bits(to),
{
    match to {
        Regime::Thrusters => 0,
        Regime::Warp => 0x3FF8_0000_0000_0000,
        Regime::Hyperspace => 0x4010_0000_0000_0000,
    }
}

/// The bits of the seconds to shut `from` down to thrusters.
pub fn drop_seconds_bits(from: Regime) -> (b: u64)
    ensures
        b == drop_bits(from),
{
    match from {
        Regime::Thrusters => 0,
        Regime::Warp => 0x3FF0_0000_0000_0000,
        Regime::Hyperspace => 0x4008_0000_0000_0000,
    }
}

/// A drive changes regime only by way of thrusters: a drive that cruises
/// after a tick was already cruising in that regime or has just finished
/// spinning up into it; a spin-up starts only from thrusters or replaces
/// another spin-up; a cruising drive either keeps cruising in its regime or
/// starts shutting that regime down; and only a spin-up or a shut-down ends
/// on thrusters.
pub proof fn regime_changes_pass_through_thrusters(
    d: DriveState,
    want: Regime,
    off_course: bool,
    ticked: u64,
    expired: bool,
)
    ensures
        spec_drive_next(d, want, off_course, ticked, expired) matches DriveState::Cruising(g) ==> (d
            == DriveState::Cruising(g) || (d matches DriveState::Spooling { to, .. } && to == g)),
        spec_drive_next(d, want, off_course, ticked, expired) is Spooling ==> (d is Thrusters
            || d is Spooling),
        d matches DriveState::Cruising(r) ==> (spec_drive_next(d, want, off_course, ticked, expired) == d
            || (spec_drive_next(d, want, off_course, ticked, expired) matches DriveState::Dropping {
            from,
            ..
        } && from == r)),
        spec_drive_next(d, want, off_course, ticked, expired) is Thrusters && !(d is Thrusters) ==> (
        d is Spooling || d is Dropping),
{
}

/// Timers run down: a shut-down or a spin-up toward the regime still
/// wanted that has not expired keeps its regime and carries the ticked
/// timer; one that has expired completes, a shut-down on thrusters and a
/// spin-up cruising in its regime. A cruising drive keeps no timer, and a
/// drive on thrusters starts one only to spin up into a wanted drive, at
/// that drive's full spin-up time.
pub proof fn drive_timers_run_down(d: DriveState, want: Regime, off_course: bool, ticked: u64, expired: bool)
    ensures
        d matches DriveState::Dropping { from, .. } ==> spec_drive_next(d, want, off_course, ticked, expired)
            == if expired {
            DriveState::Thrusters
        } else {
            DriveState::Dropping { from, left: ticked }
        },
        d matches DriveState::Spooling { to, .. } ==> (to == want ==> spec_drive_next(
            d,
            want,
            off_course,
            ticked,
            expired,
        ) == if expired {
            DriveState::Cruising(to)
        } else {
            DriveState::Spooling { to, left: ticked }
        }),
        d == DriveState::Thrusters ==> spec_drive_next(d, want, off_course, ticked, expired) == if want
            == Regime::Thrusters {
            DriveState::Thrusters
        } else {
            DriveState::Spooling { to: want, left: spool_bits(want) }
        },
        d is Cruising ==> !(spec_drive_next(d, want, off_course, ticked, expired) is Spooling),
{
}

/// A hull in the lane never steers, and only a cruising drive moves at
/// anything but thruster speed.
pub proof fn a_hull_in_the_lane_cannot_steer(d: DriveState)
    ensures
        spec_stirs_the_lane(d) ==> d != DriveState::Thrusters,
        !(d is Cruising) ==> match d {
            DriveState::Cruising(g) => g,
            _ => Regime::Thrusters,
        } == Regime::Thrusters,
{
}

/// What a physical cargo fleet does when it reaches its destination.
#[derive(Debug, Clone, Copy, PartialEq, Eq, Structural)]
pub enum TradeMission {
    DeliverHome,
    SellAtHub,
    DeliverToSystem { system: EntityId },
    DeliverToWarehouse { sell_on_arrival: bool },
}

} // verus!
