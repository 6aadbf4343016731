//! Hyperspace lanes: the drive regimes a fleet can be in, how a route came
//! to exist, and the names routes carry.

use vstd::prelude::*;

verus! {

/// How a route came to exist.
#[derive(Debug, Clone, Copy, PartialEq, Eq, Structural)]
pub enum LaneKind {
    /// Radial, hub outward.
    Trunk,
    /// A ring crossing the radials.
    Arc,
    /// Criss-crossing, seeded at a system's own singularity.
    Chord,
    /// A home's own filament to the nearest route; serves one system by design.
    Spur,
}

impl LaneKind {
    /// Routes saved before kinds existed load as trunks.
    pub fn default_trunk() -> (k: Self)
        ensures
            k == LaneKind::Trunk,
    {
        LaneKind::Trunk
    }
}

/// Which drive is carrying a fleet.
#[derive(Debug, Clone, Copy, PartialEq, Eq, Structural)]
pub enum Regime {
    /// Sublight manoeuvring.
    Thrusters,
    /// Open-space warp, flown anywhere.
    Warp,
    /// Riding a lane.
    Hyperspace,
}

impl Default for Regime {
    /// A fleet with nothing lit is on thrusters.
    fn default() -> (r: Self)
        ensures
            r == Regime::Thrusters,
    {
        Regime::Thrusters
    }
}

impl Regime {
    /// The regime a drop that predates the field is read as: a warp drop.
    pub fn warp() -> (r: Self)
        ensures
            r == Regime::Warp,
    {
        Regime::Warp
    }

    /// The label the map shows.
    pub fn label(self) -> (s: &'static str)
        ensures
            s@ == match self {
                Regime::Thrusters => "impulse"@,
                Regime::Warp => "warp"@,
                Regime::Hyperspace => "hyperspace"@,
            },
    {
        match self {
            Regime::Thrusters => "impulse",
            Regime::Warp => "warp",
            Regime::Hyperspace => "hyperspace",
        }
    }
}

/// How many distinct route names there are; ids wrap around them.
pub const ROUTE_NAME_COUNT: u32 = 16;

/// The route name at position `i` of the naming table.
pub open spec fn spec_route_name(i: int) -> Seq<char> {
    if i == 0 { "The Rip"@ }
    else if i == 1 { "Kepler Run"@ }
    else if i == 2 { "The Long Reach"@ }
    else if i == 3 { "Meridian Cut"@ }
    else if i == 4 { "The Spindle"@ }
    else if i == 5 { "Halloran Drift"@ }
    else if i == 6 { "The Verge Road"@ }
    else if i == 7 { "Cold Harbour Run"@ }
    else if i == 8 { "The Seam"@ }
    else if i == 9 { "Tanner's Reach"@ }
    else if i == 10 { "The Gallows Road"@ }
    else if i == 11 { "Windlass Run"@ }
    else if i == 12 { "The Deep Furrow"@ }
    else if i == 13 { "Ashfall Cut"@ }
    else if i == 14 { "The Bright Lane"@ }
    else { "Corvid Run"@ }
}

fn route_name_at(i: u32) -> (s: &'static str)
    requires
        i < ROUTE_NAME_COUNT,
    ensures
        s@ == spec_route_name(i as int),
{
    if i == 0 { "The Rip" }
    else if i == 1 { "Kepler Run" }
    else if i == 2 { "The Long Reach" }
    else if i == 3 { "Meridian Cut" }
    else if i == 4 { "The Spindle" }
    else if i == 5 { "Halloran Drift" }
    else if i == 6 { "The Verge Road" }
    else if i == 7 { "Cold Harbour Run" }
    else if i == 8 { "The Seam" }
    else if i == 9 { "Tanner's Reach" }
    else if i == 10 { "The Gallows Road" }
    else if i == 11 { "Windlass Run" }
    else if i == 12 { "The Deep Furrow" }
    else if i == 13 { "Ashfall Cut" }
    else if i == 14 { "The Bright Lane" }
    else { "Corvid Run" }
}

/// The name a route with this id carries: the naming table, cycled.
pub fn route_name(id: u32) -> (s: String)
    ensures
        s@ == spec_route_name((id % ROUTE_NAME_COUNT) as int),
{
    route_name_at(id % ROUTE_NAME_COUNT).to_owned()
}

/// Route names repeat exactly every `ROUTE_NAME_COUNT` ids.
pub proof fn route_names_cycle(id: u32)
    requires
        id + ROUTE_NAME_COUNT <= u32::MAX,
    ensures
        spec_route_name(((id + ROUTE_NAME_COUNT) % (ROUTE_NAME_COUNT as int)))
            == spec_route_name((id % ROUTE_NAME_COUNT) as int),
{
    assert((id + 16) % 16 == id % 16) by (nonlinear_arith);
}

} // verus!
