//! Physical civilian migration: a colony's intake policy and the passenger
//! manifest aboard an Authority migrant liner.

use vstd::prelude::*;

use crate::ids::{EntityId, PlayerId};

verus! {

/// People per migrant cohort (one liner carries one cohort).
pub const MIGRANT_COHORT_PEOPLE: u32 = 1_000;
/// Migrant liners one corporation may have in flight at once.
pub const MIGRATION_MAX_IN_FLIGHT_PER_CORP: usize = 3;

/// A colony's immigration policy.
#[derive(Debug, Clone, Copy, PartialEq, Eq, PartialOrd, Ord, Structural)]
pub enum MigrationPolicy {
    Closed,
    /// Accept a cohort only when posted jobs exceed the workforce.
    Managed,
    /// Accept cohorts while housing and food permit.
    Open,
    /// Like Open, but selected first with a shorter interval.
    Priority,
}

impl MigrationPolicy {
    /// Stable wire slug.
    pub fn slug(self) -> (s: &'static str)
        ensures
            s@ == match self {
                MigrationPolicy::Closed => "closed"@,
                MigrationPolicy::Managed => "managed"@,
                MigrationPolicy::Open => "open"@,
                MigrationPolicy::Priority => "priority"@,
            },
    {
        match self {
            MigrationPolicy::Closed => "closed",
            MigrationPolicy::Managed => "managed",
            MigrationPolicy::Open => "open",
            MigrationPolicy::Priority => "priority",
        }
    }
}

impl Default for MigrationPolicy {
    /// Colonies start managed.
    fn default() -> (p: Self)
        ensures
            p == MigrationPolicy::Managed,
    {
        MigrationPolicy::Managed
    }
}

/// Which way a liner is flying.
#[derive(Debug, Clone, Copy, PartialEq, Eq, Structural)]
pub enum MigrantLeg {
    Outbound,
    Returning,
}

/// The passenger manifest of one Authority freighter hull. `origin` is
/// `None` for immigration from the hub; internal relocation records its
/// source so a rejected cohort can physically return.
#[derive(Debug, Clone, Copy, PartialEq, Eq, Structural)]
pub struct MigrantRun {
    pub fleet: EntityId,
    pub owner: PlayerId,
    pub dest: EntityId,
    pub body: u32,
    pub people: u32,
    pub leg: MigrantLeg,
    pub origin: Option<EntityId>,
    pub origin_body: Option<u32>,
}

} // verus!
