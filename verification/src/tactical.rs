//! Versioned tactical combat: the rules version a battle was opened under,
//! the combat tables and random stream frozen with the first kernel, and the
//! private deterministic battle archive.
//!
//! A saved battle's version selects the rules it was opened under, not the
//! newest balance; the archive reconstructs a fight from its initial state and the
//! external inputs recorded against it.

pub mod replay;
pub mod rules_v1;

use vstd::prelude::*;

verus! {

/// The rules a battle was opened under, captured once at battle open. Saves
/// that predate the tag load as the first version.
#[derive(Debug, Clone, Copy, PartialEq, Eq, Structural)]
pub enum Rules {
    V1,
    V2,
    /// One private, frozen maneuver seed per engagement.
    V3 { maneuver_seed: u64 },
    /// Local datalink fire control over the third version's motion.
    V4 { maneuver_seed: u64 },
    /// Discovery weapons over the fourth version.
    V5 { maneuver_seed: u64 },
    /// Mission profiles over the fifth version.
    V6 { maneuver_seed: u64 },
}

impl Default for Rules {
    /// A missing tag means the first version, even for a fight already running.
    fn default() -> (r: Self)
        ensures
            r == Rules::V1,
    {
        Rules::V1
    }
}

/// The version number of a rules tag.
pub open spec fn spec_rules_version(r: Rules) -> u32 {
    match r {
        Rules::V1 => 1,
        Rules::V2 => 2,
        Rules::V3 { .. } => 3,
        Rules::V4 { .. } => 4,
        Rules::V5 { .. } => 5,
        Rules::V6 { .. } => 6,
    }
}

impl Rules {
    /// Whether this is the first kernel's rules.
    pub fn is_v1(&self) -> (r: bool)
        ensures
            r == (*self == Rules::V1),
    {
        match self {
            Rules::V1 => true,
            _ => false,
        }
    }

    /// The rules version number, one through six.
    pub fn rules_version(&self) -> (v: u32)
        ensures
            v == spec_rules_version(*self),
            1 <= v <= 6,
    {
        match self {
            Rules::V1 => 1,
            Rules::V2 => 2,
            Rules::V3 { .. } => 3,
            Rules::V4 { .. } => 4,
            Rules::V5 { .. } => 5,
            Rules::V6 { .. } => 6,
        }
    }
}

} // verus!
