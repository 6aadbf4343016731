//! Standing mission profiles a fleet carries into battle: whom it prefers to
//! shoot, whom it screens, and when a damaged fleet withdraws.

use vstd::prelude::*;

verus! {

/// Which targets a fleet's shooters prefer (a bias, never a lock).
#[derive(Debug, Clone, Copy, PartialEq, Eq, Structural)]
pub enum TargetPriority {
    Balanced,
    MissileShips,
    Installations,
    Transports,
}

/// Whom a fleet's warships screen.
#[derive(Debug, Clone, Copy, PartialEq, Eq, Structural)]
pub enum ScreeningRole {
    Automatic,
    ProtectTransports,
}

/// When a damaged fleet breaks off.
#[derive(Debug, Clone, Copy, PartialEq, Eq, Structural)]
pub enum DamageWithdrawal {
    Never,
    Hull50,
}

/// A fleet's standing battle instructions.
#[derive(Debug, Clone, Copy, PartialEq, Eq, Structural)]
pub struct MissionProfile {
    pub priority: TargetPriority,
    pub screening: ScreeningRole,
    pub withdrawal: DamageWithdrawal,
}

} // verus!
