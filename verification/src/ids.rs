//! Entity, player, syndicate and operation identifiers.

use vstd::prelude::*;

verus! {

/// A world entity (star system, fleet, site): a plain 64-bit id.
#[derive(Debug, Clone, Copy, PartialEq, Eq, PartialOrd, Ord, Hash, Structural)]
pub struct EntityId(pub u64);

/// A corporation (player) id.
#[derive(Debug, Clone, Copy, PartialEq, Eq, PartialOrd, Ord, Hash, Structural)]
pub struct PlayerId(pub u64);

/// A syndicate (alliance) id.
#[derive(Debug, Clone, Copy, PartialEq, Eq, PartialOrd, Ord, Hash, Structural)]
pub struct SyndicateId(pub u64);

/// An operation (contract) id.
#[derive(Debug, Clone, Copy, PartialEq, Eq, PartialOrd, Ord, Hash, Structural)]
pub struct OperationId(pub u64);

} // verus!
