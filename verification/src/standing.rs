//! Standing logistics orders: the constrained endpoints a rule draws from and
//! delivers to, and whether it is running.

use vstd::prelude::*;

use crate::ids::EntityId;

verus! {

/// Where a standing order draws from or delivers to.
#[derive(Debug, Clone, Copy, PartialEq, Eq, PartialOrd, Ord, Structural)]
pub enum Endpoint {
    /// A claimed star system.
    System { id: EntityId },
    /// The galaxy-centre hub commons.
    Hub,
    /// The owner's home.
    Home,
}

impl Endpoint {
    /// The system id, if this endpoint is a system.
    pub fn system_id(self) -> (r: Option<EntityId>)
        ensures
            r == match self {
                Endpoint::System { id } => Some(id),
                _ => None,
            },
    {
        match self {
            Endpoint::System { id } => Some(id),
            _ => None,
        }
    }
}

/// Whether a rule is executing or paused.
#[derive(Debug, Clone, Copy, PartialEq, Eq, Structural)]
pub enum OrderStatus {
    Active,
    Paused,
}

} // verus!
