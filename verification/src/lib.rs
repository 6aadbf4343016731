//! Stellar Syndicates — the deterministic simulation core's verified logic.
//!
//! Identifiers, the seeded random streams, ship and module catalogs, loadout
//! canonicalisation and its wire key, formation rosters, production tables,
//! the research catalog and ladder, order-book matching, exotic-node
//! assignment, pirate encounter tables, and the battle fingerprint and
//! archive.
//! Everything here is integer logic with a contract; floating-point physics
//! lives with the caller.

pub mod cargo;
pub mod doctrine;
pub mod ids;
pub mod lane;
pub mod market;
pub mod migration;
pub mod module;
pub mod nebula;
pub mod node;
pub mod operation;
pub mod pirate;
pub mod production;
pub mod rankings;
pub mod research;
pub mod rng;
pub mod roster;
pub mod ship;
pub mod sites;
pub mod specialist;
pub mod standing;
pub mod structure;
pub mod syndicate;
pub mod tactical;
pub mod text;
