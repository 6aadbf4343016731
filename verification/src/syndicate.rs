//! Syndicates: the size cap on an alliance and the doctrine fits it saves.

use vstd::prelude::*;

use crate::module::Loadout;
use crate::ship::ShipKind;

verus! {

/// A floor so a small galaxy can still form a two-corp pact.
pub const SYNDICATE_MIN_CAP: usize = 2;
/// The cap is one third of the active corporations.
pub const SYNDICATE_FRAC_DENOM: usize = 3;
/// How many doctrine fits a syndicate may hold.
pub const SYNDICATE_MAX_FITS: usize = 24;
/// Fit names are capped at this many characters.
pub const FIT_NAME_MAX: usize = 24;
/// Flagship names are capped at this many characters.
pub const FLAGSHIP_NAME_MAX: usize = 24;

/// The maximum member count given the number of active corporations:
/// `max(MIN_CAP, ⌊active / 3⌋)`.
pub fn syndicate_cap(active_corps: usize) -> (cap: usize)
    ensures
        cap == if active_corps / SYNDICATE_FRAC_DENOM >= SYNDICATE_MIN_CAP {
            active_corps / SYNDICATE_FRAC_DENOM
        } else {
            SYNDICATE_MIN_CAP
        },
        cap >= SYNDICATE_MIN_CAP,
        cap * SYNDICATE_FRAC_DENOM <= active_corps || cap == SYNDICATE_MIN_CAP,
{
    let third = active_corps / SYNDICATE_FRAC_DENOM;
    if third >= SYNDICATE_MIN_CAP {
        third
    } else {
        SYNDICATE_MIN_CAP
    }
}

/// One saved doctrine fit: a named hull and loadout the syndicate builds from.
#[derive(Debug, Clone, PartialEq, Eq)]
pub struct DoctrineFit {
    pub name: String,
    pub kind: ShipKind,
    pub loadout: Loadout,
}

} // verus!
