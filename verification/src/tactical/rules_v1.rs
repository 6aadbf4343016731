//! What the first combat kernel froze: which hulls it features and its own
//! copy of the SplitMix64 stream, kept apart from the galaxy generator so that
//! retuning live tables or the live stream cannot rewrite an old battle.

use vstd::prelude::*;

use crate::ship::ShipKind;

verus! {

/// The first kernel's SplitMix64 increment.
pub const V1_GAMMA: u64 = 0x9E37_79B9_7F4A_7C15;

/// The first kernel's output mix.
pub open spec fn v1_mix(z: u64) -> u64 {
    let z1 = vstd::wrapping::u64_specs::wrapping_mul(z ^ (z >> 30u64), 0xBF58_476D_1CE4_E5B9u64);
    let z2 = vstd::wrapping::u64_specs::wrapping_mul(z1 ^ (z1 >> 27u64), 0x94D0_49BB_1331_11EBu64);
    z2 ^ (z2 >> 31u64)
}

/// The first kernel's state after one draw.
pub open spec fn v1_advance(state: u64) -> u64 {
    vstd::wrapping::u64_specs::wrapping_add(state, V1_GAMMA)
}

/// The value one draw of the first kernel's stream returns from `state`.
pub open spec fn v1_draw(state: u64) -> u64 {
    v1_mix(v1_advance(state))
}

/// The first kernel's initial state for a seed.
pub open spec fn v1_seeded(seed: u64) -> u64 {
    seed ^ V1_GAMMA
}

/// The hulls the first kernel features as capital lines.
pub open spec fn spec_featured(kind: ShipKind) -> bool {
    kind == ShipKind::Destroyer || kind == ShipKind::Cruiser || kind == ShipKind::Battleship
        || kind == ShipKind::Dreadnought || kind == ShipKind::Titan
}

/// Whether the first kernel features this hull as a capital line.
pub fn featured(kind: ShipKind) -> (r: bool)
    ensures
        r == spec_featured(kind),
{
    match kind {
        ShipKind::Destroyer | ShipKind::Cruiser | ShipKind::Battleship | ShipKind::Dreadnought
        | ShipKind::Titan => true,
        _ => false,
    }
}

/// The frozen table still agrees with the live catalog: a featured hull is
/// exactly a combatant that needs a hull unlock.
pub proof fn featured_matches_live_catalog(kind: ShipKind)
    ensures
        spec_featured(kind) == (crate::ship::spec_is_combatant(kind)
            && crate::ship::spec_requires_hull_unlock(kind)),
{
}

/// The first kernel's SplitMix64 stream; its view is the raw state.
#[derive(Debug, Clone, Copy, PartialEq, Eq, Structural)]
pub struct Rng {
    state: u64,
}

impl View for Rng {
    type V = u64;

    closed spec fn view(&self) -> u64 {
        self.state
    }
}

impl Rng {
    /// The raw state, for fingerprints.
    pub fn state_bits(&self) -> (b: u64)
        ensures
            b == self@,
    {
        self.state
    }

    /// A generator seeded with `seed`.
    pub fn new(seed: u64) -> (r: Self)
        ensures
            r@ == v1_seeded(seed),
    {
        Rng { state: seed ^ V1_GAMMA }
    }

    /// The next raw 64-bit value.
    pub fn next_u64(&mut self) -> (v: u64)
        ensures
            final(self)@ == v1_advance(old(self)@),
            v == v1_draw(old(self)@),
    {
        self.state = self.state.wrapping_add(V1_GAMMA);
        let z0 = self.state;
        let z1 = (z0 ^ (z0 >> 30)).wrapping_mul(0xBF58_476D_1CE4_E5B9);
        let z2 = (z1 ^ (z1 >> 27)).wrapping_mul(0x94D0_49BB_1331_11EB);
        z2 ^ (z2 >> 31)
    }
}

/// The frozen stream and the live galaxy stream agree: the same seed gives
/// the same state, and from equal states both draw the same value and step
/// to the same state.
pub proof fn frozen_stream_matches_live(seed: u64, state: u64)
    ensures
        v1_seeded(seed) == crate::rng::seeded(seed),
        v1_draw(state) == crate::rng::draw(state),
        v1_advance(state) == crate::rng::advance(state),
{
}

} // verus!
