//! Exotic node awakening: which star systems are exotic, the tactical bonus
//! each grants, and the node's active/fed latch.
//!
//! The exotic set must match the client's star painter bit for bit, so
//! `node_bonus_for` hashes the system id's decimal text with 32-bit FNV-1a,
//! gates on `h mod 100000 < 16000` (a 16% rarity) and picks the star type
//! from `(h >> 17) mod 4`.

use vstd::prelude::*;

use crate::ids::EntityId;

verus! {

/// How many nodes a single corp may draw a bonus from at once.
pub const NODES_PER_CORP: usize = 1;

/// Exotic systems per 100000: a system is a node iff `h mod 100000` lands
/// under this (a 16% fraction).
pub const EXOTIC_PER_100K: u32 = 16_000;

/// 32-bit FNV-1a offset basis.
pub const FNV32_OFFSET: u32 = 2166136261;
/// 32-bit FNV-1a prime.
pub const FNV32_PRIME: u32 = 16777619;

/// The bonus a node grants, fixed by its exotic star type.
#[derive(Debug, Clone, Copy, PartialEq, Eq, Structural)]
pub enum NodeBonus {
    /// Black hole: halves command delay to targets in the region.
    RelayAnchor,
    /// Magnetar: friendly dark fleets in the region run quieter.
    Veil,
    /// Pulsar or binary: exact composition on visible fleets in the region.
    DeepScan,
}

impl NodeBonus {
    /// Stable machine slug.
    pub fn slug(self) -> (s: &'static str)
        ensures
            s@ == match self {
                NodeBonus::RelayAnchor => "relay_anchor"@,
                NodeBonus::Veil => "veil"@,
                NodeBonus::DeepScan => "deep_scan"@,
            },
    {
        match self {
            NodeBonus::RelayAnchor => "relay_anchor",
            NodeBonus::Veil => "veil",
            NodeBonus::DeepScan => "deep_scan",
        }
    }

    /// Human title.
    pub fn title(self) -> (s: &'static str)
        ensures
            s@ == match self {
                NodeBonus::RelayAnchor => "Relay Anchor"@,
                NodeBonus::Veil => "Veil"@,
                NodeBonus::DeepScan => "Deep Scan"@,
            },
    {
        match self {
            NodeBonus::RelayAnchor => "Relay Anchor",
            NodeBonus::Veil => "Veil",
            NodeBonus::DeepScan => "Deep Scan",
        }
    }
}

/// A dormant-then-awakened node. `awakened` latches at the awakening time;
/// `fed` is whether its upkeep is currently met.
#[derive(Debug, Clone, Copy, PartialEq, Eq, Structural)]
pub struct Node {
    pub bonus: NodeBonus,
    pub awakened: bool,
    pub fed: bool,
}

impl Node {
    /// A freshly seeded, still-dormant node (presumed fed).
    pub fn dormant(bonus: NodeBonus) -> (n: Self)
        ensures
            n == (Node { bonus, awakened: false, fed: true }),
    {
        Node { bonus, awakened: false, fed: true }
    }

    /// A node grants its bonus only when it has awakened and is fed.
    pub fn active(&self) -> (r: bool)
        ensures
            r == (self.awakened && self.fed),
    {
        self.awakened && self.fed
    }
}

/// ASCII decimal digits of `n` (no leading zeros; `0` is `"0"`).
pub open spec fn decimal(n: nat) -> Seq<u8>
    decreases n,
{
    if n < 10 {
        seq![(48 + n) as u8]
    } else {
        decimal(n / 10).push((48 + n % 10) as u8)
    }
}

/// 32-bit FNV-1a of a byte sequence, folded from the left.
pub open spec fn fnv32(bytes: Seq<u8>) -> u32
    decreases bytes.len(),
{
    if bytes.len() == 0 {
        FNV32_OFFSET
    } else {
        vstd::wrapping::u32_specs::wrapping_mul(fnv32(bytes.drop_last()) ^ (bytes.last() as u32), FNV32_PRIME)
    }
}

/// The bonus a hash selects, or none if the star is ordinary.
pub open spec fn bonus_of_hash(h: u32) -> Option<NodeBonus> {
    if h % 100_000 >= EXOTIC_PER_100K {
        None
    } else if (h >> 17u32) % 4 <= 1 {
        Some(NodeBonus::DeepScan)
    } else if (h >> 17u32) % 4 == 2 {
        Some(NodeBonus::RelayAnchor)
    } else {
        Some(NodeBonus::Veil)
    }
}

fn decimal_bytes(n: u64) -> (v: Vec<u8>)
    ensures
        v@ == decimal(n as nat),
    decreases n,
{
    if n < 10 {
        let mut v: Vec<u8> = Vec::new();
        v.push((48 + n) as u8);
        proof {
            assert(v@ =~= decimal(n as nat));
        }
        v
    } else {
        let mut v = decimal_bytes(n / 10);
        v.push((48 + n % 10) as u8);
        v
    }
}

fn fnv1a(bytes: &[u8]) -> (h: u32)
    ensures
        h == fnv32(bytes@),
{
    let mut h: u32 = FNV32_OFFSET;
    let mut i: usize = 0;
    while i < bytes.len()
        invariant
            i <= bytes@.len(),
            h == fnv32(bytes@.take(i as int)),
        decreases bytes@.len() - i,
    {
        proof {
            assert(bytes@.take(i as int + 1).drop_last() =~= bytes@.take(i as int));
        }
        h = (h ^ (bytes[i] as u32)).wrapping_mul(FNV32_PRIME);
        i = i + 1;
    }
    proof {
        assert(bytes@.take(i as int) =~= bytes@);
    }
    h
}

/// The bonus for a system id, or `None` if the system is not exotic. The id
/// is hashed as its decimal text; the pool order is neutron star, binary,
/// black hole, magnetar.
pub fn node_bonus_for(id: EntityId) -> (b: Option<NodeBonus>)
    ensures
        b == bonus_of_hash(fnv32(decimal(id.0 as nat))),
{
    let digits = decimal_bytes(id.0);
    let h = fnv1a(digits.as_slice());
    if h % 100_000 >= EXOTIC_PER_100K {
        return None;
    }
    let pick = (h >> 17) % 4;
    if pick <= 1 {
        Some(NodeBonus::DeepScan)
    } else if pick == 2 {
        Some(NodeBonus::RelayAnchor)
    } else {
        Some(NodeBonus::Veil)
    }
}

} // verus!
