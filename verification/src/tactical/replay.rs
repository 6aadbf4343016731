//! The server-private deterministic battle archive, and the fingerprint that
//! keeps it honest.
//!
//! The archive stores the initial state and the external inputs (roster
//! changes, control changes, withdrawals) at the step they landed before, not
//! the shots. Reconstruction replays those inputs in order against the kernel
//! and checks every step's fingerprint; a checkpoint every
//! [`CHECKPOINT_STEPS`] steps bounds the work of a cold seek.

use vstd::prelude::*;
use vstd::std_specs::cmp::PartialEqSpec;
use vstd::utf8::encode_utf8;

use crate::ids::EntityId;
use crate::rng::{fnv64, fnv64_step, lemma_odd_mul_injective, FNV64_OFFSET, FNV64_PRIME};
use crate::ship::ShipKind;
use crate::tactical::rules_v1::Rng;
use crate::tactical::{spec_rules_version, Rules};

verus! {

// ───────────────────────────── the fingerprint ─────────────────────────────

/// A 2-D point held as the raw IEEE-754 bit patterns of its coordinates.
#[derive(Debug, Clone, Copy, PartialEq, Eq, Structural)]
pub struct PointBits {
    pub x: u64,
    pub y: u64,
}

/// A combatant's weapon cooldowns, in steps.
#[derive(Debug, Clone, Copy, PartialEq, Eq, Structural)]
pub struct Cooldowns {
    pub beam: u32,
    pub driver: u32,
    pub torpedo: u32,
}

/// What the fingerprint reads of one combatant. Floating-point quantities
/// are held as their raw bit patterns, so the fingerprint hashes numeric bits,
/// never a text rendering.
#[derive(Debug, Clone, PartialEq, Eq)]
pub struct CombatantRecord {
    pub cid: u32,
    pub side: u8,
    pub kind: ShipKind,
    pub stack: String,
    pub hp: u64,
    pub max_hp: u64,
    pub pos: PointBits,
    pub vel: PointBits,
    pub cooldowns: Cooldowns,
    /// The combatant's tactical role tag.
    pub role: u64,
    pub platform: bool,
    /// The fleet and ship a combatant came from, when it came from one.
    pub origin: Option<(EntityId, u32)>,
}

/// What the fingerprint reads of one torpedo in flight.
#[derive(Debug, Clone, Copy, PartialEq, Eq, Structural)]
pub struct TorpedoRecord {
    pub side: u8,
    pub pos: PointBits,
    pub target: u32,
    pub dmg: u64,
}

/// What the fingerprint reads of one hull held back in a wave.
#[derive(Debug, Clone, PartialEq, Eq)]
pub struct HeldShipRecord {
    pub fleet: EntityId,
    pub ship_id: u32,
    pub kind: ShipKind,
    pub stack_key: String,
    pub hp: u64,
}

/// The complete kernel state as the fingerprint reads it, random stream,
/// held waves, cooldowns and roles included.
#[derive(Debug, Clone, PartialEq, Eq)]
pub struct KernelSnapshot {
    pub rules: Rules,
    pub rng: Rng,
    pub step: u64,
    pub next_cid: u32,
    pub combatants: Vec<CombatantRecord>,
    pub torpedoes: Vec<TorpedoRecord>,
    /// Hulls held back per side, waiting for room on the field.
    pub waves: [Vec<HeldShipRecord>; 2],
    pub start_hp: [u64; 2],
    pub bearing: PointBits,
    pub withdrawing: [bool; 2],
}

/// The fixed hull tags the fingerprint uses; they do not follow the order of
/// the catalog, so inserting a hull can never shift them.
pub open spec fn kind_tag(kind: ShipKind) -> u64 {
    match kind {
        ShipKind::Builder => 0,
        ShipKind::Raider => 1,
        ShipKind::Corvette => 2,
        ShipKind::Convoy => 3,
        ShipKind::Colony => 4,
        ShipKind::Scout => 5,
        ShipKind::Destroyer => 6,
        ShipKind::Cruiser => 7,
        ShipKind::Battleship => 8,
        ShipKind::Dreadnought => 9,
        ShipKind::Titan => 10,
        ShipKind::Transport => 11,
        ShipKind::Freighter => 12,
    }
}

/// The little-endian bytes of a 64-bit word.
pub open spec fn le8(v: u64) -> Seq<u8> {
    seq![
        v as u8,
        (v >> 8u64) as u8,
        (v >> 16u64) as u8,
        (v >> 24u64) as u8,
        (v >> 32u64) as u8,
        (v >> 40u64) as u8,
        (v >> 48u64) as u8,
        (v >> 56u64) as u8,
    ]
}

/// The word for a flag.
pub open spec fn bool_word(b: bool) -> u64 {
    if b { 1 } else { 0 }
}

/// `acc` followed by a text: its byte length as a word, then its UTF-8 bytes.
pub open spec fn text_onto(acc: Seq<u8>, s: Seq<char>) -> Seq<u8> {
    acc + le8(encode_utf8(s).len() as u64) + encode_utf8(s)
}

/// `acc` followed by a point's two coordinates.
pub open spec fn point_onto(acc: Seq<u8>, p: PointBits) -> Seq<u8> {
    acc + le8(p.x) + le8(p.y)
}

/// `acc` followed by one combatant's fields.
pub open spec fn combatant_onto(acc: Seq<u8>, c: CombatantRecord) -> Seq<u8> {
    let a1 = text_onto(acc + le8(c.cid as u64) + le8(c.side as u64) + le8(kind_tag(c.kind)), c.stack@);
    let a2 = point_onto(point_onto(a1 + le8(c.hp) + le8(c.max_hp), c.pos), c.vel);
    let a3 = a2 + le8(c.cooldowns.beam as u64) + le8(c.cooldowns.driver as u64) + le8(
        c.cooldowns.torpedo as u64,
    ) + le8(c.role) + le8(bool_word(c.platform)) + le8(bool_word(c.origin is Some));
    match c.origin {
        Some((fleet, ship)) => a3 + le8(fleet.0) + le8(ship as u64),
        None => a3,
    }
}

/// `acc` followed by every combatant, in order.
pub open spec fn combatants_onto(acc: Seq<u8>, cs: Seq<CombatantRecord>) -> Seq<u8>
    decreases cs.len(),
{
    if cs.len() == 0 {
        acc
    } else {
        combatant_onto(combatants_onto(acc, cs.drop_last()), cs.last())
    }
}

/// `acc` followed by one torpedo's fields.
pub open spec fn torpedo_onto(acc: Seq<u8>, t: TorpedoRecord) -> Seq<u8> {
    point_onto(acc + le8(t.side as u64), t.pos) + le8(t.target as u64) + le8(t.dmg)
}

/// `acc` followed by every torpedo, in order.
pub open spec fn torpedoes_onto(acc: Seq<u8>, ts: Seq<TorpedoRecord>) -> Seq<u8>
    decreases ts.len(),
{
    if ts.len() == 0 {
        acc
    } else {
        torpedo_onto(torpedoes_onto(acc, ts.drop_last()), ts.last())
    }
}

/// `acc` followed by one held hull's fields.
pub open spec fn held_onto(acc: Seq<u8>, w: HeldShipRecord) -> Seq<u8> {
    text_onto(acc + le8(w.fleet.0) + le8(w.ship_id as u64) + le8(kind_tag(w.kind)), w.stack_key@)
        + le8(w.hp)
}

/// `acc` followed by a wave: its length, then every held hull in order.
pub open spec fn wave_onto(acc: Seq<u8>, ws: Seq<HeldShipRecord>) -> Seq<u8> {
    helds_onto(acc + le8(ws.len() as u64), ws)
}

/// `acc` followed by every held hull, in order.
pub open spec fn helds_onto(acc: Seq<u8>, ws: Seq<HeldShipRecord>) -> Seq<u8>
    decreases ws.len(),
{
    if ws.len() == 0 {
        acc
    } else {
        held_onto(helds_onto(acc, ws.drop_last()), ws.last())
    }
}

/// The private maneuver seed that steers a battle, from the third version on.
pub open spec fn maneuver_seed_of(r: Rules) -> Option<u64> {
    match r {
        Rules::V3 { maneuver_seed } => Some(maneuver_seed),
        Rules::V4 { maneuver_seed } => Some(maneuver_seed),
        Rules::V5 { maneuver_seed } => Some(maneuver_seed),
        Rules::V6 { maneuver_seed } => Some(maneuver_seed),
        _ => None,
    }
}

/// The rules prefix: the version word from the second version on, and,
/// from the third version on, the private maneuver seed, so that a change
/// of future steering invalidates every checkpoint.
pub open spec fn rules_onto(acc: Seq<u8>, r: Rules) -> Seq<u8> {
    let v = spec_rules_version(r) as u64;
    let a = if v > 1 { acc + le8(v) } else { acc };
    match maneuver_seed_of(r) {
        Some(seed) => a + le8(seed),
        None => a,
    }
}

/// The bytes the fingerprint hashes, in order.
pub open spec fn checksum_bytes(s: KernelSnapshot) -> Seq<u8> {
    let a1 = rules_onto(Seq::empty(), s.rules) + le8(s.rng@) + le8(s.step) + le8(s.next_cid as u64)
        + le8(s.combatants@.len() as u64);
    let a2 = combatants_onto(a1, s.combatants@) + le8(s.torpedoes@.len() as u64);
    let a3 = wave_onto(wave_onto(torpedoes_onto(a2, s.torpedoes@), s.waves[0]@), s.waves[1]@);
    let a4 = point_onto(a3 + le8(s.start_hp[0]) + le8(s.start_hp[1]), s.bearing);
    a4 + le8(bool_word(s.withdrawing[0])) + le8(bool_word(s.withdrawing[1]))
}

/// The fingerprint of a kernel state: FNV-1a over [`checksum_bytes`].
pub open spec fn spec_state_checksum(s: KernelSnapshot) -> u64 {
    fnv64(checksum_bytes(s))
}

/// One FNV-1a round is one-to-one in the running hash, for a fixed byte.
proof fn lemma_fnv_step_injective(h1: u64, h2: u64, b: u8)
    requires
        fnv64_step(h1, b) == fnv64_step(h2, b),
    ensures
        h1 == h2,
{
    lemma_odd_mul_injective(h1 ^ (b as u64), h2 ^ (b as u64), FNV64_PRIME, 0xce96_5057_aff6_957bu64, 887285111055);
    assert(h1 ^ (b as u64) == h2 ^ (b as u64) ==> h1 == h2) by (bit_vector);
}

/// Hashes that differ stay different when the same bytes follow.
proof fn lemma_fnv_cat(a: Seq<u8>, b: Seq<u8>, q: Seq<u8>)
    requires
        fnv64(a) != fnv64(b),
    ensures
        fnv64(a + q) != fnv64(b + q),
    decreases q.len(),
{
    if q.len() == 0 {
        assert(a + q =~= a);
        assert(b + q =~= b);
    } else {
        lemma_fnv_cat(a, b, q.drop_last());
        assert((a + q).drop_last() =~= a + q.drop_last());
        assert((b + q).drop_last() =~= b + q.drop_last());
        if fnv64(a + q) == fnv64(b + q) {
            lemma_fnv_step_injective(fnv64(a + q.drop_last()), fnv64(b + q.drop_last()), q.last());
        }
    }
}

proof fn lemma_fnv_cat_all()
    ensures
        forall|a: Seq<u8>, b: Seq<u8>, q: Seq<u8>|
            fnv64(a) != fnv64(b) ==> #[trigger] fnv64(a + q) != #[trigger] fnv64(b + q),
{
    assert forall|a: Seq<u8>, b: Seq<u8>, q: Seq<u8>| fnv64(a) != fnv64(b) implies #[trigger] fnv64(a + q)
        != #[trigger] fnv64(b + q) by {
        lemma_fnv_cat(a, b, q);
    }
}

proof fn lemma_fnv_combatants(a: Seq<u8>, b: Seq<u8>, cs: Seq<CombatantRecord>)
    requires
        fnv64(a) != fnv64(b),
    ensures
        fnv64(combatants_onto(a, cs)) != fnv64(combatants_onto(b, cs)),
    decreases cs.len(),
{
    if cs.len() > 0 {
        lemma_fnv_combatants(a, b, cs.drop_last());
        lemma_fnv_cat_all();
        let x = combatants_onto(a, cs.drop_last());
        let y = combatants_onto(b, cs.drop_last());
        let c = cs.last();
        let x1 = text_onto(x + le8(c.cid as u64) + le8(c.side as u64) + le8(kind_tag(c.kind)), c.stack@);
        let y1 = text_onto(y + le8(c.cid as u64) + le8(c.side as u64) + le8(kind_tag(c.kind)), c.stack@);
        assert(fnv64(x1) != fnv64(y1));
        let x2 = point_onto(point_onto(x1 + le8(c.hp) + le8(c.max_hp), c.pos), c.vel);
        let y2 = point_onto(point_onto(y1 + le8(c.hp) + le8(c.max_hp), c.pos), c.vel);
        assert(fnv64(x2) != fnv64(y2));
    }
}

proof fn lemma_fnv_torpedoes(a: Seq<u8>, b: Seq<u8>, ts: Seq<TorpedoRecord>)
    requires
        fnv64(a) != fnv64(b),
    ensures
        fnv64(torpedoes_onto(a, ts)) != fnv64(torpedoes_onto(b, ts)),
    decreases ts.len(),
{
    if ts.len() > 0 {
        lemma_fnv_torpedoes(a, b, ts.drop_last());
        lemma_fnv_cat_all();
    }
}

proof fn lemma_fnv_helds(a: Seq<u8>, b: Seq<u8>, ws: Seq<HeldShipRecord>)
    requires
        fnv64(a) != fnv64(b),
    ensures
        fnv64(helds_onto(a, ws)) != fnv64(helds_onto(b, ws)),
        fnv64(wave_onto(a, ws)) != fnv64(wave_onto(b, ws)),
    decreases ws.len(),
{
    lemma_fnv_cat_all();
    if ws.len() > 0 {
        lemma_fnv_helds(a, b, ws.drop_last());
    }
    lemma_fnv_helds_only(a + le8(ws.len() as u64), b + le8(ws.len() as u64), ws);
}

proof fn lemma_fnv_helds_only(a: Seq<u8>, b: Seq<u8>, ws: Seq<HeldShipRecord>)
    requires
        fnv64(a) != fnv64(b),
    ensures
        fnv64(helds_onto(a, ws)) != fnv64(helds_onto(b, ws)),
    decreases ws.len(),
{
    if ws.len() > 0 {
        lemma_fnv_helds_only(a, b, ws.drop_last());
        lemma_fnv_cat_all();
    }
}

/// Eight little-endian bytes of two words that differ only in the lowest
/// byte hash differently after any common prefix.
proof fn lemma_fnv_low_byte(p: Seq<u8>, m: u64, n: u64)
    requires
        m != n,
        m >> 8u64 == n >> 8u64,
    ensures
        fnv64(p + le8(m)) != fnv64(p + le8(n)),
{
    let x = m as u8;
    let y = n as u8;
    assert(x != y) by (bit_vector)
        requires
            m != n,
            m >> 8u64 == n >> 8u64,
            x == m as u8,
            y == n as u8,
    ;
    assert((m >> 8u64) as u8 == (n >> 8u64) as u8 && (m >> 16u64) as u8 == (n >> 16u64) as u8 && (m >> 24u64) as u8
        == (n >> 24u64) as u8 && (m >> 32u64) as u8 == (n >> 32u64) as u8 && (m >> 40u64) as u8 == (n
        >> 40u64) as u8 && (m >> 48u64) as u8 == (n >> 48u64) as u8 && (m >> 56u64) as u8 == (n >> 56u64)
        as u8) by (bit_vector)
        requires
            m >> 8u64 == n >> 8u64,
    ;
    let tail = le8(m).drop_first();
    assert(le8(n).drop_first() =~= tail);
    assert(p + le8(m) =~= p.push(x) + tail);
    assert(p + le8(n) =~= p.push(y) + tail);
    assert(p.push(x).drop_last() =~= p);
    assert(p.push(y).drop_last() =~= p);
    let h = fnv64(p);
    if fnv64(p.push(x)) == fnv64(p.push(y)) {
        lemma_odd_mul_injective(h ^ (x as u64), h ^ (y as u64), FNV64_PRIME, 0xce96_5057_aff6_957bu64, 887285111055);
        assert(h ^ (x as u64) == h ^ (y as u64) ==> x == y) by (bit_vector);
    }
    lemma_fnv_cat(p.push(x), p.push(y), tail);
}

/// A changed steering seed changes the fingerprint: two kernel states alike
/// in everything but the private maneuver seed, whose seeds differ in the
/// lowest byte alone (a seed with its lowest bit flipped, for one), have
/// different fingerprints, so changed future steering invalidates a
/// checkpoint.
pub proof fn a_changed_steering_seed_changes_the_fingerprint(s: KernelSnapshot, t: KernelSnapshot, m: u64, n: u64)
    requires
        spec_rules_version(s.rules) == spec_rules_version(t.rules),
        maneuver_seed_of(s.rules) == Some(m),
        maneuver_seed_of(t.rules) == Some(n),
        m != n,
        m >> 8u64 == n >> 8u64,
        t.rng == s.rng,
        t.step == s.step,
        t.next_cid == s.next_cid,
        t.combatants@ == s.combatants@,
        t.torpedoes@ == s.torpedoes@,
        t.waves[0]@ == s.waves[0]@,
        t.waves[1]@ == s.waves[1]@,
        t.start_hp == s.start_hp,
        t.bearing == s.bearing,
        t.withdrawing == s.withdrawing,
    ensures
        spec_state_checksum(s) != spec_state_checksum(t),
{
    let v = spec_rules_version(s.rules) as u64;
    let p = Seq::<u8>::empty() + le8(v);
    lemma_fnv_low_byte(p, m, n);
    assert(rules_onto(Seq::empty(), s.rules) == p + le8(m));
    assert(rules_onto(Seq::empty(), t.rules) == p + le8(n));
    lemma_fnv_cat_all();
    let a1 = rules_onto(Seq::empty(), s.rules) + le8(s.rng@) + le8(s.step) + le8(s.next_cid as u64) + le8(
        s.combatants@.len() as u64,
    );
    let b1 = rules_onto(Seq::empty(), t.rules) + le8(t.rng@) + le8(t.step) + le8(t.next_cid as u64) + le8(
        t.combatants@.len() as u64,
    );
    assert(fnv64(a1) != fnv64(b1));
    lemma_fnv_combatants(a1, b1, s.combatants@);
    let a2 = combatants_onto(a1, s.combatants@) + le8(s.torpedoes@.len() as u64);
    let b2 = combatants_onto(b1, t.combatants@) + le8(t.torpedoes@.len() as u64);
    assert(fnv64(a2) != fnv64(b2));
    lemma_fnv_torpedoes(a2, b2, s.torpedoes@);
    lemma_fnv_helds(torpedoes_onto(a2, s.torpedoes@), torpedoes_onto(b2, t.torpedoes@), s.waves[0]@);
    let a3 = wave_onto(wave_onto(torpedoes_onto(a2, s.torpedoes@), s.waves[0]@), s.waves[1]@);
    let b3 = wave_onto(wave_onto(torpedoes_onto(b2, t.torpedoes@), t.waves[0]@), t.waves[1]@);
    lemma_fnv_helds(
        wave_onto(torpedoes_onto(a2, s.torpedoes@), s.waves[0]@),
        wave_onto(torpedoes_onto(b2, t.torpedoes@), t.waves[0]@),
        s.waves[1]@,
    );
    assert(fnv64(a3) != fnv64(b3));
    let a4 = point_onto(a3 + le8(s.start_hp[0]) + le8(s.start_hp[1]), s.bearing);
    let b4 = point_onto(b3 + le8(t.start_hp[0]) + le8(t.start_hp[1]), t.bearing);
    assert(fnv64(a4) != fnv64(b4));
    assert(checksum_bytes(s) == a4 + le8(bool_word(s.withdrawing[0])) + le8(bool_word(s.withdrawing[1])));
    assert(checksum_bytes(t) == b4 + le8(bool_word(t.withdrawing[0])) + le8(bool_word(t.withdrawing[1])));
}

/// An FNV-1a accumulator together with the bytes it has absorbed.
struct Fnv {
    h: u64,
    seen: Ghost<Seq<u8>>,
}

impl Fnv {
    spec fn inv(&self) -> bool {
        self.h == fnv64(self.seen@)
    }

    fn start() -> (f: Fnv)
        ensures
            f.inv(),
            f.seen@ == Seq::<u8>::empty(),
    {
        Fnv { h: FNV64_OFFSET, seen: Ghost(Seq::empty()) }
    }

    fn byte(&mut self, b: u8)
        requires
            old(self).inv(),
        ensures
            final(self).inv(),
            final(self).seen@ == old(self).seen@.push(b),
    {
        proof {
            assert(self.seen@.push(b).drop_last() =~= self.seen@);
        }
        self.h = (self.h ^ (b as u64)).wrapping_mul(FNV64_PRIME);
        self.seen = Ghost(self.seen@.push(b));
    }

    fn word(&mut self, v: u64)
        requires
            old(self).inv(),
        ensures
            final(self).inv(),
            final(self).seen@ == old(self).seen@ + le8(v),
    {
        self.byte(v as u8);
        self.byte((v >> 8) as u8);
        self.byte((v >> 16) as u8);
        self.byte((v >> 24) as u8);
        self.byte((v >> 32) as u8);
        self.byte((v >> 40) as u8);
        self.byte((v >> 48) as u8);
        self.byte((v >> 56) as u8);
        proof {
            assert(self.seen@ =~= old(self).seen@ + le8(v));
        }
    }

    fn flag(&mut self, b: bool)
        requires
            old(self).inv(),
        ensures
            final(self).inv(),
            final(self).seen@ == old(self).seen@ + le8(bool_word(b)),
    {
        self.word(if b { 1 } else { 0 });
    }

    fn text(&mut self, s: &str)
        requires
            old(self).inv(),
        ensures
            final(self).inv(),
            final(self).seen@ == text_onto(old(self).seen@, s@),
    {
        let bytes = s.as_bytes();
        self.word(bytes.len() as u64);
        let ghost base = self.seen@;
        let mut i: usize = 0;
        while i < bytes.len()
            invariant
                self.inv(),
                i <= bytes@.len(),
                self.seen@ == base + bytes@.take(i as int),
            decreases bytes@.len() - i,
        {
            self.byte(bytes[i]);
            proof {
                assert(self.seen@ =~= base + bytes@.take(i as int + 1));
            }
            i = i + 1;
        }
        proof {
            assert(bytes@.take(i as int) =~= bytes@);
        }
    }

    fn point(&mut self, p: PointBits)
        requires
            old(self).inv(),
        ensures
            final(self).inv(),
            final(self).seen@ == point_onto(old(self).seen@, p),
    {
        self.word(p.x);
        self.word(p.y);
    }

    fn kind(&mut self, kind: ShipKind)
        requires
            old(self).inv(),
        ensures
            final(self).inv(),
            final(self).seen@ == old(self).seen@ + le8(kind_tag(kind)),
    {
        let tag: u64 = match kind {
            ShipKind::Builder => 0,
            ShipKind::Raider => 1,
            ShipKind::Corvette => 2,
            ShipKind::Convoy => 3,
            ShipKind::Colony => 4,
            ShipKind::Scout => 5,
            ShipKind::Destroyer => 6,
            ShipKind::Cruiser => 7,
            ShipKind::Battleship => 8,
            ShipKind::Dreadnought => 9,
            ShipKind::Titan => 10,
            ShipKind::Transport => 11,
            ShipKind::Freighter => 12,
        };
        self.word(tag);
    }

    fn combatant(&mut self, c: &CombatantRecord)
        requires
            old(self).inv(),
        ensures
            final(self).inv(),
            final(self).seen@ == combatant_onto(old(self).seen@, *c),
    {
        self.word(c.cid as u64);
        self.word(c.side as u64);
        self.kind(c.kind);
        self.text(c.stack.as_str());
        self.word(c.hp);
        self.word(c.max_hp);
        self.point(c.pos);
        self.point(c.vel);
        self.word(c.cooldowns.beam as u64);
        self.word(c.cooldowns.driver as u64);
        self.word(c.cooldowns.torpedo as u64);
        self.word(c.role);
        self.flag(c.platform);
        self.flag(c.origin.is_some());
        match c.origin {
            Some((fleet, ship)) => {
                self.word(fleet.0);
                self.word(ship as u64);
            },
            None => {},
        }
    }

    fn torpedo(&mut self, t: &TorpedoRecord)
        requires
            old(self).inv(),
        ensures
            final(self).inv(),
            final(self).seen@ == torpedo_onto(old(self).seen@, *t),
    {
        self.word(t.side as u64);
        self.point(t.pos);
        self.word(t.target as u64);
        self.word(t.dmg);
    }

    fn held(&mut self, w: &HeldShipRecord)
        requires
            old(self).inv(),
        ensures
            final(self).inv(),
            final(self).seen@ == held_onto(old(self).seen@, *w),
    {
        self.word(w.fleet.0);
        self.word(w.ship_id as u64);
        self.kind(w.kind);
        self.text(w.stack_key.as_str());
        self.word(w.hp);
    }

    fn combatants(&mut self, cs: &Vec<CombatantRecord>)
        requires
            old(self).inv(),
        ensures
            final(self).inv(),
            final(self).seen@ == combatants_onto(old(self).seen@, cs@),
    {
        let ghost base = self.seen@;
        let mut i: usize = 0;
        while i < cs.len()
            invariant
                self.inv(),
                i <= cs@.len(),
                self.seen@ == combatants_onto(base, cs@.take(i as int)),
            decreases cs@.len() - i,
        {
            self.combatant(&cs[i]);
            proof {
                assert(cs@.take(i as int + 1).drop_last() =~= cs@.take(i as int));
            }
            i = i + 1;
        }
        proof {
            assert(cs@.take(i as int) =~= cs@);
        }
    }

    fn torpedoes(&mut self, ts: &Vec<TorpedoRecord>)
        requires
            old(self).inv(),
        ensures
            final(self).inv(),
            final(self).seen@ == torpedoes_onto(old(self).seen@, ts@),
    {
        let ghost base = self.seen@;
        let mut i: usize = 0;
        while i < ts.len()
            invariant
                self.inv(),
                i <= ts@.len(),
                self.seen@ == torpedoes_onto(base, ts@.take(i as int)),
            decreases ts@.len() - i,
        {
            self.torpedo(&ts[i]);
            proof {
                assert(ts@.take(i as int + 1).drop_last() =~= ts@.take(i as int));
            }
            i = i + 1;
        }
        proof {
            assert(ts@.take(i as int) =~= ts@);
        }
    }

    fn wave(&mut self, ws: &Vec<HeldShipRecord>)
        requires
            old(self).inv(),
        ensures
            final(self).inv(),
            final(self).seen@ == wave_onto(old(self).seen@, ws@),
    {
        self.word(ws.len() as u64);
        let ghost base = self.seen@;
        let mut i: usize = 0;
        while i < ws.len()
            invariant
                self.inv(),
                i <= ws@.len(),
                self.seen@ == helds_onto(base, ws@.take(i as int)),
            decreases ws@.len() - i,
        {
            self.held(&ws[i]);
            proof {
                assert(ws@.take(i as int + 1).drop_last() =~= ws@.take(i as int));
            }
            i = i + 1;
        }
        proof {
            assert(ws@.take(i as int) =~= ws@);
        }
    }
}

/// Fingerprint of the complete kernel state, including the random stream,
/// held waves, cooldowns and roles: FNV-1a over the numeric bits in a fixed
/// order, so serializer changes cannot invalidate history. The first version
/// hashes no version word; from the third on it also covers the private
/// maneuver seed.
/// This is not a security signature.
pub fn state_checksum(state: &KernelSnapshot) -> (h: u64)
    ensures
        h == spec_state_checksum(*state),
{
    let mut f = Fnv::start();
    let version = state.rules.rules_version();
    if version > 1 {
        f.word(version as u64);
    }
    match state.rules {
        Rules::V3 { maneuver_seed }
        | Rules::V4 { maneuver_seed }
        | Rules::V5 { maneuver_seed }
        | Rules::V6 { maneuver_seed } => f.word(maneuver_seed),
        _ => {},
    }
    f.word(state.rng.state_bits());
    f.word(state.step);
    f.word(state.next_cid as u64);
    f.word(state.combatants.len() as u64);
    f.combatants(&state.combatants);
    f.word(state.torpedoes.len() as u64);
    f.torpedoes(&state.torpedoes);
    f.wave(&state.waves[0]);
    f.wave(&state.waves[1]);
    f.word(state.start_hp[0]);
    f.word(state.start_hp[1]);
    f.point(state.bearing);
    f.flag(state.withdrawing[0]);
    f.flag(state.withdrawing[1]);
    f.h
}

/// Whether a raw IEEE-754 bit pattern is a number greater than zero: a
/// positive sign and anything from the least subnormal to positive infinity.
pub open spec fn bits_positive(bits: u64) -> bool {
    0 < bits <= 0x7FF0_0000_0000_0000
}

/// Live platforms of `side` among `cs`.
pub open spec fn platform_count(cs: Seq<CombatantRecord>, side: u8) -> nat
    decreases cs.len(),
{
    if cs.len() == 0 {
        0
    } else {
        let c = cs.last();
        platform_count(cs.drop_last(), side) + if c.platform && c.side == side && bits_positive(
            c.hp,
        ) {
            1nat
        } else {
            0nat
        }
    }
}

impl KernelSnapshot {
    /// The rules version this battle was opened under.
    pub fn rules_version(&self) -> (v: u32)
        ensures
            v == spec_rules_version(self.rules),
    {
        self.rules.rules_version()
    }

    /// How many of `side`'s stationary platforms are still alive.
    pub fn platform_tiers_for(&self, side: u8) -> (n: u32)
        ensures
            n == platform_count(self.combatants@, side) as u32,
    {
        let mut n: usize = 0;
        let mut i: usize = 0;
        while i < self.combatants.len()
            invariant
                i <= self.combatants@.len(),
                n == platform_count(self.combatants@.take(i as int), side),
                n <= i,
            decreases self.combatants@.len() - i,
        {
            let c = &self.combatants[i];
            proof {
                assert(self.combatants@.take(i as int + 1).drop_last() =~= self.combatants@.take(
                    i as int,
                ));
            }
            if c.platform && c.side == side && 0 < c.hp && c.hp <= 0x7FF0_0000_0000_0000 {
                n = n + 1;
            }
            i = i + 1;
        }
        proof {
            assert(self.combatants@.take(i as int) =~= self.combatants@);
        }
        n as u32
    }
}

// ─────────────────────────────── the archive ───────────────────────────────

/// The newest rules version an archive may carry: every version the kernel
/// opens a battle under replays.
pub const RULES_VERSION: u32 = 6;
/// A cold seek does at most this many extra steps before its slice.
pub const CHECKPOINT_STEPS: usize = 64;

/// What the archive needs of the tactical kernel whose battles it records.
///
/// The kernel is deterministic: each operation is described by a spec
/// function of the state and its arguments, and an implementation proves
/// that its executable method computes exactly that. Everything the archive
/// states about replay is stated over these functions.
pub trait TacticalKernel: Sized {
    /// A roster change applied between steps.
    type Delta;
    /// The per-step controls: the raid flag and each side's modifiers.
    type Controls: Copy + PartialEq;
    /// What one step produces.
    type Outcome;
    /// One animation keyframe.
    type Frame;

    /// The rules version the state was opened under.
    spec fn spec_rules_version(&self) -> u32;
    /// The state's fingerprint.
    spec fn spec_checksum(&self) -> u64;
    /// The side a roster change belongs to.
    spec fn spec_delta_side(delta: Self::Delta) -> u8;
    /// The state after roster changes.
    spec fn spec_apply_delta(self, changes: Vec<Self::Delta>) -> Self;
    /// The state after a side is ordered to withdraw.
    spec fn spec_withdraw(self, side: u8) -> Self;
    /// The state after one step under `controls`.
    spec fn spec_step(self, controls: Self::Controls) -> Self;
    /// What one step under `controls` produces.
    spec fn spec_outcome(self, controls: Self::Controls) -> Self::Outcome;
    /// The keyframe that animates `outcome` on this state.
    spec fn spec_keyframe(self, outcome: Self::Outcome) -> Self::Frame;

    /// The rules version the state was opened under.
    fn rules_version(&self) -> (v: u32)
        ensures
            v == self.spec_rules_version();

    /// The state's fingerprint.
    fn checksum(&self) -> (h: u64)
        ensures
            h == self.spec_checksum();

    /// Which side a roster change belongs to.
    fn delta_side(delta: &Self::Delta) -> (side: u8)
        ensures
            side == Self::spec_delta_side(*delta);

    /// Apply roster changes (reinforcements, departures), each of one of
    /// the two sides.
    fn apply_roster_delta(&mut self, changes: &Vec<Self::Delta>)
        requires
            forall|i: int| 0 <= i < changes@.len() ==> Self::spec_delta_side(#[trigger] changes@[i]) <= 1,
        ensures
            *final(self) == old(self).spec_apply_delta(*changes);

    /// Order one of the two sides to withdraw.
    fn order_withdraw(&mut self, side: u8)
        requires
            side <= 1,
        ensures
            *final(self) == old(self).spec_withdraw(side);

    /// Advance the battle one step under `controls`.
    fn step(&mut self, controls: Self::Controls) -> (out: Self::Outcome)
        ensures
            *final(self) == old(self).spec_step(controls),
            out == old(self).spec_outcome(controls);

    /// The keyframe a step's outcome animates.
    fn keyframe(&self, outcome: Self::Outcome) -> (frame: Self::Frame)
        ensures
            frame == self.spec_keyframe(outcome);

    /// An exact copy of the state.
    fn duplicate(&self) -> (copy: Self)
        ensures
            copy == *self;
}

/// An external input to the battle.
#[derive(Debug, Clone, PartialEq)]
pub enum Input<D, C> {
    /// Roster changes: reinforcements and departures.
    Roster(Vec<D>),
    /// New controls, recorded only when they change.
    Controls(C),
    /// A side ordered to withdraw; repeated orders are all recorded.
    Withdraw(u8),
}

/// An input at the world tick it landed, before the step it precedes.
#[derive(Debug, Clone, PartialEq)]
pub struct TimedInput<D, C> {
    pub tick: u64,
    pub before_step: usize,
    pub input: Input<D, C>,
}

/// One recorded kernel step: its tick, the combat round it animated, and the
/// fingerprint of the state after it.
#[derive(Debug, Clone, Copy, PartialEq, Eq, Structural)]
pub struct Step {
    pub tick: u64,
    pub round: usize,
    pub checksum: u64,
}

/// A full state every [`CHECKPOINT_STEPS`] steps: the state after `through`
/// steps, with `next_input` inputs applied and the controls then in force.
pub struct Checkpoint<K: TacticalKernel> {
    pub through: usize,
    pub next_input: usize,
    pub controls: Option<K::Controls>,
    pub state: K,
}

/// Why an archive could not be replayed.
#[derive(Debug, Clone, Copy, PartialEq, Eq, Structural)]
pub enum ReplayError {
    /// The archive carries a rules version this build cannot replay.
    UnsupportedVersion(u32),
    /// The state after this many steps did not match its fingerprint.
    Diverged { step: usize },
    /// The inputs or checkpoints are out of order or out of range.
    InvalidArchive,
}

/// A deterministic battle archive: the initial state plus external inputs.
pub struct BattleReplay<K: TacticalKernel> {
    version: u32,
    initial: K,
    initial_checksum: u64,
    inputs: Vec<TimedInput<K::Delta, K::Controls>>,
    steps: Vec<Step>,
    checkpoints: Vec<Checkpoint<K>>,
    controls: Option<K::Controls>,
}

/// Whether the steps' rounds never decrease (as recording produces them).
pub open spec fn rounds_sorted(steps: Seq<Step>) -> bool {
    forall|i: int, j: int| 0 <= i <= j < steps.len() ==> steps[i].round <= steps[j].round
}

/// Whether a version number is one this build replays.
pub open spec fn version_supported(v: u32) -> bool {
    1 <= v <= RULES_VERSION
}

/// Whether input `k` may be applied before step `index`: it was recorded
/// before exactly that step, no later than the step's tick, and any side it
/// names is one of the two.
pub open spec fn input_fits<K: TacticalKernel>(
    inputs: Seq<TimedInput<K::Delta, K::Controls>>,
    steps: Seq<Step>,
    k: int,
    index: int,
) -> bool {
    &&& inputs[k].before_step == index
    &&& (index < steps.len() ==> inputs[k].tick <= steps[index].tick)
    &&& match inputs[k].input {
        Input::Withdraw(side) => side <= 1,
        _ => true,
    }
}

/// Whether inputs are in step order: each placed before a step at most one
/// past the last recorded, in non-decreasing order.
pub open spec fn inputs_in_step_order<D, C>(inputs: Seq<TimedInput<D, C>>, steps: nat) -> bool {
    &&& forall|k: int| 0 <= k < inputs.len() ==> #[trigger] inputs[k].before_step <= steps
    &&& forall|k: int, l: int|
        0 <= k <= l < inputs.len() ==> #[trigger] inputs[k].before_step
            <= #[trigger] inputs[l].before_step
}

/// Whether the checkpoints are exactly one per [`CHECKPOINT_STEPS`] steps
/// recorded, the `k`-th after step `CHECKPOINT_STEPS · (k + 1)`.
pub open spec fn checkpoints_regular(cps: Seq<(usize, usize)>, steps: nat) -> bool {
    &&& cps.len() == steps / (CHECKPOINT_STEPS as nat)
    &&& forall|k: int| 0 <= k < cps.len() ==> #[trigger] cps[k].0 == (CHECKPOINT_STEPS as int) * (k + 1)
}

/// With regular checkpoints, a seek to any recorded step starts at most
/// [`CHECKPOINT_STEPS`] − 1 steps before it: the last checkpoint at or before
/// `first` is no further back than that, and there is one whenever `first`
/// is at least [`CHECKPOINT_STEPS`].
pub proof fn cold_seeks_are_bounded(cps: Seq<(usize, usize)>, steps: nat, first: nat, chosen: Option<usize>)
    requires
        checkpoints_regular(cps, steps),
        first <= steps,
        chosen matches Some(i) ==> i < cps.len() && cps[i as int].0 <= first && forall|j: int|
            i < j < cps.len() ==> (#[trigger] cps[j]).0 > first,
        chosen is None ==> forall|j: int| 0 <= j < cps.len() ==> (#[trigger] cps[j]).0 > first,
    ensures
        chosen matches Some(i) ==> first - cps[i as int].0 < CHECKPOINT_STEPS,
        chosen is None ==> first < CHECKPOINT_STEPS,
{
    let q = first / 64;
    assert(q <= steps / 64) by (nonlinear_arith)
        requires
            first <= steps,
            q == first / 64;
    assert(first < 64 * (q + 1) && 64 * q <= first) by (nonlinear_arith)
        requires
            q == first / 64;
    match chosen {
        Some(i) => {
            if (i as int) + 1 < q {
                let j = q - 1;
                assert(cps[j].0 == 64 * (j + 1));
            }
            assert(cps[i as int].0 == 64 * (i + 1));
        },
        None => {
            if q >= 1 {
                assert(cps[0].0 == 64);
            }
        },
    }
}

/// Whether a whole archive's inputs are well placed: each fits before the
/// step it names (at most one past the last step), in non-decreasing order.
pub open spec fn archive_ok<K: TacticalKernel>(
    inputs: Seq<TimedInput<K::Delta, K::Controls>>,
    steps: Seq<Step>,
) -> bool {
    &&& forall|k: int|
        0 <= k < inputs.len() ==> #[trigger] inputs[k].before_step <= steps.len() && input_fits::<
            K,
        >(inputs, steps, k, inputs[k].before_step as int)
    &&& forall|k: int, l: int|
        0 <= k <= l < inputs.len() ==> #[trigger] inputs[k].before_step
            <= #[trigger] inputs[l].before_step
}

/// How many steps animate a round below `round`.
pub open spec fn count_below(steps: Seq<Step>, round: usize) -> nat
    decreases steps.len(),
{
    if steps.len() == 0 {
        0
    } else {
        count_below(steps.drop_last(), round) + if steps.last().round < round {
            1nat
        } else {
            0nat
        }
    }
}

/// A boundary that splits the steps into rounds below `round` and the rest
/// sits at exactly the count of rounds below `round`.
proof fn lemma_partition_count(steps: Seq<Step>, round: usize, n: int)
    requires
        0 <= n <= steps.len(),
        forall|i: int| 0 <= i < n ==> (#[trigger] steps[i]).round < round,
        forall|i: int| n <= i < steps.len() ==> (#[trigger] steps[i]).round >= round,
    ensures
        count_below(steps, round) == n,
    decreases steps.len(),
{
    if steps.len() > 0 {
        let init = steps.drop_last();
        if n == steps.len() {
            assert(steps[steps.len() - 1].round < round);
            lemma_partition_count(init, round, n - 1);
        } else {
            assert(steps[steps.len() - 1].round >= round);
            lemma_partition_count(init, round, n);
        }
    }
}

/// Whether every roster change belongs to one of the two sides.
pub open spec fn deltas_valid<K: TacticalKernel>(changes: Seq<K::Delta>) -> bool {
    forall|i: int| 0 <= i < changes.len() ==> K::spec_delta_side(#[trigger] changes[i]) <= 1
}

/// Whether an input can be applied: every side it names is one of the two.
pub open spec fn input_valid<K: TacticalKernel>(input: Input<K::Delta, K::Controls>) -> bool {
    match input {
        Input::Roster(changes) => deltas_valid::<K>(changes@),
        Input::Controls(_) => true,
        Input::Withdraw(side) => side <= 1,
    }
}

/// The state and the controls in force after an input.
pub open spec fn apply_input<K: TacticalKernel>(
    s: K,
    c: Option<K::Controls>,
    input: Input<K::Delta, K::Controls>,
) -> (K, Option<K::Controls>) {
    match input {
        Input::Roster(changes) => (s.spec_apply_delta(changes), c),
        Input::Controls(next) => (s, Some(next)),
        Input::Withdraw(side) => (s.spec_withdraw(side), c),
    }
}

/// Replay, from input `k` on, the inputs recorded before step `index`;
/// the first input of a later step ends it. An input recorded before an
/// earlier step, later than the step's tick, or naming an impossible side
/// makes the archive invalid. Gives the state, the next input and the
/// controls in force.
pub open spec fn drain<K: TacticalKernel>(
    inputs: Seq<TimedInput<K::Delta, K::Controls>>,
    steps: Seq<Step>,
    index: int,
    k: int,
    s: K,
    c: Option<K::Controls>,
) -> Result<(K, int, Option<K::Controls>), ReplayError>
    decreases inputs.len() - k,
{
    if k < 0 || k >= inputs.len() || inputs[k].before_step > index {
        Ok((s, k, c))
    } else if inputs[k].before_step != index || (index < steps.len() && inputs[k].tick
        > steps[index].tick) || !input_valid::<K>(inputs[k].input) {
        Err(ReplayError::InvalidArchive)
    } else {
        let (s2, c2) = apply_input::<K>(s, c, inputs[k].input);
        drain::<K>(inputs, steps, index, k + 1, s2, c2)
    }
}

/// Replay steps `index..end` from state `s`, input `k` and controls `c`:
/// before each step its inputs, then the step under the controls in force,
/// whose fingerprint must be the recorded one. A step with no controls yet
/// makes the archive invalid; the first fingerprint that differs is a
/// divergence after that many steps.
pub open spec fn run_steps<K: TacticalKernel>(
    inputs: Seq<TimedInput<K::Delta, K::Controls>>,
    steps: Seq<Step>,
    index: int,
    end: int,
    s: K,
    k: int,
    c: Option<K::Controls>,
) -> Result<(K, int, Option<K::Controls>), ReplayError>
    decreases end - index,
{
    if index >= end {
        Ok((s, k, c))
    } else {
        match drain::<K>(inputs, steps, index, k, s, c) {
            Err(e) => Err(e),
            Ok((s1, k1, c1)) => match c1 {
                None => Err(ReplayError::InvalidArchive),
                Some(ctl) => {
                    let s2 = s1.spec_step(ctl);
                    if s2.spec_checksum() != steps[index].checksum {
                        Err(ReplayError::Diverged { step: (index + 1) as usize })
                    } else {
                        run_steps::<K>(inputs, steps, index + 1, end, s2, k1, c1)
                    }
                },
            },
        }
    }
}

/// The keyframes of the steps from `first` on that [`run_steps`] replays,
/// each with the round it animates.
pub open spec fn run_frames<K: TacticalKernel>(
    inputs: Seq<TimedInput<K::Delta, K::Controls>>,
    steps: Seq<Step>,
    index: int,
    end: int,
    first: int,
    s: K,
    k: int,
    c: Option<K::Controls>,
) -> Seq<(usize, K::Frame)>
    decreases end - index,
{
    if index >= end {
        Seq::empty()
    } else {
        match drain::<K>(inputs, steps, index, k, s, c) {
            Ok((s1, k1, Some(ctl))) => {
                let s2 = s1.spec_step(ctl);
                let rest = run_frames::<K>(inputs, steps, index + 1, end, first, s2, k1, Some(ctl));
                if index >= first {
                    seq![(steps[index].round, s2.spec_keyframe(s1.spec_outcome(ctl)))] + rest
                } else {
                    rest
                }
            },
            _ => Seq::empty(),
        }
    }
}

/// The last of the first `n` checkpoints taken at or before step `first`.
pub open spec fn last_checkpoint_by(cps: Seq<(usize, usize)>, first: int, n: int) -> Option<int>
    decreases n,
{
    if n <= 0 {
        None
    } else if cps[n - 1].0 <= first {
        Some(n - 1)
    } else {
        last_checkpoint_by(cps, first, n - 1)
    }
}

/// An optional index as an integer.
pub open spec fn index_of(i: Option<usize>) -> Option<int> {
    match i {
        Some(j) => Some(j as int),
        None => None,
    }
}

/// Whether `==` on the controls is exactly equality of values.
pub open spec fn controls_eq_exact<K: TacticalKernel>() -> bool {
    &&& K::Controls::obeys_eq_spec()
    &&& forall|a: K::Controls, b: K::Controls| #[trigger] a.eq_spec(&b) <==> a == b
}

/// Whether every input recorded before step `n` landed no later than `tick`.
pub open spec fn pending_by<D, C>(inputs: Seq<TimedInput<D, C>>, n: nat, tick: u64) -> bool {
    forall|j: int| 0 <= j < inputs.len() && #[trigger] inputs[j].before_step == n ==> inputs[j].tick <= tick
}

/// Draining never moves backwards, nor past the last input.
proof fn lemma_drain_bounds<K: TacticalKernel>(
    inputs: Seq<TimedInput<K::Delta, K::Controls>>,
    steps: Seq<Step>,
    index: int,
    k: int,
    s: K,
    c: Option<K::Controls>,
)
    requires
        0 <= k <= inputs.len(),
    ensures
        drain::<K>(inputs, steps, index, k, s, c) matches Ok((_, k2, _)) ==> k <= k2 <= inputs.len(),
    decreases inputs.len() - k,
{
    if k < inputs.len() {
        let (s2, c2) = apply_input::<K>(s, c, inputs[k].input);
        lemma_drain_bounds::<K>(inputs, steps, index, k + 1, s2, c2);
    }
}

/// Replaying steps never moves backwards, nor past the last input.
proof fn lemma_run_bounds<K: TacticalKernel>(
    inputs: Seq<TimedInput<K::Delta, K::Controls>>,
    steps: Seq<Step>,
    index: int,
    end: int,
    s: K,
    k: int,
    c: Option<K::Controls>,
)
    requires
        0 <= k <= inputs.len(),
    ensures
        run_steps::<K>(inputs, steps, index, end, s, k, c) matches Ok((_, k2, _)) ==> k <= k2 <= inputs.len(),
    decreases end - index,
{
    if index < end {
        lemma_drain_bounds::<K>(inputs, steps, index, k, s, c);
        match drain::<K>(inputs, steps, index, k, s, c) {
            Ok((s1, k1, Some(ctl))) => {
                lemma_run_bounds::<K>(inputs, steps, index + 1, end, s1.spec_step(ctl), k1, Some(ctl));
            },
            _ => {},
        }
    }
}

/// The inputs a drain applies were all recorded before that step, fit it,
/// and name possible sides.
proof fn lemma_drain_fits<K: TacticalKernel>(
    inputs: Seq<TimedInput<K::Delta, K::Controls>>,
    steps: Seq<Step>,
    index: int,
    k: int,
    s: K,
    c: Option<K::Controls>,
)
    requires
        0 <= k <= inputs.len(),
        0 <= index,
    ensures
        drain::<K>(inputs, steps, index, k, s, c) matches Ok((_, k2, _)) ==> forall|t: int|
            k <= t < k2 ==> #[trigger] inputs[t].before_step == index && input_fits::<K>(inputs, steps, t, index),
    decreases inputs.len() - k,
{
    if k < inputs.len() {
        let (s2, c2) = apply_input::<K>(s, c, inputs[k].input);
        lemma_drain_fits::<K>(inputs, steps, index, k + 1, s2, c2);
    }
}

/// The inputs a replay of steps `index..end` applies were recorded before
/// those steps, in step order, each fitting the step it precedes.
proof fn lemma_run_fits<K: TacticalKernel>(
    inputs: Seq<TimedInput<K::Delta, K::Controls>>,
    steps: Seq<Step>,
    index: int,
    end: int,
    s: K,
    k: int,
    c: Option<K::Controls>,
)
    requires
        0 <= k <= inputs.len(),
        0 <= index,
    ensures
        run_steps::<K>(inputs, steps, index, end, s, k, c) matches Ok((_, k2, _)) ==> {
            &&& forall|t: int|
                k <= t < k2 ==> index <= #[trigger] inputs[t].before_step < end && input_fits::<K>(
                    inputs,
                    steps,
                    t,
                    inputs[t].before_step as int,
                )
            &&& forall|t: int, u: int|
                k <= t <= u < k2 ==> #[trigger] inputs[t].before_step <= #[trigger] inputs[u].before_step
        },
    decreases end - index,
{
    if index < end {
        lemma_drain_fits::<K>(inputs, steps, index, k, s, c);
        lemma_drain_bounds::<K>(inputs, steps, index, k, s, c);
        match drain::<K>(inputs, steps, index, k, s, c) {
            Ok((s1, k1, Some(ctl))) => {
                lemma_run_fits::<K>(inputs, steps, index + 1, end, s1.spec_step(ctl), k1, Some(ctl));
                lemma_run_bounds::<K>(inputs, steps, index + 1, end, s1.spec_step(ctl), k1, Some(ctl));
            },
            _ => {},
        }
    }
}

/// A whole replay that succeeds applied every input, each recorded before a
/// step it fits, in step order.
proof fn lemma_replay_ok_archive<K: TacticalKernel>(r: BattleReplay<K>)
    requires
        r.spec_replay() is Ok,
    ensures
        archive_ok::<K>(r.spec_inputs(), r.spec_steps()),
{
    let ins = r.spec_inputs();
    let st = r.spec_steps();
    let n = st.len() as int;
    let init = r.spec_initial();
    lemma_run_fits::<K>(ins, st, 0, n, init, 0, None);
    lemma_run_bounds::<K>(ins, st, 0, n, init, 0, None);
    let (s, k, c) = r.spec_run(None, n)->Ok_0;
    lemma_drain_fits::<K>(ins, st, n, k, s, c);
    lemma_drain_bounds::<K>(ins, st, n, k, s, c);
    assert forall|t: int| 0 <= t < ins.len() implies #[trigger] ins[t].before_step <= st.len() && input_fits::<K>(
        ins,
        st,
        t,
        ins[t].before_step as int,
    ) by {
        if t < k {
        } else {
        }
    }
    assert forall|t: int, u: int| 0 <= t <= u < ins.len() implies #[trigger] ins[t].before_step
        <= #[trigger] ins[u].before_step by {
        if u < k {
        } else if t < k {
        } else {
        }
    }
}

/// One more input drains as if it were appended to the drain of the others.
proof fn lemma_drain_push<K: TacticalKernel>(
    inputs: Seq<TimedInput<K::Delta, K::Controls>>,
    x: TimedInput<K::Delta, K::Controls>,
    steps: Seq<Step>,
    index: int,
    k: int,
    s: K,
    c: Option<K::Controls>,
)
    requires
        0 <= k <= inputs.len(),
    ensures
        drain::<K>(inputs.push(x), steps, index, k, s, c) == match drain::<K>(inputs, steps, index, k, s, c) {
            Ok((s2, k2, c2)) => if k2 == inputs.len() {
                drain::<K>(inputs.push(x), steps, index, k2, s2, c2)
            } else {
                Ok((s2, k2, c2))
            },
            Err(e) => Err(e),
        },
    decreases inputs.len() - k,
{
    if k < inputs.len() {
        assert(inputs.push(x)[k] == inputs[k]);
        let (s2, c2) = apply_input::<K>(s, c, inputs[k].input);
        lemma_drain_push::<K>(inputs, x, steps, index, k + 1, s2, c2);
    }
}

/// An input recorded before a later step leaves the replay of earlier steps
/// unchanged.
proof fn lemma_run_push_input<K: TacticalKernel>(
    inputs: Seq<TimedInput<K::Delta, K::Controls>>,
    x: TimedInput<K::Delta, K::Controls>,
    steps: Seq<Step>,
    index: int,
    end: int,
    s: K,
    k: int,
    c: Option<K::Controls>,
)
    requires
        0 <= k <= inputs.len(),
        x.before_step >= end,
    ensures
        run_steps::<K>(inputs.push(x), steps, index, end, s, k, c) == run_steps::<K>(inputs, steps, index, end, s, k, c),
    decreases end - index,
{
    if index < end {
        lemma_drain_push::<K>(inputs, x, steps, index, k, s, c);
        lemma_drain_bounds::<K>(inputs, steps, index, k, s, c);
        match drain::<K>(inputs, steps, index, k, s, c) {
            Ok((s1, k1, c1)) => {
                if k1 == inputs.len() {
                    assert(inputs.push(x)[k1] == x);
                }
                match c1 {
                    Some(ctl) => {
                        lemma_run_push_input::<K>(inputs, x, steps, index + 1, end, s1.spec_step(ctl), k1, c1);
                    },
                    None => {},
                }
            },
            Err(_) => {},
        }
    }
}

/// Draining before step `index` reads only that step's record.
proof fn lemma_drain_steps<K: TacticalKernel>(
    inputs: Seq<TimedInput<K::Delta, K::Controls>>,
    steps: Seq<Step>,
    other: Seq<Step>,
    index: int,
    k: int,
    s: K,
    c: Option<K::Controls>,
)
    requires
        0 <= index < steps.len(),
        index < other.len(),
        steps[index] == other[index],
    ensures
        drain::<K>(inputs, steps, index, k, s, c) == drain::<K>(inputs, other, index, k, s, c),
    decreases inputs.len() - k,
{
    if 0 <= k < inputs.len() {
        let (s2, c2) = apply_input::<K>(s, c, inputs[k].input);
        lemma_drain_steps::<K>(inputs, steps, other, index, k + 1, s2, c2);
    }
}

/// Recording one more step leaves the replay of the earlier ones unchanged.
proof fn lemma_run_push_step<K: TacticalKernel>(
    inputs: Seq<TimedInput<K::Delta, K::Controls>>,
    steps: Seq<Step>,
    st: Step,
    index: int,
    end: int,
    s: K,
    k: int,
    c: Option<K::Controls>,
)
    requires
        0 <= index,
        end <= steps.len(),
    ensures
        run_steps::<K>(inputs, steps.push(st), index, end, s, k, c) == run_steps::<K>(inputs, steps, index, end, s, k, c),
    decreases end - index,
{
    if index < end {
        assert(steps.push(st)[index] == steps[index]);
        lemma_drain_steps::<K>(inputs, steps.push(st), steps, index, k, s, c);
        match drain::<K>(inputs, steps, index, k, s, c) {
            Ok((s1, k1, Some(ctl))) => {
                lemma_run_push_step::<K>(inputs, steps, st, index + 1, end, s1.spec_step(ctl), k1, Some(ctl));
            },
            _ => {},
        }
    }
}

/// Inputs pending before a new step drain alike once that step is
/// recorded, when none landed after its tick.
proof fn lemma_drain_ticks<K: TacticalKernel>(
    inputs: Seq<TimedInput<K::Delta, K::Controls>>,
    steps: Seq<Step>,
    st: Step,
    k: int,
    s: K,
    c: Option<K::Controls>,
)
    requires
        pending_by(inputs, steps.len(), st.tick),
    ensures
        drain::<K>(inputs, steps.push(st), steps.len() as int, k, s, c) == drain::<K>(
            inputs,
            steps,
            steps.len() as int,
            k,
            s,
            c,
        ),
    decreases inputs.len() - k,
{
    assert(steps.push(st)[steps.len() as int] == st);
    if 0 <= k < inputs.len() {
        let (s2, c2) = apply_input::<K>(s, c, inputs[k].input);
        lemma_drain_ticks::<K>(inputs, steps, st, k + 1, s2, c2);
    }
}

/// Replaying through step `end + 1` is replaying through `end`, then one
/// step more.
proof fn lemma_run_split<K: TacticalKernel>(
    inputs: Seq<TimedInput<K::Delta, K::Controls>>,
    steps: Seq<Step>,
    index: int,
    end: int,
    s: K,
    k: int,
    c: Option<K::Controls>,
)
    requires
        index <= end,
    ensures
        run_steps::<K>(inputs, steps, index, end + 1, s, k, c) == match run_steps::<K>(
            inputs,
            steps,
            index,
            end,
            s,
            k,
            c,
        ) {
            Ok((s2, k2, c2)) => run_steps::<K>(inputs, steps, end, end + 1, s2, k2, c2),
            Err(e) => Err(e),
        },
    decreases end - index,
{
    if index < end {
        match drain::<K>(inputs, steps, index, k, s, c) {
            Ok((s1, k1, Some(ctl))) => {
                lemma_run_split::<K>(inputs, steps, index + 1, end, s1.spec_step(ctl), k1, Some(ctl));
            },
            _ => {},
        }
    }
}

impl<K: TacticalKernel> BattleReplay<K> {
    /// The archive's rules version.
    pub closed spec fn spec_version(&self) -> u32 {
        self.version
    }

    /// The battle's initial state.
    pub closed spec fn spec_initial(&self) -> K {
        self.initial
    }

    /// The fingerprint recorded for the initial state.
    pub closed spec fn spec_initial_checksum(&self) -> u64 {
        self.initial_checksum
    }

    /// The recorded steps.
    pub closed spec fn spec_steps(&self) -> Seq<Step> {
        self.steps@
    }

    /// The recorded inputs, in order.
    pub closed spec fn spec_inputs(&self) -> Seq<TimedInput<K::Delta, K::Controls>> {
        self.inputs@
    }

    /// The checkpoints, in order.
    pub closed spec fn spec_checkpoint_list(&self) -> Seq<Checkpoint<K>> {
        self.checkpoints@
    }

    /// `(through, next_input)` of each checkpoint, in order.
    pub open spec fn spec_checkpoints(&self) -> Seq<(usize, usize)> {
        self.spec_checkpoint_list().map_values(|c: Checkpoint<K>| (c.through, c.next_input))
    }

    /// The controls most recently recorded.
    pub closed spec fn spec_controls(&self) -> Option<K::Controls> {
        self.controls
    }

    /// Whether two archives record the same battle: the same version,
    /// initial state and initial fingerprint.
    pub open spec fn same_battle(self, other: Self) -> bool {
        &&& self.spec_version() == other.spec_version()
        &&& self.spec_initial() == other.spec_initial()
        &&& self.spec_initial_checksum() == other.spec_initial_checksum()
    }

    /// The version check: a version this build replays, and the one the
    /// initial state was opened under.
    pub open spec fn spec_validate(&self) -> Result<(), ReplayError> {
        if !version_supported(self.spec_version()) {
            Err(ReplayError::UnsupportedVersion(self.spec_version()))
        } else if self.spec_version() != self.spec_initial().spec_rules_version() {
            Err(ReplayError::InvalidArchive)
        } else {
            Ok(())
        }
    }

    /// Where a replay from checkpoint `cp`, or from the start, begins: the
    /// step, the next input, the controls, the state and the fingerprint
    /// that state must have.
    pub open spec fn spec_start(&self, cp: Option<int>) -> Result<
        (int, int, Option<K::Controls>, K, u64),
        ReplayError,
    > {
        match cp {
            Some(i) => {
                let p = self.spec_checkpoint_list()[i];
                if p.through == 0 || p.through - 1 >= self.spec_steps().len() {
                    Err(ReplayError::InvalidArchive)
                } else {
                    Ok(
                        (
                            p.through as int,
                            p.next_input as int,
                            p.controls,
                            p.state,
                            self.spec_steps()[p.through - 1].checksum,
                        ),
                    )
                }
            },
            None => Ok((0, 0, None, self.spec_initial(), self.spec_initial_checksum())),
        }
    }

    /// The replay of the steps up to `end` from checkpoint `cp`, or from the
    /// start: the state, the next input and the controls in force after it.
    pub open spec fn spec_run(&self, cp: Option<int>, end: int) -> Result<
        (K, int, Option<K::Controls>),
        ReplayError,
    > {
        match self.spec_validate() {
            Err(e) => Err(e),
            Ok(_) => match self.spec_start(cp) {
                Err(e) => Err(e),
                Ok((start, k, c, s, expected)) => {
                    if start > end || end > self.spec_steps().len() || k > self.spec_inputs().len() {
                        Err(ReplayError::InvalidArchive)
                    } else if s.spec_checksum() != expected {
                        Err(ReplayError::Diverged { step: start as usize })
                    } else {
                        run_steps::<K>(self.spec_inputs(), self.spec_steps(), start, end, s, k, c)
                    }
                },
            },
        }
    }

    /// The keyframes from step `first` on of the replay [`Self::spec_run`].
    pub open spec fn spec_run_frames(&self, cp: Option<int>, end: int, first: int) -> Seq<
        (usize, K::Frame),
    > {
        match self.spec_start(cp) {
            Ok((start, k, c, s, _)) => run_frames::<K>(
                self.spec_inputs(),
                self.spec_steps(),
                start,
                end,
                first,
                s,
                k,
                c,
            ),
            Err(_) => Seq::empty(),
        }
    }

    /// The whole replay: every step from the initial state, then the inputs
    /// recorded after the last step, every one of which must be applied.
    /// Gives the final state and the controls in force.
    pub open spec fn spec_replay(&self) -> Result<(K, Option<K::Controls>), ReplayError> {
        let n = self.spec_steps().len() as int;
        match self.spec_run(None, n) {
            Err(e) => Err(e),
            Ok((s, k, c)) => match drain::<K>(self.spec_inputs(), self.spec_steps(), n, k, s, c) {
                Err(e) => Err(e),
                Ok((s2, k2, c2)) => if k2 < self.spec_inputs().len() {
                    Err(ReplayError::InvalidArchive)
                } else {
                    Ok((s2, c2))
                },
            },
        }
    }

    /// The state the whole replay reaches.
    pub open spec fn spec_reconstruct(&self) -> Result<K, ReplayError> {
        match self.spec_replay() {
            Ok((s, _)) => Ok(s),
            Err(e) => Err(e),
        }
    }

    /// The keyframes of rounds `from..to` (for rounds recorded in order):
    /// after the version check, none when no step animates those rounds,
    /// else those of the replay from the last checkpoint at or before the
    /// first such step.
    pub open spec fn spec_frames_range(&self, from: usize, to: usize) -> Result<
        Seq<(usize, K::Frame)>,
        ReplayError,
    > {
        match self.spec_validate() {
            Err(e) => Err(e),
            Ok(_) => {
                let first = count_below(self.spec_steps(), from) as int;
                let end = count_below(self.spec_steps(), to) as int;
                if first >= end {
                    Ok(Seq::empty())
                } else {
                    let cp = last_checkpoint_by(
                        self.spec_checkpoints(),
                        first,
                        self.spec_checkpoints().len() as int,
                    );
                    match self.spec_run(cp, end) {
                        Err(e) => Err(e),
                        Ok(_) => Ok(self.spec_run_frames(cp, end, first)),
                    }
                }
            },
        }
    }

    /// Open an archive for a battle whose initial state is `initial`: it
    /// carries the state's rules version, a copy of the state and its
    /// fingerprint. A fresh archive of a supported version replays to the
    /// initial state, with no controls yet in force.
    pub fn new(initial: &K) -> (r: Self)
        ensures
            r.spec_version() == initial.spec_rules_version(),
            r.spec_initial() == *initial,
            r.spec_initial_checksum() == initial.spec_checksum(),
            archive_ok::<K>(r.spec_inputs(), r.spec_steps()),
            checkpoints_regular(r.spec_checkpoints(), r.spec_steps().len()),
            inputs_in_step_order(r.spec_inputs(), r.spec_steps().len()),
            r.spec_steps().len() == 0,
            r.spec_inputs().len() == 0,
            r.spec_checkpoint_list().len() == 0,
            r.spec_controls().is_none(),
            version_supported(initial.spec_rules_version()) ==> r.spec_replay() == Ok::<
                (K, Option<K::Controls>),
                ReplayError,
            >((*initial, None)),
    {
        let version = initial.rules_version();
        let initial_checksum = initial.checksum();
        let r = BattleReplay {
            version,
            initial: initial.duplicate(),
            initial_checksum,
            inputs: Vec::new(),
            steps: Vec::new(),
            checkpoints: Vec::new(),
            controls: None,
        };
        proof {
            assert(r.checkpoints@.map_values(|c: Checkpoint<K>| (c.through, c.next_input))
                =~= Seq::<(usize, usize)>::empty());
        }
        r
    }

    fn input(&mut self, tick: u64, input: Input<K::Delta, K::Controls>)
        ensures
            archive_ok::<K>(old(self).spec_inputs(), old(self).spec_steps()) && (input matches Input::Withdraw(
                side,
            ) ==> side <= 1) ==> archive_ok::<K>(final(self).spec_inputs(), final(self).spec_steps()),
            checkpoints_regular(old(self).spec_checkpoints(), old(self).spec_steps().len())
                ==> checkpoints_regular(final(self).spec_checkpoints(), final(self).spec_steps().len()),
            inputs_in_step_order(old(self).spec_inputs(), old(self).spec_steps().len())
                ==> inputs_in_step_order(final(self).spec_inputs(), final(self).spec_steps().len()),
            final(self).spec_inputs() == old(self).spec_inputs().push(
                TimedInput { tick, before_step: old(self).spec_steps().len() as usize, input },
            ),
            final(self).spec_steps() == old(self).spec_steps(),
            final(self).spec_checkpoint_list() == old(self).spec_checkpoint_list(),
            final(self).spec_controls() == old(self).spec_controls(),
            final(self).same_battle(*old(self)),
            input_valid::<K>(input) ==> match old(self).spec_replay() {
                Ok((live, ctl)) => final(self).spec_replay() == Ok::<(K, Option<K::Controls>), ReplayError>(
                    apply_input::<K>(live, ctl, input),
                ),
                Err(_) => true,
            },
    {
        let ghost before = *self;
        let ghost recorded = TimedInput { tick, before_step: self.steps@.len() as usize, input };
        let before_step = self.steps.len();
        self.inputs.push(TimedInput { tick, before_step, input });
        proof {
            if input_valid::<K>(recorded.input) && before.spec_replay() is Ok {
                an_input_keeps_the_replay_live::<K>(before, *self, recorded);
            }
        }
    }

    /// Record roster changes at `tick`; nothing is recorded for none.
    /// Recorded changes of the two sides keep the archive replaying the
    /// live battle they were applied to.
    pub fn roster(&mut self, tick: u64, changes: Vec<K::Delta>)
        ensures
            archive_ok::<K>(old(self).spec_inputs(), old(self).spec_steps()) ==> archive_ok::<K>(
                final(self).spec_inputs(),
                final(self).spec_steps(),
            ),
            checkpoints_regular(old(self).spec_checkpoints(), old(self).spec_steps().len())
                ==> checkpoints_regular(final(self).spec_checkpoints(), final(self).spec_steps().len()),
            inputs_in_step_order(old(self).spec_inputs(), old(self).spec_steps().len())
                ==> inputs_in_step_order(final(self).spec_inputs(), final(self).spec_steps().len()),
            changes@.len() == 0 ==> final(self).spec_inputs() == old(self).spec_inputs(),
            changes@.len() > 0 ==> final(self).spec_inputs() == old(self).spec_inputs().push(
                TimedInput {
                    tick,
                    before_step: old(self).spec_steps().len() as usize,
                    input: Input::Roster(changes),
                },
            ),
            final(self).spec_steps() == old(self).spec_steps(),
            final(self).spec_checkpoint_list() == old(self).spec_checkpoint_list(),
            final(self).spec_controls() == old(self).spec_controls(),
            final(self).same_battle(*old(self)),
            changes@.len() == 0 ==> final(self).spec_replay() == old(self).spec_replay(),
            changes@.len() > 0 && input_valid::<K>(Input::Roster(changes)) ==> match old(
                self,
            ).spec_replay() {
                Ok((live, ctl)) => final(self).spec_replay() == Ok::<(K, Option<K::Controls>), ReplayError>(
                    (live.spec_apply_delta(changes), ctl),
                ),
                Err(_) => true,
            },
    {
        if changes.len() > 0 {
            self.input(tick, Input::Roster(changes));
        }
    }

    /// Record the controls in force at `tick`, only when they differ from
    /// the controls last recorded. Where `==` on the controls is exact, the
    /// archive then replays the live battle under the new controls.
    pub fn controls(&mut self, tick: u64, controls: K::Controls)
        ensures
            archive_ok::<K>(old(self).spec_inputs(), old(self).spec_steps()) ==> archive_ok::<K>(
                final(self).spec_inputs(),
                final(self).spec_steps(),
            ),
            checkpoints_regular(old(self).spec_checkpoints(), old(self).spec_steps().len())
                ==> checkpoints_regular(final(self).spec_checkpoints(), final(self).spec_steps().len()),
            inputs_in_step_order(old(self).spec_inputs(), old(self).spec_steps().len())
                ==> inputs_in_step_order(final(self).spec_inputs(), final(self).spec_steps().len()),
            final(self).spec_steps() == old(self).spec_steps(),
            final(self).spec_checkpoint_list() == old(self).spec_checkpoint_list(),
            final(self).same_battle(*old(self)),
            final(self).spec_controls() == Some(controls) || final(self).spec_controls() == old(
                self,
            ).spec_controls(),
            final(self).spec_inputs() == old(self).spec_inputs() || final(self).spec_inputs()
                == old(self).spec_inputs().push(
                TimedInput {
                    tick,
                    before_step: old(self).spec_steps().len() as usize,
                    input: Input::Controls(controls),
                },
            ),
            old(self).spec_controls().is_none() ==> {
                &&& final(self).spec_controls() == Some(controls)
                &&& final(self).spec_inputs() == old(self).spec_inputs().push(
                    TimedInput {
                        tick,
                        before_step: old(self).spec_steps().len() as usize,
                        input: Input::Controls(controls),
                    },
                )
            },
            K::Controls::obeys_eq_spec() && old(self).spec_controls() is Some ==> {
                let prev = old(self).spec_controls()->0;
                &&& prev.eq_spec(&controls) ==> final(self).spec_inputs() == old(self).spec_inputs()
                &&& !prev.eq_spec(&controls) ==> final(self).spec_inputs() == old(
                    self,
                ).spec_inputs().push(
                    TimedInput {
                        tick,
                        before_step: old(self).spec_steps().len() as usize,
                        input: Input::Controls(controls),
                    },
                )
            },
            controls_eq_exact::<K>() ==> final(self).spec_controls() == Some(controls),
            controls_eq_exact::<K>() ==> match old(self).spec_replay() {
                Ok((live, ctl)) => ctl == old(self).spec_controls() ==> final(self).spec_replay() == Ok::<
                    (K, Option<K::Controls>),
                    ReplayError,
                >((live, Some(controls))),
                Err(_) => true,
            },
    {
        let same = match &self.controls {
            Some(prev) => *prev == controls,
            None => false,
        };
        if !same {
            self.input(tick, Input::Controls(controls));
            self.controls = Some(controls);
        }
    }

    /// Record a withdrawal order. Repeats are recorded too: a repeated order
    /// also resets the roles of newly joined hulls. An order of one of the
    /// two sides keeps the archive replaying the live battle.
    pub fn withdraw(&mut self, tick: u64, side: u8)
        ensures
            archive_ok::<K>(old(self).spec_inputs(), old(self).spec_steps()) && side <= 1
                ==> archive_ok::<K>(final(self).spec_inputs(), final(self).spec_steps()),
            checkpoints_regular(old(self).spec_checkpoints(), old(self).spec_steps().len())
                ==> checkpoints_regular(final(self).spec_checkpoints(), final(self).spec_steps().len()),
            inputs_in_step_order(old(self).spec_inputs(), old(self).spec_steps().len())
                ==> inputs_in_step_order(final(self).spec_inputs(), final(self).spec_steps().len()),
            final(self).spec_inputs() == old(self).spec_inputs().push(
                TimedInput {
                    tick,
                    before_step: old(self).spec_steps().len() as usize,
                    input: Input::Withdraw(side),
                },
            ),
            final(self).spec_steps() == old(self).spec_steps(),
            final(self).spec_checkpoint_list() == old(self).spec_checkpoint_list(),
            final(self).spec_controls() == old(self).spec_controls(),
            final(self).same_battle(*old(self)),
            side <= 1 ==> match old(self).spec_replay() {
                Ok((live, ctl)) => final(self).spec_replay() == Ok::<(K, Option<K::Controls>), ReplayError>(
                    (live.spec_withdraw(side), ctl),
                ),
                Err(_) => true,
            },
    {
        self.input(tick, Input::Withdraw(side));
    }

    /// Record a kernel step: its tick, round and the fingerprint of `state`
    /// after it, and a checkpoint of `state` every [`CHECKPOINT_STEPS`] steps.
    /// When `state` is the live battle stepped under the controls in force,
    /// and no pending input landed after `tick`, the archive replays to it.
    pub fn stepped(&mut self, tick: u64, round: usize, state: &K)
        requires
            old(self).spec_steps().len() < usize::MAX,
        ensures
            archive_ok::<K>(old(self).spec_inputs(), old(self).spec_steps()) && pending_by(
                old(self).spec_inputs(),
                old(self).spec_steps().len(),
                tick,
            ) ==> archive_ok::<K>(final(self).spec_inputs(), final(self).spec_steps()),
            checkpoints_regular(old(self).spec_checkpoints(), old(self).spec_steps().len())
                ==> checkpoints_regular(final(self).spec_checkpoints(), final(self).spec_steps().len()),
            inputs_in_step_order(old(self).spec_inputs(), old(self).spec_steps().len())
                ==> inputs_in_step_order(final(self).spec_inputs(), final(self).spec_steps().len()),
            final(self).spec_steps() == old(self).spec_steps().push(
                Step { tick, round, checksum: state.spec_checksum() },
            ),
            final(self).spec_inputs() == old(self).spec_inputs(),
            final(self).spec_controls() == old(self).spec_controls(),
            final(self).same_battle(*old(self)),
            final(self).spec_steps().len() % (CHECKPOINT_STEPS as nat) == 0
                ==> final(self).spec_checkpoint_list() == old(self).spec_checkpoint_list().push(
                Checkpoint {
                    through: final(self).spec_steps().len() as usize,
                    next_input: old(self).spec_inputs().len() as usize,
                    controls: old(self).spec_controls(),
                    state: *state,
                },
            ),
            final(self).spec_steps().len() % (CHECKPOINT_STEPS as nat) != 0
                ==> final(self).spec_checkpoint_list() == old(self).spec_checkpoint_list(),
            match old(self).spec_replay() {
                Ok((live, Some(ctl))) => *state == live.spec_step(ctl) && pending_by(
                    old(self).spec_inputs(),
                    old(self).spec_steps().len(),
                    tick,
                ) ==> final(self).spec_replay() == Ok::<(K, Option<K::Controls>), ReplayError>(
                    (*state, Some(ctl)),
                ),
                _ => true,
            },
    {
        let ghost before = *self;
        let checksum = state.checksum();
        self.steps.push(Step { tick, round, checksum });
        if self.steps.len() % CHECKPOINT_STEPS == 0 {
            self.checkpoints.push(
                Checkpoint {
                    through: self.steps.len(),
                    next_input: self.inputs.len(),
                    controls: self.controls,
                    state: state.duplicate(),
                },
            );
            proof {
                assert(self.spec_checkpoints() =~= before.spec_checkpoints().push(
                    (self.steps@.len() as usize, self.inputs@.len() as usize),
                ));
            }
        }
        proof {
            match before.spec_replay() {
                Ok((live, Some(ctl))) => {
                    if *state == live.spec_step(ctl) && pending_by(before.spec_inputs(), before.spec_steps().len(), tick) {
                        a_step_keeps_the_replay_live::<K>(before, *self, Step { tick, round, checksum }, ctl);
                    }
                },
                _ => {},
            }
        }
    }

    /// The number of leading steps whose round is below `round` (the first
    /// step at or after `round`, when rounds are sorted).
    pub fn steps_before_round(&self, round: usize) -> (n: usize)
        ensures
            n <= self.spec_steps().len(),
            rounds_sorted(self.spec_steps()) ==> {
                &&& forall|i: int| 0 <= i < n ==> (#[trigger] self.spec_steps()[i]).round < round
                &&& forall|i: int|
                    n <= i < self.spec_steps().len() ==> (#[trigger] self.spec_steps()[i]).round
                        >= round
                &&& n == count_below(self.spec_steps(), round)
            },
    {
        let mut lo: usize = 0;
        let mut hi: usize = self.steps.len();
        while lo < hi
            invariant
                lo <= hi <= self.steps@.len(),
                rounds_sorted(self.steps@) ==> {
                    &&& forall|i: int| 0 <= i < lo ==> (#[trigger] self.steps@[i]).round < round
                    &&& forall|i: int|
                        hi <= i < self.steps@.len() ==> (#[trigger] self.steps@[i]).round >= round
                },
            decreases hi - lo,
        {
            let mid = lo + (hi - lo) / 2;
            if self.steps[mid].round < round {
                lo = mid + 1;
            } else {
                hi = mid;
            }
        }
        proof {
            if rounds_sorted(self.steps@) {
                lemma_partition_count(self.steps@, round, lo as int);
            }
        }
        lo
    }

    /// Whether a step animating `round` was recorded.
    pub fn records_round(&self, round: usize) -> (r: bool)
        ensures
            rounds_sorted(self.spec_steps()) ==> (r <==> exists|i: int|
                0 <= i < self.spec_steps().len() && (#[trigger] self.spec_steps()[i]).round
                    == round),
    {
        let n = self.steps_before_round(round);
        n < self.steps.len() && self.steps[n].round == round
    }

    /// Refuse an archive whose version this build cannot replay, or whose
    /// version disagrees with its initial state's.
    fn validate_version(&self) -> (r: Result<(), ReplayError>)
        ensures
            r == self.spec_validate(),
    {
        if !(1 <= self.version && self.version <= RULES_VERSION) {
            return Err(ReplayError::UnsupportedVersion(self.version));
        }
        if self.version != self.initial.rules_version() {
            return Err(ReplayError::InvalidArchive);
        }
        Ok(())
    }

    /// Apply one recorded input to a reconstruction; one naming an
    /// impossible side makes the archive invalid.
    fn apply(
        input: &Input<K::Delta, K::Controls>,
        state: &mut K,
        controls: &mut Option<K::Controls>,
    ) -> (r: Result<(), ReplayError>)
        ensures
            input_valid::<K>(*input) ==> r is Ok && (*final(state), *final(controls)) == apply_input::<K>(
                *old(state),
                *old(controls),
                *input,
            ),
            !input_valid::<K>(*input) ==> r == Err::<(), ReplayError>(ReplayError::InvalidArchive),
    {
        match input {
            Input::Roster(changes) => {
                let mut i: usize = 0;
                while i < changes.len()
                    invariant
                        i <= changes@.len(),
                        *input == Input::<K::Delta, K::Controls>::Roster(*changes),
                        forall|j: int| 0 <= j < i ==> K::spec_delta_side(#[trigger] changes@[j]) <= 1,
                    decreases changes@.len() - i,
                {
                    let side = K::delta_side(&changes[i]);
                    if side > 1 {
                        proof {
                            assert(K::spec_delta_side(changes@[i as int]) > 1);
                            assert(!deltas_valid::<K>(changes@));
                            assert(!input_valid::<K>(*input));
                        }
                        return Err(ReplayError::InvalidArchive);
                    }
                    i = i + 1;
                }
                state.apply_roster_delta(changes);
            },
            Input::Controls(next) => {
                *controls = Some(*next);
            },
            Input::Withdraw(side) => {
                if *side > 1 {
                    return Err(ReplayError::InvalidArchive);
                }
                state.order_withdraw(*side);
            },
        }
        Ok(())
    }

    /// Apply the inputs recorded before step `index`, from `next_input` on.
    fn drain_into(
        &self,
        index: usize,
        next_input: &mut usize,
        state: &mut K,
        controls: &mut Option<K::Controls>,
    ) -> (r: Result<(), ReplayError>)
        requires
            index <= self.spec_steps().len(),
            *old(next_input) <= self.spec_inputs().len(),
        ensures
            match drain::<K>(
                self.spec_inputs(),
                self.spec_steps(),
                index as int,
                *old(next_input) as int,
                *old(state),
                *old(controls),
            ) {
                Ok((s, k, c)) => r is Ok && *final(state) == s && *final(next_input) == k && *final(controls)
                    == c,
                Err(e) => r == Err::<(), ReplayError>(e),
            },
    {
        let ghost goal = drain::<K>(self.inputs@, self.steps@, index as int, *next_input as int, *state, *controls);
        while *next_input < self.inputs.len()
            invariant
                index <= self.steps@.len(),
                *next_input <= self.inputs@.len(),
                goal == drain::<K>(self.inputs@, self.steps@, index as int, *next_input as int, *state, *controls),
                goal == drain::<K>(
                    self.inputs@,
                    self.steps@,
                    index as int,
                    *old(next_input) as int,
                    *old(state),
                    *old(controls),
                ),
            decreases self.inputs@.len() - *next_input,
        {
            let event = &self.inputs[*next_input];
            if event.before_step > index {
                return Ok(());
            }
            if event.before_step != index || (index < self.steps.len() && event.tick > self.steps[index].tick) {
                return Err(ReplayError::InvalidArchive);
            }
            Self::apply(&event.input, state, controls)?;
            *next_input = *next_input + 1;
        }
        Ok(())
    }

    /// Replay steps up to `end` from checkpoint `checkpoint`, or from the
    /// start, applying each input before the step it precedes and checking
    /// every fingerprint; keyframes of steps from `first` on go to `frames`.
    /// Returns the state, the next unapplied input and the controls in force.
    fn run(
        &self,
        checkpoint: Option<usize>,
        end: usize,
        first: usize,
        frames: &mut Vec<(usize, K::Frame)>,
    ) -> (r: Result<(K, usize, Option<K::Controls>), ReplayError>)
        requires
            checkpoint matches Some(c) ==> c < self.spec_checkpoint_list().len(),
            old(frames)@.len() == 0,
        ensures
            match self.spec_run(index_of(checkpoint), end as int) {
                Ok((s, k, c)) => r matches Ok((s2, k2, c2)) && s2 == s && k2 == k && c2 == c
                    && final(frames)@ == self.spec_run_frames(index_of(checkpoint), end as int, first as int),
                Err(e) => r matches Err(e2) && e2 == e,
            },
    {
        self.validate_version()?;
        let mut state: K;
        let mut next_input: usize;
        let mut controls: Option<K::Controls>;
        let start: usize;
        let expected: u64;
        match checkpoint {
            Some(ci) => {
                let cp = &self.checkpoints[ci];
                if cp.through == 0 || cp.through - 1 >= self.steps.len() {
                    return Err(ReplayError::InvalidArchive);
                }
                expected = self.steps[cp.through - 1].checksum;
                state = cp.state.duplicate();
                next_input = cp.next_input;
                controls = cp.controls;
                start = cp.through;
            },
            None => {
                expected = self.initial_checksum;
                state = self.initial.duplicate();
                next_input = 0;
                controls = None;
                start = 0;
            },
        }
        if start > end || end > self.steps.len() || next_input > self.inputs.len() {
            return Err(ReplayError::InvalidArchive);
        }
        if state.checksum() != expected {
            return Err(ReplayError::Diverged { step: start });
        }
        let ghost goal = run_steps::<K>(self.inputs@, self.steps@, start as int, end as int, state, next_input as int, controls);
        let ghost goal_frames = run_frames::<K>(
            self.inputs@,
            self.steps@,
            start as int,
            end as int,
            first as int,
            state,
            next_input as int,
            controls,
        );
        let mut index: usize = start;
        while index < end
            invariant
                start <= index <= end <= self.steps@.len(),
                next_input <= self.inputs@.len(),
                self.spec_run(index_of(checkpoint), end as int) == goal,
                self.spec_run_frames(index_of(checkpoint), end as int, first as int) == goal_frames,
                goal == run_steps::<K>(self.inputs@, self.steps@, index as int, end as int, state, next_input as int, controls),
                goal_frames == frames@ + run_frames::<K>(
                    self.inputs@,
                    self.steps@,
                    index as int,
                    end as int,
                    first as int,
                    state,
                    next_input as int,
                    controls,
                ),
            decreases end - index,
        {
            let ghost s0 = state;
            let ghost k0 = next_input as int;
            let ghost c0 = controls;
            proof {
                lemma_drain_bounds::<K>(self.inputs@, self.steps@, index as int, k0, s0, c0);
            }
            self.drain_into(index, &mut next_input, &mut state, &mut controls)?;
            let in_force = match controls {
                Some(c) => c,
                None => return Err(ReplayError::InvalidArchive),
            };
            let ghost s1 = state;
            let outcome = state.step(in_force);
            if state.checksum() != self.steps[index].checksum {
                return Err(ReplayError::Diverged { step: index + 1 });
            }
            let ghost rest = run_frames::<K>(
                self.inputs@,
                self.steps@,
                index + 1,
                end as int,
                first as int,
                state,
                next_input as int,
                controls,
            );
            if index >= first {
                let frame = state.keyframe(outcome);
                let ghost done = frames@;
                frames.push((self.steps[index].round, frame));
                proof {
                    assert(done + (seq![(self.steps@[index as int].round, frame)] + rest) =~= frames@ + rest);
                }
            }
            index = index + 1;
        }
        Ok((state, next_input, controls))
    }

    /// Audit the whole recording, checking every step, then apply the
    /// inputs recorded after the last step (a withdrawal before a save).
    pub fn reconstruct(&self) -> (r: Result<K, ReplayError>)
        ensures
            r == self.spec_reconstruct(),
            r is Ok ==> archive_ok::<K>(self.spec_inputs(), self.spec_steps()),
            !version_supported(self.spec_version()) ==> r == Err::<K, ReplayError>(
                ReplayError::UnsupportedVersion(self.spec_version()),
            ),
    {
        let mut frames: Vec<(usize, K::Frame)> = Vec::new();
        let end = self.steps.len();
        let (mut state, mut next_input, mut controls) = self.run(None, end, end, &mut frames)?;
        proof {
            lemma_run_bounds::<K>(self.inputs@, self.steps@, 0, end as int, self.initial, 0, None);
        }
        self.drain_into(end, &mut next_input, &mut state, &mut controls)?;
        if next_input < self.inputs.len() {
            return Err(ReplayError::InvalidArchive);
        }
        proof {
            lemma_replay_ok_archive::<K>(*self);
        }
        Ok(state)
    }

    /// The last checkpoint at or before step `first`, if any.
    pub fn checkpoint_for(&self, first: usize) -> (r: Option<usize>)
        ensures
            index_of(r) == last_checkpoint_by(
                self.spec_checkpoints(),
                first as int,
                self.spec_checkpoints().len() as int,
            ),
            r matches Some(i) ==> i < self.spec_checkpoints().len() && self.spec_checkpoints()[i as int].0 <= first
                && forall|j: int| i < j < self.spec_checkpoints().len() ==> (#[trigger] self.spec_checkpoints()[j]).0 > first,
            r is None ==> forall|j: int| 0 <= j < self.spec_checkpoints().len() ==> (#[trigger] self.spec_checkpoints()[j]).0 > first,
    {
        let mut i: usize = self.checkpoints.len();
        while i > 0
            invariant
                i <= self.checkpoints@.len(),
                self.spec_checkpoints().len() == self.checkpoints@.len(),
                forall|j: int| i <= j < self.checkpoints@.len() ==> (#[trigger] self.spec_checkpoints()[j]).0 > first,
                last_checkpoint_by(self.spec_checkpoints(), first as int, self.spec_checkpoints().len() as int)
                    == last_checkpoint_by(self.spec_checkpoints(), first as int, i as int),
            decreases i,
        {
            if self.checkpoints[i - 1].through <= first {
                return Some(i - 1);
            }
            i = i - 1;
        }
        None
    }

    /// Reconstruct only the keyframes of rounds `from..to`, starting from the
    /// last checkpoint before them. No input beyond the slice is evaluated.
    pub fn frames_range(&self, from: usize, to: usize) -> (r: Result<Vec<(usize, K::Frame)>, ReplayError>)
        ensures
            !version_supported(self.spec_version()) ==> r == Err::<Vec<(usize, K::Frame)>, ReplayError>(
                ReplayError::UnsupportedVersion(self.spec_version()),
            ),
            self.spec_validate() matches Err(e) ==> r == Err::<Vec<(usize, K::Frame)>, ReplayError>(e),
            rounds_sorted(self.spec_steps()) ==> match self.spec_frames_range(from, to) {
                Ok(frames) => r matches Ok(v) && v@ == frames,
                Err(e) => r == Err::<Vec<(usize, K::Frame)>, ReplayError>(e),
            },
    {
        self.validate_version()?;
        let first = self.steps_before_round(from);
        let end = self.steps_before_round(to);
        if first >= end {
            return Ok(Vec::new());
        }
        let checkpoint = self.checkpoint_for(first);
        let mut frames: Vec<(usize, K::Frame)> = Vec::new();
        self.run(checkpoint, end, first, &mut frames)?;
        Ok(frames)
    }

    /// Recorded kernel steps.
    pub fn step_count(&self) -> (n: usize)
        ensures
            n == self.spec_steps().len(),
    {
        self.steps.len()
    }

    /// Recorded inputs.
    pub fn input_count(&self) -> (n: usize)
        ensures
            n == self.spec_inputs().len(),
    {
        self.inputs.len()
    }
}

/// Recording a valid input after the last step keeps an archive replaying
/// the live battle: when the archive replays to a state with some controls
/// in force, the archive with that input recorded too replays to the state
/// and controls the input leads to.
pub proof fn an_input_keeps_the_replay_live<K: TacticalKernel>(
    a: BattleReplay<K>,
    b: BattleReplay<K>,
    input: TimedInput<K::Delta, K::Controls>,
)
    requires
        a.spec_replay() is Ok,
        b.same_battle(a),
        b.spec_steps() == a.spec_steps(),
        b.spec_inputs() == a.spec_inputs().push(input),
        input.before_step == a.spec_steps().len(),
        input_valid::<K>(input.input),
    ensures
        b.spec_replay() == Ok::<(K, Option<K::Controls>), ReplayError>(
            apply_input::<K>(a.spec_replay()->Ok_0.0, a.spec_replay()->Ok_0.1, input.input),
        ),
{
    let ins = a.spec_inputs();
    let st = a.spec_steps();
    let n = st.len() as int;
    lemma_run_push_input::<K>(ins, input, st, 0, n, a.spec_initial(), 0, None);
    assert(b.spec_run(None, n) == a.spec_run(None, n));
    let (s, k, c) = a.spec_run(None, n)->Ok_0;
    lemma_run_bounds::<K>(ins, st, 0, n, a.spec_initial(), 0, None);
    lemma_drain_push::<K>(ins, input, st, n, k, s, c);
    lemma_drain_bounds::<K>(ins, st, n, k, s, c);
    let (s2, k2, c2) = drain::<K>(ins, st, n, k, s, c)->Ok_0;
    assert(k2 == ins.len());
    assert(ins.push(input)[k2] == input);
    let (s3, c3) = apply_input::<K>(s2, c2, input.input);
    assert(drain::<K>(ins.push(input), st, n, k2 + 1, s3, c3) == Ok::<
        (K, int, Option<K::Controls>),
        ReplayError,
    >((s3, k2 + 1, c3)));
}

/// Recording a step keeps an archive replaying the live battle: when the
/// archive replays to `live` with `ctl` in force, no pending input landed
/// after the step's tick, and the step records the fingerprint of `live`
/// stepped under `ctl`, the archive with that step replays to that state.
pub proof fn a_step_keeps_the_replay_live<K: TacticalKernel>(
    a: BattleReplay<K>,
    b: BattleReplay<K>,
    step: Step,
    ctl: K::Controls,
)
    requires
        a.spec_replay() is Ok,
        a.spec_replay()->Ok_0.1 == Some(ctl),
        b.same_battle(a),
        b.spec_inputs() == a.spec_inputs(),
        b.spec_steps() == a.spec_steps().push(step),
        step.checksum == a.spec_replay()->Ok_0.0.spec_step(ctl).spec_checksum(),
        pending_by(a.spec_inputs(), a.spec_steps().len(), step.tick),
    ensures
        b.spec_replay() == Ok::<(K, Option<K::Controls>), ReplayError>(
            (a.spec_replay()->Ok_0.0.spec_step(ctl), Some(ctl)),
        ),
{
    let ins = a.spec_inputs();
    let st = a.spec_steps();
    let st2 = st.push(step);
    let n = st.len() as int;
    let init = a.spec_initial();
    lemma_run_split::<K>(ins, st2, 0, n, init, 0, None);
    lemma_run_push_step::<K>(ins, st, step, 0, n, init, 0, None);
    let (s, k, c) = a.spec_run(None, n)->Ok_0;
    lemma_run_bounds::<K>(ins, st, 0, n, init, 0, None);
    lemma_drain_ticks::<K>(ins, st, step, k, s, c);
    lemma_drain_bounds::<K>(ins, st, n, k, s, c);
    let (live, k2, c2) = drain::<K>(ins, st, n, k, s, c)->Ok_0;
    assert(k2 == ins.len());
    assert(st2[n] == step);
    let s2 = live.spec_step(ctl);
    assert(run_steps::<K>(ins, st2, n + 1, n + 1, s2, k2, c2) == Ok::<
        (K, int, Option<K::Controls>),
        ReplayError,
    >((s2, k2, c2)));
    assert(run_steps::<K>(ins, st2, n, n + 1, s, k, c) == Ok::<
        (K, int, Option<K::Controls>),
        ReplayError,
    >((s2, k2, c2)));
    assert(b.spec_run(None, n + 1) == Ok::<(K, int, Option<K::Controls>), ReplayError>((s2, k2, c2)));
    assert(drain::<K>(ins, st2, n + 1, k2, s2, c2) == Ok::<
        (K, int, Option<K::Controls>),
        ReplayError,
    >((s2, k2, c2)));
}

/// One operation of a battle's recording, as the live battle undergoes it.
pub enum BattleEvent<D, C> {
    /// Roster changes applied to the live battle and recorded.
    Roster { tick: u64, changes: Vec<D> },
    /// New controls put in force.
    Controls { tick: u64, controls: C },
    /// A side ordered to withdraw.
    Withdraw { tick: u64, side: u8 },
    /// The live battle stepped under the controls in force, and the step
    /// recorded.
    Step { tick: u64, round: usize },
}

/// The world tick of an event.
pub open spec fn event_tick<D, C>(e: BattleEvent<D, C>) -> u64 {
    match e {
        BattleEvent::Roster { tick, .. } => tick,
        BattleEvent::Controls { tick, .. } => tick,
        BattleEvent::Withdraw { tick, .. } => tick,
        BattleEvent::Step { tick, .. } => tick,
    }
}

/// The live battle after `events` from `s0`: its state and the controls in
/// force.
pub open spec fn live_after<K: TacticalKernel>(
    s0: K,
    events: Seq<BattleEvent<K::Delta, K::Controls>>,
) -> (K, Option<K::Controls>)
    decreases events.len(),
{
    if events.len() == 0 {
        (s0, None)
    } else {
        let (s, c) = live_after::<K>(s0, events.drop_last());
        match events.last() {
            BattleEvent::Roster { changes, .. } => (s.spec_apply_delta(changes), c),
            BattleEvent::Controls { controls, .. } => (s, Some(controls)),
            BattleEvent::Withdraw { side, .. } => (s.spec_withdraw(side), c),
            BattleEvent::Step { .. } => match c {
                Some(ctl) => (s.spec_step(ctl), c),
                None => (s, c),
            },
        }
    }
}

/// Whether a recording is well formed: ticks never go back, every roster
/// change records something and names one of the two sides, every
/// withdrawal names one of them, and no step comes before the first
/// controls.
pub open spec fn events_ok<K: TacticalKernel>(events: Seq<BattleEvent<K::Delta, K::Controls>>) -> bool {
    &&& forall|i: int, j: int|
        0 <= i <= j < events.len() ==> event_tick(#[trigger] events[i]) <= event_tick(#[trigger] events[j])
    &&& forall|i: int|
        0 <= i < events.len() ==> match #[trigger] events[i] {
            BattleEvent::Roster { changes, .. } => changes@.len() > 0 && deltas_valid::<K>(changes@),
            BattleEvent::Withdraw { side, .. } => side <= 1,
            BattleEvent::Step { .. } => exists|j: int| 0 <= j < i && (#[trigger] events[j]) is Controls,
            _ => true,
        }
}

/// Whether archive `b` is archive `a` with event `e` recorded, as the
/// recording operations leave it; `after` is the live state the event
/// leads to. (The step count fits a `usize`, as a vector's length does.)
pub open spec fn records<K: TacticalKernel>(
    a: BattleReplay<K>,
    b: BattleReplay<K>,
    e: BattleEvent<K::Delta, K::Controls>,
    after: K,
) -> bool {
    let at = a.spec_steps().len() as usize;
    &&& a.spec_steps().len() <= usize::MAX
    &&& b.same_battle(a)
    &&& match e {
        BattleEvent::Roster { tick, changes } => {
            &&& b.spec_inputs() == a.spec_inputs().push(
                TimedInput { tick, before_step: at, input: Input::Roster(changes) },
            )
            &&& b.spec_steps() == a.spec_steps()
            &&& b.spec_controls() == a.spec_controls()
        },
        BattleEvent::Controls { tick, controls } => {
            &&& b.spec_steps() == a.spec_steps()
            &&& b.spec_controls() == Some(controls)
            &&& {
                ||| (a.spec_controls() == Some(controls) && b.spec_inputs() == a.spec_inputs())
                ||| b.spec_inputs() == a.spec_inputs().push(
                    TimedInput { tick, before_step: at, input: Input::Controls(controls) },
                )
            }
        },
        BattleEvent::Withdraw { tick, side } => {
            &&& b.spec_inputs() == a.spec_inputs().push(
                TimedInput { tick, before_step: at, input: Input::Withdraw(side) },
            )
            &&& b.spec_steps() == a.spec_steps()
            &&& b.spec_controls() == a.spec_controls()
        },
        BattleEvent::Step { tick, round } => {
            &&& b.spec_steps() == a.spec_steps().push(Step { tick, round, checksum: after.spec_checksum() })
            &&& b.spec_inputs() == a.spec_inputs()
            &&& b.spec_controls() == a.spec_controls()
        },
    }
}

proof fn lemma_controls_in_force<K: TacticalKernel>(
    s0: K,
    events: Seq<BattleEvent<K::Delta, K::Controls>>,
    m: int,
    j: int,
)
    requires
        0 <= j < m <= events.len(),
        events[j] is Controls,
    ensures
        live_after::<K>(s0, events.take(m)).1 is Some,
    decreases m,
{
    assert(events.take(m).drop_last() =~= events.take(m - 1));
    assert(events.take(m).last() == events[m - 1]);
    if j < m - 1 {
        lemma_controls_in_force::<K>(s0, events, m - 1, j);
    }
}

proof fn lemma_same_replay<K: TacticalKernel>(a: BattleReplay<K>, b: BattleReplay<K>)
    requires
        b.same_battle(a),
        b.spec_inputs() == a.spec_inputs(),
        b.spec_steps() == a.spec_steps(),
    ensures
        b.spec_replay() == a.spec_replay(),
{
}

proof fn lemma_recording_prefix<K: TacticalKernel>(
    rs: Seq<BattleReplay<K>>,
    events: Seq<BattleEvent<K::Delta, K::Controls>>,
    n: int,
)
    requires
        rs.len() == events.len() + 1,
        0 <= n <= events.len(),
        version_supported(rs[0].spec_version()),
        rs[0].spec_version() == rs[0].spec_initial().spec_rules_version(),
        rs[0].spec_initial_checksum() == rs[0].spec_initial().spec_checksum(),
        rs[0].spec_inputs().len() == 0,
        rs[0].spec_steps().len() == 0,
        rs[0].spec_controls() is None,
        events_ok::<K>(events),
        forall|i: int|
            0 <= i < events.len() ==> records::<K>(
                rs[i],
                rs[i + 1],
                #[trigger] events[i],
                live_after::<K>(rs[0].spec_initial(), events.take(i + 1)).0,
            ),
    ensures
        rs[n].spec_replay() == Ok::<(K, Option<K::Controls>), ReplayError>(
            live_after::<K>(rs[0].spec_initial(), events.take(n)),
        ),
        rs[n].spec_controls() == live_after::<K>(rs[0].spec_initial(), events.take(n)).1,
        rs[n].same_battle(rs[0]),
        n == 0 ==> rs[n].spec_inputs().len() == 0,
        n > 0 ==> forall|k: int|
            0 <= k < rs[n].spec_inputs().len() ==> #[trigger] rs[n].spec_inputs()[k].tick <= event_tick(
                events[n - 1],
            ),
    decreases n,
{
    let s0 = rs[0].spec_initial();
    if n == 0 {
        assert(events.take(0) =~= Seq::<BattleEvent<K::Delta, K::Controls>>::empty());
        let r = rs[0];
        assert(r.spec_run(None, 0) == Ok::<(K, int, Option<K::Controls>), ReplayError>((s0, 0, None)));
        assert(drain::<K>(r.spec_inputs(), r.spec_steps(), 0, 0, s0, None) == Ok::<
            (K, int, Option<K::Controls>),
            ReplayError,
        >((s0, 0, None)));
    } else {
        lemma_recording_prefix::<K>(rs, events, n - 1);
        let a = rs[n - 1];
        let b = rs[n];
        let e = events[n - 1];
        assert(records::<K>(a, b, e, live_after::<K>(s0, events.take(n)).0));
        assert(events.take(n).drop_last() =~= events.take(n - 1));
        assert(events.take(n).last() == e);
        let (live, ctl) = live_after::<K>(s0, events.take(n - 1));
        let at = a.spec_steps().len() as usize;
        if n > 1 {
            assert(event_tick(events[n - 2]) <= event_tick(e));
        }
        match e {
            BattleEvent::Roster { tick, changes } => {
                an_input_keeps_the_replay_live::<K>(
                    a,
                    b,
                    TimedInput { tick, before_step: at, input: Input::Roster(changes) },
                );
            },
            BattleEvent::Controls { tick, controls } => {
                if b.spec_inputs() == a.spec_inputs().push(
                    TimedInput { tick, before_step: at, input: Input::Controls(controls) },
                ) {
                    an_input_keeps_the_replay_live::<K>(
                        a,
                        b,
                        TimedInput { tick, before_step: at, input: Input::Controls(controls) },
                    );
                } else {
                    lemma_same_replay::<K>(a, b);
                }
            },
            BattleEvent::Withdraw { tick, side } => {
                an_input_keeps_the_replay_live::<K>(
                    a,
                    b,
                    TimedInput { tick, before_step: at, input: Input::Withdraw(side) },
                );
            },
            BattleEvent::Step { tick, round } => {
                let j = choose|j: int| 0 <= j < n - 1 && (#[trigger] events[j]) is Controls;
                lemma_controls_in_force::<K>(s0, events, n - 1, j);
                let c = ctl->Some_0;
                a_step_keeps_the_replay_live::<K>(
                    a,
                    b,
                    Step { tick, round, checksum: live.spec_step(c).spec_checksum() },
                    c,
                );
            },
        }
    }
}

/// Reconstructing a whole recording gives the live battle: when an archive
/// opened on a battle of a supported version has each operation of a
/// well-formed recording recorded in turn, as the recording operations do
/// (with controls compared exactly), the last archive reconstructs to the
/// state the live battle reached through the same operations.
pub proof fn a_whole_recording_replays_the_live_battle<K: TacticalKernel>(
    rs: Seq<BattleReplay<K>>,
    events: Seq<BattleEvent<K::Delta, K::Controls>>,
)
    requires
        rs.len() == events.len() + 1,
        version_supported(rs[0].spec_version()),
        rs[0].spec_version() == rs[0].spec_initial().spec_rules_version(),
        rs[0].spec_initial_checksum() == rs[0].spec_initial().spec_checksum(),
        rs[0].spec_inputs().len() == 0,
        rs[0].spec_steps().len() == 0,
        rs[0].spec_controls() is None,
        events_ok::<K>(events),
        forall|i: int|
            0 <= i < events.len() ==> records::<K>(
                rs[i],
                rs[i + 1],
                #[trigger] events[i],
                live_after::<K>(rs[0].spec_initial(), events.take(i + 1)).0,
            ),
    ensures
        rs.last().spec_reconstruct() == Ok::<K, ReplayError>(live_after::<K>(rs[0].spec_initial(), events).0),
{
    lemma_recording_prefix::<K>(rs, events, events.len() as int);
    assert(events.take(events.len() as int) =~= events);
}

} // verus!
