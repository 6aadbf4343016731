//! Deterministic, dependency-free pseudo-random number generator (SplitMix64).
//!
//! A given seed produces the same stream on every machine. Keyed streams
//! (`keyed`, `keyed_id`) isolate subsystems from one another: the stream for a
//! tag depends only on the seed and the tag's bytes.

use vstd::prelude::*;
use vstd::string::StringSliceAdditionalSpecFns;

verus! {

/// The SplitMix64 increment (the golden-ratio constant).
pub const GAMMA: u64 = 0x9E37_79B9_7F4A_7C15;
/// FNV-1a 64-bit offset basis.
pub const FNV64_OFFSET: u64 = 0xCBF2_9CE4_8422_2325;
/// FNV-1a 64-bit prime.
pub const FNV64_PRIME: u64 = 0x0000_0100_0000_01B3;

/// The SplitMix64 output mix of an advanced state.
pub open spec fn mix(z: u64) -> u64 {
    let z1 = vstd::wrapping::u64_specs::wrapping_mul(z ^ (z >> 30u64), 0xBF58_476D_1CE4_E5B9u64);
    let z2 = vstd::wrapping::u64_specs::wrapping_mul(z1 ^ (z1 >> 27u64), 0x94D0_49BB_1331_11EBu64);
    z2 ^ (z2 >> 31u64)
}

/// The state after one draw.
pub open spec fn advance(state: u64) -> u64 {
    vstd::wrapping::u64_specs::wrapping_add(state, GAMMA)
}

/// The value one draw returns from `state`.
pub open spec fn draw(state: u64) -> u64 {
    mix(advance(state))
}

/// The initial state a seed gives.
pub open spec fn seeded(seed: u64) -> u64 {
    seed ^ GAMMA
}

/// The first `n` values the stream starting at `state` yields.
pub open spec fn stream(state: u64, n: nat) -> Seq<u64>
    decreases n,
{
    if n == 0 {
        Seq::empty()
    } else {
        seq![draw(state)] + stream(advance(state), (n - 1) as nat)
    }
}

/// Each draw is the head of the stream from the current state, and the state
/// it leaves behind starts the rest of that stream: a generator's first `n`
/// draws are exactly `stream(state, n)`.
pub proof fn next_draw_heads_the_stream(state: u64, n: nat)
    ensures
        stream(state, n + 1)[0] == draw(state),
        stream(state, n + 1).drop_first() == stream(advance(state), n),
        stream(state, n + 1).len() == n + 1,
    decreases n,
{
    lemma_stream_len(advance(state), n);
    assert(stream(state, n + 1).drop_first() =~= stream(advance(state), n));
}

proof fn lemma_stream_len(state: u64, n: nat)
    ensures
        stream(state, n).len() == n,
    decreases n,
{
    if n > 0 {
        lemma_stream_len(advance(state), (n - 1) as nat);
    }
}

/// The stream is a function of the seed alone: equal seeds give equal
/// streams, on every machine.
pub proof fn streams_are_determined_by_their_seed(a: u64, b: u64, n: nat)
    requires
        a == b,
    ensures
        stream(seeded(a), n) == stream(seeded(b), n),
{
}

/// The `k`-th draw (counting from zero) of the stream from `state` is the
/// mix of the state advanced `k + 1` times by the increment:
/// `mix((state + (k + 1) · GAMMA) mod 2^64)`.
pub proof fn the_kth_draw_has_a_closed_form(state: u64, n: nat, k: nat)
    requires
        k < n,
    ensures
        stream(state, n)[k as int] == mix(
            ((state + (k + 1) * GAMMA) % 0x1_0000_0000_0000_0000int) as u64,
        ),
    decreases k,
{
    let m: int = 0x1_0000_0000_0000_0000int;
    let x: int = state + GAMMA;
    if x > u64::MAX {
        vstd::arithmetic::div_mod::lemma_mod_multiples_vanish(1, x - m, m);
        vstd::arithmetic::div_mod::lemma_small_mod((x - m) as nat, m as nat);
    } else {
        vstd::arithmetic::div_mod::lemma_small_mod(x as nat, m as nat);
    }
    assert(advance(state) as int == x % m);
    next_draw_heads_the_stream(state, (n - 1) as nat);
    if k == 0 {
        assert(stream(state, n)[0] == draw(state));
    } else {
        let kk = (k - 1) as nat;
        assert(stream(state, n)[k as int] == stream(state, n).drop_first()[kk as int]);
        the_kth_draw_has_a_closed_form(advance(state), (n - 1) as nat, kk);
        let y: int = kk * GAMMA + GAMMA;
        assert(y == k * GAMMA) by (nonlinear_arith)
            requires
                y == kk * GAMMA + GAMMA,
                kk == k - 1,
        ;
        vstd::arithmetic::div_mod::lemma_add_mod_noop(x, y, m);
        vstd::arithmetic::div_mod::lemma_add_mod_noop(x % m, y, m);
        vstd::arithmetic::div_mod::lemma_mod_twice(x, m);
        assert(x + y == state + (k + 1) * GAMMA) by (nonlinear_arith)
            requires
                x == state + GAMMA,
                y == k * GAMMA,
        ;
    }
}

/// The state after `k` draws from `state`.
pub open spec fn advanced(state: u64, k: nat) -> u64
    decreases k,
{
    if k == 0 {
        state
    } else {
        advance(advanced(state, (k - 1) as nat))
    }
}

proof fn lemma_wrapping_add_mod(x: u64, y: u64)
    ensures
        vstd::wrapping::u64_specs::wrapping_add(x, y) as int == (x + y) % 0x1_0000_0000_0000_0000int,
{
    let m: int = 0x1_0000_0000_0000_0000int;
    let z: int = x + y;
    if z > u64::MAX {
        vstd::arithmetic::div_mod::lemma_mod_multiples_vanish(1, z - m, m);
        vstd::arithmetic::div_mod::lemma_small_mod((z - m) as nat, m as nat);
    } else {
        vstd::arithmetic::div_mod::lemma_small_mod(z as nat, m as nat);
    }
}

proof fn lemma_advanced(state: u64, k: nat)
    ensures
        advanced(state, k) as int == (state + k * GAMMA) % 0x1_0000_0000_0000_0000int,
    decreases k,
{
    let m: int = 0x1_0000_0000_0000_0000int;
    if k == 0 {
        vstd::arithmetic::div_mod::lemma_small_mod(state as nat, m as nat);
    } else {
        let j = (k - 1) as nat;
        lemma_advanced(state, j);
        let x = advanced(state, j);
        lemma_wrapping_add_mod(x, GAMMA);
        let w: int = state + j * GAMMA;
        vstd::arithmetic::div_mod::lemma_add_mod_noop(w, GAMMA as int, m);
        vstd::arithmetic::div_mod::lemma_add_mod_noop(w % m, GAMMA as int, m);
        vstd::arithmetic::div_mod::lemma_mod_twice(w, m);
        assert(w + GAMMA == state + k * GAMMA) by (nonlinear_arith)
            requires
                w == state + j * GAMMA,
                j == k - 1,
        ;
    }
}

/// A generator's draw after `k` earlier draws, in closed form with 64-bit
/// wrapping arithmetic: from state `s` it is
/// `mix(s.wrapping_add((k + 1).wrapping_mul(GAMMA)))`, and the state it
/// has then reached is `s.wrapping_add(k.wrapping_mul(GAMMA))`. Equal states
/// yield equal streams.
pub proof fn the_draw_after_k_calls_has_a_closed_form(state: u64, k: u64)
    ensures
        advanced(state, k as nat) == vstd::wrapping::u64_specs::wrapping_add(
            state,
            vstd::wrapping::u64_specs::wrapping_mul(k, GAMMA),
        ),
        draw(advanced(state, k as nat)) == mix(
            vstd::wrapping::u64_specs::wrapping_add(
                state,
                vstd::wrapping::u64_specs::wrapping_mul(vstd::wrapping::u64_specs::wrapping_add(k, 1), GAMMA),
            ),
        ),
{
    let m: int = 0x1_0000_0000_0000_0000int;
    lemma_advanced(state, k as nat);
    lemma_advanced(state, (k + 1) as nat);
    assert(advanced(state, (k + 1) as nat) == advance(advanced(state, k as nat)));
    let k1 = vstd::wrapping::u64_specs::wrapping_add(k, 1);
    lemma_wrapping_add_mod(k, 1);
    let z0 = vstd::wrapping::u64_specs::wrapping_mul(k, GAMMA);
    let z1 = vstd::wrapping::u64_specs::wrapping_mul(k1, GAMMA);
    lemma_wrapping_add_mod(state, z0);
    lemma_wrapping_add_mod(state, z1);
    vstd::arithmetic::div_mod::lemma_small_mod(state as nat, m as nat);
    vstd::arithmetic::div_mod::lemma_small_mod(k as nat, m as nat);
    vstd::arithmetic::div_mod::lemma_add_mod_noop(state as int, (k as int) * GAMMA, m);
    vstd::arithmetic::div_mod::lemma_mod_twice((k as int) * GAMMA, m);
    vstd::arithmetic::div_mod::lemma_mul_mod_noop_left(k + 1, GAMMA as int, m);
    vstd::arithmetic::div_mod::lemma_add_mod_noop(state as int, (k + 1) * GAMMA, m);
    vstd::arithmetic::div_mod::lemma_mod_twice((k + 1) * GAMMA, m);
}

/// `mix` is one-to-one: each of its steps can be undone.
proof fn lemma_mix_injective(a: u64, b: u64)
    requires
        mix(a) == mix(b),
    ensures
        a == b,
{
    let a1 = vstd::wrapping::u64_specs::wrapping_mul(a ^ (a >> 30u64), 0xBF58_476D_1CE4_E5B9u64);
    let b1 = vstd::wrapping::u64_specs::wrapping_mul(b ^ (b >> 30u64), 0xBF58_476D_1CE4_E5B9u64);
    let a2 = vstd::wrapping::u64_specs::wrapping_mul(a1 ^ (a1 >> 27u64), 0x94D0_49BB_1331_11EBu64);
    let b2 = vstd::wrapping::u64_specs::wrapping_mul(b1 ^ (b1 >> 27u64), 0x94D0_49BB_1331_11EBu64);
    assert(a2 ^ (a2 >> 31u64) == b2 ^ (b2 >> 31u64) ==> a2 == b2) by (bit_vector);
    lemma_odd_mul_injective(a1 ^ (a1 >> 27u64), b1 ^ (b1 >> 27u64), 0x94D0_49BB_1331_11EBu64, 0x3196_42b2_d24d_8ec3u64, 2077064247507883091);
    assert(a1 ^ (a1 >> 27u64) == b1 ^ (b1 >> 27u64) ==> a1 == b1) by (bit_vector);
    lemma_odd_mul_injective(a ^ (a >> 30u64), b ^ (b >> 30u64), 0xBF58_476D_1CE4_E5B9u64, 0x96de_1b17_3f11_9089u64, 8125545580553827436);
    assert(a ^ (a >> 30u64) == b ^ (b >> 30u64) ==> a == b) by (bit_vector);
}

/// Wrapping multiplication by a factor with an inverse modulo 2^64 is
/// one-to-one.
pub(crate) proof fn lemma_odd_mul_injective(a: u64, b: u64, c: u64, inv: u64, q: int)
    requires
        vstd::wrapping::u64_specs::wrapping_mul(a, c) == vstd::wrapping::u64_specs::wrapping_mul(b, c),
        (c as int) * (inv as int) == 1 + q * 0x1_0000_0000_0000_0000int,
        q >= 0,
    ensures
        a == b,
{
    let m: int = 0x1_0000_0000_0000_0000int;
    assert forall|x: u64| #[trigger] vstd::wrapping::u64_specs::wrapping_mul(
        vstd::wrapping::u64_specs::wrapping_mul(x, c),
        inv,
    ) == x by {
        let p: int = (x as int) * (c as int);
        vstd::arithmetic::div_mod::lemma_mul_mod_noop_left(p, inv as int, m);
        assert(p * inv == m * ((x as int) * q) + x) by (nonlinear_arith)
            requires
                p == (x as int) * (c as int),
                (c as int) * (inv as int) == 1 + q * m,
        ;
        vstd::arithmetic::div_mod::lemma_mod_multiples_vanish((x as int) * q, x as int, m);
        vstd::arithmetic::div_mod::lemma_small_mod(x as nat, m as nat);
        assert(0 <= p % m < m) by {
            vstd::arithmetic::div_mod::lemma_mod_bound(p, m);
        }
        assert(0 <= p * inv) by (nonlinear_arith)
            requires
                p == (x as int) * (c as int),
                x >= 0,
                c >= 0,
                inv >= 0,
        ;
    }
    assert(vstd::wrapping::u64_specs::wrapping_mul(vstd::wrapping::u64_specs::wrapping_mul(a, c), inv) == a);
    assert(vstd::wrapping::u64_specs::wrapping_mul(vstd::wrapping::u64_specs::wrapping_mul(b, c), inv) == b);
}

/// Distinct seeds diverge at once: the first draw is a one-to-one function
/// of the seed, so two generators agree on it exactly when their seeds do.
pub proof fn distinct_seeds_diverge_at_once(s: u64, t: u64)
    ensures
        draw(seeded(s)) == draw(seeded(t)) <==> s == t,
{
    if draw(seeded(s)) == draw(seeded(t)) {
        lemma_mix_injective(advance(seeded(s)), advance(seeded(t)));
        let a = seeded(s);
        let b = seeded(t);
        assert(a == b);
        assert(s ^ 0x9E37_79B9_7F4A_7C15u64 == t ^ 0x9E37_79B9_7F4A_7C15u64 ==> s == t) by (bit_vector);
    }
}

/// FNV-1a (64-bit) of a byte sequence, folded from the left.
pub open spec fn fnv64(bytes: Seq<u8>) -> u64
    decreases bytes.len(),
{
    if bytes.len() == 0 {
        FNV64_OFFSET
    } else {
        fnv64_step(fnv64(bytes.drop_last()), bytes.last())
    }
}

/// One FNV-1a round.
pub open spec fn fnv64_step(h: u64, b: u8) -> u64 {
    vstd::wrapping::u64_specs::wrapping_mul(h ^ (b as u64), FNV64_PRIME)
}

/// The state of the keyed stream for `seed` and a tag's bytes.
pub open spec fn keyed_state(seed: u64, tag: Seq<u8>) -> u64 {
    seeded(seed ^ fnv64(tag))
}

/// The state of the per-id keyed stream.
pub open spec fn keyed_id_state(seed: u64, tag: Seq<u8>, id: u64) -> u64 {
    seeded(draw(keyed_state(seed, tag)) ^ vstd::wrapping::u64_specs::wrapping_mul(id, GAMMA))
}

/// A reproducible SplitMix64 generator; its view is the raw 64-bit state.
#[derive(Debug, Clone, Copy)]
pub struct Rng {
    state: u64,
}

impl View for Rng {
    type V = u64;

    closed spec fn view(&self) -> u64 {
        self.state
    }
}

impl Rng {
    /// A stream per purpose: derived from the seed and the tag's bytes with
    /// FNV-1a, so one subsystem's draws never perturb another's.
    pub fn keyed(seed: u64, tag: &str) -> (r: Self)
        ensures
            r@ == keyed_state(seed, tag.spec_bytes()),
    {
        let bytes = tag.as_bytes();
        let mut h: u64 = FNV64_OFFSET;
        let mut i: usize = 0;
        while i < bytes.len()
            invariant
                i <= bytes@.len(),
                bytes@ == tag.spec_bytes(),
                h == fnv64(bytes@.take(i as int)),
            decreases bytes@.len() - i,
        {
            let b = bytes[i];
            proof {
                assert(bytes@.take(i as int + 1).drop_last() =~= bytes@.take(i as int));
            }
            h = (h ^ (b as u64)).wrapping_mul(FNV64_PRIME);
            i = i + 1;
        }
        proof {
            assert(bytes@.take(i as int) =~= bytes@);
        }
        Rng::new(seed ^ h)
    }

    /// A keyed stream further split by an id: per-entity outcomes depend on
    /// the entity alone, never on arrival order.
    pub fn keyed_id(seed: u64, tag: &str, id: u64) -> (r: Self)
        ensures
            r@ == keyed_id_state(seed, tag.spec_bytes(), id),
    {
        let mut r = Rng::keyed(seed, tag);
        let first = r.next_u64();
        Rng::new(first ^ id.wrapping_mul(GAMMA))
    }

    /// A generator seeded with `seed` (xored with the golden-ratio constant so
    /// a zero seed does not start in the all-zero state).
    pub fn new(seed: u64) -> (r: Self)
        ensures
            r@ == seeded(seed),
    {
        Rng { state: seed ^ GAMMA }
    }

    /// The next raw 64-bit value (SplitMix64).
    pub fn next_u64(&mut self) -> (v: u64)
        ensures
            final(self)@ == advance(old(self)@),
            v == draw(old(self)@),
    {
        self.state = self.state.wrapping_add(GAMMA);
        let z0 = self.state;
        let z1 = (z0 ^ (z0 >> 30)).wrapping_mul(0xBF58_476D_1CE4_E5B9);
        let z2 = (z1 ^ (z1 >> 27)).wrapping_mul(0x94D0_49BB_1331_11EB);
        z2 ^ (z2 >> 31)
    }

    /// An independent child stream seeded from this one's next value
    /// (advances `self` by one draw).
    pub fn fork(&mut self) -> (child: Rng)
        ensures
            final(self)@ == advance(old(self)@),
            child@ == seeded(draw(old(self)@)),
    {
        let v = self.next_u64();
        Rng::new(v)
    }
}

} // verus!
