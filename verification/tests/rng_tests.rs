use sim::rng::Rng;
use sim::tactical::rules_v1;

#[test]
fn deterministic_from_seed() {
    let mut a = Rng::new(42);
    let mut b = Rng::new(42);
    for _ in 0..1000 {
        assert_eq!(a.next_u64(), b.next_u64());
    }
}

#[test]
fn different_seeds_diverge() {
    let mut a = Rng::new(1);
    let mut b = Rng::new(2);
    assert_ne!(a.next_u64(), b.next_u64());
}

#[test]
fn keyed_streams_are_deterministic_and_distinct() {
    assert_eq!(Rng::keyed(7, "pirates").next_u64(), Rng::keyed(7, "pirates").next_u64());
    assert_ne!(Rng::keyed(7, "pirates").next_u64(), Rng::keyed(7, "traits").next_u64());
    assert_ne!(Rng::keyed(7, "a").next_u64(), Rng::new(7).next_u64());
    assert_ne!(Rng::keyed_id(7, "join", 1).next_u64(), Rng::keyed_id(7, "join", 2).next_u64());
    assert_eq!(Rng::keyed_id(7, "join", 1).next_u64(), Rng::keyed_id(7, "join", 1).next_u64());
}

#[test]
fn splitmix_stream_has_its_published_values() {
    assert_eq!(Rng::new(0).next_u64(), 7960286522194355700);
    let mut r = Rng::new(42);
    assert_eq!(r.next_u64(), 2949826092126892291);
    assert_eq!(r.next_u64(), 5139283748462763858);
    assert_eq!(Rng::keyed(7, "pirates").next_u64(), 12804452093562707112);
    assert_eq!(Rng::keyed_id(7, "join", 1).next_u64(), 6258856548150169677);
}

#[test]
fn a_fork_is_seeded_from_the_parents_next_draw() {
    let mut parent = Rng::new(42);
    let mut child = parent.fork();
    assert_eq!(child.next_u64(), Rng::new(2949826092126892291).next_u64());
    assert_eq!(parent.next_u64(), 5139283748462763858);
}

#[test]
fn frozen_battle_stream_matches_the_live_stream() {
    for seed in [0, 1, 123, u64::MAX] {
        let mut frozen = rules_v1::Rng::new(seed);
        let mut live = Rng::new(seed);
        for _ in 0..100 {
            assert_eq!(frozen.next_u64(), live.next_u64());
        }
    }
    assert_eq!(rules_v1::Rng::new(5).state_bits(), 5 ^ 0x9E37_79B9_7F4A_7C15);
}

#[test]
fn the_kth_draw_has_its_closed_form_and_first_draws_differ_by_seed() {
    const G: u64 = 0x9E37_79B9_7F4A_7C15;
    fn mix(z: u64) -> u64 {
        let z = (z ^ (z >> 30)).wrapping_mul(0xBF58_476D_1CE4_E5B9);
        let z = (z ^ (z >> 27)).wrapping_mul(0x94D0_49BB_1331_11EB);
        z ^ (z >> 31)
    }
    for seed in [0u64, 1, 42, u64::MAX] {
        let mut r = Rng::new(seed);
        for k in 0..50u64 {
            assert_eq!(r.next_u64(), mix((seed ^ G).wrapping_add((k + 1).wrapping_mul(G))));
        }
    }
    let firsts: Vec<u64> = (0..200u64).map(|s| Rng::new(s).next_u64()).collect();
    for i in 0..firsts.len() {
        for j in 0..i {
            assert_ne!(firsts[i], firsts[j]);
        }
    }
}
