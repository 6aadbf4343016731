//! A formation's roster: the individual hulls it carries. The roster is the
//! truth — per-kind counts, the fitted/unfitted partition and the flagship are
//! all read from it, so they can never drift from the hulls.
//!
//! Ship ids are fleet-local and allocated from a monotonic counter; the
//! roster is kept in id order. A hull keeps its fit and its damage when it
//! moves between formations; the new owner re-issues its id.

use vstd::prelude::*;

use crate::module::Loadout;
use crate::ship::{
    spec_broadcasts, spec_from_count, spec_is_combatant, spec_marine_capacity, CountClass,
    ShipKind, CARGO_UNITS_PER_CONVOY, FLAGSHIP_PRECEDENCE,
};

verus! {

/// The bit pattern of a hull's full health (its hull mass, as an IEEE-754
/// double).
pub open spec fn full_hp_bits(kind: ShipKind) -> u64 {
    match kind {
        ShipKind::Convoy => 0x40b1_9400_0000_0000,
        ShipKind::Builder => 0x40a3_8800_0000_0000,
        ShipKind::Raider => 0x4069_0000_0000_0000,
        ShipKind::Corvette => 0x4089_0000_0000_0000,
        ShipKind::Colony => 0x40b7_7000_0000_0000,
        ShipKind::Scout => 0x4054_0000_0000_0000,
        ShipKind::Destroyer => 0x409f_4000_0000_0000,
        ShipKind::Cruiser => 0x40af_4000_0000_0000,
        ShipKind::Battleship => 0x40bf_4000_0000_0000,
        ShipKind::Dreadnought => 0x40cf_4000_0000_0000,
        ShipKind::Titan => 0x40df_4000_0000_0000,
        ShipKind::Transport => 0x40bb_5800_0000_0000,
        ShipKind::Freighter => 0x40b7_7000_0000_0000,
    }
}

/// One hull: its fleet-local id, kind, fit, and remaining hull points (the
/// raw bit pattern of an IEEE-754 double; full health is the hull mass).
#[derive(Debug, PartialEq)]
pub struct Ship {
    pub id: u32,
    pub kind: ShipKind,
    pub loadout: Loadout,
    pub hp: u64,
}

/// Whether a hull carries any module.
pub open spec fn is_fitted(s: Ship) -> bool {
    s.loadout@.len() > 0
}

impl Ship {
    /// A fresh, undamaged hull.
    pub fn new(id: u32, kind: ShipKind, loadout: Loadout) -> (s: Self)
        ensures
            s.id == id,
            s.kind == kind,
            s.loadout@ == loadout@,
            s.hp == full_hp_bits(kind),
    {
        let hp: u64 = match kind {
            ShipKind::Convoy => 0x40b1_9400_0000_0000,
            ShipKind::Builder => 0x40a3_8800_0000_0000,
            ShipKind::Raider => 0x4069_0000_0000_0000,
            ShipKind::Corvette => 0x4089_0000_0000_0000,
            ShipKind::Colony => 0x40b7_7000_0000_0000,
            ShipKind::Scout => 0x4054_0000_0000_0000,
            ShipKind::Destroyer => 0x409f_4000_0000_0000,
            ShipKind::Cruiser => 0x40af_4000_0000_0000,
            ShipKind::Battleship => 0x40bf_4000_0000_0000,
            ShipKind::Dreadnought => 0x40cf_4000_0000_0000,
            ShipKind::Titan => 0x40df_4000_0000_0000,
            ShipKind::Transport => 0x40bb_5800_0000_0000,
            ShipKind::Freighter => 0x40b7_7000_0000_0000,
        };
        Ship { id, kind, loadout, hp }
    }

    /// The stack key this hull belongs to: its loadout's wire key.
    pub fn stack_key(&self) -> (s: String)
        ensures
            s@ == crate::module::key_text(self.loadout@),
    {
        self.loadout.key()
    }
}

/// Hulls of `kind` among `ships`.
pub open spec fn count_kind(ships: Seq<Ship>, kind: ShipKind) -> nat
    decreases ships.len(),
{
    if ships.len() == 0 {
        0
    } else {
        count_kind(ships.drop_last(), kind) + if ships.last().kind == kind {
            1nat
        } else {
            0nat
        }
    }
}

/// Hulls of `kind` among `ships` whose fitted-ness is `fitted`.
pub open spec fn count_fit(ships: Seq<Ship>, kind: ShipKind, fitted: bool) -> nat
    decreases ships.len(),
{
    if ships.len() == 0 {
        0
    } else {
        count_fit(ships.drop_last(), kind, fitted) + if ships.last().kind == kind && is_fitted(
            ships.last(),
        ) == fitted {
            1nat
        } else {
            0nat
        }
    }
}

/// Whether a selection of `n` hulls of `kind`, taking those whose
/// fitted-ness is `first` before the others and each group in roster order,
/// picks the hull at index `i`.
pub open spec fn picks(ships: Seq<Ship>, kind: ShipKind, n: nat, first: bool, i: int) -> bool {
    let s = ships[i];
    &&& s.kind == kind
    &&& if is_fitted(s) == first {
        count_fit(ships.take(i), kind, first) < n
    } else {
        count_fit(ships, kind, first) + count_fit(ships.take(i), kind, !first) < n
    }
}

/// The hulls among the first `m` that the selection picks (`keep` false) or
/// leaves (`keep` true), in roster order.
pub open spec fn split_prefix(
    ships: Seq<Ship>,
    kind: ShipKind,
    n: nat,
    first: bool,
    keep: bool,
    m: int,
) -> Seq<Ship>
    decreases m,
{
    if m <= 0 {
        Seq::empty()
    } else {
        let prev = split_prefix(ships, kind, n, first, keep, m - 1);
        if picks(ships, kind, n, first, m - 1) != keep {
            prev.push(ships[m - 1])
        } else {
            prev
        }
    }
}

/// The hulls the selection picks, in roster order.
pub open spec fn picked(ships: Seq<Ship>, kind: ShipKind, n: nat, first: bool) -> Seq<Ship> {
    split_prefix(ships, kind, n, first, false, ships.len() as int)
}

/// The hulls the selection leaves, in roster order.
pub open spec fn left(ships: Seq<Ship>, kind: ShipKind, n: nat, first: bool) -> Seq<Ship> {
    split_prefix(ships, kind, n, first, true, ships.len() as int)
}

/// The hulls among the first `m` whose positions are listed in `sel`
/// (`keep` false) or not listed (`keep` true), in roster order.
pub open spec fn select_prefix(ships: Seq<Ship>, sel: Seq<usize>, keep: bool, m: int) -> Seq<Ship>
    decreases m,
{
    if m <= 0 {
        Seq::empty()
    } else {
        let prev = select_prefix(ships, sel, keep, m - 1);
        if sel.contains((m - 1) as usize) != keep {
            prev.push(ships[m - 1])
        } else {
            prev
        }
    }
}

/// `incoming` with ids re-issued from `start` upward.
pub open spec fn reissued(incoming: Seq<Ship>, start: int) -> Seq<Ship> {
    Seq::new(
        incoming.len(),
        |i: int| Ship { id: (start + i) as u32, ..incoming[i] },
    )
}

/// Marines the hulls carry in all.
pub open spec fn marine_total(ships: Seq<Ship>) -> nat
    decreases ships.len(),
{
    if ships.len() == 0 {
        0
    } else {
        marine_total(ships.drop_last()) + (spec_marine_capacity(ships.last().kind) as nat)
    }
}

/// Whether any hull satisfies `p` of its kind.
pub open spec fn any_kind(ships: Seq<Ship>, p: spec_fn(ShipKind) -> bool) -> bool {
    exists|i: int| 0 <= i < ships.len() && p(#[trigger] ships[i].kind)
}

/// The first kind in flagship precedence the roster holds (a scout if none).
pub open spec fn flagship_from(ships: Seq<Ship>, j: int) -> ShipKind
    decreases 13 - j,
{
    if j < 0 || j >= 13 {
        ShipKind::Scout
    } else if count_kind(ships, FLAGSHIP_PRECEDENCE@[j]) > 0 {
        FLAGSHIP_PRECEDENCE@[j]
    } else {
        flagship_from(ships, j + 1)
    }
}

proof fn lemma_take_last<T>(s: Seq<T>, i: int)
    requires
        0 <= i < s.len(),
    ensures
        s.take(i + 1).drop_last() == s.take(i),
        s.take(i + 1).last() == s[i],
{
    assert(s.take(i + 1).drop_last() =~= s.take(i));
}

/// Ids strictly increasing, all below `bound`, bound the length.
proof fn lemma_ids_bound_len(ships: Seq<Ship>, bound: u32)
    requires
        forall|i: int, j: int| 0 <= i < j < ships.len() ==> ships[i].id < ships[j].id,
        forall|i: int| 0 <= i < ships.len() ==> ships[i].id < bound,
    ensures
        ships.len() <= bound,
    decreases ships.len(),
{
    if ships.len() > 0 {
        let last = ships.last();
        let init = ships.drop_last();
        assert forall|i: int| 0 <= i < init.len() implies init[i].id < last.id by {
            assert(ships[i].id < ships[ships.len() - 1].id);
        }
        lemma_ids_bound_len(init, last.id);
    }
}

proof fn lemma_count_kind_le(ships: Seq<Ship>, kind: ShipKind)
    ensures
        count_kind(ships, kind) <= ships.len(),
        count_fit(ships, kind, true) + count_fit(ships, kind, false) == count_kind(ships, kind),
    decreases ships.len(),
{
    if ships.len() > 0 {
        lemma_count_kind_le(ships.drop_last(), kind);
    }
}

/// A formation's hulls, kept in strictly increasing id order, every id below
/// the next one the formation will issue.
pub struct Roster {
    ships: Vec<Ship>,
    next_ship_id: u32,
    marines_spent: u32,
}

impl View for Roster {
    type V = Seq<Ship>;

    closed spec fn view(&self) -> Seq<Ship> {
        self.ships@
    }
}

/// Whether hulls are in strictly increasing id order, all ids below `next`.
pub open spec fn ids_ordered(ships: Seq<Ship>, next: u32) -> bool {
    &&& forall|i: int, j: int| 0 <= i < j < ships.len() ==> ships[i].id < ships[j].id
    &&& forall|i: int| 0 <= i < ships.len() ==> ships[i].id < next
}

impl Roster {
    #[verifier::type_invariant]
    spec fn well_ordered(&self) -> bool {
        ids_ordered(self.ships@, self.next_ship_id)
    }

    /// The next ship id this roster will issue.
    pub closed spec fn next_id(&self) -> u32 {
        self.next_ship_id
    }

    /// Marines already put on the ground.
    pub closed spec fn spent(&self) -> u32 {
        self.marines_spent
    }

    /// A formation of one fresh, unfitted hull (id 0).
    pub fn single(kind: ShipKind) -> (r: Self)
        ensures
            r@.len() == 1,
            r@[0].id == 0,
            r@[0].kind == kind,
            r@[0].loadout@.len() == 0,
            r@[0].hp == full_hp_bits(kind),
            r.next_id() == 1,
            r.spent() == 0,
    {
        let mut ships: Vec<Ship> = Vec::new();
        ships.push(Ship::new(0, kind, Loadout::unfitted()));
        Roster { ships, next_ship_id: 1, marines_spent: 0 }
    }

    /// How many hulls of `kind` ride in this formation.
    pub fn count(&self, kind: ShipKind) -> (n: u32)
        ensures
            n == count_kind(self@, kind),
    {
        proof {
            use_type_invariant(self);
            lemma_ids_bound_len(self.ships@, self.next_ship_id);
            lemma_count_kind_le(self.ships@, kind);
        }
        let mut n: u32 = 0;
        let mut i: usize = 0;
        while i < self.ships.len()
            invariant
                i <= self.ships@.len() <= u32::MAX,
                n == count_kind(self.ships@.take(i as int), kind),
                n <= i,
            decreases self.ships@.len() - i,
        {
            proof {
                lemma_take_last(self.ships@, i as int);
            }
            if self.ships[i].kind == kind {
                n = n + 1;
            }
            i = i + 1;
        }
        proof {
            assert(self.ships@.take(i as int) =~= self.ships@);
        }
        n
    }

    /// Fitted hulls of `kind`; the rest of that kind are unfitted.
    pub fn fitted_count(&self, kind: ShipKind) -> (n: u32)
        ensures
            n == count_fit(self@, kind, true),
    {
        proof {
            use_type_invariant(self);
            lemma_ids_bound_len(self.ships@, self.next_ship_id);
        }
        let n = self.count_fitness(kind, true);
        n as u32
    }

    fn count_fitness(&self, kind: ShipKind, fitted: bool) -> (n: usize)
        ensures
            n == count_fit(self.ships@, kind, fitted),
            n <= self.ships@.len(),
    {
        let mut n: usize = 0;
        let mut i: usize = 0;
        while i < self.ships.len()
            invariant
                i <= self.ships@.len(),
                n == count_fit(self.ships@.take(i as int), kind, fitted),
                n <= i,
            decreases self.ships@.len() - i,
        {
            proof {
                lemma_take_last(self.ships@, i as int);
            }
            let s = &self.ships[i];
            if s.kind == kind && (!s.loadout.is_empty()) == fitted {
                n = n + 1;
            }
            i = i + 1;
        }
        proof {
            assert(self.ships@.take(i as int) =~= self.ships@);
        }
        n
    }

    /// Remove the hulls a selection of `n` of `kind` picks (those whose
    /// fitted-ness is `first` before the others, each group in id order),
    /// returning them in id order.
    fn split_off(&mut self, kind: ShipKind, n: u32, first: bool) -> (out: Vec<Ship>)
        ensures
            out@ == picked(old(self)@, kind, n as nat, first),
            final(self)@ == left(old(self)@, kind, n as nat, first),
            final(self).next_id() == old(self).next_id(),
            final(self).spent() == old(self).spent(),
    {
        proof {
            use_type_invariant(&*self);
            lemma_ids_bound_len(self.ships@, self.next_ship_id);
            lemma_count_kind_le(self.ships@, kind);
        }
        let ghost orig = self.ships@;
        let total_first = self.count_fitness(kind, first) as u64;
        let mut rest: Vec<Ship> = Vec::new();
        std::mem::swap(&mut rest, &mut self.ships);
        let mut kept: Vec<Ship> = Vec::new();
        let mut out: Vec<Ship> = Vec::new();
        let mut first_seen: u64 = 0;
        let mut other_seen: u64 = 0;
        let len = rest.len();
        let mut idx: usize = 0;
        while idx < len
            invariant
                len == orig.len(),
                len <= u32::MAX,
                idx <= len,
                rest@ == orig.skip(idx as int),
                total_first == count_fit(orig, kind, first),
                first_seen == count_fit(orig.take(idx as int), kind, first),
                other_seen == count_fit(orig.take(idx as int), kind, !first),
                first_seen <= idx,
                other_seen <= idx,
                total_first <= len,
                kept@ == split_prefix(orig, kind, n as nat, first, true, idx as int),
                out@ == split_prefix(orig, kind, n as nat, first, false, idx as int),
                forall|a: int, b: int| 0 <= a < b < kept@.len() ==> kept@[a].id < kept@[b].id,
                forall|a: int| 0 <= a < kept@.len() ==> kept@[a].id < self.next_ship_id,
                idx < len ==> forall|a: int| 0 <= a < kept@.len() ==> kept@[a].id < orig[idx as int].id,
                ids_ordered(orig, self.next_ship_id),
                self.ships@.len() == 0,
                self.next_ship_id == old(self).next_ship_id,
                self.marines_spent == old(self).marines_spent,
            decreases len - idx,
        {
            let s = rest.remove(0);
            proof {
                assert(s == orig[idx as int]);
                assert(rest@ =~= orig.skip(idx as int + 1));
                lemma_take_last(orig, idx as int);
            }
            let fitted = !s.loadout.is_empty();
            let take = s.kind == kind && if fitted == first {
                first_seen < n as u64
            } else {
                total_first + other_seen < n as u64
            };
            if s.kind == kind {
                if fitted == first {
                    first_seen = first_seen + 1;
                } else {
                    other_seen = other_seen + 1;
                }
            }
            if take {
                out.push(s);
            } else {
                kept.push(s);
            }
            proof {
                if idx + 1 < len {
                    assert(orig[idx as int].id < orig[idx as int + 1].id);
                }
            }
            idx = idx + 1;
        }
        self.ships = kept;
        out
    }

    /// Detach `n` hulls of `kind` for a split, fitted first (a detached
    /// escort keeps its fits), then by id. Returns the hulls themselves, fit
    /// and damage included, in id order.
    pub fn detach_ships(&mut self, kind: ShipKind, n: u32) -> (out: Vec<Ship>)
        ensures
            out@ == picked(old(self)@, kind, n as nat, true),
            final(self)@ == left(old(self)@, kind, n as nat, true),
            final(self).next_id() == old(self).next_id(),
            final(self).spent() == old(self).spent(),
    {
        self.split_off(kind, n, true)
    }

    /// Remove up to `n` hulls of `kind`, unfitted first, then by id. Returns
    /// how many went.
    pub fn remove(&mut self, kind: ShipKind, n: u32) -> (removed: u32)
        ensures
            removed == picked(old(self)@, kind, n as nat, false).len(),
            final(self)@ == left(old(self)@, kind, n as nat, false),
            final(self).next_id() == old(self).next_id(),
            final(self).spent() == old(self).spent(),
    {
        proof {
            use_type_invariant(&*self);
            lemma_ids_bound_len(self.ships@, self.next_ship_id);
            lemma_split_len(self.ships@, kind, n as nat, false, self.ships@.len() as int);
        }
        let out = self.split_off(kind, n, false);
        out.len() as u32
    }

    /// Remove exactly one hull of `kind` (an unfitted one if there is one).
    /// Returns whether one was aboard.
    pub fn remove_one(&mut self, kind: ShipKind) -> (r: bool)
        ensures
            r == (picked(old(self)@, kind, 1, false).len() == 1),
            final(self)@ == left(old(self)@, kind, 1, false),
            final(self).next_id() == old(self).next_id(),
            final(self).spent() == old(self).spent(),
    {
        self.remove(kind, 1) == 1
    }

    /// Push `n` fresh hulls of `(kind, loadout)` at full health, with the
    /// next ids.
    pub fn add_fitted(&mut self, kind: ShipKind, loadout: &Loadout, n: u32)
        requires
            old(self).next_id() + n <= u32::MAX,
        ensures
            final(self)@.len() == old(self)@.len() + n,
            final(self)@.take(old(self)@.len() as int) == old(self)@,
            forall|j: int|
                0 <= j < n ==> {
                    let s = #[trigger] final(self)@[old(self)@.len() + j];
                    &&& s.id == old(self).next_id() + j
                    &&& s.kind == kind
                    &&& s.loadout@ == loadout@
                    &&& s.hp == full_hp_bits(kind)
                },
            final(self).next_id() == old(self).next_id() + n,
            final(self).spent() == old(self).spent(),
    {
        proof {
            use_type_invariant(&*self);
        }
        let ghost start = self.ships@;
        let next0 = self.next_ship_id;
        let mut ships: Vec<Ship> = Vec::new();
        std::mem::swap(&mut ships, &mut self.ships);
        let mut next = next0;
        let mut j: u32 = 0;
        while j < n
            invariant
                j <= n,
                next0 + n <= u32::MAX,
                next == next0 + j,
                ships@.len() == start.len() + j,
                ships@.take(start.len() as int) == start,
                ids_ordered(ships@, next),
                forall|k: int|
                    0 <= k < j ==> {
                        let s = #[trigger] ships@[start.len() + k];
                        &&& s.id == next0 + k
                        &&& s.kind == kind
                        &&& s.loadout@ == loadout@
                        &&& s.hp == full_hp_bits(kind)
                    },
            decreases n - j,
        {
            let ship = Ship::new(next, kind, loadout.clone());
            let ghost before = ships@;
            ships.push(ship);
            next = next + 1;
            proof {
                assert(ships@.take(start.len() as int) =~= start) by {
                    assert(before.take(start.len() as int) == start);
                }
            }
            j = j + 1;
        }
        self.next_ship_id = next;
        self.ships = ships;
    }

    /// Add `n` fresh unfitted hulls of `kind`.
    pub fn add(&mut self, kind: ShipKind, n: u32)
        requires
            old(self).next_id() + n <= u32::MAX,
        ensures
            final(self)@.len() == old(self)@.len() + n,
            final(self)@.take(old(self)@.len() as int) == old(self)@,
            forall|j: int|
                0 <= j < n ==> {
                    let s = #[trigger] final(self)@[old(self)@.len() + j];
                    &&& s.id == old(self).next_id() + j
                    &&& s.kind == kind
                    &&& s.loadout@.len() == 0
                    &&& s.hp == full_hp_bits(kind)
                },
            final(self).next_id() == old(self).next_id() + n,
            final(self).spent() == old(self).spent(),
    {
        let unfitted = Loadout::unfitted();
        self.add_fitted(kind, &unfitted, n);
    }

    /// Replace the whole roster with `n` fresh unfitted hulls of `kind`,
    /// ids from zero.
    pub fn reset_to(&mut self, kind: ShipKind, n: u32)
        ensures
            final(self)@.len() == n,
            forall|j: int|
                0 <= j < n ==> {
                    let s = #[trigger] final(self)@[j];
                    &&& s.id == j
                    &&& s.kind == kind
                    &&& s.loadout@.len() == 0
                    &&& s.hp == full_hp_bits(kind)
                },
            final(self).next_id() == n,
            final(self).spent() == old(self).spent(),
    {
        proof {
            use_type_invariant(&*self);
        }
        self.ships = Vec::new();
        self.next_ship_id = 0;
        self.add(kind, n);
        proof {
            assert forall|j: int| 0 <= j < n implies {
                let s = #[trigger] self@[j];
                &&& s.id == j
                &&& s.kind == kind
                &&& s.loadout@.len() == 0
                &&& s.hp == full_hp_bits(kind)
            } by {
                assert(self@[0 + j] == self@[j]);
            }
        }
    }

    /// Absorb hulls from another formation, re-issuing their ids from this
    /// one's counter. Fit and damage travel with each hull.
    pub fn absorb_ships(&mut self, incoming: Vec<Ship>)
        requires
            old(self).next_id() + incoming@.len() <= u32::MAX,
        ensures
            final(self)@ == old(self)@ + reissued(incoming@, old(self).next_id() as int),
            final(self).next_id() == old(self).next_id() + incoming@.len(),
            final(self).spent() == old(self).spent(),
    {
        proof {
            use_type_invariant(&*self);
        }
        let ghost start = self.ships@;
        let next0 = self.next_ship_id;
        let ghost all = incoming@;
        let mut ships: Vec<Ship> = Vec::new();
        std::mem::swap(&mut ships, &mut self.ships);
        let mut next = next0;
        let mut rest = incoming;
        let len = rest.len();
        let mut k: usize = 0;
        while k < len
            invariant
                len == all.len(),
                k <= len,
                next0 + len <= u32::MAX,
                rest@ == all.skip(k as int),
                next == next0 + k,
                ships@ == start + reissued(all.take(k as int), next0 as int),
                ids_ordered(ships@, next),
            decreases len - k,
        {
            let mut s = rest.remove(0);
            proof {
                assert(s == all[k as int]);
                assert(rest@ =~= all.skip(k as int + 1));
            }
            s.id = next;
            ships.push(s);
            next = next + 1;
            proof {
                assert(ships@ =~= start + reissued(all.take(k as int + 1), next0 as int));
            }
            k = k + 1;
        }
        proof {
            assert(all.take(k as int) =~= all);
        }
        self.next_ship_id = next;
        self.ships = ships;
    }

    /// Re-fit up to `n` hulls of `kind` in place, unfitted first, then by id.
    /// Returns how many were changed.
    pub fn set_fitted(&mut self, kind: ShipKind, loadout: &Loadout, n: u32) -> (changed: u32)
        ensures
            final(self)@.len() == old(self)@.len(),
            forall|i: int|
                0 <= i < old(self)@.len() ==> {
                    let s = #[trigger] final(self)@[i];
                    let o = old(self)@[i];
                    &&& s.id == o.id
                    &&& s.kind == o.kind
                    &&& s.hp == o.hp
                    &&& s.loadout@ == if picks(old(self)@, kind, n as nat, false, i) {
                        loadout@
                    } else {
                        o.loadout@
                    }
                },
            changed == picked(old(self)@, kind, n as nat, false).len(),
            final(self).next_id() == old(self).next_id(),
            final(self).spent() == old(self).spent(),
    {
        proof {
            use_type_invariant(&*self);
            lemma_ids_bound_len(self.ships@, self.next_ship_id);
            lemma_count_kind_le(self.ships@, kind);
            lemma_split_len(self.ships@, kind, n as nat, false, self.ships@.len() as int);
        }
        let ghost orig = self.ships@;
        let total_first = self.count_fitness(kind, false) as u64;
        let mut rest: Vec<Ship> = Vec::new();
        std::mem::swap(&mut rest, &mut self.ships);
        let mut done: Vec<Ship> = Vec::new();
        let mut first_seen: u64 = 0;
        let mut other_seen: u64 = 0;
        let mut changed: u32 = 0;
        let len = rest.len();
        let mut idx: usize = 0;
        while idx < len
            invariant
                len == orig.len(),
                len <= u32::MAX,
                idx <= len,
                rest@ == orig.skip(idx as int),
                total_first == count_fit(orig, kind, false),
                first_seen == count_fit(orig.take(idx as int), kind, false),
                other_seen == count_fit(orig.take(idx as int), kind, true),
                first_seen <= idx,
                other_seen <= idx,
                total_first <= len,
                changed == split_prefix(orig, kind, n as nat, false, false, idx as int).len(),
                split_prefix(orig, kind, n as nat, false, false, len as int).len() <= len,
                changed <= idx,
                done@.len() == idx,
                forall|i: int|
                    0 <= i < idx ==> {
                        let s = #[trigger] done@[i];
                        let o = orig[i];
                        &&& s.id == o.id
                        &&& s.kind == o.kind
                        &&& s.hp == o.hp
                        &&& s.loadout@ == if picks(orig, kind, n as nat, false, i) {
                            loadout@
                        } else {
                            o.loadout@
                        }
                    },
                ids_ordered(orig, self.next_ship_id),
                self.ships@.len() == 0,
                self.next_ship_id == old(self).next_ship_id,
                self.marines_spent == old(self).marines_spent,
            decreases len - idx,
        {
            let s = rest.remove(0);
            proof {
                assert(s == orig[idx as int]);
                assert(rest@ =~= orig.skip(idx as int + 1));
                lemma_take_last(orig, idx as int);
                lemma_split_len(orig, kind, n as nat, false, idx as int + 1);
            }
            let fitted = !s.loadout.is_empty();
            let take = s.kind == kind && if !fitted {
                first_seen < n as u64
            } else {
                total_first + other_seen < n as u64
            };
            if s.kind == kind {
                if !fitted {
                    first_seen = first_seen + 1;
                } else {
                    other_seen = other_seen + 1;
                }
            }
            if take {
                let refit = Ship { id: s.id, kind: s.kind, loadout: loadout.clone(), hp: s.hp };
                done.push(refit);
                changed = changed + 1;
            } else {
                done.push(s);
            }
            idx = idx + 1;
        }
        proof {
            assert forall|a: int, b: int| 0 <= a < b < done@.len() implies done@[a].id < done@[b].id by {
                assert(orig[a].id < orig[b].id);
            }
        }
        self.ships = done;
        changed
    }

    /// The next ship id this roster will issue.
    pub fn next_ship_id(&self) -> (n: u32)
        ensures
            n == self.next_id(),
    {
        self.next_ship_id
    }

    /// Marines already put on the ground.
    pub fn marines_spent(&self) -> (n: u32)
        ensures
            n == self.spent(),
    {
        self.marines_spent
    }

    /// The marines the hulls carry in all, if that fits in a `u32`.
    pub fn marines_carried_checked(&self) -> (n: Option<u32>)
        ensures
            n == if marine_total(self@) <= u32::MAX { Some(marine_total(self@) as u32) } else { None::<u32> },
    {
        let mut n: u64 = 0;
        let mut i: usize = 0;
        while i < self.ships.len()
            invariant
                i <= self.ships@.len(),
                n == marine_total(self.ships@.take(i as int)) || (n > u32::MAX && marine_total(self.ships@.take(i as int)) > u32::MAX),
                n <= u32::MAX + 40,
            decreases self.ships@.len() - i,
        {
            proof {
                lemma_take_last(self.ships@, i as int);
            }
            if n <= u32::MAX as u64 {
                n = n + crate::ship::marine_capacity(self.ships[i].kind) as u64;
            }
            i = i + 1;
        }
        proof {
            assert(self.ships@.take(i as int) =~= self.ships@);
        }
        if n <= u32::MAX as u64 { Some(n as u32) } else { None }
    }

    /// The hulls, in id order.
    pub fn ships(&self) -> (v: &Vec<Ship>)
        ensures
            v@ == self@,
    {
        &self.ships
    }

    /// Set the remaining hull points of the hull `(kind, id)`, if it is
    /// aboard. Returns whether it was.
    pub fn set_hp(&mut self, kind: ShipKind, id: u32, hp: u64) -> (found: bool)
        ensures
            final(self).next_id() == old(self).next_id(),
            final(self).spent() == old(self).spent(),
            final(self)@.len() == old(self)@.len(),
            found == exists|i: int| 0 <= i < old(self)@.len() && old(self)@[i].id == id && old(self)@[i].kind == kind,
            forall|i: int|
                0 <= i < old(self)@.len() ==> {
                    let s = #[trigger] final(self)@[i];
                    let o = old(self)@[i];
                    &&& s.id == o.id
                    &&& s.kind == o.kind
                    &&& s.loadout == o.loadout
                    &&& s.hp == if o.id == id && o.kind == kind { hp } else { o.hp }
                },
    {
        proof {
            use_type_invariant(&*self);
        }
        let ghost orig = self.ships@;
        let mut rest: Vec<Ship> = Vec::new();
        std::mem::swap(&mut rest, &mut self.ships);
        let mut done: Vec<Ship> = Vec::new();
        let mut found = false;
        let len = rest.len();
        let mut idx: usize = 0;
        while idx < len
            invariant
                len == orig.len(),
                idx <= len,
                rest@ == orig.skip(idx as int),
                done@.len() == idx,
                found == exists|i: int| 0 <= i < idx && orig[i].id == id && orig[i].kind == kind,
                forall|i: int|
                    0 <= i < idx ==> {
                        let s = #[trigger] done@[i];
                        let o = orig[i];
                        &&& s.id == o.id
                        &&& s.kind == o.kind
                        &&& s.loadout == o.loadout
                        &&& s.hp == if o.id == id && o.kind == kind { hp } else { o.hp }
                    },
                ids_ordered(orig, self.next_ship_id),
                self.ships@.len() == 0,
                self.next_ship_id == old(self).next_ship_id,
                self.marines_spent == old(self).marines_spent,
            decreases len - idx,
        {
            let mut s = rest.remove(0);
            proof {
                assert(s == orig[idx as int]);
                assert(rest@ =~= orig.skip(idx as int + 1));
            }
            if s.id == id && s.kind == kind {
                s.hp = hp;
                found = true;
            }
            done.push(s);
            idx = idx + 1;
        }
        proof {
            assert forall|a: int, b: int| 0 <= a < b < done@.len() implies done@[a].id < done@[b].id by {
                assert(orig[a].id < orig[b].id);
            }
        }
        self.ships = done;
        found
    }

    /// Take the hulls at the given roster positions (strictly increasing) out
    /// of the formation, returning them in roster order.
    pub fn take_indices(&mut self, idx: &Vec<usize>) -> (out: Vec<Ship>)
        requires
            forall|a: int, b: int| 0 <= a < b < idx@.len() ==> idx@[a] < idx@[b],
            forall|a: int| 0 <= a < idx@.len() ==> idx@[a] < old(self)@.len(),
        ensures
            out@ == select_prefix(old(self)@, idx@, false, old(self)@.len() as int),
            final(self)@ == select_prefix(old(self)@, idx@, true, old(self)@.len() as int),
            final(self).next_id() == old(self).next_id(),
            final(self).spent() == old(self).spent(),
    {
        proof {
            use_type_invariant(&*self);
        }
        let ghost orig = self.ships@;
        let mut rest: Vec<Ship> = Vec::new();
        std::mem::swap(&mut rest, &mut self.ships);
        let mut kept: Vec<Ship> = Vec::new();
        let mut out: Vec<Ship> = Vec::new();
        let len = rest.len();
        let mut pos: usize = 0;
        let mut i: usize = 0;
        while i < len
            invariant
                len == orig.len(),
                i <= len,
                pos <= idx@.len(),
                rest@ == orig.skip(i as int),
                forall|a: int, b: int| 0 <= a < b < idx@.len() ==> idx@[a] < idx@[b],
                forall|a: int| 0 <= a < pos ==> idx@[a] < i,
                forall|a: int| pos <= a < idx@.len() ==> idx@[a] >= i,
                kept@ == select_prefix(orig, idx@, true, i as int),
                out@ == select_prefix(orig, idx@, false, i as int),
                forall|a: int, b: int| 0 <= a < b < kept@.len() ==> kept@[a].id < kept@[b].id,
                forall|a: int| 0 <= a < kept@.len() ==> kept@[a].id < self.next_ship_id,
                i < len ==> forall|a: int| 0 <= a < kept@.len() ==> kept@[a].id < orig[i as int].id,
                ids_ordered(orig, self.next_ship_id),
                self.ships@.len() == 0,
                self.next_ship_id == old(self).next_ship_id,
                self.marines_spent == old(self).marines_spent,
            decreases len - i,
        {
            let s = rest.remove(0);
            proof {
                assert(s == orig[i as int]);
                assert(rest@ =~= orig.skip(i as int + 1));
            }
            let chosen = pos < idx.len() && idx[pos] == i;
            proof {
                if chosen {
                    assert(idx@.contains(i));
                } else {
                    assert forall|a: int| 0 <= a < idx@.len() implies idx@[a] != i by {
                        if a >= pos {
                            if a > pos {
                                assert(idx@[pos as int] < idx@[a]);
                            }
                        }
                    }
                }
            }
            if chosen {
                out.push(s);
                pos = pos + 1;
            } else {
                kept.push(s);
            }
            proof {
                if i + 1 < len {
                    assert(orig[i as int].id < orig[i as int + 1].id);
                }
            }
            i = i + 1;
        }
        self.ships = kept;
        out
    }

    /// Does the formation hold at least one hull of `kind`?
    pub fn contains(&self, kind: ShipKind) -> (r: bool)
        ensures
            r == (count_kind(self@, kind) > 0),
    {
        self.count(kind) > 0
    }

    /// Hulls in all.
    pub fn total_count(&self) -> (n: u32)
        ensures
            n == self@.len(),
    {
        proof {
            use_type_invariant(self);
            lemma_ids_bound_len(self.ships@, self.next_ship_id);
        }
        self.ships.len() as u32
    }

    /// The size bucket a fog observer sees.
    pub fn count_class(&self) -> (c: CountClass)
        ensures
            c == spec_from_count(self@.len() as u32),
    {
        CountClass::from_count(self.total_count())
    }

    /// True once no hull is left.
    pub fn is_empty(&self) -> (r: bool)
        ensures
            r == (self@.len() == 0),
    {
        self.ships.len() == 0
    }

    /// Cargo units the formation can lift: a fixed hold per convoy aboard.
    pub fn cargo_capacity(&self) -> (c: u32)
        requires
            count_kind(self@, ShipKind::Convoy) * CARGO_UNITS_PER_CONVOY <= u32::MAX,
        ensures
            c == count_kind(self@, ShipKind::Convoy) * CARGO_UNITS_PER_CONVOY,
    {
        self.count(ShipKind::Convoy) * CARGO_UNITS_PER_CONVOY
    }

    /// The kind the formation is drawn and named for: the first kind in
    /// flagship precedence it holds (a scout, defensively, if it holds none).
    pub fn flagship_kind(&self) -> (k: ShipKind)
        ensures
            k == flagship_from(self@, 0),
    {
        let mut j: usize = 0;
        while j < 13
            invariant
                j <= 13,
                flagship_from(self@, 0) == flagship_from(self@, j as int),
            decreases 13 - j,
        {
            let k = FLAGSHIP_PRECEDENCE[j];
            if self.contains(k) {
                return k;
            }
            j = j + 1;
        }
        ShipKind::Scout
    }

    /// A formation broadcasts if any hull's kind broadcasts: a freighter
    /// cannot hide behind a raider.
    pub fn broadcasts(&self) -> (r: bool)
        ensures
            r == any_kind(self@, |k: ShipKind| spec_broadcasts(k)),
    {
        let mut i: usize = 0;
        while i < self.ships.len()
            invariant
                i <= self.ships@.len(),
                forall|j: int| 0 <= j < i ==> !spec_broadcasts(#[trigger] self.ships@[j].kind),
            decreases self.ships@.len() - i,
        {
            if self.ships[i].kind.broadcasts() {
                return true;
            }
            i = i + 1;
        }
        false
    }

    /// A formation is a combatant if any hull is.
    pub fn is_combatant(&self) -> (r: bool)
        ensures
            r == any_kind(self@, |k: ShipKind| spec_is_combatant(k)),
    {
        let mut i: usize = 0;
        while i < self.ships.len()
            invariant
                i <= self.ships@.len(),
                forall|j: int| 0 <= j < i ==> !spec_is_combatant(#[trigger] self.ships@[j].kind),
            decreases self.ships@.len() - i,
        {
            if self.ships[i].kind.is_combatant() {
                return true;
            }
            i = i + 1;
        }
        false
    }

    fn marines_carried(&self) -> (n: u32)
        requires
            marine_total(self.ships@) <= u32::MAX,
        ensures
            n == marine_total(self.ships@),
    {
        let mut n: u32 = 0;
        let mut i: usize = 0;
        while i < self.ships.len()
            invariant
                i <= self.ships@.len(),
                n == marine_total(self.ships@.take(i as int)),
                marine_total(self.ships@) <= u32::MAX,
            decreases self.ships@.len() - i,
        {
            proof {
                lemma_take_last(self.ships@, i as int);
                lemma_marine_prefix(self.ships@, i as int + 1);
            }
            n = n + crate::ship::marine_capacity(self.ships[i].kind);
            i = i + 1;
        }
        proof {
            assert(self.ships@.take(i as int) =~= self.ships@);
        }
        n
    }

    /// Marines the formation can still put on the ground: those its hulls
    /// carry, less those already committed.
    pub fn marines(&self) -> (n: u32)
        requires
            marine_total(self@) <= u32::MAX,
        ensures
            n == if marine_total(self@) >= self.spent() {
                (marine_total(self@) - self.spent()) as u32
            } else {
                0
            },
    {
        let carried = self.marines_carried();
        carried.saturating_sub(self.marines_spent)
    }

    /// Mark the whole complement as committed: troops that went down cannot
    /// go down twice.
    pub fn commit_marines(&mut self)
        requires
            marine_total(old(self)@) <= u32::MAX,
        ensures
            final(self)@ == old(self)@,
            final(self).next_id() == old(self).next_id(),
            final(self).spent() == marine_total(old(self)@),
    {
        proof {
            use_type_invariant(&*self);
        }
        let carried = self.marines_carried();
        self.marines_spent = carried;
    }

    /// Take on fresh troops.
    pub fn reembark_marines(&mut self)
        ensures
            final(self)@ == old(self)@,
            final(self).next_id() == old(self).next_id(),
            final(self).spent() == 0,
    {
        proof {
            use_type_invariant(&*self);
        }
        self.marines_spent = 0;
    }
}

/// `min(a, b)` on naturals.
pub open spec fn min_nat(a: nat, b: nat) -> nat {
    if a <= b { a } else { b }
}

proof fn lemma_picked_prefix_len(ships: Seq<Ship>, kind: ShipKind, n: nat, first: bool, m: int)
    requires
        0 <= m <= ships.len(),
    ensures
        split_prefix(ships, kind, n, first, false, m).len() == min_nat(
            count_fit(ships.take(m), kind, first),
            n,
        ) + min_nat(
            count_fit(ships.take(m), kind, !first),
            if n >= count_fit(ships, kind, first) { (n - count_fit(ships, kind, first)) as nat } else { 0 },
        ),
    decreases m,
{
    if m == 0 {
        assert(ships.take(0) =~= Seq::<Ship>::empty());
    } else {
        lemma_picked_prefix_len(ships, kind, n, first, m - 1);
        lemma_take_last(ships, m - 1);
    }
}

proof fn lemma_picked_members(ships: Seq<Ship>, kind: ShipKind, n: nat, first: bool, m: int)
    requires
        0 <= m <= ships.len(),
    ensures
        forall|x: int|
            0 <= x < split_prefix(ships, kind, n, first, false, m).len() ==> {
                let s = #[trigger] split_prefix(ships, kind, n, first, false, m)[x];
                &&& s.kind == kind
                &&& n <= count_fit(ships, kind, first) ==> is_fitted(s) == first
            },
    decreases m,
{
    if m > 0 {
        lemma_picked_members(ships, kind, n, first, m - 1);
        lemma_take_last(ships, m - 1);
        lemma_fit_prefix_le(ships, kind, !first, m - 1);
    }
}

proof fn lemma_fit_prefix_le(ships: Seq<Ship>, kind: ShipKind, fitted: bool, m: int)
    requires
        0 <= m <= ships.len(),
    ensures
        count_fit(ships.take(m), kind, fitted) <= count_fit(ships, kind, fitted),
    decreases ships.len() - m,
{
    if m < ships.len() {
        lemma_fit_prefix_le(ships, kind, fitted, m + 1);
        lemma_take_last(ships, m);
    } else {
        assert(ships.take(m) =~= ships);
    }
}

proof fn lemma_split_counts(ships: Seq<Ship>, kind: ShipKind, n: nat, first: bool, m: int, k: ShipKind)
    requires
        0 <= m <= ships.len(),
    ensures
        count_kind(split_prefix(ships, kind, n, first, true, m), k) + count_kind(
            split_prefix(ships, kind, n, first, false, m),
            k,
        ) == count_kind(ships.take(m), k),
        count_fit(split_prefix(ships, kind, n, first, true, m), k, true) + count_fit(
            split_prefix(ships, kind, n, first, false, m),
            k,
            true,
        ) == count_fit(ships.take(m), k, true),
    decreases m,
{
    if m == 0 {
        assert(ships.take(0) =~= Seq::<Ship>::empty());
    } else {
        lemma_split_counts(ships, kind, n, first, m - 1, k);
        lemma_take_last(ships, m - 1);
        let kept = split_prefix(ships, kind, n, first, true, m);
        let out = split_prefix(ships, kind, n, first, false, m);
        if picks(ships, kind, n, first, m - 1) {
            assert(out.drop_last() =~= split_prefix(ships, kind, n, first, false, m - 1));
        } else {
            assert(kept.drop_last() =~= split_prefix(ships, kind, n, first, true, m - 1));
        }
    }
}

proof fn lemma_concat_counts(a: Seq<Ship>, b: Seq<Ship>, k: ShipKind)
    ensures
        count_kind(a + b, k) == count_kind(a, k) + count_kind(b, k),
        count_fit(a + b, k, true) == count_fit(a, k, true) + count_fit(b, k, true),
    decreases b.len(),
{
    if b.len() > 0 {
        lemma_concat_counts(a, b.drop_last(), k);
        assert((a + b).drop_last() =~= a + b.drop_last());
    } else {
        assert(a + b =~= a);
    }
}

proof fn lemma_reissued_counts(b: Seq<Ship>, start: int, k: ShipKind)
    ensures
        count_kind(reissued(b, start), k) == count_kind(b, k),
        count_fit(reissued(b, start), k, true) == count_fit(b, k, true),
    decreases b.len(),
{
    if b.len() > 0 {
        lemma_reissued_counts(b.drop_last(), start, k);
        assert(reissued(b, start).drop_last() =~= reissued(b.drop_last(), start));
    }
}

/// A selection takes exactly `min(n, hulls of that kind)` hulls, all of the
/// asked kind; and when the preferred group alone can fill it, every hull
/// taken is from the preferred group (a split of at most the fitted count
/// takes only fitted hulls; a removal of at most the unfitted count takes
/// only unfitted ones).
pub proof fn selection_takes_min_of_ask_and_supply(ships: Seq<Ship>, kind: ShipKind, n: nat, first: bool)
    ensures
        picked(ships, kind, n, first).len() == min_nat(n, count_kind(ships, kind)),
        forall|x: int|
            0 <= x < picked(ships, kind, n, first).len() ==> {
                let s = #[trigger] picked(ships, kind, n, first)[x];
                &&& s.kind == kind
                &&& n <= count_fit(ships, kind, first) ==> is_fitted(s) == first
            },
{
    lemma_picked_prefix_len(ships, kind, n, first, ships.len() as int);
    assert(ships.take(ships.len() as int) =~= ships);
    lemma_count_kind_le(ships, kind);
    if first {
        assert(count_fit(ships, kind, true) + count_fit(ships, kind, false) == count_kind(ships, kind));
    } else {
        assert(count_fit(ships, kind, true) + count_fit(ships, kind, false) == count_kind(ships, kind));
    }
    lemma_picked_members(ships, kind, n, first, ships.len() as int);
}

/// Splitting a roster conserves every count: the hulls kept and the hulls
/// taken together hold exactly the roster's hulls of each kind, fitted and
/// in all; and absorbing hulls adds exactly their counts, fit and damage
/// travelling with each hull.
pub proof fn split_and_merge_conserve_hulls(
    ships: Seq<Ship>,
    kind: ShipKind,
    n: nat,
    first: bool,
    other: Seq<Ship>,
    start: int,
    k: ShipKind,
)
    ensures
        count_kind(left(ships, kind, n, first), k) + count_kind(picked(ships, kind, n, first), k)
            == count_kind(ships, k),
        count_fit(left(ships, kind, n, first), k, true) + count_fit(
            picked(ships, kind, n, first),
            k,
            true,
        ) == count_fit(ships, k, true),
        count_kind(other + reissued(picked(ships, kind, n, first), start), k) == count_kind(other, k)
            + count_kind(picked(ships, kind, n, first), k),
        forall|i: int|
            0 <= i < picked(ships, kind, n, first).len() ==> {
                let moved = #[trigger] reissued(picked(ships, kind, n, first), start)[i];
                let was = picked(ships, kind, n, first)[i];
                &&& moved.kind == was.kind
                &&& moved.loadout == was.loadout
                &&& moved.hp == was.hp
            },
{
    lemma_split_counts(ships, kind, n, first, ships.len() as int, k);
    assert(ships.take(ships.len() as int) =~= ships);
    let out = picked(ships, kind, n, first);
    lemma_concat_counts(other, reissued(out, start), k);
    lemma_reissued_counts(out, start, k);
}

/// The selection's two halves are, together, the first `m` hulls.
proof fn lemma_split_multiset(ships: Seq<Ship>, kind: ShipKind, n: nat, first: bool, m: int)
    requires
        0 <= m <= ships.len(),
    ensures
        split_prefix(ships, kind, n, first, false, m).to_multiset().add(
            split_prefix(ships, kind, n, first, true, m).to_multiset(),
        ) == ships.take(m).to_multiset(),
    decreases m,
{
    broadcast use vstd::seq_lib::to_multiset_build;

    if m == 0 {
        assert(ships.take(0) =~= Seq::<Ship>::empty());
        assert(split_prefix(ships, kind, n, first, false, 0) == Seq::<Ship>::empty());
        assert(split_prefix(ships, kind, n, first, true, 0) == Seq::<Ship>::empty());
        vstd::seq_lib::to_multiset_len(Seq::<Ship>::empty());
        vstd::multiset::lemma_multiset_empty_len(Seq::<Ship>::empty().to_multiset());
        assert(Seq::<Ship>::empty().to_multiset() =~= vstd::multiset::Multiset::<Ship>::empty());
    } else {
        lemma_split_multiset(ships, kind, n, first, m - 1);
        assert(ships.take(m) =~= ships.take(m - 1).push(ships[m - 1]));
        let out = split_prefix(ships, kind, n, first, false, m - 1);
        let kept = split_prefix(ships, kind, n, first, true, m - 1);
        if picks(ships, kind, n, first, m - 1) {
            assert(out.push(ships[m - 1]).to_multiset().add(kept.to_multiset()) =~= out.to_multiset().add(
                kept.to_multiset(),
            ).insert(ships[m - 1]));
        } else {
            assert(out.to_multiset().add(kept.push(ships[m - 1]).to_multiset()) =~= out.to_multiset().add(
                kept.to_multiset(),
            ).insert(ships[m - 1]));
        }
    }
}

/// When more hulls are asked than the preferred group holds, none of the
/// preferred group is left among the first `m` hulls.
proof fn lemma_preferred_all_go(ships: Seq<Ship>, kind: ShipKind, n: nat, first: bool, m: int)
    requires
        0 <= m <= ships.len(),
        count_fit(ships, kind, first) < n,
    ensures
        count_fit(split_prefix(ships, kind, n, first, true, m), kind, first) == 0,
    decreases m,
{
    if m > 0 {
        lemma_preferred_all_go(ships, kind, n, first, m - 1);
        lemma_fit_prefix_le(ships, kind, first, m - 1);
        let kept = split_prefix(ships, kind, n, first, true, m);
        if !picks(ships, kind, n, first, m - 1) {
            assert(kept.drop_last() =~= split_prefix(ships, kind, n, first, true, m - 1));
        }
    }
}

/// A split or a removal hands over whole hulls, never copying or losing one:
/// the hulls taken and the hulls kept are, together, exactly the roster's
/// hulls, each with its id, fit and damage. And when more hulls are asked
/// than the preferred group holds (fitted ones for a split, unfitted ones for
/// a removal), every hull of that group goes.
pub proof fn a_split_hands_over_whole_hulls(ships: Seq<Ship>, kind: ShipKind, n: nat, first: bool)
    ensures
        (picked(ships, kind, n, first) + left(ships, kind, n, first)).to_multiset() == ships.to_multiset(),
        n > count_fit(ships, kind, first) ==> count_fit(left(ships, kind, n, first), kind, first) == 0,
{
    broadcast use vstd::seq_lib::lemma_multiset_commutative;

    lemma_split_multiset(ships, kind, n, first, ships.len() as int);
    assert(ships.take(ships.len() as int) =~= ships);
    if n > count_fit(ships, kind, first) {
        lemma_preferred_all_go(ships, kind, n, first, ships.len() as int);
    }
}

/// The fitted hulls of a kind never outnumber that kind's hulls.
pub proof fn fitted_never_exceeds_count(ships: Seq<Ship>, kind: ShipKind)
    ensures
        count_fit(ships, kind, true) <= count_kind(ships, kind),
{
    lemma_count_kind_le(ships, kind);
}

/// The selection's two halves partition the first `m` hulls.
proof fn lemma_split_len(ships: Seq<Ship>, kind: ShipKind, n: nat, first: bool, m: int)
    requires
        0 <= m <= ships.len(),
    ensures
        split_prefix(ships, kind, n, first, false, m).len() + split_prefix(ships, kind, n, first, true, m).len() == m,
    decreases m,
{
    if m > 0 {
        lemma_split_len(ships, kind, n, first, m - 1);
    }
}

proof fn lemma_marine_prefix(ships: Seq<Ship>, m: int)
    requires
        0 <= m <= ships.len(),
    ensures
        marine_total(ships.take(m)) <= marine_total(ships),
    decreases ships.len() - m,
{
    if m < ships.len() {
        lemma_marine_prefix(ships, m + 1);
        lemma_take_last(ships, m);
    } else {
        assert(ships.take(m) =~= ships);
    }
}

} // verus!
