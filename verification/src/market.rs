//! The order book's matching core. Limit orders clear in a periodic
//! uniform-price call auction; at a candidate price, each buy willing to pay
//! it is filled, best first, from the sells willing to accept it, cheapest
//! first — never from its own corporation's sells.
//!
//! Whether an order is willing at the candidate price is a comparison of
//! floating-point prices, made by the caller; the matcher takes it as a flag.

use vstd::prelude::*;

use crate::ids::PlayerId;

verus! {

/// Which side of the book an order rests on.
#[derive(Debug, Clone, Copy, PartialEq, Eq, Structural)]
pub enum Side {
    Buy,
    Sell,
}

/// A resting order as the matcher reads it: its id, owner, units still
/// resting, and whether it is willing to trade at the candidate price.
#[derive(Debug, Clone, Copy, PartialEq, Eq, Structural)]
pub struct BookOrder {
    pub id: u64,
    pub player: PlayerId,
    pub units: u32,
    pub eligible: bool,
}

/// Whether buy `b` may take from sell `s`: the sell is willing, and it is
/// another corporation's.
pub open spec fn takes(b: BookOrder, s: BookOrder) -> bool {
    s.eligible && s.player != b.player
}

/// The lesser of two unit counts.
pub open spec fn min_u32(a: u32, b: u32) -> u32 {
    if a <= b { a } else { b }
}

/// Fill a buy with `left` units still wanted from sells `j..`, whose
/// remaining units are `sl`: the sells' remaining units afterwards, and what
/// the buy still wants.
pub open spec fn fill_buy(b: BookOrder, sells: Seq<BookOrder>, sl: Seq<u32>, j: int, left: u32) -> (Seq<u32>, u32)
    decreases sells.len() - j,
{
    if j < 0 || j >= sells.len() || left == 0 {
        (sl, left)
    } else if !takes(b, sells[j]) || sl[j] == 0 {
        fill_buy(b, sells, sl, j + 1, left)
    } else {
        let f = min_u32(left, sl[j]);
        fill_buy(b, sells, sl.update(j, (sl[j] - f) as u32), j + 1, (left - f) as u32)
    }
}

/// Match buys `i..` in order against the sells' remaining units `sl`: the
/// sells' remaining units afterwards, and each of those buys' fill.
pub open spec fn match_from(buys: Seq<BookOrder>, sells: Seq<BookOrder>, sl: Seq<u32>, i: int) -> (Seq<u32>, Seq<u32>)
    decreases buys.len() - i,
{
    if i < 0 || i >= buys.len() {
        (sl, Seq::empty())
    } else {
        let b = buys[i];
        let step = if b.eligible { fill_buy(b, sells, sl, 0, b.units) } else { (sl, b.units) };
        let rest = match_from(buys, sells, step.0, i + 1);
        (rest.0, seq![(b.units - step.1) as u32] + rest.1)
    }
}

/// Every sell's resting units.
pub open spec fn units_of(orders: Seq<BookOrder>) -> Seq<u32> {
    Seq::new(orders.len(), |j: int| orders[j].units)
}

/// The sum of a sequence of unit counts.
pub open spec fn total(s: Seq<u32>) -> nat
    decreases s.len(),
{
    if s.len() == 0 {
        0
    } else {
        total(s.drop_last()) + (s.last() as nat)
    }
}

/// The buys' fills at a candidate price.
pub open spec fn buy_fills(buys: Seq<BookOrder>, sells: Seq<BookOrder>) -> Seq<u32> {
    match_from(buys, sells, units_of(sells), 0).1
}

/// The sells' fills at a candidate price: what each gave up.
pub open spec fn sell_fills(buys: Seq<BookOrder>, sells: Seq<BookOrder>) -> Seq<u32> {
    let left = match_from(buys, sells, units_of(sells), 0).0;
    Seq::new(sells.len(), |j: int| (sells[j].units - left[j]) as u32)
}

proof fn lemma_fill_buy_shape(b: BookOrder, sells: Seq<BookOrder>, sl: Seq<u32>, j: int, left: u32)
    requires
        sl.len() == sells.len(),
    ensures
        fill_buy(b, sells, sl, j, left).0.len() == sl.len(),
        fill_buy(b, sells, sl, j, left).1 <= left,
        forall|k: int| 0 <= k < sl.len() ==> #[trigger] fill_buy(b, sells, sl, j, left).0[k] <= sl[k],
        total(fill_buy(b, sells, sl, j, left).0) + (left - fill_buy(b, sells, sl, j, left).1) == total(sl),
    decreases sells.len() - j,
{
    if j < 0 || j >= sells.len() || left == 0 {
    } else if !takes(b, sells[j]) || sl[j] == 0 {
        lemma_fill_buy_shape(b, sells, sl, j + 1, left);
    } else {
        let f = min_u32(left, sl[j]);
        let sl2 = sl.update(j, (sl[j] - f) as u32);
        lemma_fill_buy_shape(b, sells, sl2, j + 1, (left - f) as u32);
        lemma_total_update(sl, j, (sl[j] - f) as u32);
    }
}

proof fn lemma_total_update(s: Seq<u32>, j: int, v: u32)
    requires
        0 <= j < s.len(),
    ensures
        total(s.update(j, v)) + s[j] == total(s) + v,
    decreases s.len(),
{
    if j == s.len() - 1 {
        assert(s.update(j, v).drop_last() =~= s.drop_last());
    } else {
        lemma_total_update(s.drop_last(), j, v);
        assert(s.update(j, v).drop_last() =~= s.drop_last().update(j, v));
    }
}

/// Filling a buy never touches an unwilling sell.
proof fn lemma_fill_buy_spares_unwilling(b: BookOrder, sells: Seq<BookOrder>, sl: Seq<u32>, j: int, left: u32)
    requires
        sl.len() == sells.len(),
    ensures
        forall|k: int|
            0 <= k < sl.len() && !sells[k].eligible ==> #[trigger] fill_buy(b, sells, sl, j, left).0[k] == sl[k],
    decreases sells.len() - j,
{
    if j < 0 || j >= sells.len() || left == 0 {
    } else if !takes(b, sells[j]) || sl[j] == 0 {
        lemma_fill_buy_spares_unwilling(b, sells, sl, j + 1, left);
        assert(fill_buy(b, sells, sl, j, left) == fill_buy(b, sells, sl, j + 1, left));
    } else {
        let f = min_u32(left, sl[j]);
        let sl2 = sl.update(j, (sl[j] - f) as u32);
        lemma_fill_buy_spares_unwilling(b, sells, sl2, j + 1, (left - f) as u32);
        lemma_fill_buy_shape(b, sells, sl2, j + 1, (left - f) as u32);
        let r = fill_buy(b, sells, sl2, j + 1, (left - f) as u32);
        assert(fill_buy(b, sells, sl, j, left) == r);
        assert forall|k: int| 0 <= k < sl.len() && !sells[k].eligible implies #[trigger] fill_buy(b, sells, sl, j, left).0[k] == sl[k] by {
            assert(sl2[k] == sl[k]);
            assert(r.0[k] == sl2[k]);
        }
    }
    lemma_fill_buy_shape(b, sells, sl, j, left);
}

/// What each order offers at the candidate price: its units when it is
/// willing, none otherwise.
pub open spec fn eligible_units(orders: Seq<BookOrder>) -> Seq<u32> {
    Seq::new(orders.len(), |j: int| if orders[j].eligible { orders[j].units } else { 0 })
}

/// A buy that no willing sell of another corporation can serve gets nothing.
proof fn lemma_fill_buy_untouched(b: BookOrder, sells: Seq<BookOrder>, sl: Seq<u32>, j: int, left: u32)
    requires
        forall|k: int| 0 <= k < sells.len() ==> !takes(b, #[trigger] sells[k]),
    ensures
        fill_buy(b, sells, sl, j, left) == (sl, left),
    decreases sells.len() - j,
{
    if j >= 0 && j < sells.len() && left != 0 {
        lemma_fill_buy_untouched(b, sells, sl, j + 1, left);
    }
}

proof fn lemma_match_from_shape(buys: Seq<BookOrder>, sells: Seq<BookOrder>, sl: Seq<u32>, i: int)
    requires
        sl.len() == sells.len(),
        0 <= i <= buys.len(),
    ensures
        match_from(buys, sells, sl, i).0.len() == sl.len(),
        match_from(buys, sells, sl, i).1.len() == buys.len() - i,
        forall|k: int| 0 <= k < sl.len() ==> #[trigger] match_from(buys, sells, sl, i).0[k] <= sl[k],
        total(match_from(buys, sells, sl, i).0) + total(match_from(buys, sells, sl, i).1) == total(sl),
        forall|k: int|
            0 <= k < buys.len() - i ==> #[trigger] match_from(buys, sells, sl, i).1[k] <= buys[i + k].units,
        forall|k: int|
            0 <= k < buys.len() - i && !buys[i + k].eligible ==> #[trigger] match_from(buys, sells, sl, i).1[k]
                == 0,
        forall|k: int|
            0 <= k < sl.len() && !sells[k].eligible ==> #[trigger] match_from(buys, sells, sl, i).0[k] == sl[k],
    decreases buys.len() - i,
{
    if i < buys.len() {
        let b = buys[i];
        let step = if b.eligible { fill_buy(b, sells, sl, 0, b.units) } else { (sl, b.units) };
        if b.eligible {
            lemma_fill_buy_shape(b, sells, sl, 0, b.units);
            lemma_fill_buy_spares_unwilling(b, sells, sl, 0, b.units);
        }
        lemma_match_from_shape(buys, sells, step.0, i + 1);
        let rest = match_from(buys, sells, step.0, i + 1);
        let head = seq![(b.units - step.1) as u32];
        lemma_total_concat(head, rest.1);
        assert(head.drop_last() =~= Seq::<u32>::empty());
        assert(step.1 <= b.units);
        assert(total(Seq::<u32>::empty()) == 0);
        assert(total(head.drop_last()) == 0);
        assert(head.last() == (b.units - step.1) as u32);
        assert(total(head) == b.units - step.1);
        assert(total(step.0) + (b.units - step.1) == total(sl));
        assert(total(rest.0) + total(rest.1) == total(step.0));
        assert(head + rest.1 == match_from(buys, sells, sl, i).1);
        assert forall|k: int| 0 <= k < sl.len() implies #[trigger] match_from(buys, sells, sl, i).0[k] <= sl[k] by {
            assert(rest.0[k] <= step.0[k]);
        }
        assert forall|k: int| 0 <= k < buys.len() - i implies #[trigger] match_from(buys, sells, sl, i).1[k] <= buys[i + k].units
            && (!buys[i + k].eligible ==> match_from(buys, sells, sl, i).1[k] == 0) by {
            if k > 0 {
                assert(match_from(buys, sells, sl, i).1[k] == rest.1[k - 1]);
            }
        }
        assert forall|k: int| 0 <= k < sl.len() && !sells[k].eligible implies #[trigger] match_from(buys, sells, sl, i).0[k] == sl[k] by {
            assert(rest.0[k] == step.0[k]);
        }
    }
}

proof fn lemma_total_concat(a: Seq<u32>, b: Seq<u32>)
    ensures
        total(a + b) == total(a) + total(b),
    decreases b.len(),
{
    if b.len() == 0 {
        assert(a + b =~= a);
    } else {
        lemma_total_concat(a, b.drop_last());
        assert((a + b).drop_last() =~= a + b.drop_last());
    }
}

proof fn lemma_total_diff(units: Seq<u32>, left: Seq<u32>)
    requires
        units.len() == left.len(),
        forall|k: int| 0 <= k < units.len() ==> left[k] <= units[k],
    ensures
        total(Seq::new(units.len(), |j: int| (units[j] - left[j]) as u32)) + total(left) == total(units),
    decreases units.len(),
{
    let d = Seq::new(units.len(), |j: int| (units[j] - left[j]) as u32);
    if units.len() > 0 {
        let du = Seq::new(units.drop_last().len(), |j: int| (units.drop_last()[j] - left.drop_last()[j]) as u32);
        lemma_total_diff(units.drop_last(), left.drop_last());
        assert(d.drop_last() =~= du);
    }
}

/// The units that sells `j..` still hold for buy `b`: those of the willing
/// sells of other corporations.
pub open spec fn supply_for(b: BookOrder, sells: Seq<BookOrder>, sl: Seq<u32>, j: int) -> nat
    decreases sells.len() - j,
{
    if j < 0 || j >= sells.len() {
        0
    } else {
        (if takes(b, sells[j]) { sl[j] as nat } else { 0nat }) + supply_for(b, sells, sl, j + 1)
    }
}

proof fn lemma_supply_update(b: BookOrder, sells: Seq<BookOrder>, sl: Seq<u32>, i: int, v: u32, j: int)
    requires
        0 <= i < j,
        sl.len() == sells.len(),
    ensures
        supply_for(b, sells, sl.update(i, v), j) == supply_for(b, sells, sl, j),
    decreases sells.len() - j,
{
    if 0 <= j < sells.len() {
        lemma_supply_update(b, sells, sl, i, v, j + 1);
    }
}

/// Each buy's turn, stated directly: a buy still wanting `left` units gets
/// all of them when the willing sells of other corporations hold that many,
/// and otherwise everything those sells hold.
pub proof fn a_buy_takes_what_it_wants_or_all_it_may(
    b: BookOrder,
    sells: Seq<BookOrder>,
    sl: Seq<u32>,
    j: int,
    left: u32,
)
    requires
        sl.len() == sells.len(),
        0 <= j,
    ensures
        fill_buy(b, sells, sl, j, left).1 == left - min_nat(left as nat, supply_for(b, sells, sl, j)),
    decreases sells.len() - j,
{
    if j >= sells.len() || left == 0 {
    } else if !takes(b, sells[j]) || sl[j] == 0 {
        a_buy_takes_what_it_wants_or_all_it_may(b, sells, sl, j + 1, left);
    } else {
        let f = min_u32(left, sl[j]);
        let sl2 = sl.update(j, (sl[j] - f) as u32);
        a_buy_takes_what_it_wants_or_all_it_may(b, sells, sl2, j + 1, (left - f) as u32);
        lemma_supply_update(b, sells, sl, j, (sl[j] - f) as u32, j + 1);
    }
}

/// A buy's turn fills the willing sells of other corporations greedily, in
/// the order given (cheapest first): it leaves earlier sells and sells it
/// may not take untouched, takes from a sell only once every earlier sell
/// it may take is exhausted, and stops short of what it wants only when
/// every sell it may take is exhausted.
proof fn lemma_fill_buy_greedy(b: BookOrder, sells: Seq<BookOrder>, sl: Seq<u32>, j: int, left: u32)
    requires
        sl.len() == sells.len(),
        0 <= j,
    ensures
        forall|k: int|
            0 <= k < sl.len() && (k < j || !takes(b, sells[k])) ==> #[trigger] fill_buy(b, sells, sl, j, left).0[k]
                == sl[k],
        forall|x: int, y: int|
            j <= x < y < sl.len() && takes(b, sells[x]) && takes(b, sells[y]) && #[trigger] fill_buy(
                b,
                sells,
                sl,
                j,
                left,
            ).0[y] < sl[y] ==> #[trigger] fill_buy(b, sells, sl, j, left).0[x] == 0,
        fill_buy(b, sells, sl, j, left).1 > 0 ==> forall|k: int|
            j <= k < sl.len() && takes(b, sells[k]) ==> #[trigger] fill_buy(b, sells, sl, j, left).0[k] == 0,
    decreases sells.len() - j,
{
    lemma_fill_buy_shape(b, sells, sl, j, left);
    if j >= sells.len() || left == 0 {
    } else if !takes(b, sells[j]) || sl[j] == 0 {
        lemma_fill_buy_greedy(b, sells, sl, j + 1, left);
        assert(fill_buy(b, sells, sl, j, left) == fill_buy(b, sells, sl, j + 1, left));
    } else {
        let f = min_u32(left, sl[j]);
        let sl2 = sl.update(j, (sl[j] - f) as u32);
        lemma_fill_buy_greedy(b, sells, sl2, j + 1, (left - f) as u32);
        lemma_fill_buy_shape(b, sells, sl2, j + 1, (left - f) as u32);
        let r = fill_buy(b, sells, sl2, j + 1, (left - f) as u32);
        assert(fill_buy(b, sells, sl, j, left) == r);
        assert(r.0[j] == sl2[j]);
        if left - f == 0 {
            assert(r == (sl2, 0u32));
        }
    }
}

/// Each buy's turn is greedy in the sells' order (cheapest first): the
/// book's first buy, taking from the sells as they rest, leaves every sell
/// it may not take untouched, takes from a willing sell of another
/// corporation only once every earlier such sell is exhausted, and is left
/// wanting only when all of them are.
pub proof fn a_buy_fills_from_the_cheapest_willing_sell_first(buys: Seq<BookOrder>, sells: Seq<BookOrder>)
    requires
        buys.len() > 0,
        buys[0].eligible,
    ensures
        forall|k: int|
            0 <= k < sells.len() && !takes(buys[0], sells[k]) ==> #[trigger] fill_buy(
                buys[0],
                sells,
                units_of(sells),
                0,
                buys[0].units,
            ).0[k] == sells[k].units,
        forall|x: int, y: int|
            0 <= x < y < sells.len() && takes(buys[0], sells[x]) && takes(buys[0], sells[y]) && #[trigger] fill_buy(
                buys[0],
                sells,
                units_of(sells),
                0,
                buys[0].units,
            ).0[y] < sells[y].units ==> #[trigger] fill_buy(buys[0], sells, units_of(sells), 0, buys[0].units).0[x]
                == 0,
        fill_buy(buys[0], sells, units_of(sells), 0, buys[0].units).1 > 0 ==> forall|k: int|
            0 <= k < sells.len() && takes(buys[0], sells[k]) ==> #[trigger] fill_buy(
                buys[0],
                sells,
                units_of(sells),
                0,
                buys[0].units,
            ).0[k] == 0,
        buy_fills(buys, sells)[0] == buys[0].units - fill_buy(buys[0], sells, units_of(sells), 0, buys[0].units).1,
{
    let b = buys[0];
    let sl = units_of(sells);
    lemma_fill_buy_greedy(b, sells, sl, 0, b.units);
    lemma_fill_buy_shape(b, sells, sl, 0, b.units);
    let step = fill_buy(b, sells, sl, 0, b.units);
    let rest = match_from(buys, sells, step.0, 1);
    assert(match_from(buys, sells, sl, 0).1 == seq![(b.units - step.1) as u32] + rest.1);
    assert((seq![(b.units - step.1) as u32] + rest.1)[0] == (b.units - step.1) as u32);
}

/// With a single buy, the sells' fills are a greedy prefix in the order
/// given: a willing sell of another corporation gives up units only when
/// every earlier one gave up all it held.
pub proof fn a_single_buy_fills_sells_in_order(buys: Seq<BookOrder>, sells: Seq<BookOrder>)
    requires
        buys.len() == 1,
    ensures
        forall|x: int, y: int|
            0 <= x < y < sells.len() && takes(buys[0], sells[x]) && takes(buys[0], sells[y]) && #[trigger] sell_fills(
                buys,
                sells,
            )[y] > 0 ==> #[trigger] sell_fills(buys, sells)[x] == sells[x].units,
        forall|k: int| 0 <= k < sells.len() && !takes(buys[0], sells[k]) ==> #[trigger] sell_fills(buys, sells)[k] == 0,
{
    let sl = units_of(sells);
    lemma_match_from_shape(buys, sells, sl, 0);
    let b = buys[0];
    if b.eligible {
        lemma_fill_buy_greedy(b, sells, sl, 0, b.units);
        lemma_fill_buy_shape(b, sells, sl, 0, b.units);
        let step = fill_buy(b, sells, sl, 0, b.units);
        assert(match_from(buys, sells, step.0, 1).0 == step.0);
        assert(match_from(buys, sells, sl, 0).0 == step.0);
    } else {
        assert(match_from(buys, sells, sl, 1).0 == sl);
        assert(match_from(buys, sells, sl, 0).0 == sl);
        assert forall|k: int| 0 <= k < sells.len() && !takes(buys[0], sells[k]) implies #[trigger] sell_fills(buys, sells)[k] == 0 by {}
    }
}

/// The lesser of two naturals.
pub open spec fn min_nat(a: nat, b: nat) -> nat {
    if a <= b { a } else { b }
}

/// A pointwise smaller sequence of unit counts has a smaller sum.
proof fn lemma_total_le(a: Seq<u32>, b: Seq<u32>)
    requires
        a.len() == b.len(),
        forall|k: int| 0 <= k < a.len() ==> a[k] <= b[k],
    ensures
        total(a) <= total(b),
    decreases a.len(),
{
    if a.len() > 0 {
        lemma_total_le(a.drop_last(), b.drop_last());
    }
}

/// Whether candidate `i` wins the auction among `cands`, each a
/// `(volume, imbalance)` pair at a candidate price, prices ascending: it
/// matches something, no candidate matches more, none matching as much has a
/// lower imbalance, and none before it ties on both.
pub open spec fn wins(cands: Seq<(u32, u32)>, i: int) -> bool {
    &&& 0 <= i < cands.len()
    &&& cands[i].0 > 0
    &&& forall|j: int|
        0 <= j < cands.len() ==> {
            ||| (#[trigger] cands[j]).0 < cands[i].0
            ||| (cands[j].0 == cands[i].0 && cands[j].1 > cands[i].1)
            ||| (cands[j].0 == cands[i].0 && cands[j].1 == cands[i].1 && j >= i)
        }
}

/// Pick the clearing price of a call auction from its candidates, given as
/// `(volume, imbalance)` at each candidate price in ascending order: the
/// most volume, ties to the lowest imbalance, then to the lowest price. No
/// price is picked when nothing matches at any.
pub fn pick_clearing(cands: &Vec<(u32, u32)>) -> (r: Option<usize>)
    ensures
        r is None <==> forall|j: int| 0 <= j < cands@.len() ==> (#[trigger] cands@[j]).0 == 0,
        r matches Some(i) ==> wins(cands@, i as int),
{
    let mut best: Option<usize> = None;
    let mut i: usize = 0;
    while i < cands.len()
        invariant
            i <= cands@.len(),
            best is None <==> forall|j: int| 0 <= j < i ==> (#[trigger] cands@[j]).0 == 0,
            best matches Some(b) ==> b < i && wins(cands@.take(i as int), b as int),
        decreases cands@.len() - i,
    {
        let (vol, imbalance) = cands[i];
        let ghost before = best;
        if vol > 0 {
            match best {
                Some(b) => {
                    let (bv, bi) = cands[b];
                    if vol > bv || (vol == bv && imbalance < bi) {
                        best = Some(i);
                    }
                },
                None => {
                    best = Some(i);
                },
            }
        }
        proof {
            let t = cands@.take(i as int + 1);
            assert(t.len() == i + 1);
            assert forall|j: int| 0 <= j < i implies #[trigger] t[j] == cands@.take(i as int)[j] by {}
            assert(t[i as int] == cands@[i as int]);
            match best {
                Some(b) => {
                    assert forall|j: int| 0 <= j < t.len() implies {
                        ||| (#[trigger] t[j]).0 < t[b as int].0
                        ||| (t[j].0 == t[b as int].0 && t[j].1 > t[b as int].1)
                        ||| (t[j].0 == t[b as int].0 && t[j].1 == t[b as int].1 && j >= b)
                    } by {
                        if j < i {
                            assert(t[j] == cands@.take(i as int)[j]);
                            if before is None {
                                assert(cands@[j].0 == 0);
                            }
                        }
                    }
                },
                None => {},
            }
        }
        i = i + 1;
    }
    proof {
        assert(cands@.take(i as int) =~= cands@);
    }
    best
}

/// Matching conserves units: the buys' fills and the sells' fills add up to
/// the same volume; no buy is filled beyond what it wants and no sell beyond
/// what rests; and a buy that no willing sell of another corporation can
/// serve is not filled at all — a corporation never trades with itself.
pub proof fn matching_conserves_units(buys: Seq<BookOrder>, sells: Seq<BookOrder>)
    ensures
        buy_fills(buys, sells).len() == buys.len(),
        sell_fills(buys, sells).len() == sells.len(),
        total(buy_fills(buys, sells)) == total(sell_fills(buys, sells)),
        forall|i: int| 0 <= i < buys.len() ==> #[trigger] buy_fills(buys, sells)[i] <= buys[i].units,
        forall|j: int| 0 <= j < sells.len() ==> #[trigger] sell_fills(buys, sells)[j] <= sells[j].units,
        forall|i: int|
            0 <= i < buys.len() && (forall|k: int| 0 <= k < sells.len() ==> !takes(buys[i], #[trigger] sells[k]))
                ==> #[trigger] buy_fills(buys, sells)[i] == 0,
{
    let sl = units_of(sells);
    lemma_match_from_shape(buys, sells, sl, 0);
    let left = match_from(buys, sells, sl, 0).0;
    assert(units_of(sells) =~= Seq::new(sells.len(), |j: int| sells[j].units));
    lemma_total_diff(sl, left);
    assert(sell_fills(buys, sells) =~= Seq::new(sl.len(), |j: int| (sl[j] - left[j]) as u32));
    assert forall|i: int|
        0 <= i < buys.len() && (forall|k: int| 0 <= k < sells.len() ==> !takes(buys[i], #[trigger] sells[k]))
        implies #[trigger] buy_fills(buys, sells)[i] == 0 by {
        lemma_buy_untouched_in_match(buys, sells, sl, 0, i);
    }
}

proof fn lemma_buy_untouched_in_match(buys: Seq<BookOrder>, sells: Seq<BookOrder>, sl: Seq<u32>, i: int, t: int)
    requires
        sl.len() == sells.len(),
        0 <= i <= t < buys.len(),
        forall|k: int| 0 <= k < sells.len() ==> !takes(buys[t], #[trigger] sells[k]),
    ensures
        match_from(buys, sells, sl, i).1[t - i] == 0,
    decreases t - i,
{
    let b = buys[i];
    let step = if b.eligible { fill_buy(b, sells, sl, 0, b.units) } else { (sl, b.units) };
    if b.eligible {
        lemma_fill_buy_shape(b, sells, sl, 0, b.units);
    }
    let rest = match_from(buys, sells, step.0, i + 1);
    let head = seq![(b.units - step.1) as u32];
    assert(match_from(buys, sells, sl, i).1 == head + rest.1);
    if i == t {
        if b.eligible {
            lemma_fill_buy_untouched(b, sells, sl, 0, b.units);
        }
        assert((head + rest.1)[0] == head[0]);
    } else {
        lemma_buy_untouched_in_match(buys, sells, step.0, i + 1, t);
        lemma_match_from_shape(buys, sells, step.0, i + 1);
        assert((head + rest.1)[t - i] == rest.1[t - i - 1]);
    }
}

/// Match the buys (best price first, then id) against the sells (cheapest
/// first, then id) at one candidate price. Each willing buy takes, in turn,
/// what it can from the willing sells of other corporations, in order.
/// Returns the matched volume and each buy's and each sell's fill, in the
/// order given.
pub fn match_at_price(buys: &Vec<BookOrder>, sells: &Vec<BookOrder>) -> (r: (u32, Vec<u32>, Vec<u32>))
    requires
        total(eligible_units(buys@)) <= u32::MAX || total(eligible_units(sells@)) <= u32::MAX,
    ensures
        r.1@ == buy_fills(buys@, sells@),
        r.2@ == sell_fills(buys@, sells@),
        r.0 == total(buy_fills(buys@, sells@)),
{
    proof {
        matching_conserves_units(buys@, sells@);
        lemma_match_from_shape(buys@, sells@, units_of(sells@), 0);
        assert forall|k: int| 0 <= k < buys@.len() implies #[trigger] buy_fills(buys@, sells@)[k] <= eligible_units(buys@)[k] by {
            assert(match_from(buys@, sells@, units_of(sells@), 0).1[0 + k] == buy_fills(buys@, sells@)[k]);
        }
        assert forall|k: int| 0 <= k < sells@.len() implies #[trigger] sell_fills(buys@, sells@)[k] <= eligible_units(sells@)[k] by {}
        lemma_total_le(buy_fills(buys@, sells@), eligible_units(buys@));
        lemma_total_le(sell_fills(buys@, sells@), eligible_units(sells@));
    }
    let ghost sl0 = units_of(sells@);
    let mut sell_left: Vec<u32> = Vec::new();
    let mut j: usize = 0;
    while j < sells.len()
        invariant
            j <= sells@.len(),
            sell_left@ == units_of(sells@).take(j as int),
        decreases sells@.len() - j,
    {
        sell_left.push(sells[j].units);
        proof {
            assert(sell_left@ =~= units_of(sells@).take(j as int + 1));
        }
        j = j + 1;
    }
    proof {
        assert(sell_left@ =~= sl0);
    }
    let ghost full = match_from(buys@, sells@, sl0, 0);
    let mut fills: Vec<u32> = Vec::new();
    let mut volume: u64 = 0;
    let mut i: usize = 0;
    proof {
        lemma_match_from_shape(buys@, sells@, sl0, 0);
        assert(fills@ + full.1 =~= full.1);
    }
    while i < buys.len()
        invariant
            i <= buys@.len(),
            sell_left@.len() == sells@.len(),
            full == match_from(buys@, sells@, sl0, 0),
            full.0 == match_from(buys@, sells@, sell_left@, i as int).0,
            full.1 == fills@ + match_from(buys@, sells@, sell_left@, i as int).1,
            volume == total(fills@),
            total(full.1) <= u32::MAX,
            full.1 == buy_fills(buys@, sells@),
        decreases buys@.len() - i,
    {
        let b = buys[i];
        let ghost before = sell_left@;
        let mut left: u32 = b.units;
        if b.eligible {
            let mut k: usize = 0;
            while k < sells.len()
                invariant
                    k <= sells@.len(),
                    sell_left@.len() == sells@.len(),
                    b == buys@[i as int],
                    fill_buy(b, sells@, before, 0, b.units) == fill_buy(b, sells@, sell_left@, k as int, left),
                ensures
                    sell_left@.len() == sells@.len(),
                    fill_buy(b, sells@, before, 0, b.units) == (sell_left@, left),
                decreases sells@.len() - k,
            {
                if left == 0 {
                    break;
                }
                let s = sells[k];
                if s.eligible && s.player != b.player && sell_left[k] > 0 {
                    let have = sell_left[k];
                    let f = if left <= have { left } else { have };
                    sell_left.set(k, have - f);
                    left = left - f;
                }
                k = k + 1;
            }
        }
        proof {
            if b.eligible {
                lemma_fill_buy_shape(b, sells@, before, 0, b.units);
            }
        }
        let fill = b.units - left;
        proof {
            lemma_match_from_shape(buys@, sells@, before, i as int);
            lemma_total_concat(fills@, seq![fill]);
            lemma_total_concat(fills@.push(fill), match_from(buys@, sells@, sell_left@, i as int + 1).1);
            lemma_total_concat(fills@, match_from(buys@, sells@, before, i as int).1);
            lemma_match_from_shape(buys@, sells@, sell_left@, i as int + 1);
            assert(fills@.push(fill) + match_from(buys@, sells@, sell_left@, i as int + 1).1
                =~= fills@ + match_from(buys@, sells@, before, i as int).1);
        }
        fills.push(fill);
        volume = volume + fill as u64;
        i = i + 1;
    }
    let mut sold: Vec<u32> = Vec::new();
    let mut m: usize = 0;
    proof {
        lemma_match_from_shape(buys@, sells@, sl0, 0);
    }
    while m < sells.len()
        invariant
            m <= sells@.len(),
            sell_left@.len() == sells@.len(),
            sell_left@ == full.0,
            full == match_from(buys@, sells@, sl0, 0),
            forall|k: int| 0 <= k < sells@.len() ==> full.0[k] <= sl0[k],
            sl0 == units_of(sells@),
            sold@ == sell_fills(buys@, sells@).take(m as int),
        decreases sells@.len() - m,
    {
        proof {
            assert(full.0[m as int] <= sl0[m as int]);
        }
        sold.push(sells[m].units - sell_left[m]);
        proof {
            assert(sold@ =~= sell_fills(buys@, sells@).take(m as int + 1));
        }
        m = m + 1;
    }
    proof {
        assert(fills@ + Seq::<u32>::empty() =~= fills@);
        assert(sold@ =~= sell_fills(buys@, sells@));
    }
    (volume as u32, fills, sold)
}

} // verus!
