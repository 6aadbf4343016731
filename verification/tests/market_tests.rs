use sim::ids::PlayerId;
use sim::market::{match_at_price, pick_clearing, BookOrder};

fn order(id: u64, player: u64, units: u32, eligible: bool) -> BookOrder {
    BookOrder { id, player: PlayerId(player), units, eligible }
}

#[test]
fn a_corporation_never_trades_with_itself() {
    let only_self = match_at_price(&vec![order(1, 7, 10, true)], &vec![order(2, 7, 10, true)]);
    assert_eq!(only_self, (0, vec![0], vec![0]));
    let with_counterparty = match_at_price(
        &vec![order(1, 7, 10, true)],
        &vec![order(2, 7, 10, true), order(3, 8, 6, true)],
    );
    assert_eq!(with_counterparty, (6, vec![6], vec![0, 6]));
}

#[test]
fn unwilling_orders_stay_resting() {
    let r = match_at_price(
        &vec![order(1, 1, 5, false), order(2, 2, 5, true)],
        &vec![order(3, 3, 4, false), order(4, 4, 3, true)],
    );
    assert_eq!(r, (3, vec![0, 3], vec![0, 3]));
}

#[test]
fn best_buys_fill_first_from_the_cheapest_sells() {
    let r = match_at_price(
        &vec![order(1, 1, 4, true), order(2, 2, 4, true)],
        &vec![order(3, 3, 3, true), order(4, 4, 3, true)],
    );
    assert_eq!(r, (6, vec![4, 2], vec![3, 3]));
}

#[test]
fn buy_and_sell_fills_always_balance() {
    let buys = vec![order(1, 1, 7, true), order(2, 2, 2, true), order(5, 3, 9, true)];
    let sells = vec![order(3, 1, 5, true), order(4, 3, 4, true), order(6, 9, 1, true)];
    let (volume, b, s) = match_at_price(&buys, &sells);
    assert_eq!(b.iter().sum::<u32>(), volume);
    assert_eq!(s.iter().sum::<u32>(), volume);
    assert_eq!((volume, b, s), (10, vec![5, 2, 3], vec![5, 4, 1]));
}

#[test]
fn the_clearing_price_has_the_most_volume_then_least_imbalance_then_lowest_price() {
    assert_eq!(pick_clearing(&vec![]), None);
    assert_eq!(pick_clearing(&vec![(0, 3), (0, 1)]), None, "nothing matches anywhere");
    assert_eq!(pick_clearing(&vec![(5, 9), (7, 9), (6, 0)]), Some(1), "most volume");
    assert_eq!(pick_clearing(&vec![(7, 4), (7, 2), (7, 3)]), Some(1), "then least imbalance");
    assert_eq!(pick_clearing(&vec![(0, 0), (7, 2), (7, 2)]), Some(1), "then the lowest price");
}
