use liqz::liqzError;
use liqz::NFTBid;

#[test]
fn trade_takes_units_and_keeps_price() {
    let mut bid = NFTBid { price: 10, qty: 3 };
    assert_eq!(bid.trade(1), Ok(()));
    assert_eq!(bid, NFTBid { price: 10, qty: 2 });
    assert_eq!(bid.trade(1), Ok(()));
    assert_eq!(bid, NFTBid { price: 10, qty: 1 });
}

#[test]
fn trade_of_last_unit_clears_price() {
    let mut bid = NFTBid { price: 10, qty: 1 };
    assert_eq!(bid.trade(1), Ok(()));
    assert_eq!(bid, NFTBid { price: 0, qty: 0 });
}

#[test]
fn trade_of_all_units_at_once_clears_price() {
    let mut bid = NFTBid { price: 7, qty: 5 };
    assert_eq!(bid.trade(5), Ok(()));
    assert_eq!(bid, NFTBid { price: 0, qty: 0 });
}

#[test]
fn trade_of_nothing_changes_nothing_of_a_live_bid() {
    let mut bid = NFTBid { price: 7, qty: 5 };
    assert_eq!(bid.trade(0), Ok(()));
    assert_eq!(bid, NFTBid { price: 7, qty: 5 });
}

#[test]
fn overtrade_is_refused_and_changes_nothing() {
    let mut bid = NFTBid { price: 10, qty: 3 };
    assert_eq!(bid.trade(4), Err(liqzError::NFTOvertrade));
    assert_eq!(bid, NFTBid { price: 10, qty: 3 });
    let mut empty = NFTBid { price: 0, qty: 0 };
    assert_eq!(empty.trade(1), Err(liqzError::NFTOvertrade));
    assert_eq!(empty, NFTBid { price: 0, qty: 0 });
    let mut full = NFTBid { price: 1, qty: u64::MAX - 1 };
    assert_eq!(full.trade(u64::MAX), Err(liqzError::NFTOvertrade));
    assert_eq!(full, NFTBid { price: 1, qty: u64::MAX - 1 });
}

#[test]
fn set_overwrites_the_offer() {
    let mut bid = NFTBid { price: 10, qty: 3 };
    bid.set(25, 2);
    assert_eq!(bid, NFTBid { price: 25, qty: 2 });
}

#[test]
fn cancel_empties_the_offer() {
    let mut bid = NFTBid { price: 10, qty: 3 };
    bid.cancel();
    assert_eq!(bid, NFTBid { price: 0, qty: 0 });
}

#[test]
fn set_then_cancel_restores_the_empty_bid() {
    for (price, qty) in [(1u64, 1u64), (10, 3), (u64::MAX, u64::MAX), (0, 9)] {
        let mut bid = NFTBid { price: 0, qty: 0 };
        bid.set(price, qty);
        bid.cancel();
        assert_eq!(bid, NFTBid { price: 0, qty: 0 });
    }
}

#[test]
fn bid_account_has_room_for_tag_and_two_integers() {
    assert_eq!(NFTBid::account_size(), 24);
    assert_eq!(NFTBid { price: 1, qty: 2 }.encode().len(), 24);
}
