use nft_marketplace::address::Address;
use nft_marketplace::auction::{create_auction, AuctionError, AuctionState};
use nft_marketplace::custody::{Holder, Movement};
use nft_marketplace::marketplace::MarketplaceState;

fn addr(b: u8) -> Address {
    Address::new([b; 32])
}

fn market(fee_bps: u16, paused: bool) -> MarketplaceState {
    MarketplaceState {
        authority: addr(90),
        fee_basis_points: fee_bps,
        treasury: addr(91),
        treasury_bump: 0,
        is_paused: paused,
        total_volume: 0,
        total_sales: 0,
        bump: 0,
    }
}

fn open_auction(start: i64, end: i64, reserve: u64, inc: u64) -> AuctionState {
    let (a, mvs) = create_auction(&market(250, false), addr(1), addr(2), start, end, reserve, inc, start, 7).unwrap();
    assert_eq!(mvs, vec![Movement::Item { from: Holder::Account(addr(1)), to: Holder::Custody }]);
    a
}

#[test]
fn auction_scenario_reserve_met_pays_fee_and_seller() {
    let m = market(250, false);
    let mut a = open_auction(1000, 4600, 1000, 100);
    let bid_a = a.place_bid(addr(10), 1000, 1100).unwrap();
    assert_eq!(bid_a, vec![Movement::Value { from: Holder::Account(addr(10)), to: Holder::Custody, amount: 1000 }]);
    let bid_b = a.place_bid(addr(11), 1100, 1200).unwrap();
    assert_eq!(
        bid_b,
        vec![
            Movement::Value { from: Holder::Custody, to: Holder::Account(addr(10)), amount: 1000 },
            Movement::Value { from: Holder::Account(addr(11)), to: Holder::Custody, amount: 1100 },
        ]
    );
    let settle = a.claim_auction(&m, 4600).unwrap();
    assert_eq!(
        settle,
        vec![
            Movement::Value { from: Holder::Custody, to: Holder::Account(addr(91)), amount: 27 },
            Movement::Value { from: Holder::Custody, to: Holder::Account(addr(1)), amount: 1073 },
            Movement::Item { from: Holder::Custody, to: Holder::Account(addr(11)) },
        ]
    );
    assert!(a.is_settled);
    assert_eq!(a.total_bids, 2);
    assert_eq!(a.claim_auction(&m, 5000), Err(AuctionError::AuctionAlreadySettled));
}

#[test]
fn auction_creation_duration_bounds() {
    let m = market(0, false);
    let c = |end: i64| create_auction(&m, addr(1), addr(2), 0, end, 10, 1, 0, 0).map(|(a, _)| a.end_time);
    assert_eq!(c(3599), Err(AuctionError::AuctionTooShort));
    assert_eq!(c(3600), Ok(3600));
    assert_eq!(c(2592000), Ok(2592000));
    assert_eq!(c(2592001), Err(AuctionError::AuctionTooLong));
}

#[test]
fn auction_creation_errors() {
    let m = market(0, false);
    let c = |m: &MarketplaceState, start: i64, end: i64, reserve: u64, inc: u64| {
        create_auction(m, addr(1), addr(2), start, end, reserve, inc, 100, 0).map(|_| ())
    };
    assert_eq!(c(&market(0, true), 100, 4000, 10, 1), Err(AuctionError::MarketplacePaused));
    assert_eq!(c(&m, 99, 4000, 10, 1), Err(AuctionError::InvalidStartTime));
    assert_eq!(c(&m, 200, 200, 10, 1), Err(AuctionError::InvalidEndTime));
    assert_eq!(c(&m, 200, 4000, 0, 1), Err(AuctionError::InvalidReservePrice));
    assert_eq!(c(&m, 200, 4000, 10, 0), Err(AuctionError::InvalidBidIncrement));
    assert_eq!(c(&m, i64::MIN + 1000, i64::MAX, 10, 1).is_err(), true);
    let wide = create_auction(&m, addr(1), addr(2), -10, i64::MAX, 10, 1, -20, 0);
    assert_eq!(wide.map(|_| ()), Err(AuctionError::AuctionTooLong));
}

#[test]
fn auction_bid_errors() {
    let mut a = open_auction(1000, 5000, 500, 50);
    assert_eq!(a.place_bid(addr(10), 500, 999), Err(AuctionError::AuctionNotStarted));
    assert_eq!(a.place_bid(addr(10), 500, 5000), Err(AuctionError::AuctionEnded));
    assert_eq!(a.place_bid(addr(10), 499, 1000), Err(AuctionError::BidBelowReserve));
    a.place_bid(addr(10), 500, 1000).unwrap();
    assert_eq!(a.place_bid(addr(11), 549, 1001), Err(AuctionError::BidTooLow));
    assert_eq!(a.highest_bid, 500);
    a.place_bid(addr(11), 550, 1001).unwrap();
    assert_eq!(a.highest_bidder, Some(addr(11)));
}

#[test]
fn auction_bid_overflows_are_refused() {
    let mut a = open_auction(0, 3600, 10, u64::MAX);
    a.place_bid(addr(10), 10, 1).unwrap();
    let before = a;
    assert_eq!(a.place_bid(addr(11), u64::MAX, 2), Err(AuctionError::MathOverflow));
    assert_eq!(a, before);
    let mut b = open_auction(0, 3600, 10, 1);
    b.place_bid(addr(10), 10, 1).unwrap();
    b.total_bids = u64::MAX;
    assert_eq!(b.place_bid(addr(11), 20, 2), Err(AuctionError::MathOverflow));
    let mut c = open_auction(i64::MAX - 3700, i64::MAX, 10, 1);
    assert_eq!(c.place_bid(addr(10), 10, i64::MAX - 100), Err(AuctionError::MathOverflow));
    assert_eq!(c.total_bids, 0);
}

#[test]
fn auction_anti_snipe_extends_only_in_last_ten_minutes() {
    let mut a = open_auction(0, 10000, 10, 1);
    a.place_bid(addr(10), 10, 9399).unwrap();
    assert_eq!(a.end_time, 10000);
    a.place_bid(addr(11), 11, 9400).unwrap();
    assert_eq!(a.end_time, 10000);
    a.place_bid(addr(12), 12, 9500).unwrap();
    assert_eq!(a.end_time, 10100);
    a.place_bid(addr(13), 13, 10099).unwrap();
    assert_eq!(a.end_time, 10699);
}

#[test]
fn auction_refunds_add_up_to_bids_taken_in() {
    let mut a = open_auction(0, 3600, 100, 10);
    let mut taken_in: u64 = 0;
    let mut paid_out: u64 = 0;
    let bids = [(addr(10), 100u64), (addr(11), 150), (addr(10), 160), (addr(12), 300), (addr(13), 310)];
    let mut previous: Option<(Address, u64)> = None;
    for (i, (bidder, amount)) in bids.iter().enumerate() {
        let mvs = a.place_bid(*bidder, *amount, 10 + i as i64).unwrap();
        for m in mvs.iter() {
            match m {
                Movement::Value { from: Holder::Custody, to: Holder::Account(who), amount } => {
                    assert_eq!(Some((*who, *amount)), previous);
                    paid_out += amount;
                }
                Movement::Value { to: Holder::Custody, amount, .. } => taken_in += amount,
                _ => panic!("unexpected movement"),
            }
        }
        previous = Some((*bidder, *amount));
    }
    assert_eq!(a.total_bids, 5);
    assert_eq!(taken_in, paid_out + a.highest_bid);
    assert_eq!(taken_in, 1020);
    assert_eq!(a.place_bid(addr(14), 319, 20), Err(AuctionError::BidTooLow));
    assert_eq!(a.total_bids, 5);
}

#[test]
fn auction_claim_without_bids_returns_item() {
    let m = market(250, false);
    let mut a = open_auction(0, 3600, 100, 10);
    assert_eq!(a.claim_auction(&m, 3599), Err(AuctionError::AuctionNotEnded));
    let mvs = a.claim_auction(&m, 3600).unwrap();
    assert_eq!(mvs, vec![Movement::Item { from: Holder::Custody, to: Holder::Account(addr(1)) }]);
    assert!(a.is_settled);
    assert_eq!(a.place_bid(addr(10), 100, 10), Err(AuctionError::AuctionAlreadySettled));
}

#[test]
fn auction_claim_zero_fee_has_no_fee_transfer() {
    let m = market(0, false);
    let mut a = open_auction(0, 3600, 100, 10);
    a.place_bid(addr(10), 120, 5).unwrap();
    let mvs = a.claim_auction(&m, 4000).unwrap();
    assert_eq!(
        mvs,
        vec![
            Movement::Value { from: Holder::Custody, to: Holder::Account(addr(1)), amount: 120 },
            Movement::Item { from: Holder::Custody, to: Holder::Account(addr(10)) },
        ]
    );
}

#[test]
fn auction_claim_fee_overflow_is_refused() {
    let m = market(20000, false);
    let mut a = open_auction(0, 3600, 100, 10);
    a.place_bid(addr(10), 120, 5).unwrap();
    assert_eq!(a.claim_auction(&m, 4000), Err(AuctionError::MathOverflow));
    assert!(!a.is_settled);
}

#[test]
fn auction_cancel_rules() {
    let m = market(0, false);
    let mut a = open_auction(0, 3600, 100, 10);
    assert_eq!(a.cancel_auction(addr(5)), Err(AuctionError::Unauthorized));
    let mvs = a.cancel_auction(addr(1)).unwrap();
    assert_eq!(mvs, vec![Movement::Item { from: Holder::Custody, to: Holder::Account(addr(1)) }]);
    assert_eq!(a.cancel_auction(addr(1)), Err(AuctionError::AuctionAlreadyCanceled));
    assert_eq!(a.place_bid(addr(10), 100, 10), Err(AuctionError::AuctionCanceled));
    assert_eq!(a.claim_auction(&m, 4000), Err(AuctionError::AuctionCanceled));
    let mut b = open_auction(0, 3600, 100, 10);
    b.place_bid(addr(10), 100, 10).unwrap();
    assert_eq!(b.cancel_auction(addr(1)), Err(AuctionError::AuctionHasBids));
    b.claim_auction(&m, 3600).unwrap();
    assert_eq!(b.cancel_auction(addr(1)), Err(AuctionError::AuctionAlreadySettled));
}

#[test]
fn auction_emergency_refund_is_admin_only() {
    let m = market(0, false);
    let mut a = open_auction(0, 3600, 100, 10);
    a.place_bid(addr(10), 140, 10).unwrap();
    assert_eq!(a.emergency_refund(&m, addr(1), addr(10)), Err(AuctionError::Unauthorized));
    let before = a;
    let mvs = a.emergency_refund(&m, addr(90), addr(10)).unwrap();
    assert_eq!(mvs, vec![Movement::Value { from: Holder::Custody, to: Holder::Account(addr(10)), amount: 140 }]);
    assert_eq!(a, before);
}
