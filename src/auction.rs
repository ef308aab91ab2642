use vstd::prelude::*;

use crate::address::Address;
use crate::custody::{Holder, Movement, value, item, custody_inflow, custody_outflow, lemma_flows_concat, lemma_flows_single};
use crate::marketplace::{MarketplaceState, platform_fee};

verus! {

/// The shortest auction, in seconds (one hour).
pub const MIN_AUCTION_DURATION: i64 = 3600;

/// The longest auction, in seconds (thirty days).
pub const MAX_AUCTION_DURATION: i64 = 2592000;

/// A bid placed this close to the end, in seconds, pushes the end to this far after the bid.
pub const ANTI_SNIPE_WINDOW: i64 = 600;

/// Why an auction operation was refused.
#[derive(Clone, Copy, Debug, PartialEq, Eq, Structural)]
pub enum AuctionError {
    InvalidStartTime,
    InvalidEndTime,
    InvalidReservePrice,
    InvalidBidIncrement,
    AuctionTooShort,
    AuctionTooLong,
    AuctionNotStarted,
    AuctionEnded,
    AuctionNotEnded,
    BidBelowReserve,
    BidTooLow,
    AuctionAlreadySettled,
    AuctionCanceled,
    AuctionAlreadyCanceled,
    AuctionHasBids,
    MarketplacePaused,
    MathOverflow,
    Unauthorized,
}

/// An ascending auction of one item, held in the auction's custody.
#[derive(Clone, Copy, Debug, PartialEq, Eq)]
pub struct AuctionState {
    pub seller: Address,
    pub mint: Address,
    pub start_time: i64,
    pub end_time: i64,
    pub reserve_price: u64,
    pub min_bid_increment: u64,
    /// The best bid so far, held in custody; 0 while there is none.
    pub highest_bid: u64,
    pub highest_bidder: Option<Address>,
    pub total_bids: u64,
    pub is_settled: bool,
    pub is_canceled: bool,
    pub bump: u8,
}

impl AuctionState {
    /// The invariant of every auction record.
    pub open spec fn wf(self) -> bool {
        &&& self.start_time < self.end_time
        &&& self.reserve_price > 0
        &&& self.min_bid_increment > 0
        &&& (self.highest_bid == 0 <==> self.highest_bidder is None)
        &&& self.highest_bid > 0 ==> self.highest_bid >= self.reserve_price && self.total_bids > 0
        &&& !(self.is_settled && self.is_canceled)
    }

    /// Settled or canceled: no operation changes the record any more.
    pub open spec fn is_terminal(self) -> bool {
        self.is_settled || self.is_canceled
    }
}

/// The error that `create_auction` gives, if any, checked in this order.
pub open spec fn create_error(
    paused: bool,
    now: i64,
    start_time: i64,
    end_time: i64,
    reserve_price: u64,
    min_bid_increment: u64,
) -> Option<AuctionError> {
    if paused {
        Some(AuctionError::MarketplacePaused)
    } else if start_time < now {
        Some(AuctionError::InvalidStartTime)
    } else if end_time <= start_time {
        Some(AuctionError::InvalidEndTime)
    } else if reserve_price == 0 {
        Some(AuctionError::InvalidReservePrice)
    } else if min_bid_increment == 0 {
        Some(AuctionError::InvalidBidIncrement)
    } else if end_time - start_time < MIN_AUCTION_DURATION {
        Some(AuctionError::AuctionTooShort)
    } else if end_time - start_time > MAX_AUCTION_DURATION {
        Some(AuctionError::AuctionTooLong)
    } else {
        None
    }
}

/// The smallest bid that the auction accepts next.
pub open spec fn required_bid(a: AuctionState) -> int {
    if a.highest_bid == 0 {
        a.reserve_price as int
    } else {
        a.highest_bid + a.min_bid_increment
    }
}

/// Whether a bid at `now` falls in the anti-snipe window.
pub open spec fn in_snipe_window(a: AuctionState, now: i64) -> bool {
    a.end_time - now <= ANTI_SNIPE_WINDOW
}

/// The error that `place_bid` gives, if any, checked in this order.
pub open spec fn bid_error(a: AuctionState, amount: u64, now: i64) -> Option<AuctionError> {
    if a.is_settled {
        Some(AuctionError::AuctionAlreadySettled)
    } else if a.is_canceled {
        Some(AuctionError::AuctionCanceled)
    } else if now < a.start_time {
        Some(AuctionError::AuctionNotStarted)
    } else if now >= a.end_time {
        Some(AuctionError::AuctionEnded)
    } else if amount < a.reserve_price {
        Some(AuctionError::BidBelowReserve)
    } else if required_bid(a) > u64::MAX {
        Some(AuctionError::MathOverflow)
    } else if amount < required_bid(a) {
        Some(AuctionError::BidTooLow)
    } else if a.total_bids == u64::MAX {
        Some(AuctionError::MathOverflow)
    } else if in_snipe_window(a, now) && now + ANTI_SNIPE_WINDOW > i64::MAX {
        Some(AuctionError::MathOverflow)
    } else {
        None
    }
}

/// The record after an accepted bid.
pub open spec fn after_bid(a: AuctionState, bidder: Address, amount: u64, now: i64) -> AuctionState {
    AuctionState {
        highest_bid: amount,
        highest_bidder: Some(bidder),
        total_bids: (a.total_bids + 1) as u64,
        end_time: if in_snipe_window(a, now) {
            (now + ANTI_SNIPE_WINDOW) as i64
        } else {
            a.end_time
        },
        ..a
    }
}

/// The movements of an accepted bid: the displaced bid, if any, goes back to
/// its bidder first; then the new bid comes into custody.
pub open spec fn bid_movements(a: AuctionState, bidder: Address, amount: u64) -> Seq<Movement> {
    let collect = value(Holder::Account(bidder), Holder::Custody, amount);
    match a.highest_bidder {
        Some(previous) => if a.highest_bid > 0 {
            seq![value(Holder::Custody, Holder::Account(previous), a.highest_bid), collect]
        } else {
            seq![collect]
        },
        None => seq![collect],
    }
}

/// The error that `claim_auction` gives, if any, checked in this order.
pub open spec fn claim_error(a: AuctionState, m: MarketplaceState, now: i64) -> Option<AuctionError> {
    if a.is_settled {
        Some(AuctionError::AuctionAlreadySettled)
    } else if a.is_canceled {
        Some(AuctionError::AuctionCanceled)
    } else if now < a.end_time {
        Some(AuctionError::AuctionNotEnded)
    } else if a.highest_bid >= a.reserve_price && platform_fee(m, a.highest_bid) > a.highest_bid {
        Some(AuctionError::MathOverflow)
    } else {
        None
    }
}

/// The movements of a settlement without sale: the item back to the seller,
/// and the highest bid, if any, back to its bidder.
pub open spec fn no_sale_movements(a: AuctionState) -> Seq<Movement> {
    let item_back = item(Holder::Custody, Holder::Account(a.seller));
    match a.highest_bidder {
        Some(bidder) => if a.highest_bid > 0 {
            seq![item_back, value(Holder::Custody, Holder::Account(bidder), a.highest_bid)]
        } else {
            seq![item_back]
        },
        None => seq![item_back],
    }
}

/// The movements of a sale at `highest_bid` with fee `fee` to `treasury`:
/// the fee (when not zero), the rest to the seller, the item to the winner.
pub open spec fn sale_movements(a: AuctionState, treasury: Address, fee: int) -> Seq<Movement> {
    let fee_part = if fee > 0 {
        seq![value(Holder::Custody, Holder::Account(treasury), fee as u64)]
    } else {
        Seq::empty()
    };
    let winner = match a.highest_bidder {
        Some(w) => w,
        None => a.seller,
    };
    fee_part + seq![
        value(Holder::Custody, Holder::Account(a.seller), (a.highest_bid - fee) as u64),
        item(Holder::Custody, Holder::Account(winner)),
    ]
}

/// The movements of a settlement: a sale when the reserve is met, else none.
pub open spec fn claim_movements(a: AuctionState, m: MarketplaceState) -> Seq<Movement> {
    if a.highest_bid < a.reserve_price {
        no_sale_movements(a)
    } else {
        sale_movements(a, m.treasury, platform_fee(m, a.highest_bid))
    }
}

/// The error that `cancel_auction` gives, if any, checked in this order.
pub open spec fn cancel_error(a: AuctionState, caller: Address) -> Option<AuctionError> {
    if caller != a.seller {
        Some(AuctionError::Unauthorized)
    } else if a.is_settled {
        Some(AuctionError::AuctionAlreadySettled)
    } else if a.is_canceled {
        Some(AuctionError::AuctionAlreadyCanceled)
    } else if a.total_bids != 0 {
        Some(AuctionError::AuctionHasBids)
    } else {
        None
    }
}

/// Opens an auction of `mint` by `seller` over `[start_time, end_time)`,
/// taking the item into custody. `now` is the current time.
pub fn create_auction(
    marketplace: &MarketplaceState,
    seller: Address,
    mint: Address,
    start_time: i64,
    end_time: i64,
    reserve_price: u64,
    min_bid_increment: u64,
    now: i64,
    bump: u8,
) -> (r: Result<(AuctionState, Vec<Movement>), AuctionError>)
    ensures
        match create_error(marketplace.is_paused, now, start_time, end_time, reserve_price, min_bid_increment) {
            Some(e) => r == Err::<(AuctionState, Vec<Movement>), AuctionError>(e),
            None => r is Ok,
        },
        r is Ok ==> {
            let (a, mvs) = r->Ok_0;
            &&& a == (AuctionState {
                seller,
                mint,
                start_time,
                end_time,
                reserve_price,
                min_bid_increment,
                highest_bid: 0,
                highest_bidder: None,
                total_bids: 0,
                is_settled: false,
                is_canceled: false,
                bump,
            })
            &&& a.wf()
            &&& mvs@ == seq![item(Holder::Account(seller), Holder::Custody)]
        },
{
    if marketplace.is_paused {
        return Err(AuctionError::MarketplacePaused);
    }
    if start_time < now {
        return Err(AuctionError::InvalidStartTime);
    }
    if end_time <= start_time {
        return Err(AuctionError::InvalidEndTime);
    }
    if reserve_price == 0 {
        return Err(AuctionError::InvalidReservePrice);
    }
    if min_bid_increment == 0 {
        return Err(AuctionError::InvalidBidIncrement);
    }
    let duration: i128 = end_time as i128 - start_time as i128;
    if duration < MIN_AUCTION_DURATION as i128 {
        return Err(AuctionError::AuctionTooShort);
    }
    if duration > MAX_AUCTION_DURATION as i128 {
        return Err(AuctionError::AuctionTooLong);
    }
    let auction = AuctionState {
        seller,
        mint,
        start_time,
        end_time,
        reserve_price,
        min_bid_increment,
        highest_bid: 0,
        highest_bidder: None,
        total_bids: 0,
        is_settled: false,
        is_canceled: false,
        bump,
    };
    Ok((auction, vec![Movement::Item { from: Holder::Account(seller), to: Holder::Custody }]))
}

impl AuctionState {
    /// Places a bid of `bid_amount` by `bidder` at time `now`. The displaced
    /// highest bid, if any, is refunded first, then the new bid is collected;
    /// a bid in the last ten minutes moves the end to ten minutes after it.
    pub fn place_bid(&mut self, bidder: Address, bid_amount: u64, now: i64) -> (r: Result<Vec<Movement>, AuctionError>)
        requires
            old(self).wf(),
        ensures
            final(self).wf(),
            match bid_error(*old(self), bid_amount, now) {
                Some(e) => r == Err::<Vec<Movement>, AuctionError>(e) && *final(self) == *old(self),
                None => r is Ok
                    && *final(self) == after_bid(*old(self), bidder, bid_amount, now)
                    && r->Ok_0@ == bid_movements(*old(self), bidder, bid_amount),
            },
            r is Ok ==> bid_amount >= required_bid(*old(self)),
            r is Ok && old(self).end_time - now <= ANTI_SNIPE_WINDOW ==> final(self).end_time == now + ANTI_SNIPE_WINDOW,
            r is Ok && old(self).end_time - now > ANTI_SNIPE_WINDOW ==> final(self).end_time == old(self).end_time,
    {
        if self.is_settled {
            return Err(AuctionError::AuctionAlreadySettled);
        }
        if self.is_canceled {
            return Err(AuctionError::AuctionCanceled);
        }
        if now < self.start_time {
            return Err(AuctionError::AuctionNotStarted);
        }
        if now >= self.end_time {
            return Err(AuctionError::AuctionEnded);
        }
        if bid_amount < self.reserve_price {
            return Err(AuctionError::BidBelowReserve);
        }
        let required = if self.highest_bid == 0 {
            self.reserve_price
        } else {
            match self.highest_bid.checked_add(self.min_bid_increment) {
                Some(v) => v,
                None => return Err(AuctionError::MathOverflow),
            }
        };
        if bid_amount < required {
            return Err(AuctionError::BidTooLow);
        }
        let total_bids = match self.total_bids.checked_add(1) {
            Some(n) => n,
            None => return Err(AuctionError::MathOverflow),
        };
        let remaining: i128 = self.end_time as i128 - now as i128;
        let end_time = if remaining <= ANTI_SNIPE_WINDOW as i128 {
            match now.checked_add(ANTI_SNIPE_WINDOW) {
                Some(t) => t,
                None => return Err(AuctionError::MathOverflow),
            }
        } else {
            self.end_time
        };
        let mut movements: Vec<Movement> = Vec::new();
        match self.highest_bidder {
            Some(previous) => {
                if self.highest_bid > 0 {
                    movements.push(Movement::Value {
                        from: Holder::Custody,
                        to: Holder::Account(previous),
                        amount: self.highest_bid,
                    });
                }
            },
            None => {},
        }
        movements.push(Movement::Value { from: Holder::Account(bidder), to: Holder::Custody, amount: bid_amount });
        self.highest_bid = bid_amount;
        self.highest_bidder = Some(bidder);
        self.total_bids = total_bids;
        self.end_time = end_time;
        proof {
            assert(movements@ =~= bid_movements(*old(self), bidder, bid_amount));
        }
        Ok(movements)
    }

    /// Settles the auction once it has ended; anyone may call. Below the
    /// reserve the item goes back to the seller and the highest bid, if any,
    /// back to its bidder; otherwise the fee goes to the treasury, the rest
    /// of the highest bid to the seller and the item to the highest bidder.
    pub fn claim_auction(&mut self, marketplace: &MarketplaceState, now: i64) -> (r: Result<Vec<Movement>, AuctionError>)
        requires
            old(self).wf(),
        ensures
            final(self).wf(),
            match claim_error(*old(self), *marketplace, now) {
                Some(e) => r == Err::<Vec<Movement>, AuctionError>(e) && *final(self) == *old(self),
                None => r is Ok
                    && *final(self) == (AuctionState { is_settled: true, ..*old(self) })
                    && r->Ok_0@ == claim_movements(*old(self), *marketplace),
            },
            r is Ok && old(self).highest_bid < old(self).reserve_price ==> r->Ok_0@ == no_sale_movements(*old(self)),
            r is Ok && old(self).highest_bid >= old(self).reserve_price ==> r->Ok_0@ == sale_movements(
                *old(self),
                marketplace.treasury,
                platform_fee(*marketplace, old(self).highest_bid),
            ),
            marketplace.wf() && !old(self).is_terminal() && now >= old(self).end_time ==> r is Ok,
    {
        if self.is_settled {
            return Err(AuctionError::AuctionAlreadySettled);
        }
        if self.is_canceled {
            return Err(AuctionError::AuctionCanceled);
        }
        if now < self.end_time {
            return Err(AuctionError::AuctionNotEnded);
        }
        let mut movements: Vec<Movement> = Vec::new();
        if self.highest_bid < self.reserve_price {
            movements.push(Movement::Item { from: Holder::Custody, to: Holder::Account(self.seller) });
            if self.highest_bid > 0 {
                match self.highest_bidder {
                    Some(bidder) => {
                        movements.push(Movement::Value {
                            from: Holder::Custody,
                            to: Holder::Account(bidder),
                            amount: self.highest_bid,
                        });
                    },
                    None => {},
                }
            }
            proof {
                assert(movements@ =~= no_sale_movements(*old(self)));
            }
        } else {
            let fee = match marketplace.calculate_platform_fee(self.highest_bid) {
                Ok(f) => f,
                Err(_) => return Err(AuctionError::MathOverflow),
            };
            let proceeds = match self.highest_bid.checked_sub(fee) {
                Some(p) => p,
                None => return Err(AuctionError::MathOverflow),
            };
            let winner = match self.highest_bidder {
                Some(w) => w,
                None => self.seller,
            };
            if fee > 0 {
                movements.push(Movement::Value {
                    from: Holder::Custody,
                    to: Holder::Account(marketplace.treasury),
                    amount: fee,
                });
            }
            movements.push(Movement::Value { from: Holder::Custody, to: Holder::Account(self.seller), amount: proceeds });
            movements.push(Movement::Item { from: Holder::Custody, to: Holder::Account(winner) });
            proof {
                assert(movements@ =~= sale_movements(
                    *old(self),
                    marketplace.treasury,
                    platform_fee(*marketplace, old(self).highest_bid),
                ));
            }
        }
        self.is_settled = true;
        Ok(movements)
    }

    /// Cancels the auction and returns the item to the seller; only the
    /// seller may, and only before the first bid.
    pub fn cancel_auction(&mut self, caller: Address) -> (r: Result<Vec<Movement>, AuctionError>)
        requires
            old(self).wf(),
        ensures
            final(self).wf(),
            match cancel_error(*old(self), caller) {
                Some(e) => r == Err::<Vec<Movement>, AuctionError>(e) && *final(self) == *old(self),
                None => r is Ok
                    && *final(self) == (AuctionState { is_canceled: true, ..*old(self) })
                    && r->Ok_0@ == seq![item(Holder::Custody, Holder::Account(old(self).seller))],
            },
    {
        if caller != self.seller {
            return Err(AuctionError::Unauthorized);
        }
        if self.is_settled {
            return Err(AuctionError::AuctionAlreadySettled);
        }
        if self.is_canceled {
            return Err(AuctionError::AuctionAlreadyCanceled);
        }
        if self.total_bids != 0 {
            return Err(AuctionError::AuctionHasBids);
        }
        self.is_canceled = true;
        Ok(vec![Movement::Item { from: Holder::Custody, to: Holder::Account(self.seller) }])
    }

    /// The administrator's escape hatch for stuck funds: pays the current
    /// highest bid out of custody to `recipient`. It leaves the record as it
    /// is, whatever its state; only the marketplace authority may call it.
    pub fn emergency_refund(&self, marketplace: &MarketplaceState, admin: Address, recipient: Address) -> (r: Result<Vec<Movement>, AuctionError>)
        ensures
            admin != marketplace.authority ==> r == Err::<Vec<Movement>, AuctionError>(AuctionError::Unauthorized),
            admin == marketplace.authority ==> r is Ok
                && r->Ok_0@ == seq![value(Holder::Custody, Holder::Account(recipient), self.highest_bid)],
    {
        if admin != marketplace.authority {
            return Err(AuctionError::Unauthorized);
        }
        Ok(vec![Movement::Value { from: Holder::Custody, to: Holder::Account(recipient), amount: self.highest_bid }])
    }
}

/// On parameters that pass every other check, creation is refused exactly
/// when the duration `end_time - start_time` lies outside one hour to thirty
/// days, and accepted exactly when it lies inside.
pub proof fn lemma_creation_window(
    now: i64,
    start_time: i64,
    end_time: i64,
    reserve_price: u64,
    min_bid_increment: u64,
)
    requires
        start_time >= now,
        end_time > start_time,
        reserve_price > 0,
        min_bid_increment > 0,
    ensures
        create_error(false, now, start_time, end_time, reserve_price, min_bid_increment) is None
            <==> MIN_AUCTION_DURATION <= end_time - start_time <= MAX_AUCTION_DURATION,
{
}

/// An accepted bid meets the required minimum, never lowers the highest bid,
/// counts once, keeps the record well formed, refunds exactly the displaced
/// bid and takes exactly the new one into custody.
pub proof fn lemma_accepted_bid(a: AuctionState, bidder: Address, amount: u64, now: i64)
    requires
        a.wf(),
        bid_error(a, amount, now) is None,
    ensures
        amount >= required_bid(a),
        after_bid(a, bidder, amount, now).highest_bid >= a.highest_bid,
        after_bid(a, bidder, amount, now).total_bids == a.total_bids + 1,
        after_bid(a, bidder, amount, now).wf(),
        custody_outflow(bid_movements(a, bidder, amount)) == a.highest_bid,
        custody_inflow(bid_movements(a, bidder, amount)) == amount,
{
    let collect = value(Holder::Account(bidder), Holder::Custody, amount);
    lemma_flows_single(collect);
    if a.highest_bid > 0 {
        let refund = value(Holder::Custody, Holder::Account(a.highest_bidder->Some_0), a.highest_bid);
        lemma_flows_single(refund);
        lemma_flows_concat(seq![refund], seq![collect]);
        assert(seq![refund] + seq![collect] =~= bid_movements(a, bidder, amount));
    } else {
        assert(bid_movements(a, bidder, amount) =~= seq![collect]);
    }
}

/// The outcome of a sequence of bid attempts `(bidder, amount, now)` on one
/// auction: the final record, every movement in order, and how many bids
/// were accepted. A refused attempt changes nothing.
pub open spec fn run_bids(a: AuctionState, bids: Seq<(Address, u64, i64)>) -> (AuctionState, Seq<Movement>, nat)
    decreases bids.len(),
{
    if bids.len() == 0 {
        (a, Seq::empty(), 0)
    } else {
        let prev = run_bids(a, bids.drop_last());
        let (bidder, amount, now) = bids.last();
        if bid_error(prev.0, amount, now) is None {
            (after_bid(prev.0, bidder, amount, now), prev.1 + bid_movements(prev.0, bidder, amount), prev.2 + 1)
        } else {
            prev
        }
    }
}

/// Over any sequence of bids on one auction the highest bid never goes down,
/// `total_bids` grows by exactly the number of accepted bids, and the value
/// brought into custody equals the refunds paid out plus the growth of the
/// highest bid: from an auction without bids, all refunds plus the final
/// highest bid equal all bids ever taken in.
pub proof fn lemma_bid_sequence(a: AuctionState, bids: Seq<(Address, u64, i64)>)
    requires
        a.wf(),
    ensures
        run_bids(a, bids).0.wf(),
        run_bids(a, bids).0.highest_bid >= a.highest_bid,
        run_bids(a, bids).0.total_bids == a.total_bids + run_bids(a, bids).2,
        custody_inflow(run_bids(a, bids).1) == custody_outflow(run_bids(a, bids).1) + run_bids(a, bids).0.highest_bid
            - a.highest_bid,
    decreases bids.len(),
{
    if bids.len() == 0 {
        assert(custody_inflow(Seq::<Movement>::empty()) == 0);
        assert(custody_outflow(Seq::<Movement>::empty()) == 0);
    } else {
        lemma_bid_sequence(a, bids.drop_last());
        let prev = run_bids(a, bids.drop_last());
        let (bidder, amount, now) = bids.last();
        if bid_error(prev.0, amount, now) is None {
            lemma_accepted_bid(prev.0, bidder, amount, now);
            lemma_flows_concat(prev.1, bid_movements(prev.0, bidder, amount));
        }
    }
}

} // verus!
