use vstd::prelude::*;

use crate::address::Address;
use crate::custody::{Holder, Movement, value, item};
use crate::marketplace::{MarketplaceState, platform_fee};

verus! {

/// Why a listing operation was refused.
#[derive(Clone, Copy, Debug, PartialEq, Eq, Structural)]
pub enum ListingError {
    InvalidPrice,
    InvalidExpiry,
    ListingNotActive,
    ListingExpired,
    ListingNotExpired,
    ListingHasNoExpiry,
    MarketplacePaused,
    MathOverflow,
    InsufficientFunds,
    Unauthorized,
}

/// A fixed-price offer of one item, held in the listing's custody while active.
#[derive(Clone, Copy, Debug, PartialEq, Eq)]
pub struct ListingState {
    pub seller: Address,
    pub mint: Address,
    pub price: u64,
    pub created_at: i64,
    pub expiry: Option<i64>,
    pub is_active: bool,
    pub bump: u8,
}

impl ListingState {
    /// The invariant of every listing record.
    pub open spec fn wf(self) -> bool {
        self.price > 0
    }
}

/// Whether `expiry`, when given, lies after `now`.
pub open spec fn expiry_valid(expiry: Option<i64>, now: i64) -> bool {
    match expiry {
        Some(t) => t > now,
        None => true,
    }
}

/// The error that `list_nft` gives, if any, checked in this order.
pub open spec fn list_error(paused: bool, price: u64, expiry: Option<i64>, now: i64) -> Option<ListingError> {
    if paused {
        Some(ListingError::MarketplacePaused)
    } else if price == 0 {
        Some(ListingError::InvalidPrice)
    } else if !expiry_valid(expiry, now) {
        Some(ListingError::InvalidExpiry)
    } else {
        None
    }
}

/// The error that `update_listing` gives, if any, checked in this order.
pub open spec fn update_error(l: ListingState, caller: Address, new_price: u64, new_expiry: Option<i64>, now: i64) -> Option<ListingError> {
    if caller != l.seller {
        Some(ListingError::Unauthorized)
    } else if new_price == 0 {
        Some(ListingError::InvalidPrice)
    } else if !l.is_active {
        Some(ListingError::ListingNotActive)
    } else if !expiry_valid(new_expiry, now) {
        Some(ListingError::InvalidExpiry)
    } else {
        None
    }
}

/// The error that `cancel_listing` gives, if any, checked in this order.
pub open spec fn cancel_error(l: ListingState, caller: Address) -> Option<ListingError> {
    if !l.is_active {
        Some(ListingError::ListingNotActive)
    } else if caller != l.seller {
        Some(ListingError::Unauthorized)
    } else {
        None
    }
}

/// The error that `buy_nft` gives, if any, checked in this order.
pub open spec fn buy_error(l: ListingState, m: MarketplaceState, now: i64) -> Option<ListingError> {
    if !l.is_active {
        Some(ListingError::ListingNotActive)
    } else if m.is_paused {
        Some(ListingError::MarketplacePaused)
    } else if l.expiry is Some && now > l.expiry->Some_0 {
        Some(ListingError::ListingExpired)
    } else if platform_fee(m, l.price) > l.price {
        Some(ListingError::MathOverflow)
    } else {
        None
    }
}

/// The error that `recover_expired_listing` gives, if any, checked in this order.
pub open spec fn recover_error(l: ListingState, now: i64) -> Option<ListingError> {
    if !l.is_active {
        Some(ListingError::ListingNotActive)
    } else if l.expiry is None {
        Some(ListingError::ListingHasNoExpiry)
    } else if now <= l.expiry->Some_0 {
        Some(ListingError::ListingNotExpired)
    } else {
        None
    }
}

/// The record after a terminal transition.
pub open spec fn deactivated(l: ListingState) -> ListingState {
    ListingState { is_active: false, ..l }
}

/// The movements of a purchase by `buyer`: the fee (when not zero) to the
/// treasury and the rest of the price to the seller, both paid by the buyer,
/// then the item out of custody to the buyer.
pub open spec fn buy_movements(l: ListingState, m: MarketplaceState, buyer: Address) -> Seq<Movement> {
    let fee = platform_fee(m, l.price);
    let fee_part = if fee > 0 {
        seq![value(Holder::Account(buyer), Holder::Account(m.treasury), fee as u64)]
    } else {
        Seq::empty()
    };
    fee_part + seq![
        value(Holder::Account(buyer), Holder::Account(l.seller), (l.price - fee) as u64),
        item(Holder::Custody, Holder::Account(buyer)),
    ]
}

/// The marketplace statistics after recording a sale of `amount`, when they
/// can record it; left as they are otherwise.
pub open spec fn stats_after_sale(m: MarketplaceState, amount: u64) -> MarketplaceState {
    if m.total_volume + amount <= u64::MAX && m.total_sales < u64::MAX {
        MarketplaceState { total_volume: (m.total_volume + amount) as u64, total_sales: (m.total_sales + 1) as u64, ..m }
    } else {
        m
    }
}

/// Lists `mint` by `seller` at `price`, optionally until `expiry`, taking the
/// item into custody. `now` is the current time.
pub fn list_nft(
    marketplace: &MarketplaceState,
    seller: Address,
    mint: Address,
    price: u64,
    expiry: Option<i64>,
    now: i64,
    bump: u8,
) -> (r: Result<(ListingState, Vec<Movement>), ListingError>)
    ensures
        match list_error(marketplace.is_paused, price, expiry, now) {
            Some(e) => r == Err::<(ListingState, Vec<Movement>), ListingError>(e),
            None => r is Ok,
        },
        r is Ok ==> {
            let (l, mvs) = r->Ok_0;
            &&& l == (ListingState { seller, mint, price, created_at: now, expiry, is_active: true, bump })
            &&& l.wf()
            &&& mvs@ == seq![item(Holder::Account(seller), Holder::Custody)]
        },
{
    if marketplace.is_paused {
        return Err(ListingError::MarketplacePaused);
    }
    if price == 0 {
        return Err(ListingError::InvalidPrice);
    }
    match expiry {
        Some(t) => {
            if t <= now {
                return Err(ListingError::InvalidExpiry);
            }
        },
        None => {},
    }
    let listing = ListingState { seller, mint, price, created_at: now, expiry, is_active: true, bump };
    Ok((listing, vec![Movement::Item { from: Holder::Account(seller), to: Holder::Custody }]))
}

impl ListingState {
    /// Changes price and expiry of an active listing; only the seller may.
    /// Custody is untouched.
    pub fn update_listing(&mut self, caller: Address, new_price: u64, new_expiry: Option<i64>, now: i64) -> (r: Result<(), ListingError>)
        requires
            old(self).wf(),
        ensures
            final(self).wf(),
            match update_error(*old(self), caller, new_price, new_expiry, now) {
                Some(e) => r == Err::<(), ListingError>(e) && *final(self) == *old(self),
                None => r is Ok && *final(self) == (ListingState { price: new_price, expiry: new_expiry, ..*old(self) }),
            },
    {
        if caller != self.seller {
            return Err(ListingError::Unauthorized);
        }
        if new_price == 0 {
            return Err(ListingError::InvalidPrice);
        }
        if !self.is_active {
            return Err(ListingError::ListingNotActive);
        }
        match new_expiry {
            Some(t) => {
                if t <= now {
                    return Err(ListingError::InvalidExpiry);
                }
            },
            None => {},
        }
        self.price = new_price;
        self.expiry = new_expiry;
        Ok(())
    }

    /// Withdraws an active listing and returns the item to the seller; only
    /// the seller may.
    pub fn cancel_listing(&mut self, caller: Address) -> (r: Result<Vec<Movement>, ListingError>)
        requires
            old(self).wf(),
        ensures
            final(self).wf(),
            match cancel_error(*old(self), caller) {
                Some(e) => r == Err::<Vec<Movement>, ListingError>(e) && *final(self) == *old(self),
                None => r is Ok
                    && *final(self) == deactivated(*old(self))
                    && r->Ok_0@ == seq![item(Holder::Custody, Holder::Account(old(self).seller))],
            },
    {
        if !self.is_active {
            return Err(ListingError::ListingNotActive);
        }
        if caller != self.seller {
            return Err(ListingError::Unauthorized);
        }
        self.is_active = false;
        Ok(vec![Movement::Item { from: Holder::Custody, to: Holder::Account(self.seller) }])
    }

    /// Sells the item to `buyer` at the listed price, the marketplace fee
    /// going to the treasury. The sale is then recorded in the marketplace
    /// statistics where they have room; that record never fails the sale.
    pub fn buy_nft(&mut self, marketplace: &mut MarketplaceState, buyer: Address, now: i64) -> (r: Result<Vec<Movement>, ListingError>)
        requires
            old(self).wf(),
        ensures
            final(self).wf(),
            match buy_error(*old(self), *old(marketplace), now) {
                Some(e) => r == Err::<Vec<Movement>, ListingError>(e)
                    && *final(self) == *old(self)
                    && *final(marketplace) == *old(marketplace),
                None => r is Ok
                    && *final(self) == deactivated(*old(self))
                    && r->Ok_0@ == buy_movements(*old(self), *old(marketplace), buyer)
                    && *final(marketplace) == stats_after_sale(*old(marketplace), old(self).price),
            },
            old(self).is_active && !old(marketplace).is_paused && old(marketplace).wf()
                && (old(self).expiry is None || now <= old(self).expiry->Some_0) ==> r is Ok,
    {
        if !self.is_active {
            return Err(ListingError::ListingNotActive);
        }
        if marketplace.is_paused {
            return Err(ListingError::MarketplacePaused);
        }
        match self.expiry {
            Some(t) => {
                if now > t {
                    return Err(ListingError::ListingExpired);
                }
            },
            None => {},
        }
        let sale_price = self.price;
        let fee = match marketplace.calculate_platform_fee(sale_price) {
            Ok(f) => f,
            Err(_) => return Err(ListingError::MathOverflow),
        };
        let proceeds = match sale_price.checked_sub(fee) {
            Some(p) => p,
            None => return Err(ListingError::MathOverflow),
        };
        let mut movements: Vec<Movement> = Vec::new();
        if fee > 0 {
            movements.push(Movement::Value {
                from: Holder::Account(buyer),
                to: Holder::Account(marketplace.treasury),
                amount: fee,
            });
        }
        movements.push(Movement::Value { from: Holder::Account(buyer), to: Holder::Account(self.seller), amount: proceeds });
        movements.push(Movement::Item { from: Holder::Custody, to: Holder::Account(buyer) });
        self.is_active = false;
        let _ = marketplace.update_stats(sale_price);
        proof {
            assert(movements@ =~= buy_movements(*old(self), *old(marketplace), buyer));
        }
        Ok(movements)
    }

    /// Returns the item of an active listing whose expiry has passed to the
    /// seller; anyone may call.
    pub fn recover_expired_listing(&mut self, now: i64) -> (r: Result<Vec<Movement>, ListingError>)
        requires
            old(self).wf(),
        ensures
            final(self).wf(),
            match recover_error(*old(self), now) {
                Some(e) => r == Err::<Vec<Movement>, ListingError>(e) && *final(self) == *old(self),
                None => r is Ok
                    && *final(self) == deactivated(*old(self))
                    && r->Ok_0@ == seq![item(Holder::Custody, Holder::Account(old(self).seller))],
            },
    {
        if !self.is_active {
            return Err(ListingError::ListingNotActive);
        }
        match self.expiry {
            Some(t) => {
                if now <= t {
                    return Err(ListingError::ListingNotExpired);
                }
            },
            None => return Err(ListingError::ListingHasNoExpiry),
        }
        self.is_active = false;
        Ok(vec![Movement::Item { from: Holder::Custody, to: Holder::Account(self.seller) }])
    }
}

/// `cancel_listing`, `buy_nft` and `recover_expired_listing` each leave the
/// listing as `deactivated` of what it was; from there every one of the
/// three, and `update_listing` by the seller, fails as not active, whatever
/// the caller, the marketplace or the time. So at most one of them succeeds.
pub proof fn lemma_terminal_transitions_exclusive(
    l: ListingState,
    m: MarketplaceState,
    caller: Address,
    new_price: u64,
    new_expiry: Option<i64>,
    now: i64,
)
    requires
        new_price > 0,
    ensures
        cancel_error(deactivated(l), caller) == Some(ListingError::ListingNotActive),
        buy_error(deactivated(l), m, now) == Some(ListingError::ListingNotActive),
        recover_error(deactivated(l), now) == Some(ListingError::ListingNotActive),
        update_error(deactivated(l), l.seller, new_price, new_expiry, now) == Some(ListingError::ListingNotActive),
{
}

} // verus!
