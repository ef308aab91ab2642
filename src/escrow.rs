use vstd::prelude::*;

use crate::address::Address;
use crate::custody::{Holder, Movement, value, item};
use crate::marketplace::MarketplaceState;

verus! {

/// What an escrow is for. A label only: the kind does not change what moves.
#[derive(Clone, Copy, Debug, PartialEq, Eq, Structural)]
pub enum EscrowType {
    Listing,
    Auction,
    DirectSale,
    Swap,
}

/// The state of an escrow as seen at a given time.
#[derive(Clone, Copy, Debug, PartialEq, Eq, Structural)]
pub enum EscrowStatus {
    Active,
    Expired,
    Released,
    EmergencyWithdrawn,
}

/// Why an escrow operation was refused.
#[derive(Clone, Copy, Debug, PartialEq, Eq, Structural)]
pub enum EscrowError {
    EscrowAlreadyReleased,
    EscrowEmergencyWithdrawn,
    EscrowAlreadyEmergencyWithdrawn,
    NftAlreadyDeposited,
    EscrowExpired,
    InvalidAmount,
    MathOverflow,
    Unauthorized,
}

/// A custodial holding of at most one item and any amount of value, released
/// by its authority or withdrawn by the marketplace administrator.
#[derive(Clone, Copy, Debug, PartialEq, Eq)]
pub struct EscrowState {
    pub authority: Address,
    pub escrow_type: EscrowType,
    pub created_at: i64,
    pub expires_at: Option<i64>,
    pub nft_mint: Option<Address>,
    pub sol_amount: u64,
    pub is_released: bool,
    pub is_emergency_withdrawn: bool,
    pub bump: u8,
}

impl EscrowState {
    /// The invariant of every escrow record: its two terminal marks exclude each other.
    pub open spec fn wf(self) -> bool {
        !(self.is_released && self.is_emergency_withdrawn)
    }

    /// Whether deposits are refused because the expiry has come.
    pub open spec fn expired_at(self, now: i64) -> bool {
        self.expires_at is Some && now >= self.expires_at->Some_0
    }
}

/// The error that `create_escrow` gives, if any.
pub open spec fn create_error(duration: Option<i64>, now: i64) -> Option<EscrowError> {
    match duration {
        Some(d) => if now + d < i64::MIN || now + d > i64::MAX {
            Some(EscrowError::MathOverflow)
        } else {
            None
        },
        None => None,
    }
}

/// The error that `deposit_nft` gives, if any, checked in this order.
pub open spec fn deposit_nft_error(e: EscrowState, now: i64) -> Option<EscrowError> {
    if e.is_released {
        Some(EscrowError::EscrowAlreadyReleased)
    } else if e.is_emergency_withdrawn {
        Some(EscrowError::EscrowEmergencyWithdrawn)
    } else if e.nft_mint is Some {
        Some(EscrowError::NftAlreadyDeposited)
    } else if e.expired_at(now) {
        Some(EscrowError::EscrowExpired)
    } else {
        None
    }
}

/// The error that `deposit_sol` gives, if any, checked in this order.
pub open spec fn deposit_sol_error(e: EscrowState, amount: u64, now: i64) -> Option<EscrowError> {
    if e.is_released {
        Some(EscrowError::EscrowAlreadyReleased)
    } else if e.is_emergency_withdrawn {
        Some(EscrowError::EscrowEmergencyWithdrawn)
    } else if amount == 0 {
        Some(EscrowError::InvalidAmount)
    } else if e.expired_at(now) {
        Some(EscrowError::EscrowExpired)
    } else if e.sol_amount + amount > u64::MAX {
        Some(EscrowError::MathOverflow)
    } else {
        None
    }
}

/// The error that `release_assets` gives, if any, checked in this order.
pub open spec fn release_error(e: EscrowState, caller: Address) -> Option<EscrowError> {
    if e.is_released {
        Some(EscrowError::EscrowAlreadyReleased)
    } else if e.is_emergency_withdrawn {
        Some(EscrowError::EscrowEmergencyWithdrawn)
    } else if caller != e.authority {
        Some(EscrowError::Unauthorized)
    } else {
        None
    }
}

/// The error that `emergency_withdraw` gives, if any, checked in this order.
pub open spec fn withdraw_error(e: EscrowState, m: MarketplaceState, admin: Address) -> Option<EscrowError> {
    if e.is_released {
        Some(EscrowError::EscrowAlreadyReleased)
    } else if e.is_emergency_withdrawn {
        Some(EscrowError::EscrowAlreadyEmergencyWithdrawn)
    } else if admin != m.authority {
        Some(EscrowError::Unauthorized)
    } else {
        None
    }
}

/// Everything the escrow holds, moved out: the item (if deposited) to
/// `item_to`, then the value (if any) to `value_to`.
pub open spec fn payout_movements(e: EscrowState, item_to: Address, value_to: Address) -> Seq<Movement> {
    let item_part = if e.nft_mint is Some {
        seq![item(Holder::Custody, Holder::Account(item_to))]
    } else {
        Seq::empty()
    };
    let value_part = if e.sol_amount > 0 {
        seq![value(Holder::Custody, Holder::Account(value_to), e.sol_amount)]
    } else {
        Seq::empty()
    };
    item_part + value_part
}

/// The status at `now`: released, else withdrawn, else expired once the
/// expiry has come, else active.
pub open spec fn status_at(e: EscrowState, now: i64) -> EscrowStatus {
    if e.is_released {
        EscrowStatus::Released
    } else if e.is_emergency_withdrawn {
        EscrowStatus::EmergencyWithdrawn
    } else if e.expired_at(now) {
        EscrowStatus::Expired
    } else {
        EscrowStatus::Active
    }
}

/// Creates an empty escrow controlled by `authority`, expiring `duration`
/// seconds after `now` when a duration is given.
pub fn create_escrow(
    authority: Address,
    escrow_type: EscrowType,
    duration: Option<i64>,
    now: i64,
    bump: u8,
) -> (r: Result<EscrowState, EscrowError>)
    ensures
        match create_error(duration, now) {
            Some(e) => r == Err::<EscrowState, EscrowError>(e),
            None => r == Ok::<EscrowState, EscrowError>(
                (EscrowState {
                    authority,
                    escrow_type,
                    created_at: now,
                    expires_at: match duration {
                        Some(d) => Some((now + d) as i64),
                        None => None,
                    },
                    nft_mint: None,
                    sol_amount: 0,
                    is_released: false,
                    is_emergency_withdrawn: false,
                    bump,
                }),
            ),
        },
        r is Ok ==> r->Ok_0.wf(),
{
    let expires_at = match duration {
        Some(d) => match now.checked_add(d) {
            Some(t) => Some(t),
            None => return Err(EscrowError::MathOverflow),
        },
        None => None,
    };
    Ok(EscrowState {
        authority,
        escrow_type,
        created_at: now,
        expires_at,
        nft_mint: None,
        sol_amount: 0,
        is_released: false,
        is_emergency_withdrawn: false,
        bump,
    })
}

impl EscrowState {
    /// Takes the item `mint` from `depositor` into custody; at most one item
    /// per escrow, and only before the expiry.
    pub fn deposit_nft(&mut self, depositor: Address, mint: Address, now: i64) -> (r: Result<Vec<Movement>, EscrowError>)
        requires
            old(self).wf(),
        ensures
            final(self).wf(),
            match deposit_nft_error(*old(self), now) {
                Some(e) => r == Err::<Vec<Movement>, EscrowError>(e) && *final(self) == *old(self),
                None => r is Ok
                    && *final(self) == (EscrowState { nft_mint: Some(mint), ..*old(self) })
                    && r->Ok_0@ == seq![item(Holder::Account(depositor), Holder::Custody)],
            },
    {
        if self.is_released {
            return Err(EscrowError::EscrowAlreadyReleased);
        }
        if self.is_emergency_withdrawn {
            return Err(EscrowError::EscrowEmergencyWithdrawn);
        }
        if self.nft_mint.is_some() {
            return Err(EscrowError::NftAlreadyDeposited);
        }
        match self.expires_at {
            Some(t) => {
                if now >= t {
                    return Err(EscrowError::EscrowExpired);
                }
            },
            None => {},
        }
        self.nft_mint = Some(mint);
        Ok(vec![Movement::Item { from: Holder::Account(depositor), to: Holder::Custody }])
    }

    /// Takes `amount` of value from `depositor` into custody, adding it to
    /// the held amount; an addition that would overflow fails the deposit
    /// and leaves the held amount as it was.
    pub fn deposit_sol(&mut self, depositor: Address, amount: u64, now: i64) -> (r: Result<Vec<Movement>, EscrowError>)
        requires
            old(self).wf(),
        ensures
            final(self).wf(),
            match deposit_sol_error(*old(self), amount, now) {
                Some(e) => r == Err::<Vec<Movement>, EscrowError>(e) && *final(self) == *old(self),
                None => r is Ok
                    && *final(self) == (EscrowState { sol_amount: (old(self).sol_amount + amount) as u64, ..*old(self) })
                    && r->Ok_0@ == seq![value(Holder::Account(depositor), Holder::Custody, amount)],
            },
    {
        if self.is_released {
            return Err(EscrowError::EscrowAlreadyReleased);
        }
        if self.is_emergency_withdrawn {
            return Err(EscrowError::EscrowEmergencyWithdrawn);
        }
        if amount == 0 {
            return Err(EscrowError::InvalidAmount);
        }
        match self.expires_at {
            Some(t) => {
                if now >= t {
                    return Err(EscrowError::EscrowExpired);
                }
            },
            None => {},
        }
        let total = match self.sol_amount.checked_add(amount) {
            Some(v) => v,
            None => return Err(EscrowError::MathOverflow),
        };
        self.sol_amount = total;
        Ok(vec![Movement::Value { from: Holder::Account(depositor), to: Holder::Custody, amount }])
    }

    /// Releases everything held: the item to `nft_recipient`, the value to
    /// `sol_recipient`. Only the escrow's authority may, and only once.
    pub fn release_assets(&mut self, caller: Address, nft_recipient: Address, sol_recipient: Address) -> (r: Result<Vec<Movement>, EscrowError>)
        requires
            old(self).wf(),
        ensures
            final(self).wf(),
            match release_error(*old(self), caller) {
                Some(e) => r == Err::<Vec<Movement>, EscrowError>(e) && *final(self) == *old(self),
                None => r is Ok
                    && *final(self) == (EscrowState { is_released: true, ..*old(self) })
                    && r->Ok_0@ == payout_movements(*old(self), nft_recipient, sol_recipient),
            },
    {
        if self.is_released {
            return Err(EscrowError::EscrowAlreadyReleased);
        }
        if self.is_emergency_withdrawn {
            return Err(EscrowError::EscrowEmergencyWithdrawn);
        }
        if caller != self.authority {
            return Err(EscrowError::Unauthorized);
        }
        let movements = self.payout(nft_recipient, sol_recipient);
        self.is_released = true;
        Ok(movements)
    }

    /// The administrator's escape hatch: moves everything held to the
    /// recovery accounts. Only the marketplace authority may, and only while
    /// the escrow is neither released nor already withdrawn.
    pub fn emergency_withdraw(
        &mut self,
        marketplace: &MarketplaceState,
        admin: Address,
        recovery_item_account: Address,
        recovery_sol_account: Address,
    ) -> (r: Result<Vec<Movement>, EscrowError>)
        requires
            old(self).wf(),
        ensures
            final(self).wf(),
            match withdraw_error(*old(self), *marketplace, admin) {
                Some(e) => r == Err::<Vec<Movement>, EscrowError>(e) && *final(self) == *old(self),
                None => r is Ok
                    && *final(self) == (EscrowState { is_emergency_withdrawn: true, ..*old(self) })
                    && r->Ok_0@ == payout_movements(*old(self), recovery_item_account, recovery_sol_account),
            },
    {
        if self.is_released {
            return Err(EscrowError::EscrowAlreadyReleased);
        }
        if self.is_emergency_withdrawn {
            return Err(EscrowError::EscrowAlreadyEmergencyWithdrawn);
        }
        if admin != marketplace.authority {
            return Err(EscrowError::Unauthorized);
        }
        let movements = self.payout(recovery_item_account, recovery_sol_account);
        self.is_emergency_withdrawn = true;
        Ok(movements)
    }

    fn payout(&self, item_to: Address, value_to: Address) -> (r: Vec<Movement>)
        ensures
            r@ == payout_movements(*self, item_to, value_to),
    {
        let mut movements: Vec<Movement> = Vec::new();
        if self.nft_mint.is_some() {
            movements.push(Movement::Item { from: Holder::Custody, to: Holder::Account(item_to) });
        }
        if self.sol_amount > 0 {
            movements.push(Movement::Value { from: Holder::Custody, to: Holder::Account(value_to), amount: self.sol_amount });
        }
        proof {
            assert(movements@ =~= payout_movements(*self, item_to, value_to));
        }
        movements
    }

    /// The status of the escrow at time `now`.
    pub fn get_escrow_status(&self, now: i64) -> (r: EscrowStatus)
        ensures
            r == status_at(*self, now),
    {
        if self.is_released {
            EscrowStatus::Released
        } else if self.is_emergency_withdrawn {
            EscrowStatus::EmergencyWithdrawn
        } else {
            match self.expires_at {
                Some(t) => if now >= t {
                    EscrowStatus::Expired
                } else {
                    EscrowStatus::Active
                },
                None => EscrowStatus::Active,
            }
        }
    }
}

/// The sum of the amounts of a sequence of deposits `(depositor, amount, now)`.
pub open spec fn sum_amounts(deposits: Seq<(Address, u64, i64)>) -> int
    decreases deposits.len(),
{
    if deposits.len() == 0 {
        0
    } else {
        sum_amounts(deposits.drop_last()) + deposits.last().1
    }
}

/// The outcome of a sequence of value deposits on one escrow: the final
/// record, how many deposits were accepted and their total. A refused
/// deposit changes nothing.
pub open spec fn run_deposits(e: EscrowState, deposits: Seq<(Address, u64, i64)>) -> (EscrowState, nat, int)
    decreases deposits.len(),
{
    if deposits.len() == 0 {
        (e, 0, 0)
    } else {
        let prev = run_deposits(e, deposits.drop_last());
        let (_depositor, amount, now) = deposits.last();
        if deposit_sol_error(prev.0, amount, now) is None {
            (EscrowState { sol_amount: (prev.0.sol_amount + amount) as u64, ..prev.0 }, prev.1 + 1, prev.2 + amount)
        } else {
            prev
        }
    }
}

/// After any sequence of value deposits the held amount is the starting
/// amount plus exactly the accepted deposits; when all of them are accepted,
/// it is the starting amount plus the sum of all amounts. A deposit whose
/// addition would overflow is refused and adds nothing.
pub proof fn lemma_deposits_accumulate(e: EscrowState, deposits: Seq<(Address, u64, i64)>)
    ensures
        run_deposits(e, deposits).0.sol_amount == e.sol_amount + run_deposits(e, deposits).2,
        run_deposits(e, deposits).1 <= deposits.len(),
        run_deposits(e, deposits).1 == deposits.len() ==> run_deposits(e, deposits).2 == sum_amounts(deposits),
    decreases deposits.len(),
{
    if deposits.len() > 0 {
        lemma_deposits_accumulate(e, deposits.drop_last());
    }
}

} // verus!
