use vstd::prelude::*;

use crate::address::Address;
use crate::custody::{Holder, Movement};
use crate::fees::{bps_of, bps_share};

verus! {

/// The highest fee rate the marketplace may be configured with, in basis points (10%).
pub const MAX_FEE_BASIS_POINTS: u16 = 1000;

/// Why a marketplace operation was refused.
#[derive(Clone, Copy, Debug, PartialEq, Eq, Structural)]
pub enum MarketplaceError {
    FeeTooHigh,
    InsufficientFunds,
    MarketplacePaused,
    MathOverflow,
    Unauthorized,
}

/// The shared marketplace configuration: who administers it, where fees go,
/// the fee rate, the pause switch and running sale statistics.
#[derive(Clone, Copy, Debug, PartialEq, Eq)]
pub struct MarketplaceState {
    pub authority: Address,
    pub fee_basis_points: u16,
    pub treasury: Address,
    pub treasury_bump: u8,
    pub is_paused: bool,
    pub total_volume: u64,
    pub total_sales: u64,
    pub bump: u8,
}

/// The fee that the marketplace takes on a sale of `amount`.
pub open spec fn platform_fee(m: MarketplaceState, amount: u64) -> int {
    bps_of(amount as int, m.fee_basis_points as int)
}

/// The error that `initialize_marketplace` gives, if any.
pub open spec fn initialize_error(fee_basis_points: u16) -> Option<MarketplaceError> {
    if fee_basis_points > MAX_FEE_BASIS_POINTS {
        Some(MarketplaceError::FeeTooHigh)
    } else {
        None
    }
}

/// Creates the marketplace configuration: unpaused, with zeroed statistics.
pub fn initialize_marketplace(
    authority: Address,
    treasury: Address,
    fee_basis_points: u16,
    treasury_bump: u8,
    bump: u8,
) -> (r: Result<MarketplaceState, MarketplaceError>)
    ensures
        match initialize_error(fee_basis_points) {
            Some(e) => r == Err::<MarketplaceState, MarketplaceError>(e),
            None => r == Ok::<MarketplaceState, MarketplaceError>(
                (MarketplaceState {
                    authority,
                    fee_basis_points,
                    treasury,
                    treasury_bump,
                    is_paused: false,
                    total_volume: 0,
                    total_sales: 0,
                    bump,
                }),
            ),
        },
{
    if fee_basis_points > MAX_FEE_BASIS_POINTS {
        return Err(MarketplaceError::FeeTooHigh);
    }
    Ok(MarketplaceState {
        authority,
        fee_basis_points,
        treasury,
        treasury_bump,
        is_paused: false,
        total_volume: 0,
        total_sales: 0,
        bump,
    })
}

/// Refuses the operation while the marketplace is paused.
pub fn check_marketplace_active(marketplace: &MarketplaceState) -> (r: Result<(), MarketplaceError>)
    ensures
        marketplace.is_paused <==> r == Err::<(), MarketplaceError>(MarketplaceError::MarketplacePaused),
        !marketplace.is_paused <==> r is Ok,
{
    if marketplace.is_paused {
        Err(MarketplaceError::MarketplacePaused)
    } else {
        Ok(())
    }
}

impl MarketplaceState {
    /// A configuration whose fee rate is within the allowed range.
    pub open spec fn wf(self) -> bool {
        self.fee_basis_points <= MAX_FEE_BASIS_POINTS
    }

    /// Whether trading is paused.
    pub fn is_paused(&self) -> (r: bool)
        ensures
            r == self.is_paused,
    {
        self.is_paused
    }

    /// The fee rate in basis points.
    pub fn get_fee_basis_points(&self) -> (r: u16)
        ensures
            r == self.fee_basis_points,
    {
        self.fee_basis_points
    }

    /// The account that receives fees.
    pub fn get_treasury(&self) -> (r: Address)
        ensures
            r == self.treasury,
    {
        self.treasury
    }

    /// `floor(sale_amount * fee_basis_points / 10000)`, computed without
    /// overflow; fails only where the fee itself does not fit in 64 bits,
    /// which a well-formed configuration never allows.
    pub fn calculate_platform_fee(&self, sale_amount: u64) -> (r: Result<u64, MarketplaceError>)
        ensures
            platform_fee(*self, sale_amount) <= u64::MAX ==> r == Ok::<u64, MarketplaceError>(
                platform_fee(*self, sale_amount) as u64,
            ),
            platform_fee(*self, sale_amount) > u64::MAX ==> r == Err::<u64, MarketplaceError>(
                MarketplaceError::MathOverflow,
            ),
            self.wf() ==> r is Ok && r->Ok_0 <= sale_amount,
    {
        proof {
            if self.wf() {
                assert(sale_amount as int * self.fee_basis_points as int <= sale_amount as int * 10000)
                    by (nonlinear_arith)
                    requires
                        self.fee_basis_points <= 10000,
                        sale_amount >= 0,
                ;
            }
        }
        let fee = bps_share(sale_amount, self.fee_basis_points);
        if fee > u64::MAX as u128 {
            Err(MarketplaceError::MathOverflow)
        } else {
            Ok(fee as u64)
        }
    }

    /// The fee on `sale_amount`, as the fee-rate query of the marketplace.
    pub fn calculate_fee(&self, sale_amount: u64) -> (r: Result<u64, MarketplaceError>)
        ensures
            platform_fee(*self, sale_amount) <= u64::MAX ==> r == Ok::<u64, MarketplaceError>(
                platform_fee(*self, sale_amount) as u64,
            ),
            platform_fee(*self, sale_amount) > u64::MAX ==> r == Err::<u64, MarketplaceError>(
                MarketplaceError::MathOverflow,
            ),
    {
        self.calculate_platform_fee(sale_amount)
    }

    /// Sets a new fee rate; only the authority may, and never above the maximum.
    pub fn update_fee(&mut self, caller: Address, new_fee_basis_points: u16) -> (r: Result<(), MarketplaceError>)
        ensures
            caller != old(self).authority ==> r == Err::<(), MarketplaceError>(MarketplaceError::Unauthorized),
            caller == old(self).authority && new_fee_basis_points > MAX_FEE_BASIS_POINTS
                ==> r == Err::<(), MarketplaceError>(MarketplaceError::FeeTooHigh),
            r is Ok <==> caller == old(self).authority && new_fee_basis_points <= MAX_FEE_BASIS_POINTS,
            r is Ok ==> *final(self) == (MarketplaceState { fee_basis_points: new_fee_basis_points, ..*old(self) }),
            r is Err ==> *final(self) == *old(self),
    {
        if caller != self.authority {
            return Err(MarketplaceError::Unauthorized);
        }
        if new_fee_basis_points > MAX_FEE_BASIS_POINTS {
            return Err(MarketplaceError::FeeTooHigh);
        }
        self.fee_basis_points = new_fee_basis_points;
        Ok(())
    }

    /// Hands the administration to `new_authority`; only the current authority may.
    pub fn update_authority(&mut self, caller: Address, new_authority: Address) -> (r: Result<(), MarketplaceError>)
        ensures
            r is Ok <==> caller == old(self).authority,
            r is Err ==> r == Err::<(), MarketplaceError>(MarketplaceError::Unauthorized) && *final(self) == *old(self),
            r is Ok ==> *final(self) == (MarketplaceState { authority: new_authority, ..*old(self) }),
    {
        if caller != self.authority {
            return Err(MarketplaceError::Unauthorized);
        }
        self.authority = new_authority;
        Ok(())
    }

    /// Pauses or resumes trading; only the authority may.
    pub fn pause_marketplace(&mut self, caller: Address, pause: bool) -> (r: Result<(), MarketplaceError>)
        ensures
            r is Ok <==> caller == old(self).authority,
            r is Err ==> r == Err::<(), MarketplaceError>(MarketplaceError::Unauthorized) && *final(self) == *old(self),
            r is Ok ==> *final(self) == (MarketplaceState { is_paused: pause, ..*old(self) }),
    {
        if caller != self.authority {
            return Err(MarketplaceError::Unauthorized);
        }
        self.is_paused = pause;
        Ok(())
    }

    /// Records one sale of `sale_amount`: the sale count goes up by one and
    /// the volume by the amount, both checked; on overflow nothing changes.
    pub fn update_stats(&mut self, sale_amount: u64) -> (r: Result<(), MarketplaceError>)
        ensures
            r is Ok <==> old(self).total_volume + sale_amount <= u64::MAX && old(self).total_sales < u64::MAX,
            r is Err ==> r == Err::<(), MarketplaceError>(MarketplaceError::MathOverflow) && *final(self) == *old(self),
            r is Ok ==> *final(self) == (MarketplaceState {
                total_volume: (old(self).total_volume + sale_amount) as u64,
                total_sales: (old(self).total_sales + 1) as u64,
                ..*old(self)
            }),
    {
        let volume = match self.total_volume.checked_add(sale_amount) {
            Some(v) => v,
            None => return Err(MarketplaceError::MathOverflow),
        };
        let sales = match self.total_sales.checked_add(1) {
            Some(s) => s,
            None => return Err(MarketplaceError::MathOverflow),
        };
        self.total_volume = volume;
        self.total_sales = sales;
        Ok(())
    }

    /// Pays `amount` out of the treasury to the authority; only the authority
    /// may, and only up to `treasury_balance`, what the treasury holds.
    pub fn withdraw_fees(&self, caller: Address, treasury_balance: u64, amount: u64) -> (r: Result<Vec<Movement>, MarketplaceError>)
        ensures
            caller != self.authority ==> r == Err::<Vec<Movement>, MarketplaceError>(MarketplaceError::Unauthorized),
            caller == self.authority && treasury_balance < amount
                ==> r == Err::<Vec<Movement>, MarketplaceError>(MarketplaceError::InsufficientFunds),
            r is Ok <==> caller == self.authority && amount <= treasury_balance,
            r is Ok ==> r->Ok_0@ == seq![
                Movement::Value { from: Holder::Custody, to: Holder::Account(self.authority), amount },
            ],
    {
        if caller != self.authority {
            return Err(MarketplaceError::Unauthorized);
        }
        if treasury_balance < amount {
            return Err(MarketplaceError::InsufficientFunds);
        }
        Ok(vec![Movement::Value { from: Holder::Custody, to: Holder::Account(self.authority), amount }])
    }
}

} // verus!
