use vstd::prelude::*;

verus! {

/// `floor(amount * bps / 10000)`, the share of `amount` at a rate of `bps` basis points.
pub open spec fn bps_of(amount: int, bps: int) -> int {
    amount * bps / 10000
}

/// Computes `floor(amount * bps / 10000)` exactly, through a 128-bit intermediate.
pub fn bps_share(amount: u64, bps: u16) -> (r: u128)
    ensures
        r == bps_of(amount as int, bps as int),
        r <= 7 * amount,
{
    proof {
        assert(amount as int * bps as int <= u64::MAX as int * u16::MAX as int) by (nonlinear_arith)
            requires amount <= u64::MAX, bps <= u16::MAX;
        assert(amount as int * bps as int / 10000 <= 7 * amount) by (nonlinear_arith)
            requires amount >= 0, 0 <= bps <= u16::MAX;
    }
    let wide: u128 = (amount as u128) * (bps as u128);
    wide / 10000
}

} // verus!
