//! Fixed-point fee arithmetic shared by the ledgers.

use vstd::prelude::*;

verus! {

/// One hundred percent, in basis points.
pub const BPS_DENOMINATOR: u64 = 10000;

/// The share of `amount` that `bps` basis points stand for, rounded down.
pub open spec fn bps_share(amount: u64, bps: u16) -> int {
    (amount as int * bps as int) / (BPS_DENOMINATOR as int)
}

/// Computes `bps_share` through a 128-bit intermediate; `None` when the share
/// does not fit in 64 bits.
pub fn checked_bps_share(amount: u64, bps: u16) -> (r: Option<u64>)
    ensures
        bps_share(amount, bps) <= u64::MAX ==> r == Some(bps_share(amount, bps) as u64),
        bps_share(amount, bps) > u64::MAX ==> r.is_none(),
{
    assert(amount as int * bps as int <= 0xffff_ffff_ffff_ffff * 0xffff) by (nonlinear_arith)
        requires
            amount <= 0xffff_ffff_ffff_ffff,
            bps <= 0xffff,
    ;
    assert(0 <= amount as int * bps as int) by (nonlinear_arith);
    let wide: u128 = (amount as u128) * (bps as u128);
    let share: u128 = wide / (BPS_DENOMINATOR as u128);
    if share > u64::MAX as u128 {
        None
    } else {
        Some(share as u64)
    }
}

/// A share of at most one hundred percent never exceeds the amount it is
/// taken from.
pub proof fn lemma_share_within_amount(amount: u64, bps: u16)
    ensures
        0 <= bps_share(amount, bps),
        bps <= BPS_DENOMINATOR ==> bps_share(amount, bps) <= amount,
{
    let a = amount as int;
    let b = bps as int;
    assert(0 <= a * b) by (nonlinear_arith)
        requires
            0 <= a,
            0 <= b,
    ;
    if bps <= BPS_DENOMINATOR {
        assert(a * b <= a * 10000) by (nonlinear_arith)
            requires
                0 <= a,
                0 <= b <= 10000,
        ;
    }
}

/// Two shares that add up to one hundred percent divide an amount between
/// them with at most one unit left over: nothing is left exactly when the
/// first share comes out whole.
pub proof fn lemma_complementary_shares(amount: u64, first_bps: u16, second_bps: u16)
    requires
        first_bps + second_bps == BPS_DENOMINATOR,
    ensures
        bps_share(amount, first_bps) + bps_share(amount, second_bps) <= amount,
        bps_share(amount, first_bps) + bps_share(amount, second_bps) >= amount - 1,
        bps_share(amount, first_bps) + bps_share(amount, second_bps) == amount <==> (amount
            * first_bps) % (BPS_DENOMINATOR as int) == 0,
{
    let a = amount as int;
    let f = first_bps as int;
    let g = second_bps as int;
    assert(a * f + a * g == a * 10000) by (nonlinear_arith)
        requires
            f + g == 10000,
    ;
    assert(0 <= a * f && 0 <= a * g) by (nonlinear_arith)
        requires
            0 <= a,
            0 <= f,
            0 <= g,
    ;
}

} // verus!
