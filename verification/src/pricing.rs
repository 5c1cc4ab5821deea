//! The exchange formula: the fee is taken off the input, then the
//! constant-product rule gives the output.
//!
//! All quantities are 128-bit signed integers. The specifications are
//! stated over mathematical integers; the executable functions return
//! `None` exactly where a value of the computation leaves the 128-bit
//! range or the divisor is zero.

use vstd::prelude::*;

verus! {

/// The scale of a fee rate: 10000 basis points are the whole amount.
pub const BPS_SCALE: i128 = 10000;

/// Whether `v` can be held in 128 signed bits.
pub open spec fn fits_i128(v: int) -> bool {
    i128::MIN <= v <= i128::MAX
}

/// The quotient of `x` by `d` rounded toward zero, as machine division
/// gives it. For `x >= 0` and `d > 0` it is the floor of the quotient.
pub open spec fn quotient(x: int, d: int) -> int
    recommends
        d != 0,
{
    if x >= 0 && d > 0 {
        x / d
    } else if x < 0 && d < 0 {
        (-x) / (-d)
    } else if x < 0 {
        -((-x) / d)
    } else {
        -(x / (-d))
    }
}

/// The part of `amount_in` that the fee takes.
pub open spec fn fee_amount(amount_in: int, fee_bps: int) -> int {
    quotient(amount_in * fee_bps, 10000)
}

/// What is left of `amount_in` once the fee is taken. A rate above 10000
/// basis points leaves a negative amount of a positive input.
pub open spec fn amount_in_after_fee(amount_in: int, fee_bps: int) -> int {
    amount_in - fee_amount(amount_in, fee_bps)
}

/// The constant-product output for a net input `net`:
/// `reserve_out * net / (reserve_in + net)`.
pub open spec fn exchange_output(reserve_in: int, reserve_out: int, net: int) -> int {
    quotient(reserve_out * net, reserve_in + net)
}

/// The amount of the other asset that `amount_in` buys at the given
/// reserves and fee rate.
pub open spec fn amount_out(
    reserve_in: int,
    reserve_out: int,
    amount_in: int,
    fee_bps: int,
) -> int {
    exchange_output(reserve_in, reserve_out, amount_in_after_fee(amount_in, fee_bps))
}

/// Whether the fee deduction stays within 128 signed bits.
pub open spec fn fee_computable(amount_in: int, fee_bps: int) -> bool {
    &&& fits_i128(amount_in * fee_bps)
    &&& fits_i128(amount_in_after_fee(amount_in, fee_bps))
}

/// Whether the constant-product output can be computed: the product and
/// the divisor fit in 128 signed bits, the divisor is not zero, and the
/// quotient fits.
pub open spec fn exchange_computable(reserve_in: int, reserve_out: int, net: int) -> bool {
    &&& fits_i128(reserve_out * net)
    &&& fits_i128(reserve_in + net)
    &&& reserve_in + net != 0
    &&& fits_i128(exchange_output(reserve_in, reserve_out, net))
}

/// Whether both steps of the computation of `amount_out` can be done.
pub open spec fn computable(
    reserve_in: int,
    reserve_out: int,
    amount_in: int,
    fee_bps: int,
) -> bool {
    &&& fee_computable(amount_in, fee_bps)
    &&& exchange_computable(reserve_in, reserve_out, amount_in_after_fee(amount_in, fee_bps))
}

/// Takes the fee off `amount_in`.
pub fn compute_amount_in_after_fee(amount_in: i128, fee_bps: u32) -> (r: Option<i128>)
    ensures
        r == if fee_computable(amount_in as int, fee_bps as int) {
            Some(amount_in_after_fee(amount_in as int, fee_bps as int) as i128)
        } else {
            None
        },
{
    let rate: i128 = fee_bps as i128;
    let scaled: i128 = match amount_in.checked_mul(rate) {
        Some(v) => v,
        None => { return None; },
    };
    let fee: i128 = match scaled.checked_div(BPS_SCALE) {
        Some(v) => v,
        None => { return None; },
    };
    amount_in.checked_sub(fee)
}

/// Applies the constant-product rule to a net input.
pub fn compute_exchange_output(reserve_in: i128, reserve_out: i128, net: i128) -> (r: Option<i128>)
    ensures
        r == if exchange_computable(reserve_in as int, reserve_out as int, net as int) {
            Some(exchange_output(reserve_in as int, reserve_out as int, net as int) as i128)
        } else {
            None
        },
{
    let numerator: i128 = match reserve_out.checked_mul(net) {
        Some(v) => v,
        None => { return None; },
    };
    let divisor: i128 = match reserve_in.checked_add(net) {
        Some(v) => v,
        None => { return None; },
    };
    numerator.checked_div(divisor)
}

/// Computes the output of a swap: the fee deduction, then the exchange.
pub fn compute_amount_out(
    reserve_in: i128,
    reserve_out: i128,
    amount_in: i128,
    fee_bps: u32,
) -> (r: Option<i128>)
    ensures
        r == if computable(
            reserve_in as int,
            reserve_out as int,
            amount_in as int,
            fee_bps as int,
        ) {
            Some(
                amount_out(
                    reserve_in as int,
                    reserve_out as int,
                    amount_in as int,
                    fee_bps as int,
                ) as i128,
            )
        } else {
            None
        },
{
    match compute_amount_in_after_fee(amount_in, fee_bps) {
        Some(net) => compute_exchange_output(reserve_in, reserve_out, net),
        None => None,
    }
}

} // verus!
