//! What holds of the pricing formula and of the controller's rules, proved
//! from their definitions.

use vstd::prelude::*;
use vstd::arithmetic::div_mod::{lemma_fundamental_div_mod, lemma_mod_bound};
use crate::pool::{
    deposit_spec, initialize_spec, quote_swap_spec, reserve_in_of, reserve_out_of, swap_spec,
    StellarPayAmm,
};
use crate::pricing::{amount_in_after_fee, amount_out, computable, exchange_output, quotient};
use crate::types::{Address, AmmError, Direction, Reserves, SwapPlan, Transfer};

verus! {

/// For a positive divisor the floor quotient `x / d` is the one integer
/// `q` with `d * q <= x < d * q + d`.
proof fn lemma_floor_bounds(x: int, d: int)
    requires
        d > 0,
    ensures
        d * (x / d) <= x < d * (x / d) + d,
{
    lemma_fundamental_div_mod(x, d);
    lemma_mod_bound(x, d);
}

/// An integer whose multiple by `d` does not exceed `x` does not exceed
/// the floor quotient.
proof fn lemma_floor_at_least(q: int, x: int, d: int)
    requires
        d > 0,
        q * d <= x,
    ensures
        q <= x / d,
{
    lemma_floor_bounds(x, d);
    assert(q < x / d + 1) by (nonlinear_arith)
        requires
            d > 0,
            q * d <= x,
            x < d * (x / d) + d,
    ;
}

/// With a fee rate of at most 10000 basis points, what is left of a
/// non-negative amount after the fee lies between 0 and the amount, and
/// grows, or stays, as the amount grows.
pub proof fn net_amount_monotonic(smaller: int, larger: int, fee_bps: int)
    requires
        0 <= smaller <= larger,
        0 <= fee_bps <= 10000,
    ensures
        0 <= amount_in_after_fee(smaller, fee_bps) <= smaller,
        amount_in_after_fee(smaller, fee_bps) <= amount_in_after_fee(larger, fee_bps) <= larger,
{
    let p1 = smaller * fee_bps;
    let p2 = larger * fee_bps;
    assert(0 <= p1 <= p2 && p1 <= smaller * 10000 && p2 <= larger * 10000 && p2 - p1 <= (larger
        - smaller) * 10000) by (nonlinear_arith)
        requires
            0 <= smaller <= larger,
            0 <= fee_bps <= 10000,
            p1 == smaller * fee_bps,
            p2 == larger * fee_bps,
    ;
}

/// A higher fee rate leaves no more of a non-negative amount.
pub proof fn net_amount_falls_with_fee(amount_in: int, lower_fee: int, higher_fee: int)
    requires
        0 <= amount_in,
        0 <= lower_fee <= higher_fee,
    ensures
        amount_in_after_fee(amount_in, higher_fee) <= amount_in_after_fee(amount_in, lower_fee)
            <= amount_in,
{
    let p1 = amount_in * lower_fee;
    let p2 = amount_in * higher_fee;
    assert(0 <= p1 <= p2) by (nonlinear_arith)
        requires
            0 <= amount_in,
            0 <= lower_fee <= higher_fee,
            p1 == amount_in * lower_fee,
            p2 == amount_in * higher_fee,
    ;
}

/// The constant-product quotient `reserve_out * net / (reserve_in + net)`
/// grows, or stays, as the net input grows.
proof fn lemma_product_quotient_monotonic(reserve_in: int, reserve_out: int, net1: int, net2: int)
    requires
        reserve_in > 0,
        reserve_out >= 0,
        0 <= net1 <= net2,
    ensures
        0 <= reserve_out * net1,
        0 <= reserve_out * net2,
        0 <= (reserve_out * net1) / (reserve_in + net1) <= (reserve_out * net2) / (reserve_in
            + net2),
        (reserve_out * net2) / (reserve_in + net2) <= reserve_out,
        reserve_out > 0 ==> (reserve_out * net2) / (reserve_in + net2) < reserve_out,
{
    let d1 = reserve_in + net1;
    let d2 = reserve_in + net2;
    let x1 = reserve_out * net1;
    let x2 = reserve_out * net2;
    let q1 = x1 / d1;
    let q2 = x2 / d2;
    lemma_floor_bounds(x1, d1);
    lemma_floor_bounds(x2, d2);
    assert(0 <= x1 && 0 <= x2) by (nonlinear_arith)
        requires
            reserve_out >= 0,
            0 <= net1 <= net2,
            x1 == reserve_out * net1,
            x2 == reserve_out * net2,
    ;
    assert(0 * d1 <= x1);
    lemma_floor_at_least(0, x1, d1);
    assert(q1 <= reserve_out) by (nonlinear_arith)
        requires
            d1 * q1 <= x1,
            x1 == reserve_out * net1,
            d1 == reserve_in + net1,
            reserve_in > 0,
            net1 >= 0,
            reserve_out >= 0,
    ;
    assert(q2 <= reserve_out && (reserve_out > 0 ==> q2 < reserve_out)) by (nonlinear_arith)
        requires
            d2 * q2 <= x2,
            x2 == reserve_out * net2,
            d2 == reserve_in + net2,
            reserve_in > 0,
            net2 >= 0,
            reserve_out >= 0,
    ;
    assert(q1 * d2 <= x2) by (nonlinear_arith)
        requires
            d1 * q1 <= x1,
            q1 <= reserve_out,
            x1 == reserve_out * net1,
            x2 == reserve_out * net2,
            d1 == reserve_in + net1,
            d2 == reserve_in + net2,
            net1 <= net2,
    ;
    lemma_floor_at_least(q1, x2, d2);
}

/// The floor quotient of non-negative numbers grows, or stays, as the
/// dividend grows and the divisor shrinks.
proof fn lemma_floor_monotonic(x1: int, d1: int, x2: int, d2: int)
    requires
        0 <= x1 <= x2,
        0 < d2 <= d1,
    ensures
        0 <= x1 / d1 <= x2 / d2,
{
    lemma_floor_bounds(x1, d1);
    lemma_floor_at_least(0, x1, d1);
    let q1 = x1 / d1;
    assert(q1 * d2 <= x2) by (nonlinear_arith)
        requires
            d1 * q1 <= x1,
            0 <= q1,
            x1 <= x2,
            0 < d2 <= d1,
    ;
    lemma_floor_at_least(q1, x2, d2);
}

/// The quotient toward zero of a dividend that is not positive by a
/// positive divisor is the negated floor quotient of the negated dividend.
proof fn lemma_quotient_of_nonpositive(x: int, d: int)
    requires
        x <= 0,
        0 < d,
    ensures
        quotient(x, d) == -((-x) / d),
        quotient(x, d) <= 0,
{
    lemma_floor_bounds(-x, d);
    lemma_floor_at_least(0, -x, d);
    if x == 0 {
        assert(0int / d <= 0) by (nonlinear_arith)
            requires
                d * (0int / d) <= 0,
                0 < d,
        ;
    }
}

/// The constant-product output grows, or stays, as the net input grows,
/// as long as the divisor `reserve_in + net` is positive; there it is
/// below `reserve_out` wherever that is positive.
proof fn lemma_exchange_monotonic(reserve_in: int, reserve_out: int, lower: int, higher: int)
    requires
        reserve_in > 0,
        reserve_out >= 0,
        lower <= higher,
        reserve_in + lower > 0,
    ensures
        exchange_output(reserve_in, reserve_out, lower) <= exchange_output(
            reserve_in,
            reserve_out,
            higher,
        ),
        exchange_output(reserve_in, reserve_out, higher) <= reserve_out,
        reserve_out > 0 ==> exchange_output(reserve_in, reserve_out, higher) < reserve_out,
{
    let x_lo = reserve_out * lower;
    let x_hi = reserve_out * higher;
    if lower >= 0 {
        lemma_product_quotient_monotonic(reserve_in, reserve_out, lower, higher);
    } else if higher >= 0 {
        lemma_product_quotient_monotonic(reserve_in, reserve_out, higher, higher);
        assert(x_lo <= 0) by (nonlinear_arith)
            requires
                x_lo == reserve_out * lower,
                reserve_out >= 0,
                lower < 0,
        ;
        lemma_quotient_of_nonpositive(x_lo, reserve_in + lower);
    } else {
        assert(x_lo <= x_hi <= 0) by (nonlinear_arith)
            requires
                x_lo == reserve_out * lower,
                x_hi == reserve_out * higher,
                reserve_out >= 0,
                lower <= higher < 0,
        ;
        lemma_quotient_of_nonpositive(x_lo, reserve_in + lower);
        lemma_quotient_of_nonpositive(x_hi, reserve_in + higher);
        lemma_floor_monotonic(-x_hi, reserve_in + higher, -x_lo, reserve_in + lower);
    }
}

/// Swap monotonicity: at fixed reserves, with liquidity on the side sold,
/// and a fixed fee rate of at most 10000 basis points, a larger input
/// never buys less.
pub proof fn amount_out_monotonic(
    reserve_in: int,
    reserve_out: int,
    smaller_in: int,
    larger_in: int,
    fee_bps: int,
)
    requires
        reserve_in > 0,
        reserve_out >= 0,
        0 <= smaller_in <= larger_in,
        0 <= fee_bps <= 10000,
    ensures
        0 <= amount_out(reserve_in, reserve_out, smaller_in, fee_bps) <= amount_out(
            reserve_in,
            reserve_out,
            larger_in,
            fee_bps,
        ),
{
    net_amount_monotonic(smaller_in, larger_in, fee_bps);
    lemma_product_quotient_monotonic(
        reserve_in,
        reserve_out,
        amount_in_after_fee(smaller_in, fee_bps),
        amount_in_after_fee(larger_in, fee_bps),
    );
}

/// The constant-product bound: with both reserves positive, no
/// non-negative input buys the whole opposite reserve, as long as the
/// divisor of the formula is positive. It is positive at every fee rate up
/// to 10000 basis points, and there the output is not negative either.
pub proof fn amount_out_below_reserve(
    reserve_in: int,
    reserve_out: int,
    amount_in: int,
    fee_bps: int,
)
    requires
        reserve_in > 0,
        reserve_out > 0,
        0 <= amount_in,
        0 <= fee_bps,
        fee_bps <= 10000 || reserve_in + amount_in_after_fee(amount_in, fee_bps) > 0,
    ensures
        amount_out(reserve_in, reserve_out, amount_in, fee_bps) < reserve_out,
        fee_bps <= 10000 ==> 0 <= amount_out(reserve_in, reserve_out, amount_in, fee_bps),
{
    let net = amount_in_after_fee(amount_in, fee_bps);
    if fee_bps <= 10000 {
        net_amount_monotonic(amount_in, amount_in, fee_bps);
        lemma_product_quotient_monotonic(reserve_in, reserve_out, net, net);
    }
    lemma_exchange_monotonic(reserve_in, reserve_out, net, net);
}

/// Fee effect: at the same reserves and the same non-negative input, a
/// higher fee rate never buys more, as long as the divisor of the formula
/// is positive at the higher rate. It is at every rate up to 10000 basis
/// points.
pub proof fn higher_fee_pays_no_more(
    reserve_in: int,
    reserve_out: int,
    amount_in: int,
    lower_fee: int,
    higher_fee: int,
)
    requires
        reserve_in > 0,
        reserve_out >= 0,
        0 <= amount_in,
        0 <= lower_fee <= higher_fee,
        higher_fee <= 10000 || reserve_in + amount_in_after_fee(amount_in, higher_fee) > 0,
    ensures
        amount_out(reserve_in, reserve_out, amount_in, higher_fee) <= amount_out(
            reserve_in,
            reserve_out,
            amount_in,
            lower_fee,
        ),
{
    net_amount_falls_with_fee(amount_in, lower_fee, higher_fee);
    if higher_fee <= 10000 {
        net_amount_monotonic(amount_in, amount_in, higher_fee);
    }
    lemma_exchange_monotonic(
        reserve_in,
        reserve_out,
        amount_in_after_fee(amount_in, higher_fee),
        amount_in_after_fee(amount_in, lower_fee),
    );
}

/// The pool keeps the fee: with liquidity on the side sold and a fee rate
/// of at most 10000 basis points, the product of the two reserves after a
/// swap, the whole input added and the output taken out, is no smaller
/// than before it.
pub proof fn product_never_falls(reserve_in: int, reserve_out: int, amount_in: int, fee_bps: int)
    requires
        reserve_in > 0,
        reserve_out >= 0,
        0 <= amount_in,
        0 <= fee_bps <= 10000,
    ensures
        (reserve_in + amount_in) * (reserve_out - amount_out(
            reserve_in,
            reserve_out,
            amount_in,
            fee_bps,
        )) >= reserve_in * reserve_out,
{
    net_amount_monotonic(amount_in, amount_in, fee_bps);
    let net = amount_in_after_fee(amount_in, fee_bps);
    lemma_product_quotient_monotonic(reserve_in, reserve_out, net, net);
    let out = (reserve_out * net) / (reserve_in + net);
    lemma_floor_bounds(reserve_out * net, reserve_in + net);
    assert((reserve_in + amount_in) * (reserve_out - out) >= reserve_in * reserve_out)
        by (nonlinear_arith)
        requires
            (reserve_in + net) * out <= reserve_out * net,
            0 <= out <= reserve_out,
            0 <= net <= amount_in,
            reserve_in > 0,
    ;
}

/// Where the reserves are non-negative, the side sold has liquidity, the
/// fee rate is at most 10000 basis points and the input is non-negative,
/// the output can be computed as soon as the two products fit in 128
/// signed bits.
pub proof fn computable_on_ordinary_inputs(
    reserve_in: i128,
    reserve_out: i128,
    amount_in: i128,
    fee_bps: u32,
)
    requires
        reserve_in > 0,
        reserve_out >= 0,
        0 <= amount_in,
        fee_bps <= 10000,
        amount_in * fee_bps <= i128::MAX,
        reserve_out * amount_in <= i128::MAX,
        reserve_in + amount_in <= i128::MAX,
    ensures
        computable(reserve_in as int, reserve_out as int, amount_in as int, fee_bps as int),
{
    net_amount_monotonic(amount_in as int, amount_in as int, fee_bps as int);
    let net = amount_in_after_fee(amount_in as int, fee_bps as int);
    lemma_product_quotient_monotonic(reserve_in as int, reserve_out as int, net, net);
    assert(0 <= amount_in * fee_bps && reserve_out * net <= reserve_out * amount_in)
        by (nonlinear_arith)
        requires
            0 <= amount_in,
            0 <= fee_bps,
            0 <= reserve_out,
            0 <= net <= amount_in,
    ;
}

/// Double setup: a second `initialize` is refused with
/// `AlreadyInitialized`, whatever its arguments, and leaves the pool as the
/// first call made it.
pub proof fn second_initialize_fails(
    pool: StellarPayAmm,
    admin: Address,
    token_a: Address,
    token_b: Address,
    fee_bps: u32,
    admin2: Address,
    token_a2: Address,
    token_b2: Address,
    fee_bps2: u32,
)
    ensures
        ({
            let first = initialize_spec(pool, admin, token_a, token_b, fee_bps);
            let second = initialize_spec(first.0, admin2, token_a2, token_b2, fee_bps2);
            second.1 == Err::<(), AmmError>(AmmError::AlreadyInitialized) && second.0 == first.0
        }),
{
}

/// Conservation on deposit: on a pool that is set up, a deposit of
/// non-negative amounts that the reserves can take is accepted, asks for
/// exactly these amounts of the two assets from the depositor, and raises
/// each reserve by exactly the amount deposited.
pub proof fn deposit_conserves(
    pool: StellarPayAmm,
    reserves: Reserves,
    to: Address,
    amount_a: i128,
    amount_b: i128,
)
    requires
        pool.config is Some,
        0 <= amount_a,
        0 <= amount_b,
        reserves.reserve_a + amount_a <= i128::MAX,
        reserves.reserve_b + amount_b <= i128::MAX,
    ensures
        ({
            let outcome = deposit_spec(pool, reserves, to, amount_a, amount_b);
            &&& outcome is Ok
            &&& outcome->Ok_0.reserves_after.reserve_a == reserves.reserve_a + amount_a
            &&& outcome->Ok_0.reserves_after.reserve_b == reserves.reserve_b + amount_b
            &&& outcome->Ok_0.transfer_a == (Transfer {
                token: pool.config->Some_0.token_a,
                holder: to,
                direction: Direction::IntoPool,
                amount: amount_a,
            })
            &&& outcome->Ok_0.transfer_b == (Transfer {
                token: pool.config->Some_0.token_b,
                holder: to,
                direction: Direction::IntoPool,
                amount: amount_b,
            })
        }),
{
}

/// Quote and swap agree: a swap that is accepted, whatever minimum it
/// asked for and 0 among them, pays out what a quote at the same reserves
/// announces.
pub proof fn quote_matches_swap(
    pool: StellarPayAmm,
    reserves: Reserves,
    from: Address,
    token_in: Address,
    amount_in: i128,
    min_amount_out: i128,
)
    requires
        swap_spec(pool, reserves, from, token_in, amount_in, min_amount_out) is Ok,
    ensures
        quote_swap_spec(pool, reserves, token_in, amount_in) == Ok::<i128, AmmError>(
            swap_spec(pool, reserves, from, token_in, amount_in, min_amount_out)->Ok_0.amount_out,
        ),
{
}

/// The transfers that the outcome of a swap asks the ledger for: the two
/// of an accepted swap, none of a refused one.
pub open spec fn transfers_of(outcome: Result<SwapPlan, AmmError>) -> Seq<Transfer> {
    match outcome {
        Ok(plan) => seq![plan.transfer_in, plan.transfer_out],
        Err(_) => Seq::empty(),
    }
}

/// The reserves once the outcome of a swap has been acted on.
pub open spec fn reserves_following(
    reserves: Reserves,
    outcome: Result<SwapPlan, AmmError>,
) -> Reserves {
    match outcome {
        Ok(plan) => plan.reserves_after,
        Err(_) => reserves,
    }
}

/// The slippage guard: on a pool that is set up, with liquidity on the
/// side sold and an output that can be computed, a swap is refused with
/// `SlippageExceeded` exactly when the output is below the minimum asked
/// for, and then it asks for no transfer and leaves the reserves as they
/// were.
pub proof fn slippage_guard(
    pool: StellarPayAmm,
    reserves: Reserves,
    from: Address,
    token_in: Address,
    amount_in: i128,
    min_amount_out: i128,
)
    requires
        pool.config is Some,
        reserve_in_of(pool.config->Some_0, reserves, token_in) != 0,
        computable(
            reserve_in_of(pool.config->Some_0, reserves, token_in),
            reserve_out_of(pool.config->Some_0, reserves, token_in),
            amount_in as int,
            pool.config->Some_0.fee_bps as int,
        ),
    ensures
        swap_spec(pool, reserves, from, token_in, amount_in, min_amount_out) == Err::<
            SwapPlan,
            AmmError,
        >(AmmError::SlippageExceeded) <==> amount_out(
            reserve_in_of(pool.config->Some_0, reserves, token_in),
            reserve_out_of(pool.config->Some_0, reserves, token_in),
            amount_in as int,
            pool.config->Some_0.fee_bps as int,
        ) < min_amount_out,
        swap_spec(pool, reserves, from, token_in, amount_in, min_amount_out) is Err ==> {
            let outcome = swap_spec(pool, reserves, from, token_in, amount_in, min_amount_out);
            transfers_of(outcome) == Seq::<Transfer>::empty() && reserves_following(
                reserves,
                outcome,
            ) == reserves
        },
{
}

/// When a swap is owed: on a pool that is set up, with reserves that are
/// not negative, liquidity on the side sold, a fee rate of at most 10000
/// basis points, a non-negative input whose products with the fee rate
/// and with the opposite reserve fit in 128 signed bits, and a minimum
/// that the output reaches, the swap is accepted.
pub proof fn ordinary_swap_is_accepted(
    pool: StellarPayAmm,
    reserves: Reserves,
    from: Address,
    token_in: Address,
    amount_in: i128,
    min_amount_out: i128,
)
    requires
        pool.config is Some,
        pool.config->Some_0.fee_bps <= 10000,
        reserve_in_of(pool.config->Some_0, reserves, token_in) > 0,
        reserve_out_of(pool.config->Some_0, reserves, token_in) >= 0,
        0 <= amount_in,
        amount_in * pool.config->Some_0.fee_bps <= i128::MAX,
        reserve_out_of(pool.config->Some_0, reserves, token_in) * amount_in <= i128::MAX,
        reserve_in_of(pool.config->Some_0, reserves, token_in) + amount_in <= i128::MAX,
        min_amount_out <= amount_out(
            reserve_in_of(pool.config->Some_0, reserves, token_in),
            reserve_out_of(pool.config->Some_0, reserves, token_in),
            amount_in as int,
            pool.config->Some_0.fee_bps as int,
        ),
    ensures
        swap_spec(pool, reserves, from, token_in, amount_in, min_amount_out) is Ok,
{
    let config = pool.config->Some_0;
    let reserve_in = reserve_in_of(config, reserves, token_in);
    let reserve_out = reserve_out_of(config, reserves, token_in);
    computable_on_ordinary_inputs(
        reserve_in as i128,
        reserve_out as i128,
        amount_in,
        config.fee_bps,
    );
    net_amount_monotonic(amount_in as int, amount_in as int, config.fee_bps as int);
    let net = amount_in_after_fee(amount_in as int, config.fee_bps as int);
    lemma_product_quotient_monotonic(reserve_in, reserve_out, net, net);
}

/// An accepted swap moves the whole input into the pool and the output
/// out of it, between the pool and the trader, and changes the two
/// reserves by exactly these amounts.
pub proof fn accepted_swap_moves_input_and_output(
    pool: StellarPayAmm,
    reserves: Reserves,
    from: Address,
    token_in: Address,
    amount_in: i128,
    min_amount_out: i128,
)
    requires
        swap_spec(pool, reserves, from, token_in, amount_in, min_amount_out) is Ok,
    ensures
        ({
            let config = pool.config->Some_0;
            let plan = swap_spec(pool, reserves, from, token_in, amount_in, min_amount_out)->Ok_0;
            &&& pool.config is Some
            &&& plan.amount_out >= min_amount_out
            &&& plan.transfer_in.amount == amount_in
            &&& plan.transfer_out.amount == plan.amount_out
            &&& reserve_in_of(config, plan.reserves_after, token_in) == reserve_in_of(
                config,
                reserves,
                token_in,
            ) + amount_in
            &&& reserve_out_of(config, plan.reserves_after, token_in) == reserve_out_of(
                config,
                reserves,
                token_in,
            ) - plan.amount_out
        }),
{
}

} // verus!
