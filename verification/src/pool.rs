//! The pool controller: the one-time setup, deposits, swaps, quotes, the
//! fee update and the read-only queries.
//!
//! Authorization of the caller and the transfers themselves are the
//! embedding contract's business. It authenticates the caller first, reads
//! the pool's balances from the ledger, calls the operation, and on `Ok`
//! carries out every planned transfer within the same atomic call.

use vstd::prelude::*;
use crate::pricing::{amount_out, computable, compute_amount_out, fits_i128};
use crate::types::{
    Address, AmmError, DataKey, DepositPlan, Direction, PoolConfig, Reserves, StoredValue,
    SwapPlan, Transfer,
};

verus! {

/// The pool: its configuration store, empty until `initialize` has run.
#[derive(Clone, Copy, Debug, PartialEq, Eq, Structural)]
pub struct StellarPayAmm {
    pub config: Option<PoolConfig>,
}

/// The reserve of the asset that is sold when `token_in` is offered: asset
/// A's where `token_in` is the configured asset A, asset B's for any other
/// identifier.
pub open spec fn reserve_in_of(config: PoolConfig, reserves: Reserves, token_in: Address) -> int {
    if token_in == config.token_a {
        reserves.reserve_a as int
    } else {
        reserves.reserve_b as int
    }
}

/// The reserve of the asset that is bought when `token_in` is offered.
pub open spec fn reserve_out_of(config: PoolConfig, reserves: Reserves, token_in: Address) -> int {
    if token_in == config.token_a {
        reserves.reserve_b as int
    } else {
        reserves.reserve_a as int
    }
}

/// The asset that is bought when `token_in` is offered.
pub open spec fn token_out_of(config: PoolConfig, token_in: Address) -> Address {
    if token_in == config.token_a {
        config.token_b
    } else {
        config.token_a
    }
}

/// The asset that is taken in when `token_in` is offered: asset A where
/// `token_in` names it, asset B otherwise.
pub open spec fn token_taken_of(config: PoolConfig, token_in: Address) -> Address {
    if token_in == config.token_a {
        config.token_a
    } else {
        config.token_b
    }
}

/// What `initialize` makes of a pool and what it answers.
pub open spec fn initialize_spec(
    pool: StellarPayAmm,
    admin: Address,
    token_a: Address,
    token_b: Address,
    fee_bps: u32,
) -> (StellarPayAmm, Result<(), AmmError>) {
    if pool.config is Some {
        (pool, Err(AmmError::AlreadyInitialized))
    } else {
        (StellarPayAmm { config: Some(PoolConfig { admin, token_a, token_b, fee_bps }) }, Ok(()))
    }
}

/// What `set_fee` makes of a pool and what it answers.
pub open spec fn set_fee_spec(pool: StellarPayAmm, admin: Address, new_fee_bps: u32) -> (
    StellarPayAmm,
    Result<(), AmmError>,
) {
    match pool.config {
        None => (pool, Err(AmmError::NotInitialized)),
        Some(c) => if admin != c.admin {
            (pool, Err(AmmError::Unauthorized))
        } else {
            (
                StellarPayAmm {
                    config: Some(
                        PoolConfig {
                            admin: c.admin,
                            token_a: c.token_a,
                            token_b: c.token_b,
                            fee_bps: new_fee_bps,
                        },
                    ),
                },
                Ok(()),
            )
        },
    }
}

/// What `deposit` answers.
pub open spec fn deposit_spec(
    pool: StellarPayAmm,
    reserves: Reserves,
    to: Address,
    amount_a: i128,
    amount_b: i128,
) -> Result<DepositPlan, AmmError> {
    match pool.config {
        None => Err(AmmError::NotInitialized),
        Some(c) => if !fits_i128(reserves.reserve_a + amount_a) || !fits_i128(
            reserves.reserve_b + amount_b,
        ) {
            Err(AmmError::ArithmeticOverflow)
        } else {
            Ok(
                DepositPlan {
                    transfer_a: Transfer {
                        token: c.token_a,
                        holder: to,
                        direction: Direction::IntoPool,
                        amount: amount_a,
                    },
                    transfer_b: Transfer {
                        token: c.token_b,
                        holder: to,
                        direction: Direction::IntoPool,
                        amount: amount_b,
                    },
                    reserves_after: Reserves {
                        reserve_a: (reserves.reserve_a + amount_a) as i128,
                        reserve_b: (reserves.reserve_b + amount_b) as i128,
                    },
                },
            )
        },
    }
}

/// What `quote_swap` answers.
pub open spec fn quote_swap_spec(
    pool: StellarPayAmm,
    reserves: Reserves,
    token_in: Address,
    amount_in: i128,
) -> Result<i128, AmmError> {
    match pool.config {
        None => Err(AmmError::NotInitialized),
        Some(c) => {
            let reserve_in = reserve_in_of(c, reserves, token_in);
            let reserve_out = reserve_out_of(c, reserves, token_in);
            if reserve_in == 0 {
                Ok(0i128)
            } else if !computable(reserve_in, reserve_out, amount_in as int, c.fee_bps as int) {
                Err(AmmError::ArithmeticOverflow)
            } else {
                Ok(amount_out(reserve_in, reserve_out, amount_in as int, c.fee_bps as int) as i128)
            }
        },
    }
}

/// The reserves once a swap's two transfers are done: the whole of
/// `amount_in` is added on the side sold, `out` is taken from the other.
pub open spec fn reserves_after_swap(
    config: PoolConfig,
    reserves: Reserves,
    token_in: Address,
    amount_in: i128,
    out: i128,
) -> Reserves {
    if token_in == config.token_a {
        Reserves {
            reserve_a: (reserves.reserve_a + amount_in) as i128,
            reserve_b: (reserves.reserve_b - out) as i128,
        }
    } else {
        Reserves {
            reserve_a: (reserves.reserve_a - out) as i128,
            reserve_b: (reserves.reserve_b + amount_in) as i128,
        }
    }
}

/// What `swap` answers.
pub open spec fn swap_spec(
    pool: StellarPayAmm,
    reserves: Reserves,
    from: Address,
    token_in: Address,
    amount_in: i128,
    min_amount_out: i128,
) -> Result<SwapPlan, AmmError> {
    match pool.config {
        None => Err(AmmError::NotInitialized),
        Some(c) => {
            let reserve_in = reserve_in_of(c, reserves, token_in);
            let reserve_out = reserve_out_of(c, reserves, token_in);
            let out = amount_out(reserve_in, reserve_out, amount_in as int, c.fee_bps as int);
            if reserve_in == 0 {
                Err(AmmError::InsufficientLiquidity)
            } else if !computable(reserve_in, reserve_out, amount_in as int, c.fee_bps as int) {
                Err(AmmError::ArithmeticOverflow)
            } else if out < min_amount_out {
                Err(AmmError::SlippageExceeded)
            } else if !fits_i128(reserve_in + amount_in) || !fits_i128(reserve_out - out) {
                Err(AmmError::ArithmeticOverflow)
            } else {
                Ok(
                    SwapPlan {
                        amount_out: out as i128,
                        transfer_in: Transfer {
                            token: token_taken_of(c, token_in),
                            holder: from,
                            direction: Direction::IntoPool,
                            amount: amount_in,
                        },
                        transfer_out: Transfer {
                            token: token_out_of(c, token_in),
                            holder: from,
                            direction: Direction::OutOfPool,
                            amount: out as i128,
                        },
                        reserves_after: reserves_after_swap(
                            c,
                            reserves,
                            token_in,
                            amount_in,
                            out as i128,
                        ),
                    },
                )
            }
        },
    }
}

impl StellarPayAmm {
    /// A pool whose configuration has not been written.
    pub fn new() -> (pool: StellarPayAmm)
        ensures
            pool.config is None,
    {
        StellarPayAmm { config: None }
    }

    /// Whether `initialize` has run.
    pub open spec fn is_initialized(&self) -> bool {
        self.config is Some
    }

    /// The value kept under `key`, or `None` before the setup.
    pub open spec fn stored(&self, key: DataKey) -> Option<StoredValue> {
        match self.config {
            None => None,
            Some(c) => Some(
                match key {
                    DataKey::Admin => StoredValue::Identity(c.admin),
                    DataKey::TokenA => StoredValue::Identity(c.token_a),
                    DataKey::TokenB => StoredValue::Identity(c.token_b),
                    DataKey::Fee => StoredValue::FeeRate(c.fee_bps),
                    DataKey::Initialized => StoredValue::Flag(true),
                },
            ),
        }
    }

    /// Reads the value kept under `key`.
    pub fn get(&self, key: DataKey) -> (r: Option<StoredValue>)
        ensures
            r == self.stored(key),
    {
        match self.config {
            None => None,
            Some(c) => Some(
                match key {
                    DataKey::Admin => StoredValue::Identity(c.admin),
                    DataKey::TokenA => StoredValue::Identity(c.token_a),
                    DataKey::TokenB => StoredValue::Identity(c.token_b),
                    DataKey::Fee => StoredValue::FeeRate(c.fee_bps),
                    DataKey::Initialized => StoredValue::Flag(true),
                },
            ),
        }
    }

    /// Writes the configuration, once. A second call is refused with
    /// `AlreadyInitialized` and leaves the pool as it was. The admin is
    /// taken on trust; the two assets are not compared.
    pub fn initialize(
        &mut self,
        admin: Address,
        token_a_address: Address,
        token_b_address: Address,
        fee_bps: u32,
    ) -> (r: Result<(), AmmError>)
        ensures
            (*final(self), r) == initialize_spec(
                *old(self),
                admin,
                token_a_address,
                token_b_address,
                fee_bps,
            ),
            old(self).config is Some ==> r == Err::<(), AmmError>(AmmError::AlreadyInitialized)
                && *final(self) == *old(self),
            old(self).config is None ==> r is Ok && final(self).config == Some(
                PoolConfig {
                    admin,
                    token_a: token_a_address,
                    token_b: token_b_address,
                    fee_bps,
                },
            ),
    {
        if self.config.is_some() {
            return Err(AmmError::AlreadyInitialized);
        }
        self.config = Some(
            PoolConfig { admin, token_a: token_a_address, token_b: token_b_address, fee_bps },
        );
        Ok(())
    }

    /// Plans a deposit from `to`: `amount_a` of asset A and `amount_b` of
    /// asset B go into the pool, in whatever ratio they come. Each reserve
    /// grows by exactly the amount deposited.
    pub fn deposit(&self, reserves: Reserves, to: Address, amount_a: i128, amount_b: i128) -> (r:
        Result<DepositPlan, AmmError>)
        ensures
            r == deposit_spec(*self, reserves, to, amount_a, amount_b),
            r is Ok ==> r->Ok_0.reserves_after.reserve_a == reserves.reserve_a + amount_a
                && r->Ok_0.reserves_after.reserve_b == reserves.reserve_b + amount_b,
    {
        let c = match self.config {
            Some(c) => c,
            None => { return Err(AmmError::NotInitialized); },
        };
        let after_a: i128 = match reserves.reserve_a.checked_add(amount_a) {
            Some(v) => v,
            None => { return Err(AmmError::ArithmeticOverflow); },
        };
        let after_b: i128 = match reserves.reserve_b.checked_add(amount_b) {
            Some(v) => v,
            None => { return Err(AmmError::ArithmeticOverflow); },
        };
        Ok(
            DepositPlan {
                transfer_a: Transfer {
                    token: c.token_a,
                    holder: to,
                    direction: Direction::IntoPool,
                    amount: amount_a,
                },
                transfer_b: Transfer {
                    token: c.token_b,
                    holder: to,
                    direction: Direction::IntoPool,
                    amount: amount_b,
                },
                reserves_after: Reserves { reserve_a: after_a, reserve_b: after_b },
            },
        )
    }

    /// Plans a swap of `amount_in` of `token_in_address` by `from`. A swap
    /// is refused, in this order, where the pool is not set up, where the
    /// reserve of the side sold is zero, where the output cannot be
    /// computed, where the output is below `min_amount_out`, and where a
    /// reserve would leave the integer range. On `Ok` the whole of
    /// `amount_in` goes into the pool and `amount_out` comes out of it; on
    /// `Err` no transfer is planned. An identifier that is neither asset
    /// is taken for asset B.
    pub fn swap(
        &self,
        reserves: Reserves,
        from: Address,
        token_in_address: Address,
        amount_in: i128,
        min_amount_out: i128,
    ) -> (r: Result<SwapPlan, AmmError>)
        ensures
            r == swap_spec(*self, reserves, from, token_in_address, amount_in, min_amount_out),
    {
        let c = match self.config {
            Some(c) => c,
            None => { return Err(AmmError::NotInitialized); },
        };
        let is_token_in_a = token_in_address == c.token_a;
        let (token_in, token_out, reserve_in, reserve_out) = if is_token_in_a {
            (c.token_a, c.token_b, reserves.reserve_a, reserves.reserve_b)
        } else {
            (c.token_b, c.token_a, reserves.reserve_b, reserves.reserve_a)
        };
        if reserve_in == 0 {
            return Err(AmmError::InsufficientLiquidity);
        }
        let out: i128 = match compute_amount_out(reserve_in, reserve_out, amount_in, c.fee_bps) {
            Some(v) => v,
            None => { return Err(AmmError::ArithmeticOverflow); },
        };
        if out < min_amount_out {
            return Err(AmmError::SlippageExceeded);
        }
        let after_in: i128 = match reserve_in.checked_add(amount_in) {
            Some(v) => v,
            None => { return Err(AmmError::ArithmeticOverflow); },
        };
        let after_out: i128 = match reserve_out.checked_sub(out) {
            Some(v) => v,
            None => { return Err(AmmError::ArithmeticOverflow); },
        };
        let reserves_after = if is_token_in_a {
            Reserves { reserve_a: after_in, reserve_b: after_out }
        } else {
            Reserves { reserve_a: after_out, reserve_b: after_in }
        };
        Ok(
            SwapPlan {
                amount_out: out,
                transfer_in: Transfer {
                    token: token_in,
                    holder: from,
                    direction: Direction::IntoPool,
                    amount: amount_in,
                },
                transfer_out: Transfer {
                    token: token_out,
                    holder: from,
                    direction: Direction::OutOfPool,
                    amount: out,
                },
                reserves_after,
            },
        )
    }

    /// The pool's two reserves, asset A's first.
    pub fn get_reserves(&self, reserves: Reserves) -> (r: Result<(i128, i128), AmmError>)
        ensures
            self.config is None ==> r == Err::<(i128, i128), AmmError>(AmmError::NotInitialized),
            self.config is Some ==> r == Ok::<(i128, i128), AmmError>(
                (reserves.reserve_a, reserves.reserve_b),
            ),
    {
        if self.config.is_none() {
            return Err(AmmError::NotInitialized);
        }
        Ok((reserves.reserve_a, reserves.reserve_b))
    }

    /// Replaces the fee rate. Only the stored admin may; the new rate is
    /// not range-checked.
    pub fn set_fee(&mut self, admin: Address, new_fee_bps: u32) -> (r: Result<(), AmmError>)
        ensures
            (*final(self), r) == set_fee_spec(*old(self), admin, new_fee_bps),
            r is Err ==> *final(self) == *old(self),
            r is Ok <==> old(self).config is Some && old(self).config->Some_0.admin == admin,
    {
        let c = match self.config {
            Some(c) => c,
            None => { return Err(AmmError::NotInitialized); },
        };
        if admin != c.admin {
            return Err(AmmError::Unauthorized);
        }
        self.config = Some(
            PoolConfig {
                admin: c.admin,
                token_a: c.token_a,
                token_b: c.token_b,
                fee_bps: new_fee_bps,
            },
        );
        Ok(())
    }

    /// The admin, asset A, asset B and the fee rate, in that order.
    pub fn get_contract_info(&self) -> (r: Result<(Address, Address, Address, u32), AmmError>)
        ensures
            self.config is None ==> r == Err::<(Address, Address, Address, u32), AmmError>(
                AmmError::NotInitialized,
            ),
            self.config is Some ==> r == Ok::<(Address, Address, Address, u32), AmmError>(
                (
                    self.config->Some_0.admin,
                    self.config->Some_0.token_a,
                    self.config->Some_0.token_b,
                    self.config->Some_0.fee_bps,
                ),
            ),
    {
        match self.config {
            None => Err(AmmError::NotInitialized),
            Some(c) => Ok((c.admin, c.token_a, c.token_b, c.fee_bps)),
        }
    }

    /// What a swap of `amount_in` of `token_in_address` would pay out at
    /// these reserves, with no transfer planned. A zero reserve on the side
    /// sold gives 0, not an error.
    pub fn quote_swap(&self, reserves: Reserves, token_in_address: Address, amount_in: i128) -> (r:
        Result<i128, AmmError>)
        ensures
            r == quote_swap_spec(*self, reserves, token_in_address, amount_in),
    {
        let c = match self.config {
            Some(c) => c,
            None => { return Err(AmmError::NotInitialized); },
        };
        let (reserve_in, reserve_out) = if token_in_address == c.token_a {
            (reserves.reserve_a, reserves.reserve_b)
        } else {
            (reserves.reserve_b, reserves.reserve_a)
        };
        if reserve_in == 0 {
            return Ok(0);
        }
        match compute_amount_out(reserve_in, reserve_out, amount_in, c.fee_bps) {
            Some(v) => Ok(v),
            None => Err(AmmError::ArithmeticOverflow),
        }
    }
}

} // verus!
