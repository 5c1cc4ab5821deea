//! Plain data that the pool's rules speak of.

use vstd::prelude::*;

verus! {

/// What kind of principal an address names.
#[derive(Clone, Copy, Debug, PartialEq, Eq, Structural)]
pub enum AddressKind {
    Account,
    Contract,
}

/// An identity on the ledger: an account or a contract, named by a 256-bit
/// key that is held as two halves. Two addresses are the same identity
/// exactly when all three fields agree.
#[derive(Clone, Copy, Debug, PartialEq, Eq, Structural)]
pub struct Address {
    pub kind: AddressKind,
    pub key_hi: u128,
    pub key_lo: u128,
}

/// The keys under which the pool's configuration is kept.
#[derive(Clone, Copy, Debug, PartialEq, Eq, Structural)]
pub enum DataKey {
    Admin,
    TokenA,
    TokenB,
    Fee,
    Initialized,
}

/// A value kept under one of the configuration keys.
#[derive(Clone, Copy, Debug, PartialEq, Eq, Structural)]
pub enum StoredValue {
    Identity(Address),
    FeeRate(u32),
    Flag(bool),
}

/// Why an operation was refused. A refused operation changes nothing and
/// plans no transfer.
#[derive(Clone, Copy, Debug, PartialEq, Eq, Structural)]
pub enum AmmError {
    /// `initialize` was called on a pool that is already set up.
    AlreadyInitialized,
    /// The configuration has not been written yet.
    NotInitialized,
    /// The caller of `set_fee` is not the stored admin.
    Unauthorized,
    /// The reserve of the asset being sold is zero.
    InsufficientLiquidity,
    /// The computed output is below the minimum the trader asked for.
    SlippageExceeded,
    /// A value of the computation does not fit in 128 signed bits, or the
    /// divisor of the exchange formula is zero.
    ArithmeticOverflow,
}

/// The configuration written once by `initialize`.
#[derive(Clone, Copy, Debug, PartialEq, Eq, Structural)]
pub struct PoolConfig {
    pub admin: Address,
    pub token_a: Address,
    pub token_b: Address,
    pub fee_bps: u32,
}

/// The pool's balances of the two assets, as the ledger reports them.
#[derive(Clone, Copy, Debug, PartialEq, Eq, Structural)]
pub struct Reserves {
    pub reserve_a: i128,
    pub reserve_b: i128,
}

/// Which way a transfer moves funds, seen from the pool.
#[derive(Clone, Copy, Debug, PartialEq, Eq, Structural)]
pub enum Direction {
    IntoPool,
    OutOfPool,
}

/// One transfer for the ledger to carry out between `holder` and the pool.
#[derive(Clone, Copy, Debug, PartialEq, Eq, Structural)]
pub struct Transfer {
    pub token: Address,
    pub holder: Address,
    pub direction: Direction,
    pub amount: i128,
}

/// What an accepted deposit asks of the ledger, and the reserves that result.
#[derive(Clone, Copy, Debug, PartialEq, Eq, Structural)]
pub struct DepositPlan {
    pub transfer_a: Transfer,
    pub transfer_b: Transfer,
    pub reserves_after: Reserves,
}

/// What an accepted swap asks of the ledger, and the reserves that result.
#[derive(Clone, Copy, Debug, PartialEq, Eq, Structural)]
pub struct SwapPlan {
    pub amount_out: i128,
    pub transfer_in: Transfer,
    pub transfer_out: Transfer,
    pub reserves_after: Reserves,
}

} // verus!
