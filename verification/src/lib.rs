//! A two-asset constant-product liquidity pool: the pricing formula and the
//! rules by which the pool's configuration and reserves change.
//!
//! The pool never moves funds itself. Each operation takes the reserves as
//! the asset ledger reports them, decides, and hands back the transfers that
//! the embedding contract is to carry out, all of them or none.

pub mod pool;
pub mod pricing;
pub mod theorems;
pub mod types;

pub use pool::StellarPayAmm;
pub use types::DataKey;
