//! A minimal constant-product automated market maker.
//!
//! The pool holds reserves of two fungible tokens and lets a caller swap one
//! for the other or add liquidity, maintaining the invariant `x * y = k`.
//! Token custody lives with external ledger contracts; every operation that
//! moves tokens is split into a decision step (here, verified) and transfer
//! legs that the host performs, with confirmation callbacks that commit the
//! pending reserve deltas only once the transfers are known to have succeeded.

pub mod errors;
pub mod math;
pub mod pool;

pub use errors::AmmError;
pub use math::{calc_dy, decimals};
pub use pool::{AccountId, Contract, LiquidityRequest, SwapRequest, Token, TransferCmd};
