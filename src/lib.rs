//! A two-asset liquidity pool with a fixed exchange rate.
//!
//! The library decides every state transition of the pool: it validates a
//! request against a snapshot of the four token holdings involved, computes the
//! holdings after settlement, and hands back the token transfers that realise
//! that settlement. Executing the transfers is left to the host.
use vstd::prelude::*;

pub mod authority;
pub mod error;
pub mod pool;

pub use authority::{authority_seeds, derive_pool_authority, name_seed};
pub use error::ErrorCode;
pub use pool::{amount_out, initialize_pool, swap, Exchange, Holding, Initialize, Swap, TokenTransfer};

verus! {

/// Longest prefix of a pool name, in bytes, that takes part in deriving the
/// pool's custodial authority.
pub const NAME_MAX_LEN: usize = 32;

/// Fixed price of asset X in units of asset Y.
pub const CONSTANT_PRICE: u64 = 10;

} // verus!
