use vstd::prelude::*;

verus! {

/// Why a pool operation was refused. A refused operation changes nothing.
#[derive(Clone, Copy, Debug, PartialEq, Eq, Structural)]
pub enum ErrorCode {
    /// A seed amount exceeds the provider's holding.
    InsufficientBalance,
    /// A swap asked for an inbound amount of zero.
    AmountTooLow,
    /// A swap would draw more than the checked reserve holds.
    InsufficientLiquidity,
    /// The route selector is neither 0 (X to Y) nor 1 (Y to X).
    InvalidRoute,
    /// The custodial authority cannot be derived from the given bump.
    InvalidAuthority,
    /// A settlement transfer would debit more than its source holds.
    InsufficientFunds,
    /// A price or a credited balance would not fit in a `u64`.
    Overflow,
}

} // verus!
