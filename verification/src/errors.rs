//! The pool's closed error enum. Every validation failure is returned as one
//! of these values; no operation mutates any state before failing.

use vstd::prelude::*;

verus! {

/// Why a pool operation was refused.
#[derive(Debug, Copy, Clone, PartialEq, Eq, Structural)]
pub enum Errors {
    /// Construction: the price was zero.
    InvalidPrice,
    /// Construction: the minimum fee exceeded the maximum fee.
    InvalidFee,
    /// Construction: the liquidity target was zero.
    InvalidLiquidityTarget,
    /// A deposit of zero tokens.
    InvalidDeposit,
    /// A swap of zero staked tokens.
    InvalidSwapAmount,
    /// A withdrawal of zero LP tokens, or of more than the pool holds.
    InvalidLpTokenToRemove,
    /// The swap cannot be satisfied even at the maximum fee; carries the
    /// largest staked-token amount currently swappable.
    ToBigSwap(u64),
}

} // verus!
