//! Quantity newtypes.
//!
//! All five wrap the same fixed-point `u64` representation; they exist only to
//! keep semantically different quantities from being mixed up at call sites.

use vstd::prelude::*;

verus! {

/// A base-token amount: reserve, deposit, or withdrawal.
#[derive(Debug, Copy, Clone, PartialEq, Eq, Structural)]
pub struct TokenAmount(pub u64);

/// A staked-token amount: reserve or swap input.
#[derive(Debug, Copy, Clone, PartialEq, Eq, Structural)]
pub struct StakedTokenAmount(pub u64);

/// A pool-share token amount: minted, burned, or held.
#[derive(Debug, Copy, Clone, PartialEq, Eq, Structural)]
pub struct LpTokenAmount(pub u64);

/// Base tokens per one staked token, fixed-point.
#[derive(Debug, Copy, Clone, PartialEq, Eq, Structural)]
pub struct Price(pub u64);

/// A fixed-point fraction in `[0, 1]`, used for the minimum and maximum fee.
#[derive(Debug, Copy, Clone, PartialEq, Eq, Structural)]
pub struct Percentage(pub u64);

} // verus!
