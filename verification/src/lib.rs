//! A single-pair liquidity pool: depositors supply a base token and receive
//! proportional pool-share (LP) tokens; holders of a staked token can swap it
//! into the base token at a price that carries a dynamic fee. The fee grows as
//! the pool's base-token reserve approaches a configured liquidity target.
//!
//! All amounts are fixed-point integers sharing one implicit scale
//! (`calc::PRECISION`). The arithmetic primitives live in [`calc`], the
//! quantity newtypes in [`var_type`], the error enum in [`errors`], and the
//! pool engine itself in [`lp_struct`].

pub mod calc;
pub mod errors;
pub mod lp_struct;
pub mod var_type;
