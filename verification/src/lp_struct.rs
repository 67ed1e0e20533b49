//! The liquidity pool engine.
//!
//! One stateful entity holds the base-token reserve, the staked-token reserve,
//! and the LP-token supply, together with four configuration values fixed at
//! construction. Three operations mutate the reserves — deposit, withdrawal,
//! swap — and five accessors read them. Every operation either fails before
//! touching any field or completes with all mutations visible together.

use vstd::prelude::*;

use crate::calc::{divide, multiply, div_fp, mul_fp, PRECISION};
use crate::calc::{
    lemma_div_fp_at_least_one, lemma_div_fp_at_most_one, lemma_div_fp_monotone,
    lemma_div_fp_self, lemma_fp_round_trip, lemma_fp_round_trip_rev, lemma_mul_fp_at_least,
    lemma_minted_value_bound, lemma_mul_fp_frac_first, lemma_mul_fp_in_range,
    lemma_mul_fp_monotone, lemma_mul_fp_one, lemma_scaled_share_bound,
};
use crate::errors::Errors;
use crate::var_type::{LpTokenAmount, Percentage, Price, StakedTokenAmount, TokenAmount};

verus! {

/// The pool. `price`, `liquidity_target`, `min_fee`, `max_fee` are immutable
/// after construction; the three reserve fields change only through
/// [`LpPool::add_liquidity`], [`LpPool::remove_liquidity`] and [`LpPool::swap`].
#[derive(Debug)]
pub struct LpPool {
    price: Price,
    token_amount_reserve: TokenAmount,
    st_token_amount: StakedTokenAmount,
    lp_token_amount: LpTokenAmount,
    liquidity_target: TokenAmount,
    min_fee: Percentage,
    max_fee: Percentage,
}

/// What `gross` base tokens pay out once the fixed-point fraction `fee` is
/// charged on them.
pub open spec fn payout_after_fee(gross: int, fee: int) -> int {
    gross - mul_fp(gross, fee)
}

impl LpPool {
    /// Base tokens per staked token, fixed-point.
    pub closed spec fn spec_price(self) -> u64 {
        self.price.0
    }

    /// The base-token reserve.
    pub closed spec fn spec_reserve(self) -> u64 {
        self.token_amount_reserve.0
    }

    /// The staked-token reserve.
    pub closed spec fn spec_st(self) -> u64 {
        self.st_token_amount.0
    }

    /// The LP-token supply.
    pub closed spec fn spec_lp(self) -> u64 {
        self.lp_token_amount.0
    }

    /// The liquidity target the fee curve steers the reserve toward.
    pub closed spec fn spec_target(self) -> u64 {
        self.liquidity_target.0
    }

    /// The fee charged when the reserve sits comfortably above target.
    pub closed spec fn spec_min_fee(self) -> u64 {
        self.min_fee.0
    }

    /// The fee charged as the reserve falls to or below target.
    pub closed spec fn spec_max_fee(self) -> u64 {
        self.max_fee.0
    }

    /// The configuration a constructor establishes and every operation keeps.
    pub open spec fn wf(self) -> bool {
        &&& self.spec_min_fee() <= self.spec_max_fee()
        &&& self.spec_price() > 0
        &&& self.spec_target() > 0
    }

    /// The four configuration fields of `self` and `other` agree.
    pub open spec fn same_config(self, other: Self) -> bool {
        &&& self.spec_price() == other.spec_price()
        &&& self.spec_target() == other.spec_target()
        &&& self.spec_min_fee() == other.spec_min_fee()
        &&& self.spec_max_fee() == other.spec_max_fee()
    }

    /// Total pool value in base-token terms: the base reserve plus the staked
    /// reserve priced at par.
    pub open spec fn spec_pool_value(self) -> int {
        self.spec_reserve() + mul_fp(self.spec_st() as int, self.spec_price() as int)
    }

    /// The deposit fast path: no staked reserve and LP supply equal to the
    /// base reserve (the pool's initial 1:1 state, or fully drained back to
    /// it). It exists to avoid a 0/0 proportion before any value exists.
    pub open spec fn spec_deposit_simple(self) -> bool {
        self.spec_lp() == self.spec_reserve() && self.spec_st() == 0
    }

    /// LP tokens minted by a deposit of `amt`: `amt` itself on the fast path,
    /// otherwise the increase the new-to-old value proportion implies over the
    /// current LP supply.
    pub open spec fn spec_minted(self, amt: int) -> int {
        if self.spec_deposit_simple() {
            amt
        } else {
            mul_fp(
                self.spec_lp() as int,
                div_fp(self.spec_pool_value() + amt, self.spec_pool_value()),
            ) - self.spec_lp()
        }
    }

    /// What machine limits force of a deposit of `amt`: every intermediate of
    /// the proportion computation fits the working integer width, and the pool
    /// holds value when a proportion is taken (the engine faults on both, as
    /// on a broken invariant, rather than reporting an error).
    pub open spec fn spec_deposit_fits(self, amt: int) -> bool {
        if self.spec_deposit_simple() {
            self.spec_reserve() + amt <= u64::MAX
        } else {
            &&& self.spec_st() * self.spec_price() <= u64::MAX
            &&& self.spec_pool_value() > 0
            &&& (self.spec_pool_value() + amt) * PRECISION <= u64::MAX
            &&& self.spec_lp() * div_fp(self.spec_pool_value() + amt, self.spec_pool_value())
                <= u64::MAX
            &&& self.spec_reserve() + amt <= u64::MAX
        }
    }

    /// The share of the pool that withdrawing `amt` LP tokens claims, as a
    /// fixed-point fraction of the current supply.
    pub open spec fn spec_withdraw_part(self, amt: int) -> int {
        div_fp(amt, self.spec_lp() as int)
    }

    /// Base tokens paid out for withdrawing `amt` LP tokens.
    pub open spec fn spec_withdraw_token(self, amt: int) -> int {
        mul_fp(self.spec_withdraw_part(amt), self.spec_reserve() as int)
    }

    /// Staked tokens paid out for withdrawing `amt` LP tokens.
    pub open spec fn spec_withdraw_st(self, amt: int) -> int {
        mul_fp(self.spec_withdraw_part(amt), self.spec_st() as int)
    }

    /// What machine limits force of withdrawing `amt` LP tokens: the share
    /// computation and both payout products fit the working integer width.
    pub open spec fn spec_withdraw_fits(self, amt: int) -> bool {
        &&& amt * PRECISION <= u64::MAX
        &&& self.spec_withdraw_part(amt) * self.spec_reserve() <= u64::MAX
        &&& self.spec_withdraw_part(amt) * self.spec_st() <= u64::MAX
    }

    /// The base-token value of `amt` staked tokens at par, before any fee.
    pub open spec fn spec_gross(self, amt: int) -> int {
        mul_fp(self.spec_price() as int, amt)
    }

    /// A swap of `amt` cannot be satisfied at any fee level: even the max-fee
    /// payout would exceed the base reserve.
    pub open spec fn spec_swap_refused(self, amt: int) -> bool {
        payout_after_fee(self.spec_gross(amt), self.spec_max_fee() as int) > self.spec_reserve()
    }

    /// The largest staked-token amount currently swappable at the maximum fee,
    /// reported with a refused swap so the caller can retry smaller.
    pub open spec fn spec_max_swap(self) -> int {
        div_fp(
            self.spec_reserve() - mul_fp(self.spec_reserve() as int, self.spec_max_fee() as int),
            self.spec_price() as int,
        )
    }

    /// The minimum fee applies flat: either a min-fee swap still leaves the
    /// reserve strictly above the liquidity target, or the fee range is
    /// degenerate and there is no curve to apply.
    pub open spec fn spec_flat_fee_applies(self, amt: int) -> bool {
        ||| self.spec_reserve() - payout_after_fee(self.spec_gross(amt), self.spec_min_fee() as int)
            > self.spec_target()
        ||| self.spec_min_fee() == self.spec_max_fee()
    }

    /// The dynamic fee: linear interpolation from the maximum fee (reserve at
    /// or below zero distance to target) down to the minimum fee (reserve at
    /// target), measured on the reserve left after a zero-fee payout.
    pub open spec fn spec_curve_fee(self, amt: int) -> int {
        self.spec_max_fee() - mul_fp(
            self.spec_max_fee() - self.spec_min_fee(),
            div_fp(self.spec_reserve() - self.spec_gross(amt), self.spec_target() as int),
        )
    }

    /// The fee a swap of `amt` pays.
    pub open spec fn spec_swap_fee(self, amt: int) -> int {
        if self.spec_flat_fee_applies(amt) {
            self.spec_min_fee() as int
        } else {
            self.spec_curve_fee(amt)
        }
    }

    /// The base tokens a swap of `amt` pays out.
    pub open spec fn spec_swap_payout(self, amt: int) -> int {
        payout_after_fee(self.spec_gross(amt), self.spec_swap_fee(amt))
    }

    /// What machine limits force of a swap of `amt`: fees are fractions of at
    /// most one, every intermediate product fits the working integer width,
    /// and no subtraction of the computation goes below zero (the engine
    /// faults on each, as on a broken invariant, rather than reporting an
    /// error).
    pub open spec fn spec_swap_fits(self, amt: int) -> bool {
        let gross = self.spec_gross(amt);
        &&& self.spec_max_fee() <= PRECISION
        &&& self.spec_price() * amt <= u64::MAX
        &&& gross * self.spec_max_fee() <= u64::MAX
        &&& if self.spec_swap_refused(amt) {
            &&& self.spec_reserve() * self.spec_max_fee() <= u64::MAX
            &&& (self.spec_reserve() - mul_fp(
                self.spec_reserve() as int,
                self.spec_max_fee() as int,
            )) * PRECISION <= u64::MAX
        } else {
            &&& payout_after_fee(gross, self.spec_min_fee() as int) <= self.spec_reserve()
            &&& self.spec_st() + amt <= u64::MAX
            &&& (!self.spec_flat_fee_applies(amt) ==> {
                &&& gross <= self.spec_reserve()
                &&& (self.spec_reserve() - gross) * PRECISION <= u64::MAX
            })
        }
    }

    /// Builds a pool with all three reserves at zero. Fails with
    /// `InvalidFee` when `min_fee > max_fee`, `InvalidPrice` when the price is
    /// zero, and `InvalidLiquidityTarget` when the target is zero — checked in
    /// that order, and only then.
    pub fn init(
        price: Price,
        min_fee: Percentage,
        max_fee: Percentage,
        liquidity_target: TokenAmount,
    ) -> (r: Result<Self, Errors>)
        ensures
            match r {
                Ok(pool) => {
                    &&& min_fee.0 <= max_fee.0
                    &&& price.0 > 0
                    &&& liquidity_target.0 > 0
                    &&& pool.spec_price() == price.0
                    &&& pool.spec_target() == liquidity_target.0
                    &&& pool.spec_min_fee() == min_fee.0
                    &&& pool.spec_max_fee() == max_fee.0
                    &&& pool.spec_reserve() == 0
                    &&& pool.spec_st() == 0
                    &&& pool.spec_lp() == 0
                    &&& pool.wf()
                },
                Err(Errors::InvalidFee) => min_fee.0 > max_fee.0,
                Err(Errors::InvalidPrice) => min_fee.0 <= max_fee.0 && price.0 == 0,
                Err(Errors::InvalidLiquidityTarget) => {
                    &&& min_fee.0 <= max_fee.0
                    &&& price.0 > 0
                    &&& liquidity_target.0 == 0
                },
                Err(_) => false,
            },
    {
        if min_fee.0 > max_fee.0 {
            return Err(Errors::InvalidFee);
        }
        if price.0 == 0 {
            return Err(Errors::InvalidPrice);
        }
        if liquidity_target.0 == 0 {
            return Err(Errors::InvalidLiquidityTarget);
        }

        Ok(LpPool {
            price,
            token_amount_reserve: TokenAmount(0),
            st_token_amount: StakedTokenAmount(0),
            lp_token_amount: LpTokenAmount(0),
            liquidity_target,
            min_fee,
            max_fee,
        })
    }

    /// Deposits `token_amount` base tokens and mints proportional LP tokens.
    /// A zero deposit is refused and nothing changes; a valid deposit raises
    /// the base reserve by exactly the deposit and the LP supply by exactly
    /// the minted amount, so neither ever decreases. On the fast path the mint
    /// is the deposit itself; otherwise it is the current supply scaled by the
    /// new-to-old pool-value proportion, minus the current supply.
    pub fn add_liquidity(&mut self, token_amount: TokenAmount) -> (r: Result<
        LpTokenAmount,
        Errors,
    >)
        requires
            old(self).wf(),
            token_amount.0 > 0 ==> old(self).spec_deposit_fits(token_amount.0 as int),
        ensures
            final(self).same_config(*old(self)),
            final(self).wf(),
            match r {
                Ok(minted) => {
                    &&& token_amount.0 > 0
                    &&& minted.0 == old(self).spec_minted(token_amount.0 as int)
                    &&& final(self).spec_reserve() == old(self).spec_reserve() + token_amount.0
                    &&& final(self).spec_lp() == old(self).spec_lp() + minted.0
                    &&& final(self).spec_st() == old(self).spec_st()
                    &&& final(self).spec_lp() >= old(self).spec_lp()
                    &&& final(self).spec_reserve() > old(self).spec_reserve()
                },
                Err(e) => {
                    &&& e == Errors::InvalidDeposit
                    &&& token_amount.0 == 0
                    &&& *final(self) == *old(self)
                },
            },
    {
        if token_amount.0 == 0 {
            return Err(Errors::InvalidDeposit);
        }

        // The pool holds no staked tokens and sits at its 1:1 ratio: minting
        // one LP token per deposited token keeps the proportion without
        // taking a 0/0 quotient.
        if self.lp_token_amount.0 == self.token_amount_reserve.0 && self.st_token_amount.0 == 0 {
            self.token_amount_reserve.0 = self.token_amount_reserve.0 + token_amount.0;
            self.lp_token_amount.0 = self.lp_token_amount.0 + token_amount.0;
            return Ok(LpTokenAmount(token_amount.0));
        }

        // Pool value in base-token terms before and after the deposit.
        let value_token = self.token_amount_reserve.0
            + multiply(self.st_token_amount.0, self.price.0);
        let new_value_token = value_token + token_amount.0;
        // The new-to-old proportion scales the existing LP supply; the mint is
        // the increase this implies.
        let token_proportion = divide(new_value_token, value_token);
        let scaled_supply = multiply(self.lp_token_amount.0, token_proportion);
        proof {
            lemma_div_fp_at_least_one(new_value_token as int, value_token as int);
            lemma_mul_fp_at_least(old(self).spec_lp() as int, token_proportion as int);
        }
        let lp_token_minted = scaled_supply - self.lp_token_amount.0;

        self.token_amount_reserve.0 = self.token_amount_reserve.0 + token_amount.0;
        self.lp_token_amount.0 = self.lp_token_amount.0 + lp_token_minted;

        Ok(LpTokenAmount(lp_token_minted))
    }

    /// Burns `lp_token_amount` LP tokens and pays out the matching share of
    /// both reserves. Refused — with nothing changed — for zero and for more
    /// than the current supply; on success the supply strictly decreases by
    /// exactly the burned amount, and each reserve decreases by the share the
    /// burned fraction claims of it, truncated.
    pub fn remove_liquidity(&mut self, lp_token_amount: LpTokenAmount) -> (r: Result<
        (TokenAmount, StakedTokenAmount),
        Errors,
    >)
        requires
            old(self).wf(),
            0 < lp_token_amount.0 <= old(self).spec_lp() ==> old(self).spec_withdraw_fits(
                lp_token_amount.0 as int,
            ),
        ensures
            final(self).same_config(*old(self)),
            final(self).wf(),
            match r {
                Ok((token_out, st_out)) => {
                    &&& 0 < lp_token_amount.0 <= old(self).spec_lp()
                    &&& token_out.0 == old(self).spec_withdraw_token(lp_token_amount.0 as int)
                    &&& st_out.0 == old(self).spec_withdraw_st(lp_token_amount.0 as int)
                    &&& final(self).spec_lp() == old(self).spec_lp() - lp_token_amount.0
                    &&& final(self).spec_reserve() == old(self).spec_reserve() - token_out.0
                    &&& final(self).spec_st() == old(self).spec_st() - st_out.0
                    &&& final(self).spec_lp() < old(self).spec_lp()
                },
                Err(e) => {
                    &&& e == Errors::InvalidLpTokenToRemove
                    &&& lp_token_amount.0 == 0 || lp_token_amount.0 > old(self).spec_lp()
                    &&& *final(self) == *old(self)
                },
            },
    {
        if lp_token_amount.0 == 0 || lp_token_amount.0 > self.lp_token_amount.0 {
            return Err(Errors::InvalidLpTokenToRemove);
        }

        // The withdrawn share of the current supply.
        let part_of_lp = divide(lp_token_amount.0, self.lp_token_amount.0);
        proof {
            lemma_div_fp_at_most_one(lp_token_amount.0 as int, old(self).spec_lp() as int);
            lemma_mul_fp_frac_first(part_of_lp as int, old(self).spec_reserve() as int);
            lemma_mul_fp_frac_first(part_of_lp as int, old(self).spec_st() as int);
        }

        self.lp_token_amount.0 = self.lp_token_amount.0 - lp_token_amount.0;

        let token_to_receive = multiply(part_of_lp, self.token_amount_reserve.0);
        self.token_amount_reserve.0 = self.token_amount_reserve.0 - token_to_receive;

        let st_token_to_receive = multiply(part_of_lp, self.st_token_amount.0);
        self.st_token_amount.0 = self.st_token_amount.0 - st_token_to_receive;

        Ok((TokenAmount(token_to_receive), StakedTokenAmount(st_token_to_receive)))
    }

    /// Swaps `staked_token_amount` staked tokens into base tokens at par,
    /// minus a fee. A zero input is refused. When even the max-fee payout
    /// would exceed the reserve the swap is refused with `ToBigSwap` carrying
    /// the largest amount currently swappable at max fee, and nothing changes.
    /// Otherwise the payout is the gross value minus the flat minimum fee or,
    /// when a min-fee swap would pull the reserve down to or below the
    /// liquidity target, minus the interpolated curve fee — which always lies
    /// between the two configured fees.
    pub fn swap(&mut self, staked_token_amount: StakedTokenAmount) -> (r: Result<
        TokenAmount,
        Errors,
    >)
        requires
            old(self).wf(),
            staked_token_amount.0 > 0 ==> old(self).spec_swap_fits(staked_token_amount.0 as int),
        ensures
            final(self).same_config(*old(self)),
            final(self).wf(),
            match r {
                Ok(token_out) => {
                    &&& staked_token_amount.0 > 0
                    &&& !old(self).spec_swap_refused(staked_token_amount.0 as int)
                    &&& token_out.0 == old(self).spec_swap_payout(staked_token_amount.0 as int)
                    &&& old(self).spec_min_fee() <= old(self).spec_swap_fee(
                        staked_token_amount.0 as int,
                    ) <= old(self).spec_max_fee()
                    &&& final(self).spec_reserve() == old(self).spec_reserve() - token_out.0
                    &&& final(self).spec_st() == old(self).spec_st() + staked_token_amount.0
                    &&& final(self).spec_lp() == old(self).spec_lp()
                },
                Err(Errors::InvalidSwapAmount) => {
                    &&& staked_token_amount.0 == 0
                    &&& *final(self) == *old(self)
                },
                Err(Errors::ToBigSwap(max_st)) => {
                    &&& staked_token_amount.0 > 0
                    &&& old(self).spec_swap_refused(staked_token_amount.0 as int)
                    &&& max_st == old(self).spec_max_swap()
                    &&& *final(self) == *old(self)
                },
                Err(_) => false,
            },
    {
        if staked_token_amount.0 == 0 {
            return Err(Errors::InvalidSwapAmount);
        }

        // Base-token value of the input at par, before any fee.
        let token_for_st = multiply(self.price.0, staked_token_amount.0);

        // Worst-case payout, at the maximum fee.
        let max_fee_cut = multiply(token_for_st, self.max_fee.0);
        proof {
            lemma_mul_fp_in_range(token_for_st as int, old(self).spec_max_fee() as int);
        }
        let token_receive_max_fee = token_for_st - max_fee_cut;

        // Not satisfiable at any fee level: report the largest amount that is.
        if token_receive_max_fee > self.token_amount_reserve.0 {
            proof {
                lemma_mul_fp_in_range(
                    old(self).spec_reserve() as int,
                    old(self).spec_max_fee() as int,
                );
            }
            let token_max_fee = self.token_amount_reserve.0
                - multiply(self.token_amount_reserve.0, self.max_fee.0);
            let st_max_swap = divide(token_max_fee, self.price.0);
            return Err(Errors::ToBigSwap(st_max_swap));
        }

        // Best-case payout, at the minimum fee, and the reserve it would leave.
        proof {
            assert(token_for_st * self.min_fee.0 <= token_for_st * self.max_fee.0)
                by (nonlinear_arith)
                requires
                    token_for_st >= 0,
                    0 <= self.min_fee.0 <= self.max_fee.0,
            ;
            lemma_mul_fp_in_range(token_for_st as int, old(self).spec_min_fee() as int);
        }
        let min_fee_cut = multiply(token_for_st, self.min_fee.0);
        let token_min_fee = token_for_st - min_fee_cut;
        let check_target = self.token_amount_reserve.0 - token_min_fee;

        // The reserve stays strictly above target (or there is no curve):
        // charge the minimum fee flat.
        if check_target > self.liquidity_target.0 || self.min_fee.0 == self.max_fee.0 {
            self.st_token_amount.0 = self.st_token_amount.0 + staked_token_amount.0;
            self.token_amount_reserve.0 = self.token_amount_reserve.0 - token_min_fee;
            return Ok(TokenAmount(token_min_fee));
        }

        // Distance to target is measured on the reserve left after a zero-fee
        // payout, exactly as configured — not after the min-fee payout.
        let amount_after = self.token_amount_reserve.0 - token_for_st;
        let target_part = divide(amount_after, self.liquidity_target.0);
        proof {
            lemma_div_fp_at_most_one(amount_after as int, old(self).spec_target() as int);
        }

        // Interpolate: the fee falls linearly from the maximum at zero
        // remaining distance to the minimum at the full target.
        let fee_range = self.max_fee.0 - self.min_fee.0;
        proof {
            assert(fee_range * target_part <= u64::MAX) by (nonlinear_arith)
                requires
                    0 <= fee_range <= PRECISION,
                    0 <= target_part <= PRECISION,
            ;
            lemma_mul_fp_in_range(fee_range as int, target_part as int);
        }
        let unstake_fee = self.max_fee.0 - multiply(fee_range, target_part);

        proof {
            assert(token_for_st * unstake_fee <= token_for_st * self.max_fee.0)
                by (nonlinear_arith)
                requires
                    token_for_st >= 0,
                    0 <= unstake_fee <= self.max_fee.0,
            ;
            lemma_mul_fp_in_range(token_for_st as int, unstake_fee as int);
            lemma_mul_fp_monotone(
                token_for_st as int,
                old(self).spec_min_fee() as int,
                unstake_fee as int,
            );
        }
        let token_to_receive = token_for_st - multiply(token_for_st, unstake_fee);

        self.token_amount_reserve.0 = self.token_amount_reserve.0 - token_to_receive;
        self.st_token_amount.0 = self.st_token_amount.0 + staked_token_amount.0;

        Ok(TokenAmount(token_to_receive))
    }

    /// The price, fixed at construction.
    pub fn get_price(&self) -> (r: Price)
        ensures
            r.0 == self.spec_price(),
    {
        self.price
    }

    /// The current base-token reserve.
    pub fn get_token_amount(&self) -> (r: TokenAmount)
        ensures
            r.0 == self.spec_reserve(),
    {
        self.token_amount_reserve
    }

    /// The current staked-token reserve.
    pub fn get_st_token_amount(&self) -> (r: StakedTokenAmount)
        ensures
            r.0 == self.spec_st(),
    {
        self.st_token_amount
    }

    /// The current LP-token supply.
    pub fn get_lp_token_amount(&self) -> (r: LpTokenAmount)
        ensures
            r.0 == self.spec_lp(),
    {
        self.lp_token_amount
    }

    /// The liquidity target, fixed at construction.
    pub fn get_target(&self) -> (r: TokenAmount)
        ensures
            r.0 == self.spec_target(),
    {
        self.liquidity_target
    }
}

/// Law: deposit/withdraw round trip. A deposit of `d` into a pool holding no
/// staked tokens, then a withdrawal of all the LP tokens it minted from the
/// pool `add_liquidity` leaves behind (`after`, whose fields are fixed here by
/// `add_liquidity`'s postcondition), pays out zero staked tokens and at most
/// `d` base tokens — the shortfall is floor-truncation loss. On the fast path
/// the mint is exactly `d`, and from an empty pool the withdrawal returns
/// exactly `d`. A pool with value but no LP supply mints nothing, and a
/// withdrawal of nothing is refused, so such pools are left out here.
pub proof fn lemma_deposit_withdraw_round_trip(before: LpPool, after: LpPool, d: u64)
    requires
        before.wf(),
        before.spec_st() == 0,
        d > 0,
        before.spec_deposit_simple() || (before.spec_reserve() > 0 && before.spec_lp() > 0),
        after.spec_reserve() == before.spec_reserve() + d,
        after.spec_lp() == before.spec_lp() + before.spec_minted(d as int),
        after.spec_st() == 0,
    ensures
        before.spec_minted(d as int) >= 0,
        after.spec_withdraw_st(before.spec_minted(d as int)) == 0,
        after.spec_withdraw_token(before.spec_minted(d as int)) <= d,
        before.spec_deposit_simple() ==> before.spec_minted(d as int) == d,
        before.spec_deposit_simple() && before.spec_reserve() == 0
            ==> after.spec_withdraw_token(d as int) == d,
{
    let minted = before.spec_minted(d as int);
    let supply = after.spec_lp() as int;
    if before.spec_deposit_simple() {
        lemma_fp_round_trip(d as int, supply);
        if before.spec_reserve() == 0 {
            lemma_div_fp_self(d as int);
            lemma_mul_fp_one(d as int);
        }
    } else {
        let lp = before.spec_lp() as int;
        let value = before.spec_pool_value();
        lemma_div_fp_at_least_one(value + d, value);
        lemma_mul_fp_at_least(lp, div_fp(value + d, value));
        // The minted amount, weighted by the old pool value, claims no more
        // than the deposit weighted by the old supply; the truncated share it
        // buys of the new reserve therefore pays out at most the deposit.
        lemma_minted_value_bound(lp, value, d as int);
        assert(minted * (value + d) <= d as int * (lp + minted)) by (nonlinear_arith)
            requires
                minted * value <= lp * (d as int),
                minted >= 0,
                d > 0,
        ;
        lemma_scaled_share_bound(minted, lp + minted, value + d, d as int);
    }
}

/// Law: withdrawing the entire LP supply drains the pool exactly. The whole
/// supply is a share of exactly one, which truncation cannot shrink, so both
/// payouts equal the full reserves and every balance ends at zero.
pub proof fn lemma_full_withdrawal_drains_pool(pool: LpPool)
    requires
        pool.wf(),
        pool.spec_lp() > 0,
    ensures
        pool.spec_withdraw_token(pool.spec_lp() as int) == pool.spec_reserve(),
        pool.spec_withdraw_st(pool.spec_lp() as int) == pool.spec_st(),
{
    lemma_div_fp_self(pool.spec_lp() as int);
    lemma_mul_fp_one(pool.spec_reserve() as int);
    lemma_mul_fp_one(pool.spec_st() as int);
}

/// Law: the retry hint of a refused swap is itself swappable. Whenever `swap`
/// fails with `ToBigSwap(m)`, a swap of `m` passes the reserve check: its
/// max-fee payout does not exceed the reserve, so by `swap`'s contract it
/// succeeds whenever `m > 0` (a drained pool can report `m == 0`, and a zero
/// swap is refused as invalid).
pub proof fn lemma_max_swap_is_swappable(pool: LpPool)
    requires
        pool.wf(),
        pool.spec_max_fee() <= PRECISION,
    ensures
        !pool.spec_swap_refused(pool.spec_max_swap()),
{
    let reserve = pool.spec_reserve() as int;
    let price = pool.spec_price() as int;
    let max_fee = pool.spec_max_fee() as int;
    lemma_mul_fp_in_range(reserve, max_fee);
    let token_max_fee = reserve - mul_fp(reserve, max_fee);
    // The gross value of the hint never exceeds the max-fee reserve headroom.
    lemma_fp_round_trip_rev(token_max_fee, price);
    lemma_mul_fp_in_range(pool.spec_gross(pool.spec_max_swap()), max_fee);
}

/// Law: fee monotonicity. Two pools with the same configuration receive equal
/// swap inputs; the pool whose reserve is smaller — whose post-swap reserve
/// therefore sits closer to, or below, the liquidity target — pays a fee no
/// smaller than the pool farther above target.
pub proof fn lemma_swap_fee_monotone(low: LpPool, high: LpPool, amt: u64)
    requires
        low.wf(),
        high.wf(),
        low.same_config(high),
        amt > 0,
        low.spec_reserve() <= high.spec_reserve(),
        low.spec_swap_fits(amt as int),
        high.spec_swap_fits(amt as int),
        !low.spec_swap_refused(amt as int),
        !high.spec_swap_refused(amt as int),
    ensures
        low.spec_swap_fee(amt as int) >= high.spec_swap_fee(amt as int),
{
    let a = amt as int;
    let gross = low.spec_gross(a);
    let min_fee = low.spec_min_fee() as int;
    let max_fee = low.spec_max_fee() as int;
    let target = low.spec_target() as int;
    lemma_mul_fp_in_range(gross, min_fee);
    if low.spec_flat_fee_applies(a) {
        // A reserve above target stays above target with a larger reserve, so
        // the flat fee applies to both pools and the fees are equal.
        assert(high.spec_flat_fee_applies(a));
    } else {
        // The smaller pool pays the curve fee, which never drops below the
        // minimum: the distance fraction is at most one.
        let part_low = div_fp(low.spec_reserve() - gross, target);
        lemma_div_fp_at_most_one(low.spec_reserve() - gross, target);
        lemma_mul_fp_in_range(max_fee - min_fee, part_low);
        if !high.spec_flat_fee_applies(a) {
            // Both pay the curve fee; a smaller remaining distance means a
            // smaller interpolated discount from the maximum fee.
            let part_high = div_fp(high.spec_reserve() - gross, target);
            lemma_div_fp_monotone(low.spec_reserve() - gross, high.spec_reserve() - gross, target);
            lemma_mul_fp_monotone(max_fee - min_fee, part_low, part_high);
        }
    }
}

} // verus!
