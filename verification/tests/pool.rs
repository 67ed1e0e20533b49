use lp_pool::errors::Errors;
use lp_pool::lp_struct::LpPool;
use lp_pool::var_type::{LpTokenAmount, Percentage, Price, StakedTokenAmount, TokenAmount};

fn standard_pool() -> LpPool {
    LpPool::init(
        Price(1_500_000),
        Percentage(1_000),
        Percentage(90_000),
        TokenAmount(90_000_000),
    )
    .unwrap()
}

#[test]
fn init_starts_all_reserves_at_zero() {
    let pool = standard_pool();
    assert_eq!(pool.get_price().0, 1_500_000);
    assert_eq!(pool.get_target().0, 90_000_000);
    assert_eq!(pool.get_token_amount().0, 0);
    assert_eq!(pool.get_st_token_amount().0, 0);
    assert_eq!(pool.get_lp_token_amount().0, 0);
}

#[test]
fn init_accepts_equal_fees() {
    let pool = LpPool::init(
        Price(1_500_000),
        Percentage(5_000),
        Percentage(5_000),
        TokenAmount(90_000_000),
    );
    assert!(pool.is_ok());
}

#[test]
fn init_rejects_min_fee_above_max_fee() {
    let r = LpPool::init(Price(1_500_000), Percentage(2), Percentage(1), TokenAmount(1));
    assert_eq!(r.unwrap_err(), Errors::InvalidFee);
}

#[test]
fn init_rejects_zero_price() {
    let r = LpPool::init(Price(0), Percentage(1_000), Percentage(90_000), TokenAmount(1));
    assert_eq!(r.unwrap_err(), Errors::InvalidPrice);
}

#[test]
fn init_rejects_zero_target() {
    let r = LpPool::init(Price(1), Percentage(1_000), Percentage(90_000), TokenAmount(0));
    assert_eq!(r.unwrap_err(), Errors::InvalidLiquidityTarget);
}

#[test]
fn init_checks_fee_before_price_and_target() {
    // All three inputs are bad; the fee check wins.
    let r = LpPool::init(Price(0), Percentage(2), Percentage(1), TokenAmount(0));
    assert_eq!(r.unwrap_err(), Errors::InvalidFee);
}

#[test]
fn deposit_of_zero_is_rejected() {
    let mut pool = standard_pool();
    let r = pool.add_liquidity(TokenAmount(0));
    assert_eq!(r.unwrap_err(), Errors::InvalidDeposit);
    assert_eq!(pool.get_token_amount().0, 0);
    assert_eq!(pool.get_lp_token_amount().0, 0);
}

#[test]
fn deposit_into_empty_pool_mints_one_to_one() {
    let mut pool = standard_pool();
    let minted = pool.add_liquidity(TokenAmount(100_000_000)).unwrap();
    assert_eq!(minted.0, 100_000_000);
    assert_eq!(pool.get_token_amount().0, 100_000_000);
    assert_eq!(pool.get_lp_token_amount().0, 100_000_000);
    assert_eq!(pool.get_st_token_amount().0, 0);
}

#[test]
fn deposits_never_decrease_supply_or_reserve() {
    let mut pool = standard_pool();
    let mut last_reserve = 0u64;
    let mut last_lp = 0u64;
    for d in [1u64, 999_999, 1_000_000, 123_456_789] {
        pool.add_liquidity(TokenAmount(d)).unwrap();
        assert!(pool.get_token_amount().0 >= last_reserve);
        assert!(pool.get_lp_token_amount().0 >= last_lp);
        last_reserve = pool.get_token_amount().0;
        last_lp = pool.get_lp_token_amount().0;
    }
}

#[test]
fn deposit_with_staked_reserve_scales_supply() {
    // Reach a state with a staked reserve, then deposit on the general path.
    let mut pool = standard_pool();
    pool.add_liquidity(TokenAmount(100_000_000)).unwrap();
    pool.swap(StakedTokenAmount(10_000_000)).unwrap();
    assert_eq!(pool.get_token_amount().0, 85_089_175);
    // pool value = 85_089_175 + 10_000_000 * 1.5 = 100_089_175
    let minted = pool.add_liquidity(TokenAmount(10_000_000)).unwrap();
    assert_eq!(minted.0, 9_991_000);
    assert_eq!(pool.get_token_amount().0, 95_089_175);
    assert_eq!(pool.get_lp_token_amount().0, 109_991_000);
    assert_eq!(pool.get_st_token_amount().0, 10_000_000);
}

#[test]
fn round_trip_from_empty_returns_deposit_exactly() {
    let mut pool = standard_pool();
    let minted = pool.add_liquidity(TokenAmount(5_000_000)).unwrap();
    assert_eq!(minted.0, 5_000_000);
    let (token_out, st_out) = pool.remove_liquidity(minted).unwrap();
    assert_eq!(token_out.0, 5_000_000);
    assert_eq!(st_out.0, 0);
    assert_eq!(pool.get_token_amount().0, 0);
    assert_eq!(pool.get_lp_token_amount().0, 0);
}

#[test]
fn round_trip_truncation_loss_stays_in_pool() {
    // Reserve 3, then deposit 1 more: withdrawing that 1 LP token pays out
    // floor(floor(1/4 * scale) * 4 / scale) = 1 here, but with supply 3 the
    // share 1/3 truncates to 0.333333 and pays nothing back.
    let mut pool = standard_pool();
    pool.add_liquidity(TokenAmount(2)).unwrap();
    let minted = pool.add_liquidity(TokenAmount(1)).unwrap();
    assert_eq!(minted.0, 1);
    let (token_out, st_out) = pool.remove_liquidity(minted).unwrap();
    assert_eq!(token_out.0, 0);
    assert_eq!(st_out.0, 0);
    // The untaken remainder stays in the pool.
    assert_eq!(pool.get_token_amount().0, 3);
    assert_eq!(pool.get_lp_token_amount().0, 2);
}

#[test]
fn round_trip_on_the_proportional_path_returns_at_most_the_deposit() {
    // A withdrawal's truncation loss leaves the LP supply below the reserve,
    // so the next deposit takes the proportional path even with no staked
    // reserve. Its round trip still never returns more than was put in.
    let mut pool = standard_pool();
    pool.add_liquidity(TokenAmount(2)).unwrap();
    pool.add_liquidity(TokenAmount(1)).unwrap();
    pool.remove_liquidity(LpTokenAmount(1)).unwrap();
    assert_eq!(pool.get_lp_token_amount().0, 2);
    assert_eq!(pool.get_token_amount().0, 3);
    // value 3 -> 8; supply 2 scales to floor(2 * 2.666666) = 5
    let minted = pool.add_liquidity(TokenAmount(5)).unwrap();
    assert_eq!(minted.0, 3);
    let (token_out, st_out) = pool.remove_liquidity(minted).unwrap();
    assert_eq!(token_out.0, 4);
    assert!(token_out.0 <= 5);
    assert_eq!(st_out.0, 0);
    assert_eq!(pool.get_token_amount().0, 4);
    assert_eq!(pool.get_lp_token_amount().0, 2);
}

#[test]
fn withdraw_of_zero_is_rejected() {
    let mut pool = standard_pool();
    pool.add_liquidity(TokenAmount(10)).unwrap();
    let r = pool.remove_liquidity(LpTokenAmount(0));
    assert_eq!(r.unwrap_err(), Errors::InvalidLpTokenToRemove);
    assert_eq!(pool.get_lp_token_amount().0, 10);
}

#[test]
fn withdraw_above_supply_is_rejected() {
    let mut pool = standard_pool();
    pool.add_liquidity(TokenAmount(10)).unwrap();
    let r = pool.remove_liquidity(LpTokenAmount(11));
    assert_eq!(r.unwrap_err(), Errors::InvalidLpTokenToRemove);
    assert_eq!(pool.get_lp_token_amount().0, 10);
    assert_eq!(pool.get_token_amount().0, 10);
}

#[test]
fn withdraw_decreases_supply_by_exactly_the_burned_amount() {
    let mut pool = standard_pool();
    pool.add_liquidity(TokenAmount(100_000_000)).unwrap();
    pool.remove_liquidity(LpTokenAmount(30_000_000)).unwrap();
    assert_eq!(pool.get_lp_token_amount().0, 70_000_000);
}

#[test]
fn withdraw_pays_both_reserves_proportionally() {
    let mut pool = standard_pool();
    pool.add_liquidity(TokenAmount(100_000_000)).unwrap();
    pool.swap(StakedTokenAmount(10_000_000)).unwrap();
    pool.add_liquidity(TokenAmount(10_000_000)).unwrap();
    // supply 109_991_000, reserve 95_089_175, staked 10_000_000
    let (token_out, st_out) = pool.remove_liquidity(LpTokenAmount(50_000_000)).unwrap();
    // share = 50_000_000 / 109_991_000 = 0.454582
    assert_eq!(token_out.0, 43_225_827);
    assert_eq!(st_out.0, 4_545_820);
    assert_eq!(pool.get_lp_token_amount().0, 59_991_000);
    assert_eq!(pool.get_token_amount().0, 51_863_348);
    assert_eq!(pool.get_st_token_amount().0, 5_454_180);
}

#[test]
fn withdrawing_the_whole_supply_drains_the_pool() {
    let mut pool = standard_pool();
    pool.add_liquidity(TokenAmount(100_000_000)).unwrap();
    pool.swap(StakedTokenAmount(10_000_000)).unwrap();
    let supply = pool.get_lp_token_amount();
    let (token_out, st_out) = pool.remove_liquidity(LpTokenAmount(supply.0)).unwrap();
    assert_eq!(token_out.0, 85_089_175);
    assert_eq!(st_out.0, 10_000_000);
    assert_eq!(pool.get_token_amount().0, 0);
    assert_eq!(pool.get_st_token_amount().0, 0);
    assert_eq!(pool.get_lp_token_amount().0, 0);
}

#[test]
fn swap_of_zero_is_rejected() {
    let mut pool = standard_pool();
    pool.add_liquidity(TokenAmount(100_000_000)).unwrap();
    let r = pool.swap(StakedTokenAmount(0));
    assert_eq!(r.unwrap_err(), Errors::InvalidSwapAmount);
    assert_eq!(pool.get_token_amount().0, 100_000_000);
    assert_eq!(pool.get_st_token_amount().0, 0);
}

#[test]
fn oversized_swap_reports_largest_swappable_amount() {
    let mut pool = standard_pool();
    pool.add_liquidity(TokenAmount(1_000_000)).unwrap();
    // gross = 15, worst-case payout 13.65 > reserve 1
    let r = pool.swap(StakedTokenAmount(10_000_000));
    // (1 - 1 * 0.09) / 1.5 = 0.606666...
    assert_eq!(r.unwrap_err(), Errors::ToBigSwap(606_666));
    // nothing changed
    assert_eq!(pool.get_token_amount().0, 1_000_000);
    assert_eq!(pool.get_st_token_amount().0, 0);
}

#[test]
fn reported_max_swap_amount_succeeds() {
    let mut pool = standard_pool();
    pool.add_liquidity(TokenAmount(1_000_000)).unwrap();
    let hint = match pool.swap(StakedTokenAmount(10_000_000)) {
        Err(Errors::ToBigSwap(m)) => m,
        other => panic!("expected ToBigSwap, got {:?}", other),
    };
    let payout = pool.swap(StakedTokenAmount(hint)).unwrap();
    assert_eq!(payout.0, 828_181);
    assert_eq!(pool.get_token_amount().0, 171_819);
    assert_eq!(pool.get_st_token_amount().0, 606_666);
}

#[test]
fn swap_far_above_target_charges_the_minimum_fee() {
    let mut pool = standard_pool();
    pool.add_liquidity(TokenAmount(200_000_000)).unwrap();
    // Even after a min-fee payout the reserve stays above the 90 target.
    let payout = pool.swap(StakedTokenAmount(10_000_000)).unwrap();
    // 15 - 15 * 0.001 = 14.985
    assert_eq!(payout.0, 14_985_000);
    assert_eq!(pool.get_token_amount().0, 185_015_000);
    assert_eq!(pool.get_st_token_amount().0, 10_000_000);
}

#[test]
fn swap_with_degenerate_fee_range_charges_it_flat() {
    let mut pool = LpPool::init(
        Price(1_500_000),
        Percentage(5_000),
        Percentage(5_000),
        TokenAmount(90_000_000),
    )
    .unwrap();
    pool.add_liquidity(TokenAmount(100_000_000)).unwrap();
    // Reserve would fall below target, but there is no curve to apply.
    let payout = pool.swap(StakedTokenAmount(10_000_000)).unwrap();
    // 15 - 15 * 0.005 = 14.925
    assert_eq!(payout.0, 14_925_000);
    assert_eq!(pool.get_token_amount().0, 85_075_000);
}

#[test]
fn swap_near_target_pays_a_fee_no_smaller_than_one_farther_above() {
    // Same configuration and input; the pool whose reserve sits closer to the
    // target pays more fee, so its payout is no larger.
    let mut closer = standard_pool();
    closer.add_liquidity(TokenAmount(95_000_000)).unwrap();
    let mut farther = standard_pool();
    farther.add_liquidity(TokenAmount(100_000_000)).unwrap();

    let payout_closer = closer.swap(StakedTokenAmount(10_000_000)).unwrap();
    let payout_farther = farther.swap(StakedTokenAmount(10_000_000)).unwrap();
    assert_eq!(payout_closer.0, 14_836_665);
    assert_eq!(payout_farther.0, 14_910_825);
    assert!(payout_closer.0 <= payout_farther.0);
}

#[test]
fn documented_scenario_end_to_end() {
    // price 1.5, min fee 0.1%, max fee 90%, target 90 tokens.
    let mut pool = standard_pool();
    let minted = pool.add_liquidity(TokenAmount(100_000_000)).unwrap();
    assert_eq!(minted.0, 100_000_000);
    assert_eq!(pool.get_token_amount().0, 100_000_000);
    // gross = 1.5 * 10 = 15; max-fee payout 13.65 fits the reserve; the
    // post-min-fee reserve 85.015 sits below the target, so the curve applies.
    let payout = pool.swap(StakedTokenAmount(10_000_000)).unwrap();
    assert_eq!(payout.0, 14_910_825);
    assert_eq!(pool.get_token_amount().0, 85_089_175);
    assert_eq!(pool.get_st_token_amount().0, 10_000_000);
    assert_eq!(pool.get_lp_token_amount().0, 100_000_000);
}
