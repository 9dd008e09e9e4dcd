use amm::address::Address;
use amm::error::AmmError;
use amm::instructions::swap::{
    compute_output, execute_swap, Direction, SwapOutcome, SwapRequest,
};
use amm::state::config::Config;
use amm::state::reserve::ReserveState;

fn asset(tag: u8) -> Address {
    Address::new([tag; 32])
}

fn pool_with_fee(fee: u16) -> Config {
    let mut config = Config::blank();
    config.init(1, Some(asset(9)), asset(1), asset(2), fee, 254, 253, 252);
    config
}

fn request(direction: Direction, input_amount: u64, min_output: u64) -> SwapRequest {
    SwapRequest { direction, input_amount, min_output, deadline: 1_000 }
}

#[test]
fn swap_of_one_thousand_at_thirty_basis_points() {
    let pool = pool_with_fee(30);
    let reserve = ReserveState::new(1_000_000, 2_000_000, 1_414_213);
    let outcome = execute_swap(&pool, &reserve, &request(Direction::XToY, 1_000, 0), 999).unwrap();
    assert_eq!(outcome.input_amount, 1_000);
    assert_eq!(outcome.output_amount, 1_992);
    assert_eq!(outcome.direction, Direction::XToY);
    assert_eq!(outcome.reserve_after, ReserveState::new(1_001_000, 1_998_008, 1_414_213));
}

#[test]
fn fee_is_taken_from_the_input_before_pricing() {
    // 1000 * 9970 / 10000 = 997, and 2_000_000 * 997 / 1_000_997 = 1992.01...
    assert_eq!(compute_output(1_000_000, 2_000_000, 1_000, 30), 1_992);
    // Priced on the whole input the same swap would pay 1998.
    assert_eq!(compute_output(1_000_000, 2_000_000, 1_000, 0), 1_998);
}

#[test]
fn swap_in_the_other_direction() {
    let pool = pool_with_fee(30);
    let reserve = ReserveState::new(1_000_000, 2_000_000, 1_414_213);
    let outcome = execute_swap(&pool, &reserve, &request(Direction::YToX, 1_000, 0), 0).unwrap();
    assert_eq!(outcome.output_amount, 498);
    assert_eq!(outcome.reserve_after, ReserveState::new(999_502, 2_001_000, 1_414_213));
}

#[test]
fn min_output_one_above_the_quote_is_slippage() {
    let pool = pool_with_fee(30);
    let reserve = ReserveState::new(1_000_000, 2_000_000, 1_414_213);
    let exact = execute_swap(&pool, &reserve, &request(Direction::XToY, 1_000, 1_992), 0);
    assert_eq!(exact.map(|o| o.output_amount), Ok(1_992));
    let above = execute_swap(&pool, &reserve, &request(Direction::XToY, 1_000, 1_993), 0);
    assert_eq!(above, Err(AmmError::SlippageExceeded));
}

#[test]
fn swap_on_the_deadline_runs_and_one_later_expires() {
    let pool = pool_with_fee(30);
    let reserve = ReserveState::new(1_000_000, 2_000_000, 1_414_213);
    let r = request(Direction::XToY, 1_000, 0);
    assert!(execute_swap(&pool, &reserve, &r, 1_000).is_ok());
    assert_eq!(execute_swap(&pool, &reserve, &r, 1_001), Err(AmmError::Expired));
}

#[test]
fn expired_wins_over_every_other_fault() {
    let mut pool = pool_with_fee(30);
    pool.locked = true;
    let reserve = ReserveState::new(0, 0, 0);
    let r = SwapRequest {
        direction: Direction::XToY,
        input_amount: 0,
        min_output: u64::MAX,
        deadline: -1,
    };
    assert_eq!(execute_swap(&pool, &reserve, &r, 0), Err(AmmError::Expired));
}

#[test]
fn locked_pool_refuses_swaps() {
    let mut pool = pool_with_fee(30);
    pool.locked = true;
    let reserve = ReserveState::new(1_000_000, 2_000_000, 1_414_213);
    let r = request(Direction::XToY, 1_000, 0);
    assert_eq!(execute_swap(&pool, &reserve, &r, 0), Err(AmmError::PoolLocked));
    pool.locked = false;
    assert!(execute_swap(&pool, &reserve, &r, 0).is_ok());
}

#[test]
fn zero_input_is_invalid() {
    let pool = pool_with_fee(30);
    let reserve = ReserveState::new(1_000_000, 2_000_000, 1_414_213);
    let r = request(Direction::XToY, 0, 0);
    assert_eq!(execute_swap(&pool, &reserve, &r, 0), Err(AmmError::InvalidAmount));
}

#[test]
fn input_that_the_fee_eats_buys_nothing() {
    let pool = pool_with_fee(30);
    let reserve = ReserveState::new(1_000_000, 2_000_000, 1_414_213);
    // 1 * 9970 / 10000 = 0
    let r = request(Direction::XToY, 1, 0);
    assert_eq!(execute_swap(&pool, &reserve, &r, 0), Err(AmmError::InsufficientLiquidity));
}

#[test]
fn fee_of_one_hundred_percent_keeps_everything() {
    let pool = pool_with_fee(10_000);
    let reserve = ReserveState::new(1_000_000, 2_000_000, 1_414_213);
    assert_eq!(compute_output(1_000_000, 2_000_000, 500_000, 10_000), 0);
    let r = request(Direction::XToY, 500_000, 0);
    assert_eq!(execute_swap(&pool, &reserve, &r, 0), Err(AmmError::InsufficientLiquidity));
}

#[test]
fn draining_the_reserve_is_refused() {
    let pool = pool_with_fee(0);
    let reserve = ReserveState::new(0, 100, 0);
    assert_eq!(compute_output(0, 100, 10, 0), 100);
    let r = request(Direction::XToY, 10, 0);
    assert_eq!(execute_swap(&pool, &reserve, &r, 0), Err(AmmError::InsufficientLiquidity));
}

#[test]
fn empty_pool_pays_nothing() {
    let pool = pool_with_fee(10_000);
    let reserve = ReserveState::new(0, 0, 0);
    assert_eq!(compute_output(0, 0, 7, 10_000), 0);
    let r = request(Direction::YToX, 7, 0);
    assert_eq!(execute_swap(&pool, &reserve, &r, 0), Err(AmmError::InsufficientLiquidity));
}

#[test]
fn slippage_is_judged_before_liquidity() {
    let pool = pool_with_fee(30);
    let reserve = ReserveState::new(1_000_000, 2_000_000, 1_414_213);
    let r = request(Direction::XToY, 1, 1);
    assert_eq!(execute_swap(&pool, &reserve, &r, 0), Err(AmmError::SlippageExceeded));
}

#[test]
fn balance_that_would_overflow_is_refused() {
    let pool = pool_with_fee(0);
    let reserve = ReserveState::new(u64::MAX - 5, u64::MAX, 1);
    assert_eq!(compute_output(u64::MAX - 5, u64::MAX, 10, 0), 9);
    let r = request(Direction::XToY, 10, 0);
    assert_eq!(execute_swap(&pool, &reserve, &r, 0), Err(AmmError::ArithmeticOverflow));
}

#[test]
fn largest_balances_are_priced_without_overflow() {
    let pool = pool_with_fee(0);
    let reserve = ReserveState::new(1, u64::MAX, 1);
    // u64::MAX * (u64::MAX - 1) / u64::MAX = u64::MAX - 1
    let r = request(Direction::XToY, u64::MAX - 1, 0);
    let outcome: SwapOutcome = execute_swap(&pool, &reserve, &r, 0).unwrap();
    assert_eq!(outcome.output_amount, u64::MAX - 1);
    assert_eq!(outcome.reserve_after, ReserveState::new(u64::MAX, 1, 1));
}

#[test]
fn product_of_reserves_never_falls() {
    let pool = pool_with_fee(30);
    let mut reserve = ReserveState::new(1_000_000, 2_000_000, 1_414_213);
    let inputs: [u64; 6] = [1_000, 17, 250_000, 3, 999_999, 40];
    for (i, input) in inputs.iter().enumerate() {
        let direction = Direction::from_is_x(i % 2 == 0);
        let before = (reserve.reserve_x as u128) * (reserve.reserve_y as u128);
        match execute_swap(&pool, &reserve, &request(direction, *input, 0), 0) {
            Ok(outcome) => {
                let after = (outcome.reserve_after.reserve_x as u128)
                    * (outcome.reserve_after.reserve_y as u128);
                assert!(after >= before);
                assert_eq!(outcome.reserve_after.claim_supply, reserve.claim_supply);
                reserve = outcome.reserve_after;
            }
            Err(e) => assert_eq!(e, AmmError::InsufficientLiquidity),
        }
    }
}

#[test]
fn fee_never_pays_more_than_no_fee() {
    let fees: [u16; 5] = [1, 30, 100, 5_000, 10_000];
    let inputs: [u64; 5] = [1, 999, 1_000, 123_456, 10_000_000];
    for fee in fees.iter() {
        for input in inputs.iter() {
            let with_fee = compute_output(1_000_000, 2_000_000, *input, *fee);
            let without = compute_output(1_000_000, 2_000_000, *input, 0);
            assert!(with_fee <= without);
            // Below the exact price of the whole input: q * (in + x) < out * x.
            let lhs = (with_fee as u128) * (1_000_000u128 + *input as u128);
            let rhs = 2_000_000u128 * (*input as u128);
            assert!(lhs < rhs);
        }
    }
}

#[test]
fn rounding_can_hide_a_small_fee() {
    // 5000 * 9999 / 10000 = 4999; 1000 * 4999 / 1_004_999 = 4.97..., and
    // 1000 * 5000 / 1_005_000 = 4.97... as well.
    assert_eq!(compute_output(1_000_000, 1_000, 5_000, 1), 4);
    assert_eq!(compute_output(1_000_000, 1_000, 5_000, 0), 4);
}

#[test]
fn direction_from_flag() {
    assert_eq!(Direction::from_is_x(true), Direction::XToY);
    assert_eq!(Direction::from_is_x(false), Direction::YToX);
}
