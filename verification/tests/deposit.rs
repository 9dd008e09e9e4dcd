use amm::address::Address;
use amm::error::AmmError;
use amm::instructions::deposit::{execute_deposit, DepositOutcome, DepositRequest};
use amm::state::config::Config;
use amm::state::reserve::ReserveState;

fn open_pool() -> Config {
    let mut config = Config::blank();
    config.init(1, None, Address::new([1; 32]), Address::new([2; 32]), 30, 254, 253, 252);
    config
}

fn asking(claim_amount: u64, max_x: u64, max_y: u64) -> DepositRequest {
    DepositRequest { claim_amount, max_x, max_y, deadline: 1_000 }
}

#[test]
fn first_deposit_sets_the_ratio_and_mints_the_geometric_mean() {
    let reserve = ReserveState::new(0, 0, 0);
    let outcome = execute_deposit(&open_pool(), &reserve, &asking(0, 4, 9), 0).unwrap();
    assert_eq!(
        outcome,
        DepositOutcome {
            x_used: 4,
            y_used: 9,
            claims_minted: 6,
            reserve_after: ReserveState::new(4, 9, 6),
        }
    );
}

#[test]
fn first_deposit_does_not_read_the_claims_asked_for() {
    let reserve = ReserveState::new(0, 0, 0);
    let small = execute_deposit(&open_pool(), &reserve, &asking(1, 1_000_000, 2_000_000), 0);
    let large = execute_deposit(&open_pool(), &reserve, &asking(u64::MAX, 1_000_000, 2_000_000), 0);
    assert_eq!(small, large);
    // sqrt(2 * 10^12) = 1_414_213.56...
    assert_eq!(small.unwrap().claims_minted, 1_414_213);
}

#[test]
fn first_deposit_of_one_asset_alone_mints_nothing() {
    let reserve = ReserveState::new(0, 0, 0);
    let outcome = execute_deposit(&open_pool(), &reserve, &asking(5, 7, 0), 0).unwrap();
    assert_eq!(outcome.claims_minted, 0);
    assert_eq!(outcome.reserve_after, ReserveState::new(7, 0, 0));
}

#[test]
fn first_deposit_of_the_largest_amounts() {
    let reserve = ReserveState::new(0, 0, 0);
    let request = asking(0, u64::MAX, u64::MAX);
    let outcome = execute_deposit(&open_pool(), &reserve, &request, 0).unwrap();
    assert_eq!(outcome.claims_minted, u64::MAX);
    assert_eq!(outcome.reserve_after, ReserveState::new(u64::MAX, u64::MAX, u64::MAX));
}

#[test]
fn later_deposit_pays_its_share_of_both_reserves() {
    let reserve = ReserveState::new(1_000_000, 2_000_000, 1_000_000);
    let outcome = execute_deposit(&open_pool(), &reserve, &asking(1_000, 1_000, 2_000), 0).unwrap();
    assert_eq!(
        outcome,
        DepositOutcome {
            x_used: 1_000,
            y_used: 2_000,
            claims_minted: 1_000,
            reserve_after: ReserveState::new(1_001_000, 2_002_000, 1_001_000),
        }
    );
}

#[test]
fn later_deposit_rounds_up() {
    // 1 * 1_000_000 / 3_000_000 = 0.33..., 1 * 2_000_000 / 3_000_000 = 0.66...
    let reserve = ReserveState::new(1_000_000, 2_000_000, 3_000_000);
    let outcome = execute_deposit(&open_pool(), &reserve, &asking(1, 10, 10), 0).unwrap();
    assert_eq!(outcome.x_used, 1);
    assert_eq!(outcome.y_used, 1);
    assert_eq!(outcome.claims_minted, 1);
    // 7 * 1_000_000 / 3_000_000 = 2.33..., 7 * 2_000_000 / 3_000_000 = 4.66...
    let outcome = execute_deposit(&open_pool(), &reserve, &asking(7, 10, 10), 0).unwrap();
    assert_eq!(outcome.x_used, 3);
    assert_eq!(outcome.y_used, 5);
}

#[test]
fn deposit_of_no_claims_moves_nothing() {
    let reserve = ReserveState::new(1_000_000, 2_000_000, 1_000_000);
    let outcome = execute_deposit(&open_pool(), &reserve, &asking(0, 0, 0), 0).unwrap();
    assert_eq!(
        outcome,
        DepositOutcome { x_used: 0, y_used: 0, claims_minted: 0, reserve_after: reserve }
    );
}

#[test]
fn deposit_above_either_bound_is_slippage() {
    let reserve = ReserveState::new(1_000_000, 2_000_000, 1_000_000);
    let pool = open_pool();
    assert!(execute_deposit(&pool, &reserve, &asking(1_000, 1_000, 2_000), 0).is_ok());
    assert_eq!(
        execute_deposit(&pool, &reserve, &asking(1_000, 999, 2_000), 0),
        Err(AmmError::SlippageExceeded)
    );
    assert_eq!(
        execute_deposit(&pool, &reserve, &asking(1_000, 1_000, 1_999), 0),
        Err(AmmError::SlippageExceeded)
    );
}

#[test]
fn share_beyond_sixty_four_bits_is_slippage() {
    // u64::MAX * u64::MAX / 1 does not fit any bound a depositor can set.
    let reserve = ReserveState::new(u64::MAX, 1, 1);
    let r = execute_deposit(&open_pool(), &reserve, &asking(u64::MAX, u64::MAX, u64::MAX), 0);
    assert_eq!(r, Err(AmmError::SlippageExceeded));
}

#[test]
fn deposit_on_the_deadline_runs_and_one_later_expires() {
    let reserve = ReserveState::new(1_000_000, 2_000_000, 1_000_000);
    let pool = open_pool();
    let r = asking(1_000, 1_000, 2_000);
    assert!(execute_deposit(&pool, &reserve, &r, 1_000).is_ok());
    assert_eq!(execute_deposit(&pool, &reserve, &r, 1_001), Err(AmmError::Expired));
}

#[test]
fn locked_pool_refuses_deposits() {
    let reserve = ReserveState::new(1_000_000, 2_000_000, 1_000_000);
    let mut pool = open_pool();
    pool.locked = true;
    let r = asking(1_000, 1_000, 2_000);
    assert_eq!(execute_deposit(&pool, &reserve, &r, 0), Err(AmmError::PoolLocked));
    assert_eq!(execute_deposit(&pool, &reserve, &r, 1_001), Err(AmmError::Expired));
    pool.locked = false;
    assert!(execute_deposit(&pool, &reserve, &r, 0).is_ok());
}

#[test]
fn deposit_that_overflows_a_balance_is_refused() {
    let pool = open_pool();
    let full_x = ReserveState::new(u64::MAX, 1, 1);
    assert_eq!(
        execute_deposit(&pool, &full_x, &asking(1, u64::MAX, 1), 0),
        Err(AmmError::ArithmeticOverflow)
    );
    let full_supply = ReserveState::new(10_000, 10_000, u64::MAX);
    assert_eq!(
        execute_deposit(&pool, &full_supply, &asking(1, 1, 1), 0),
        Err(AmmError::ArithmeticOverflow)
    );
    let first_into_full = ReserveState::new(u64::MAX, 0, 0);
    assert_eq!(
        execute_deposit(&pool, &first_into_full, &asking(0, 1, 1), 0),
        Err(AmmError::ArithmeticOverflow)
    );
}

#[test]
fn deposit_that_bends_the_ratio_is_refused() {
    // One claim of a thousand costs one unit of each asset after rounding:
    // the ratio would go from 1000 to 500.5.
    let reserve = ReserveState::new(1, 1_000, 1_000);
    let r = execute_deposit(&open_pool(), &reserve, &asking(1, 1, 1), 0);
    assert_eq!(r, Err(AmmError::InvariantViolation));
}

#[test]
fn ratio_at_the_edge_of_the_tolerance() {
    // One claim in a million costs 1 of X and 1 of Y. The ratio then drifts by
    // |(y + 1) * x - y * (x + 1)| = y - x, and the drift times 10000 may be
    // at most y * (x + 1).
    let pool = open_pool();
    // 4_999 * 10_000 = 49_990_000 = 9_998 * 5_000
    let on_the_edge = ReserveState::new(4_999, 9_998, 1_000_000);
    assert!(execute_deposit(&pool, &on_the_edge, &asking(1, 1, 1), 0).is_ok());
    // 5_000 * 10_000 = 50_000_000 > 49_995_000 = 9_999 * 5_000
    let beyond = ReserveState::new(4_999, 9_999, 1_000_000);
    assert_eq!(
        execute_deposit(&pool, &beyond, &asking(1, 1, 1), 0),
        Err(AmmError::InvariantViolation)
    );
    // The drift counts in both directions. With the reserves the other way
    // round it is 4_999 again, but may now be at most 4_999 * 9_999 / 10_000.
    let x_heavy = ReserveState::new(9_998, 4_999, 1_000_000);
    assert_eq!(
        execute_deposit(&pool, &x_heavy, &asking(1, 1, 1), 0),
        Err(AmmError::InvariantViolation)
    );
}

#[test]
fn deep_pool_never_trips_the_ratio_check() {
    let pool = open_pool();
    let reserve = ReserveState::new(10_000, 123_456_789, 7_777_777);
    let claims: [u64; 6] = [1, 2, 3, 1_000, 7_777_776, 99_999_999];
    for c in claims.iter() {
        let r = execute_deposit(&pool, &reserve, &asking(*c, u64::MAX, u64::MAX), 0);
        assert!(r.is_ok());
    }
}

#[test]
fn deposit_keeps_the_pool_funded() {
    let pool = open_pool();
    let reserve = ReserveState::new(5, 8, 3);
    let outcome = execute_deposit(&pool, &reserve, &asking(3, 5, 8), 0).unwrap();
    assert!(outcome.reserve_after.is_valid());
    assert_eq!(outcome.reserve_after, ReserveState::new(10, 16, 6));
}

#[test]
fn deposit_never_lowers_what_a_claim_stands_for() {
    let pool = open_pool();
    let reserve = ReserveState::new(1_000_003, 2_000_001, 2_999_999);
    let claims: [u64; 5] = [1, 2, 10, 1_234_567, 2_999_999];
    for c in claims.iter() {
        let after = execute_deposit(&pool, &reserve, &asking(*c, u64::MAX, u64::MAX), 0)
            .unwrap()
            .reserve_after;
        let supply = reserve.claim_supply as u128;
        let new_supply = after.claim_supply as u128;
        assert!(after.reserve_x as u128 * supply >= reserve.reserve_x as u128 * new_supply);
        assert!(after.reserve_y as u128 * supply >= reserve.reserve_y as u128 * new_supply);
    }
}
