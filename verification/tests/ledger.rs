use amm::address::Address;
use amm::error::AmmError;
use amm::guard::{check_deadline, check_product, check_ratio, check_unlocked};
use amm::instructions::deposit::{execute_deposit, DepositRequest};
use amm::instructions::swap::{execute_swap, Direction, SwapRequest};
use amm::instructions::withdraw::{execute_withdraw, WithdrawRequest};
use amm::ledger::{
    deposit_instructions, swap_instructions, withdraw_instructions, LedgerInstruction,
};
use amm::state::config::Config;
use amm::state::reserve::ReserveState;

fn x() -> Address {
    Address::new([1; 32])
}

fn y() -> Address {
    Address::new([2; 32])
}

fn party() -> Address {
    Address::new([7; 32])
}

fn pool() -> Config {
    let mut config = Config::blank();
    config.init(1, None, x(), y(), 30, 0, 0, 0);
    config
}

#[test]
fn swap_moves_the_input_in_and_the_output_out() {
    let reserve = ReserveState::new(1_000_000, 2_000_000, 1_414_213);
    let request = SwapRequest {
        direction: Direction::XToY,
        input_amount: 1_000,
        min_output: 0,
        deadline: 0,
    };
    let outcome = execute_swap(&pool(), &reserve, &request, 0).unwrap();
    assert_eq!(
        swap_instructions(&pool(), &outcome, &party()),
        vec![
            LedgerInstruction::TransferInto { asset: x(), amount: 1_000, from: party() },
            LedgerInstruction::TransferOut { asset: y(), amount: 1_992, to: party() },
        ]
    );
    let request = SwapRequest { direction: Direction::YToX, ..request };
    let outcome = execute_swap(&pool(), &reserve, &request, 0).unwrap();
    assert_eq!(
        swap_instructions(&pool(), &outcome, &party()),
        vec![
            LedgerInstruction::TransferInto { asset: y(), amount: 1_000, from: party() },
            LedgerInstruction::TransferOut { asset: x(), amount: 498, to: party() },
        ]
    );
}

#[test]
fn refused_swap_has_nothing_to_move() {
    let reserve = ReserveState::new(1_000_000, 2_000_000, 1_414_213);
    let request = SwapRequest {
        direction: Direction::XToY,
        input_amount: 1_000,
        min_output: 1_993,
        deadline: 0,
    };
    let moves = match execute_swap(&pool(), &reserve, &request, 0) {
        Ok(outcome) => swap_instructions(&pool(), &outcome, &party()),
        Err(e) => {
            assert_eq!(e, AmmError::SlippageExceeded);
            vec![]
        }
    };
    assert!(moves.is_empty());
}

#[test]
fn deposit_moves_both_assets_in_and_mints() {
    let reserve = ReserveState::new(1_000_000, 2_000_000, 1_000_000);
    let request = DepositRequest { claim_amount: 1_000, max_x: 1_000, max_y: 2_000, deadline: 0 };
    let outcome = execute_deposit(&pool(), &reserve, &request, 0).unwrap();
    assert_eq!(
        deposit_instructions(&pool(), &outcome, &party()),
        vec![
            LedgerInstruction::TransferInto { asset: x(), amount: 1_000, from: party() },
            LedgerInstruction::TransferInto { asset: y(), amount: 2_000, from: party() },
            LedgerInstruction::MintClaim { amount: 1_000, to: party() },
        ]
    );
}

#[test]
fn withdrawal_burns_and_moves_both_assets_out() {
    let reserve = ReserveState::new(1_001_000, 2_002_000, 1_001_000);
    let request = WithdrawRequest { claim_amount: 1_000, min_x: 0, min_y: 0, deadline: 0 };
    let outcome = execute_withdraw(&reserve, &request, 1_000, 0).unwrap();
    assert_eq!(
        withdraw_instructions(&pool(), &outcome, &party()),
        vec![
            LedgerInstruction::BurnClaim { amount: 1_000, from: party() },
            LedgerInstruction::TransferOut { asset: x(), amount: 1_000, to: party() },
            LedgerInstruction::TransferOut { asset: y(), amount: 2_000, to: party() },
        ]
    );
}

#[test]
fn guard_judges_the_deadline() {
    assert_eq!(check_deadline(5, 5), Ok(()));
    assert_eq!(check_deadline(4, 5), Ok(()));
    assert_eq!(check_deadline(6, 5), Err(AmmError::Expired));
    assert_eq!(check_deadline(i64::MIN, i64::MIN), Ok(()));
    assert_eq!(check_deadline(i64::MAX, i64::MIN), Err(AmmError::Expired));
}

#[test]
fn guard_judges_the_lock() {
    let mut config = pool();
    assert_eq!(check_unlocked(&config), Ok(()));
    config.locked = true;
    assert_eq!(check_unlocked(&config), Err(AmmError::PoolLocked));
}

#[test]
fn guard_judges_the_product_in_full_width() {
    assert_eq!(check_product(10, 10, 20, 5), Ok(()));
    assert_eq!(check_product(10, 10, 11, 10), Ok(()));
    assert_eq!(check_product(10, 10, 33, 3), Err(AmmError::InvariantViolation));
    // 2^63 * 4 wraps to 0 in 64 bits, and 2^32 * 2^32 wraps to 0 as well.
    assert_eq!(check_product(1 << 63, 4, 1 << 32, 1 << 32), Err(AmmError::InvariantViolation));
    assert_eq!(check_product(1 << 32, 1 << 32, 1 << 63, 4), Ok(()));
    assert_eq!(
        check_product(u64::MAX, u64::MAX, u64::MAX, u64::MAX - 1),
        Err(AmmError::InvariantViolation)
    );
    assert_eq!(check_product(u64::MAX, u64::MAX, u64::MAX, u64::MAX), Ok(()));
}

#[test]
fn guard_judges_the_ratio() {
    // The same ratio before and after.
    assert_eq!(check_ratio(1_000, 2_000, 1_500, 3_000), Ok(()));
    // 2.0000 against 2.0002: one part in ten thousand, just allowed.
    assert_eq!(check_ratio(10_000, 20_000, 10_000, 20_002), Ok(()));
    assert_eq!(check_ratio(10_000, 20_000, 10_000, 20_003), Err(AmmError::InvariantViolation));
    assert_eq!(check_ratio(10_000, 20_000, 10_000, 19_998), Ok(()));
    assert_eq!(check_ratio(10_000, 20_000, 10_000, 19_997), Err(AmmError::InvariantViolation));
    // Products near 2^128 are compared without wrapping.
    assert_eq!(check_ratio(u64::MAX, u64::MAX, u64::MAX, u64::MAX), Ok(()));
    assert_eq!(check_ratio(u64::MAX, 1, 1, u64::MAX), Err(AmmError::InvariantViolation));
}
