//! What the pool asks of the custody layer.
//!
//! The pool holds no balances. An answer of `Ok` is turned into the list of
//! moves below, and the custody layer carries out all of them or none.

use vstd::prelude::*;
use crate::address::Address;
use crate::instructions::deposit::DepositOutcome;
use crate::instructions::swap::{Direction, SwapOutcome};
use crate::instructions::withdraw::WithdrawOutcome;
use crate::state::config::Config;

verus! {

/// One move that the custody layer makes on the pool's behalf.
#[derive(Clone, Copy, Debug, PartialEq, Eq)]
pub enum LedgerInstruction {
    /// Take `amount` of `asset` from `from` into the pool's custody.
    TransferInto { asset: Address, amount: u64, from: Address },
    /// Hand `amount` of `asset` out of the pool's custody to `to`.
    TransferOut { asset: Address, amount: u64, to: Address },
    /// Mint `amount` claim tokens to `to`.
    MintClaim { amount: u64, to: Address },
    /// Burn `amount` claim tokens of `from`.
    BurnClaim { amount: u64, from: Address },
}

impl Config {
    /// The asset that a swap in `direction` brings.
    pub open spec fn asset_in(&self, direction: Direction) -> Address {
        match direction {
            Direction::XToY => self.mint_x,
            Direction::YToX => self.mint_y,
        }
    }

    /// The asset that a swap in `direction` takes.
    pub open spec fn asset_out(&self, direction: Direction) -> Address {
        match direction {
            Direction::XToY => self.mint_y,
            Direction::YToX => self.mint_x,
        }
    }
}

/// The moves that settle a swap: the input comes in, then the output goes out.
pub open spec fn swap_moves(pool: Config, outcome: SwapOutcome, swapper: Address) -> Seq<
    LedgerInstruction,
> {
    seq![
        LedgerInstruction::TransferInto {
            asset: pool.asset_in(outcome.direction),
            amount: outcome.input_amount,
            from: swapper,
        },
        LedgerInstruction::TransferOut {
            asset: pool.asset_out(outcome.direction),
            amount: outcome.output_amount,
            to: swapper,
        },
    ]
}

/// The moves that settle a deposit: both assets come in, then the claims are
/// minted.
pub open spec fn deposit_moves(pool: Config, outcome: DepositOutcome, depositor: Address) -> Seq<
    LedgerInstruction,
> {
    seq![
        LedgerInstruction::TransferInto {
            asset: pool.mint_x,
            amount: outcome.x_used,
            from: depositor,
        },
        LedgerInstruction::TransferInto {
            asset: pool.mint_y,
            amount: outcome.y_used,
            from: depositor,
        },
        LedgerInstruction::MintClaim { amount: outcome.claims_minted, to: depositor },
    ]
}

/// The moves that settle a withdrawal: the claims are burned, then both assets
/// go out.
pub open spec fn withdraw_moves(pool: Config, outcome: WithdrawOutcome, holder: Address) -> Seq<
    LedgerInstruction,
> {
    seq![
        LedgerInstruction::BurnClaim { amount: outcome.claims_burned, from: holder },
        LedgerInstruction::TransferOut {
            asset: pool.mint_x,
            amount: outcome.x_returned,
            to: holder,
        },
        LedgerInstruction::TransferOut {
            asset: pool.mint_y,
            amount: outcome.y_returned,
            to: holder,
        },
    ]
}

/// The moves that settle the swap `outcome` for `swapper`.
pub fn swap_instructions(pool: &Config, outcome: &SwapOutcome, swapper: &Address) -> (moves: Vec<
    LedgerInstruction,
>)
    ensures
        moves@ == swap_moves(*pool, *outcome, *swapper),
{
    let (asset_in, asset_out) = match outcome.direction {
        Direction::XToY => (pool.mint_x, pool.mint_y),
        Direction::YToX => (pool.mint_y, pool.mint_x),
    };
    let mut moves: Vec<LedgerInstruction> = Vec::new();
    moves.push(
        LedgerInstruction::TransferInto {
            asset: asset_in,
            amount: outcome.input_amount,
            from: *swapper,
        },
    );
    moves.push(
        LedgerInstruction::TransferOut {
            asset: asset_out,
            amount: outcome.output_amount,
            to: *swapper,
        },
    );
    assert(moves@ =~= swap_moves(*pool, *outcome, *swapper));
    moves
}

/// The moves that settle the deposit `outcome` for `depositor`.
pub fn deposit_instructions(pool: &Config, outcome: &DepositOutcome, depositor: &Address) -> (moves:
    Vec<LedgerInstruction>)
    ensures
        moves@ == deposit_moves(*pool, *outcome, *depositor),
{
    let mut moves: Vec<LedgerInstruction> = Vec::new();
    moves.push(
        LedgerInstruction::TransferInto {
            asset: pool.mint_x,
            amount: outcome.x_used,
            from: *depositor,
        },
    );
    moves.push(
        LedgerInstruction::TransferInto {
            asset: pool.mint_y,
            amount: outcome.y_used,
            from: *depositor,
        },
    );
    moves.push(LedgerInstruction::MintClaim { amount: outcome.claims_minted, to: *depositor });
    assert(moves@ =~= deposit_moves(*pool, *outcome, *depositor));
    moves
}

/// The moves that settle the withdrawal `outcome` for `holder`.
pub fn withdraw_instructions(pool: &Config, outcome: &WithdrawOutcome, holder: &Address) -> (moves:
    Vec<LedgerInstruction>)
    ensures
        moves@ == withdraw_moves(*pool, *outcome, *holder),
{
    let mut moves: Vec<LedgerInstruction> = Vec::new();
    moves.push(LedgerInstruction::BurnClaim { amount: outcome.claims_burned, from: *holder });
    moves.push(
        LedgerInstruction::TransferOut {
            asset: pool.mint_x,
            amount: outcome.x_returned,
            to: *holder,
        },
    );
    moves.push(
        LedgerInstruction::TransferOut {
            asset: pool.mint_y,
            amount: outcome.y_returned,
            to: *holder,
        },
    );
    assert(moves@ =~= withdraw_moves(*pool, *outcome, *holder));
    moves
}

} // verus!
