//! A constant-product liquidity pool for two fungible assets.
//!
//! The library holds the rules of the pool and nothing else: it reads a
//! snapshot of the custodial balances, decides what a deposit, a withdrawal or
//! a swap is worth, and answers with the amounts to move. Moving them is the
//! caller's part, and so are signatures, the clock and storage.
//!
//! Three rules are fixed here and nowhere else:
//!
//! - The first deposit into a pool mints the integer square root of the
//!   product of the two amounts it brings, whatever the depositor asks for.
//! - A later deposit may move the exchange ratio by at most one part in ten
//!   thousand of what it was.
//! - A locked pool takes neither deposits nor swaps, and still pays its
//!   holders out.
//!
//! [`amm`] holds the operations as callers see them, [`instructions`] the rules
//! of each, [`state`] the data they read, [`guard`] the checks they share,
//! [`curve`] and [`shares`] the arithmetic, and [`laws`] what is proved of all
//! of it.

pub mod address;
pub mod amm;
pub mod constants;
pub mod curve;
pub mod error;
pub mod guard;
pub mod instructions;
pub mod laws;
pub mod ledger;
pub mod math;
pub mod shares;
pub mod state;
