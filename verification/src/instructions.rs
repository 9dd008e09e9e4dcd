//! The requests that a pool answers.

pub mod deposit;
pub mod initialize;
pub mod swap;
pub mod withdraw;
