//! What the pool knows: its configuration and a snapshot of its balances.

pub mod config;
pub mod registry;
pub mod reserve;
