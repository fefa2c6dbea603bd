//! The events the factory emits about balances and markets.
pub mod balance;
pub mod event_market;
