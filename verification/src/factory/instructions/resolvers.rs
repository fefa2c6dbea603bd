//! Resolvers of markets.
pub mod fear_and_greed_event_market_resolve;
