//! Verified core of the Monitare oracle and prediction-market programs and
//! of the off-chain feeder that drives them.
pub mod account_data;
pub mod client;
pub mod context;
pub mod error;
pub mod factory;
pub mod monitor;
pub mod pubkey;
pub mod seeds;
pub mod strings;
pub mod sysvar;
