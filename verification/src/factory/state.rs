//! The factory program's accounts.
pub mod event_config;
pub mod event_market;
pub mod event_position;
pub mod global_config;
pub mod marker;
pub mod mint_config;
pub mod position;
pub mod url;
pub mod user_position;
