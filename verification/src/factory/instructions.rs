//! The factory program's instructions.
pub mod choice;
pub mod withdraw;
pub mod claim;
pub mod resolvers;
pub mod create_event_config;
pub mod toggle_event_market;
pub mod create_event_market;
pub mod vision_mining_claim;
pub mod mint_tokens;
pub mod change_vision_mining_admin;
pub mod initial_global_config;
pub mod initialize_mint;
pub mod initialize_collection;
pub mod create_event_sbt;
pub mod create_sbt;
pub mod mint_sbt;
pub mod mint_tag_sbt;
