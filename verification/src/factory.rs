//! The factory program: the fungible token, the SBTs, and the prediction
//! events with their markets.
pub mod chain_event;
pub mod event;
pub mod instructions;
pub mod laws;
pub mod metaplex;
pub mod program;
pub mod state;
pub mod token;
pub mod utils;
