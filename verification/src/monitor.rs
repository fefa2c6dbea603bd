//! The oracle program: oracle configurations with their authority lists,
//! and the oracle data that authorities set.
pub mod event;
pub mod instructions;
pub mod program;
pub mod state;
