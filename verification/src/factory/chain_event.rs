//! The events the factory emits about staking, events and SBTs.
pub mod choice;
pub mod event;
pub mod sbt;
