//! The off-chain feeder: its configuration, the records it keeps, the
//! replies of its web API and the decisions of its feeding and market loops.
pub mod api;
pub mod conf;
pub mod decimal;
pub mod error;
pub mod event;
pub mod event_manager;
pub mod feeder;
pub mod fetcher;
pub mod laws;
pub mod mem_db;
pub mod oracle;
pub mod response;
pub mod time;
