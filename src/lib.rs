//! Chat-driven typing-speed guessing game and channel-point reward
//! reconciliation for a live stream.

pub mod chat;
pub mod client;
pub mod discord;
pub mod events;
pub mod ledger;
pub mod live;
pub mod rewards;
pub mod server;
pub mod text;
pub mod types;
pub mod wpm;
