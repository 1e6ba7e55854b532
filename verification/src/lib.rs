//! Protocol core of a proof-of-work pool: the wire codec, the two session
//! state machines, the reconnection supervisor and the miner-side decisions
//! that surround them.
//!
//! Network and disk access live outside this crate. Each state machine here
//! takes an event and answers with the next action to perform.

pub mod auth;
pub mod client;
pub mod codec;
pub mod config;
pub mod device;
pub mod exchange;
pub mod intake;
pub mod key_manager;
pub mod key_storage;
pub mod mining;
pub mod push;
pub mod receive;
pub mod server;
pub mod submission;
pub mod supervisor;
pub mod text;
pub mod token;
pub mod types;
