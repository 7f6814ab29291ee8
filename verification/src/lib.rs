//! The core of a streaming market-data client: it classifies the messages of
//! the feed, tracks the integrity of the trades, decides on reconnects, and
//! runs the connection session as a state machine whose events travel on a
//! bounded bus.
//!
//! The library opens no socket and reads no clock. A driver performs the
//! actions that the session asks for and reports what came of them.

pub mod classifier;
pub mod cli;
pub mod client_state;
pub mod config;
pub mod decimal;
pub mod decode;
pub mod error;
pub mod events;
pub mod formatter;
pub mod health;
pub mod integrity;
pub mod json;
pub mod monitoring;
pub mod policy;
pub mod session;
pub mod text;
pub mod timestamp;
pub mod types;
