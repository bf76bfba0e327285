//! The deciding core of a message relay that records what is said in chosen
//! channels and, when a message is deleted, posts its stored text again.
//!
//! Nothing here talks to the network or to a disk. The caller owns the gateway
//! connection and the database; it hands each outcome to the functions of
//! [`relay::Handler`] and performs what they return.
//!
//! - [`config`]: the configuration and how startup goes on from what was
//!   found on disk.
//! - [`channel`]: what the relay knows of a channel.
//! - [`snowflake`]: how an identifier is written as text.
//! - [`store`]: the table of recorded messages, as mathematics and in memory.
//! - [`relay`]: the decisions taken for each event, and what holds of them.

pub mod channel;
pub mod config;
pub mod relay;
pub mod snowflake;
pub mod store;
