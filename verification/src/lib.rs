//! Query mediation between a tabular query protocol and a key-value store.
//!
//! The crate classifies query text into a closed set of intents, maps each
//! intent to key-value commands, and shapes what the store returns into rows.
//! It performs no input or output itself: the caller runs the commands that
//! the mediator asks for and hands the replies back.

pub mod auth;
pub mod backend;
pub mod config;
pub mod logging;
pub mod number;
pub mod query;
pub mod rate_limit;
pub mod result;
pub mod schema;
pub mod store;
pub mod text;
