//! The decisions of a bridge between a host's message channel and a GraphQL
//! engine: which endpoint a command names, what an invocation is answered
//! with, and which events a subscription puts on its channel.
//!
//! The host transport and the engine's execution stay outside: a driver
//! performs them and hands their outcomes to the functions of this crate.

pub mod text;
pub mod error;
pub mod endpoint;
pub mod channel;
pub mod engine;
pub mod query;
pub mod subscription;
pub mod trace;

pub use crate::subscription::SubscriptionRequest;
