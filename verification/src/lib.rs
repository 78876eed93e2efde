//! The core of a starboard service: a cache between a chat platform's event
//! feed and its remote API, the cooldowns that keep the service from doing
//! things too often, and what the service and its web console decide.
//!
//! Nothing here performs I/O. An operation that may need the remote API is a
//! step function: it answers from what is cached, or names the fetch it needs
//! and is called again with the reply.

pub mod ancestry;
pub mod backing;
pub mod cache;
pub mod config;
pub mod console;
pub mod constants;
pub mod cooldowns;
pub mod events;
pub mod fog;
pub mod laws;
pub mod marks;
pub mod model;
pub mod ordering;
pub mod picker;
pub mod remote;
pub mod resolver;
pub mod status;
