//! The authentication service's logic: request rules, the stages of each
//! handler, one-time codes and their send limits, tokens, and the checks of
//! the shared connections.

pub mod connection;
pub mod exchange;
pub mod middleware;
pub mod model;
pub mod service;
pub mod text;
pub mod validate;
