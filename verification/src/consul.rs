//! The registry: the requests that the sidecar sends to it and the values
//! that come back.

pub mod client;
pub mod config;
pub mod service;
pub mod util;
