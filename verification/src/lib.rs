//! Decision core of a node-local sidecar that keeps a node's entry in a
//! cluster service registry consistent with what the node observes about
//! itself: whether the external entry point routes to it, and whether it is
//! permitted to serve traffic.
//!
//! The crate performs no I/O. It builds the requests to send, interprets the
//! answers, and decides what to do next; a driver performs the requests.

pub mod check;
pub mod config;
pub mod consul;
pub mod convergence;
pub mod status;
pub mod text;
pub mod util;
