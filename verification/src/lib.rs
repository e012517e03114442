//! Client side of a per-project background worker: where the worker of a
//! project lives on disk, whether it is running, how a connection to it is
//! obtained, and the line protocol spoken once connected.
//!
//! Every function here is a pure decision over plain values. The caller does
//! the input and output that the decisions ask for.

pub mod addressing;
pub mod connect;
pub mod invocation;
pub mod json;
pub mod lifecycle;
pub mod locator;
pub mod paths;
pub mod protocol;
pub mod session;
pub mod text;
