//! The daemon that keeps the node's secrets.
pub mod runtime;
