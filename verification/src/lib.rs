//! The decision logic of a Bitcoin-Monero atomic swap daemon.
//!
//! Every module below is executable and proved: handlers take the present
//! state and an incoming request and give back the exact list of steps to
//! perform, and the steps themselves are verified transformations of the
//! runtime. Sockets, processes, clocks and the wallet stay with the caller.
pub mod base;
pub mod blob;
pub mod chain;
pub mod crypto;
pub mod map;
pub mod message;
pub mod offer;
pub mod swapd;
pub mod walletd;
