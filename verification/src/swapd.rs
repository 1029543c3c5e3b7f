//! The daemon that runs one swap.
pub mod checkpoint;
pub mod strict;
pub mod codec;
pub mod state;
pub mod temporal_safety;
pub mod syncer_client;
pub mod chunks;
pub mod runtime;
pub mod swap_state;
pub mod wallet;
pub mod rpc_msg;
pub mod sync_events;
pub mod rpc_ctl;
pub mod laws;
pub mod steps;
pub mod conduct;
pub mod answers;
pub mod duties;
pub mod effects;
pub mod exchange;
pub mod layout;
