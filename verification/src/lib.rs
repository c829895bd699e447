//! A streaming ingestion gateway core: the relay state machine that accepts
//! an inbound sequence of signals, hands each one to a fan-out sink, and
//! produces exactly one acknowledgment per signal, in order.
//!
//! The library is the verified heart of the gateway. Transport concerns (the
//! RPC server, sockets, the async runtime) live outside it and drive the
//! state machine one event at a time.

pub mod adapter;
pub mod signal;
pub mod sink;
