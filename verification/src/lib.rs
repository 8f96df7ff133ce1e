//! A transport bridge between a byte-oriented serial device and a
//! frame-oriented protocol engine.
//!
//! The library holds the decisions of the bridge and proves them with Verus;
//! it performs no I/O itself. A driver opens the device, moves the bytes and
//! runs the engine, and reports each outcome back as a plain value.

pub mod adapter;
pub mod channel;
pub mod config;
pub mod error;
pub mod frame;
pub mod hex;
pub mod outcome;
pub mod poll;
pub mod recorder;
pub mod sink;
