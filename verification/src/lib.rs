//! A mirror of the PipeWire object graph and the rules for steering it.
//!
//! The daemon announces nodes, ports and links; [`translate`] turns each
//! announcement into a change message, and [`store`] applies the messages to
//! a map from id to object. From snapshots of that map, [`linking`] works out
//! which ports to connect for a request by name, [`executor`] resolves
//! commands into the calls to make on the daemon, and [`wait`] decides when a
//! wait for a new node is over. [`shared`] puts the store behind a lock for
//! use from several threads. Connecting to the daemon, threads and timers
//! are left to the program that uses the library.

pub mod command;
pub mod entity;
pub mod error;
pub mod executor;
pub mod json;
pub mod laws;
pub mod linking;
pub mod message;
pub mod props;
pub mod query;
pub mod session;
pub mod shared;
pub mod store;
pub mod text;
pub mod translate;
pub mod wait;

pub use entity::{PipewireData, PipewireLink, PipewireNode, PipewirePort};
