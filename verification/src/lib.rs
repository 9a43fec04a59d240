//! Verified core of the midw communication middleware.
//!
//! A control node drives a set of nodes through one five-operation interface
//! (start, stop, query, config, test). This library holds everything the
//! middleware decides: how a node answers a command, how a control node finds
//! and addresses its nodes, and how each transport carries one request and one
//! reply. Sockets, channels, clocks other than a node's own, and JSON stay with
//! the program that uses it.
pub mod cli;
pub mod control;
pub mod dds;
pub mod dds_calls;
pub mod dds_calls_laws;
pub mod dds_laws;
pub mod dds_server;
pub mod dds_setup;
pub mod ipc;
pub mod ipc_laws;
pub mod ipc_server;
pub mod link;
pub mod local;
pub mod node;
pub mod node_laws;
pub mod protocol;
pub mod registry;
pub mod report;
pub mod text;
