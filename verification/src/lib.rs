//! Blocking JSON-RPC calls to a blockchain node, as state machines that a
//! WebSocket transport drives.

pub mod action;
pub mod api;
pub mod bridge;
pub mod error;
pub mod frame;
pub mod getter;
pub mod hash;
pub mod json;
pub mod request;
pub mod run;
pub mod submitter;
pub mod text;
pub mod transport;
