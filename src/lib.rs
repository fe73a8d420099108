//! Host runtime of an edge agent that runs a sandboxed workflow module and
//! bridges it to a publish/subscribe broker.
pub mod agent;
pub mod bridge;
pub mod cli;
pub mod config;
pub mod hello;
pub mod host_api;
pub mod inbound;
pub mod lifecycle;
pub mod memory;
pub mod queue;
mod text;
