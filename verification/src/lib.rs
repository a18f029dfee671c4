//! Workload configuration and request generation for an RPC load generator.
//!
//! The library holds the configuration model (global settings, keyspaces,
//! commands and value shapes), applies command-line overrides to it, turns
//! keyspaces into generators and draws requests from them.

pub mod text;
pub mod random;
pub mod codec;
pub mod config;
