//! Verified core logic of the TinyMemory layer: identity canonicalisation,
//! storage-address canonicalisation, sync scheduling and host-seam decisions.

pub mod cadence;
pub mod composio_client;
pub mod config;
pub mod console;
pub mod embedding;
pub mod events;
pub mod fetch;
pub mod gate;
pub mod github;
pub mod identity;
pub mod pipeline;
pub mod preview;
pub mod queue_pool;
pub mod remote;
pub mod safety;
pub mod service;
pub mod sources;
pub mod text;
pub mod tree;
