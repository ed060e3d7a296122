//! Window-discovery and activation engine for a hotkey-driven window
//! switcher: enumeration filtering, a snapshot cache resolving window ids,
//! a thumbnail encoding pipeline, generation-based refresh cancellation,
//! and a multi-strategy activation resolver.

pub mod activation;
pub mod cache;
pub mod coordinator;
pub mod enumerate;
pub mod model;
pub mod provider;
pub mod text;
pub mod thumbnail;
