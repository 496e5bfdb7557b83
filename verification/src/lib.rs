//! A flood-broadcast chat node: the rules by which a node keeps its partial
//! view of peers in step with local-network discovery, publishes input lines
//! on its one topic, delivers what it receives, and shuts down.

pub mod coordinator;
pub mod identity;
pub mod overlay;
pub mod peer;
pub mod runtime;
pub mod startup;
pub mod transport;
