//! A discovery client for locating the current primary node of a replicated
//! key-value service that is monitored by a fleet of independent sentinel
//! processes.
//!
//! The resolver keeps a registry of sentinel connections, asks each sentinel
//! for the primary address of a named service, and independently confirms
//! that the candidate node reports itself as primary before trusting it.
//! The wire-protocol client that performs the actual network exchanges is a
//! collaborator, reached through the [`client::SentinelClient`] trait; the
//! resolution and validation logic here is verified against that interface.

pub mod client;
pub mod endpoint;
pub mod laws;
pub mod model;
pub mod reply;
pub mod resolver;
pub mod snapshot;

pub use client::FleetView;
pub use client::SentinelClient;
pub use endpoint::SentinelEndpoint;
pub use endpoint::SentinelError;
pub use reply::QueryReply;
pub use reply::RoleReply;
pub use resolver::Sentinel;
pub use resolver::validate_master_role;
pub use snapshot::SnapshotClient;
