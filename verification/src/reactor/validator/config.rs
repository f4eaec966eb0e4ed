//! The configuration of a validator node.

use crate::reactor::validator::Node;
use vstd::prelude::*;

verus! {

/// What a validator node is started with: one part for each subsystem that
/// takes a configuration. The reactor reads none of it; each part goes to the
/// subsystem it is meant for.
#[derive(Debug, Clone, PartialEq, Eq)]
pub struct Config<T: Node> {
    /// For the network subsystem.
    pub validator_net: T::NetworkConfig,
    /// For the storage subsystem.
    pub storage: T::StorageConfig,
    /// For the API server.
    pub http_server: T::HttpServerConfig,
    /// For the deploy gossiper.
    pub gossip: T::GossipConfig,
}

} // verus!
