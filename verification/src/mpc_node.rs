//! An MPC node: its configuration and its handle on the node network.

use vstd::prelude::*;
use crate::error::BridgeError;
use crate::network::{NetworkClient, NetworkStorage};
use crate::types::NodeConfig;
use std::sync::{Arc, Mutex};

verus! {

/// An MPC node of the bridge.
pub struct MpcNode {
    pub config: NodeConfig,
    pub network: NetworkClient,
}

impl MpcNode {
    /// The node described by `config`, attached to the shared network as its node id.
    pub fn new(config: NodeConfig, network_storage: Arc<Mutex<NetworkStorage>>) -> (res: Result<Self, BridgeError>)
        ensures
            res matches Ok(node) && node.config == config && node.network.node_id == config.node_id
                && node.network.storage == network_storage,
    {
        let network = NetworkClient::new(config.node_id, network_storage);
        Ok(MpcNode { config, network })
    }
}

} // verus!
