use bridge_custody::api::{bridge_address_response, bridge_network_label, parse_solana_pubkey};
use bridge_custody::enclave_client::normalize_base_url;
use bridge_custody::mpc_node::MpcNode;
use bridge_custody::network::{create_shared_network, NetworkClient, NetworkStorage};
use bridge_custody::solana_listener::SolanaEventListener;
use bridge_custody::tx_builder::OrchardTxBuilder;
use bridge_custody::types::{
    BridgeApiConfig, DkgResult, EnclaveConfig, NetworkConfig, NodeConfig, OrchardKeyShards, SolanaConfig,
    WithdrawalConfig, ZcashConfig,
};
use std::sync::Arc;

#[test]
fn test_client_creation() {
    assert_eq!(normalize_base_url("http://localhost:8081"), "http://localhost:8081");
}

#[test]
fn test_url_trailing_slash() {
    assert_eq!(normalize_base_url("http://localhost:8081/"), "http://localhost:8081");
}

#[test]
fn all_trailing_slashes_are_removed() {
    assert_eq!(normalize_base_url("http://h///"), "http://h");
    assert_eq!(normalize_base_url("///"), "");
    assert_eq!(normalize_base_url(""), "");
}

#[test]
fn round1_read_after_write() {
    let mut store = NetworkStorage::default();
    assert_eq!(store.round1_from(1), None);
    store.post_round1(1, vec![1, 2, 3]);
    store.post_round1(2, vec![4]);
    assert_eq!(store.round1_from(1), Some(vec![1, 2, 3]));
    assert_eq!(store.round1_from(2), Some(vec![4]));
    store.post_round1(1, vec![9]);
    assert_eq!(store.round1_from(1), Some(vec![9]));
    assert_eq!(store.round2_from(1, 2), None);
}

#[test]
fn round2_keys_are_ordered_pairs() {
    let mut store = NetworkStorage::default();
    store.post_round2(1, 2, vec![12]);
    store.post_round2(2, 1, vec![21]);
    store.post_round2(65535, 65535, vec![0xff]);
    assert_eq!(store.round2_from(1, 2), Some(vec![12]));
    assert_eq!(store.round2_from(2, 1), Some(vec![21]));
    assert_eq!(store.round2_from(65535, 65535), Some(vec![0xff]));
    assert_eq!(store.round2_from(1, 1), None);
    assert_eq!(store.round1_from(1), None);
}

#[test]
fn signing_mailboxes_are_separate() {
    let mut store = NetworkStorage::default();
    store.post_commitments(3, vec![7]);
    store.post_signature_shares(3, vec![8]);
    assert_eq!(store.commitments_from(3), Some(vec![7]));
    assert_eq!(store.signature_shares_from(3), Some(vec![8]));
    assert_eq!(store.commitments_from(1), None);
    assert_eq!(store.round1_from(3), None);
}

#[test]
fn clients_share_one_network() {
    let shared = create_shared_network();
    let a = NetworkClient::new(1, shared.clone());
    let b = NetworkClient::new(2, shared.clone());
    a.storage.lock().unwrap().post_round1(a.node_id, vec![5]);
    assert_eq!(b.storage.lock().unwrap().round1_from(1), Some(vec![5]));
    assert!(Arc::ptr_eq(&a.storage, &b.storage));
}

fn node_config(node_id: u16) -> NodeConfig {
    NodeConfig {
        node_id,
        total_nodes: 3,
        threshold: 2,
        peers: Vec::new(),
        zcash: ZcashConfig {
            rpc_url: "http://z".to_string(),
            rpc_user: "u".to_string(),
            rpc_password: "p".to_string(),
            network: "testnet".to_string(),
        },
        solana: SolanaConfig {
            rpc_url: "http://s".to_string(),
            bridge_program_id: "HefTNtytDcQgSQmBpPuwjGipbVcJTMRHnppU9poWRXhD".to_string(),
            keypair_path: "/k".to_string(),
        },
        network: NetworkConfig { listen_address: "0.0.0.0".to_string(), port: 8080 },
        enclave: EnclaveConfig::default(),
        bridge_api: BridgeApiConfig::default(),
        withdrawal: WithdrawalConfig::default(),
    }
}

#[test]
fn mpc_node_joins_network_as_its_id() {
    let node = MpcNode::new(node_config(2), create_shared_network()).unwrap();
    assert_eq!(node.network.node_id, 2);
    assert_eq!(node.config.threshold, 2);
}

#[test]
fn listener_keeps_endpoint() {
    let l = SolanaEventListener::new("http://rpc".to_string(), "prog".to_string()).unwrap();
    assert_eq!(l._rpc_url, "http://rpc");
    assert_eq!(l._program_id, "prog");
}

#[test]
fn solana_pubkey_from_hex() {
    assert_eq!(parse_solana_pubkey(&"0a".repeat(32)).unwrap(), [10u8; 32]);
    assert_eq!(parse_solana_pubkey(&"0A".repeat(32)).unwrap(), [10u8; 32]);
    let msg = "Invalid Solana pubkey format (use 64-char hex)".to_string();
    assert_eq!(parse_solana_pubkey(&"0a".repeat(31)).unwrap_err(), msg);
    assert_eq!(parse_solana_pubkey("zz").unwrap_err(), msg);
    assert_eq!(parse_solana_pubkey(&"0a".repeat(33)).unwrap_err(), msg);
}

#[test]
fn network_labels() {
    assert_eq!(bridge_network_label("utest1abc"), "testnet");
    assert_eq!(bridge_network_label("u1abc"), "mainnet");
    assert_eq!(bridge_network_label("uregtest1abc"), "mainnet");
    assert_eq!(bridge_network_label(""), "mainnet");
}

#[test]
fn labels_of_encoded_bridge_addresses() {
    let builder = OrchardTxBuilder::new(&[0x42u8; 32]).unwrap();
    assert_eq!(bridge_network_label(&builder.get_bridge_address("testnet").unwrap()), "testnet");
    assert_eq!(bridge_network_label(&builder.get_bridge_address("mainnet").unwrap()), "mainnet");
}

#[test]
fn bridge_address_response_from_dkg_result() {
    let dkg = DkgResult {
        node_id: 1,
        key_share: Vec::new(),
        group_verifying_key: vec![1; 32],
        orchard_shards: OrchardKeyShards { ask_share: vec![], nsk_share: vec![], rivk: vec![], node_id: 1 },
        bridge_ua: "utest1xyz".to_string(),
        full_viewing_key: "uviewtest1xyz".to_string(),
        aggregated_ak: vec![],
        aggregated_nk: vec![],
        shared_rivk: vec![],
    };
    let r = bridge_address_response(dkg);
    assert_eq!(r.unified_address, "utest1xyz");
    assert_eq!(r.ufvk, "uviewtest1xyz");
    assert_eq!(r.network, "testnet");
}
