use ff::PrimeField;
use group::{Group, GroupEncoding};
use bridge_custody::dkg_coordinator::{complete_ceremony, local_fvk_contribution, sort_contributions_by_node};
use bridge_custody::error::BridgeError;
use bridge_custody::orchard_frost::{
    aggregate_fvk_contributions, compute_fvk_contribution, derive_orchard_shards_from_frost, derive_shared_rivk,
};
use bridge_custody::tx_builder::OrchardTxBuilder;
use bridge_custody::types::{FvkContribution, OrchardKeyShards};

use bridge_custody::ua_builder::{BridgeAddressGenerator, ConsensusNetwork};

#[test]
fn test_shared_rivk_deterministic() {
    let group_key = [0x42u8; 32];
    let rivk1 = derive_shared_rivk(&group_key).unwrap();
    let rivk2 = derive_shared_rivk(&group_key).unwrap();
    assert_eq!(rivk1, rivk2, "rivk must be deterministic");
}

#[test]
fn test_orchard_shard_derivation() {
    let mock_frost_share = [0x42u8; 32];
    let mock_group_key = [0x99u8; 32];
    let shards = derive_orchard_shards_from_frost(&mock_frost_share, &mock_group_key, 1).unwrap();
    assert_eq!(shards.ask_share.len(), 32);
    assert_eq!(shards.nsk_share.len(), 32);
    assert_eq!(shards.rivk.len(), 32);
    assert_eq!(shards.node_id, 1);
}

#[test]
fn test_different_nodes_same_rivk() {
    let frost_share1 = [0x42u8; 32];
    let frost_share2 = [0x43u8; 32];
    let group_key = [0x99u8; 32];
    let shards1 = derive_orchard_shards_from_frost(&frost_share1, &group_key, 1).unwrap();
    let shards2 = derive_orchard_shards_from_frost(&frost_share2, &group_key, 2).unwrap();
    assert_ne!(shards1.ask_share, shards2.ask_share);
    assert_ne!(shards1.nsk_share, shards2.nsk_share);
    assert_eq!(shards1.rivk, shards2.rivk, "rivk must be identical across nodes!");
}

#[test]
fn test_fvk_contribution() {
    let mock_frost_share = [0x42u8; 32];
    let mock_group_key = [0x99u8; 32];
    let shards = derive_orchard_shards_from_frost(&mock_frost_share, &mock_group_key, 1).unwrap();
    let contribution = compute_fvk_contribution(&shards).unwrap();
    assert_eq!(contribution.ak_bytes.len(), 32);
    assert_eq!(contribution.nk_bytes.len(), 32);
}

#[test]
fn shared_rivk_is_the_group_keys_rivk() {
    let group_key = [0x99u8; 32];
    let shards = derive_orchard_shards_from_frost(&[7u8; 32], &group_key, 3).unwrap();
    assert_eq!(shards.rivk, derive_shared_rivk(&group_key).unwrap().to_vec());
}

#[test]
fn same_share_on_other_node_gives_other_ask() {
    let group_key = [0x99u8; 32];
    let a = derive_orchard_shards_from_frost(&[5u8; 32], &group_key, 1).unwrap();
    let b = derive_orchard_shards_from_frost(&[5u8; 32], &group_key, 2).unwrap();
    assert_ne!(a.ask_share, b.ask_share);
    assert_eq!(a.rivk, b.rivk);
}

#[test]
fn shard_scalars_are_below_the_pallas_modulus() {
    let shards = derive_orchard_shards_from_frost(&[0xffu8; 32], &[0xffu8; 32], 9).unwrap();
    // The top byte of a canonical Pallas scalar is at most 0x40.
    assert!(shards.ask_share[31] <= 0x40);
    assert!(shards.nsk_share[31] <= 0x40);
    assert!(shards.rivk[31] <= 0x40);
}

#[test]
fn contribution_of_short_share_is_refused() {
    let shards = OrchardKeyShards { ask_share: vec![1u8; 31], nsk_share: vec![1u8; 32], rivk: vec![0u8; 32], node_id: 1 };
    assert_eq!(compute_fvk_contribution(&shards).unwrap_err(), BridgeError::ScalarLength);
}

#[test]
fn contribution_of_non_canonical_scalar_is_refused() {
    let shards = OrchardKeyShards { ask_share: vec![1u8; 32], nsk_share: vec![0xffu8; 32], rivk: vec![0u8; 32], node_id: 1 };
    assert_eq!(compute_fvk_contribution(&shards).unwrap_err(), BridgeError::InvalidScalar);
}

#[test]
fn aggregation_without_contributions_is_refused() {
    let err = aggregate_fvk_contributions(&Vec::new(), &[1u8; 32]).err().unwrap();
    assert_eq!(err, BridgeError::NoContributions);
}

#[test]
fn aggregation_with_bad_point_is_refused() {
    let c = FvkContribution { node_id: 1, ak_bytes: vec![1u8; 31], nk_bytes: vec![1u8; 32] };
    let err = aggregate_fvk_contributions(&vec![c], &[1u8; 32]).err().unwrap();
    assert_eq!(err, BridgeError::PointLength);
}

#[test]
fn three_node_ceremony_yields_testnet_addresses() {
    let group_key = [0x99u8; 32];
    let mut contributions = Vec::new();
    let mut own_shards = None;
    for node in [3u16, 1, 2] {
        let (shards, contribution) = local_fvk_contribution(&[node as u8; 32], &group_key, node).unwrap();
        if node == 1 {
            own_shards = Some(shards);
        }
        contributions.push(contribution);
    }
    let sorted = sort_contributions_by_node(contributions);
    let ids: Vec<u16> = sorted.iter().map(|c| c.node_id).collect();
    assert_eq!(ids, vec![1, 2, 3]);
    let shards = own_shards.unwrap();
    let fvk = aggregate_fvk_contributions(&sorted, &shards.rivk).unwrap();
    let result = complete_ceremony(1, &[7u8, 8, 9], &group_key, shards.clone(), &sorted, "testnet").unwrap();
    assert!(result.bridge_ua.starts_with("utest1"));
    assert!(result.full_viewing_key.starts_with("uviewtest1"));
    assert_eq!(result.node_id, 1);
    assert_eq!(result.key_share, vec![7u8, 8, 9]);
    assert_eq!(result.group_verifying_key, group_key.to_vec());
    assert_eq!(result.shared_rivk, shards.rivk);
    assert_eq!(result.aggregated_ak.len(), 32);
    assert_eq!(
        result.bridge_ua,
        BridgeAddressGenerator::generate_address_from_fvk(&fvk, ConsensusNetwork::TestNetwork).unwrap()
    );
}

#[test]
fn ceremony_on_unknown_network_is_refused() {
    let group_key = [0x99u8; 32];
    let (shards, contribution) = local_fvk_contribution(&[1u8; 32], &group_key, 1).unwrap();
    let err = complete_ceremony(1, &[1u8], &group_key, shards, &vec![contribution], "regtest").unwrap_err();
    assert_eq!(err, BridgeError::InvalidNetwork("regtest".to_string()));
}

#[test]
fn test_tx_builder_creation() {
    let frost_key = [0x42u8; 32];
    let builder = OrchardTxBuilder::new(&frost_key);
    assert!(builder.is_ok());
}

#[test]
fn test_get_bridge_address() {
    let frost_key = [0x42u8; 32];
    let builder = OrchardTxBuilder::new(&frost_key).unwrap();
    let address = builder.get_bridge_address("testnet").unwrap();
    assert!(address.starts_with("utest1"));
    println!("Bridge address: {}", address);
}

#[test]
fn test_get_bridge_ufvk() {
    let frost_key = [0x42u8; 32];
    let builder = OrchardTxBuilder::new(&frost_key).unwrap();
    let ufvk = builder.get_bridge_ufvk("testnet").unwrap();
    assert!(ufvk.starts_with("uviewtest1"));
    println!("Bridge UFVK: {}", ufvk);
}

#[test]
fn mainnet_bridge_address_and_ufvk_prefixes() {
    let builder = OrchardTxBuilder::new(&[0x42u8; 32]).unwrap();
    assert!(builder.get_bridge_address("mainnet").unwrap().starts_with("u1"));
    assert!(builder.get_bridge_ufvk("mainnet").unwrap().starts_with("uview1"));
}

#[test]
fn unknown_network_is_refused() {
    let builder = OrchardTxBuilder::new(&[0x42u8; 32]).unwrap();
    assert_eq!(builder.get_bridge_address("devnet").unwrap_err(), BridgeError::InvalidNetwork("devnet".to_string()));
}

#[test]
fn short_group_key_is_refused() {
    let builder = OrchardTxBuilder::new(&[0x42u8; 31]).unwrap();
    assert_eq!(builder.get_bridge_address("testnet").unwrap_err(), BridgeError::WrongKeyLength(31));
    assert_eq!(builder.get_bridge_ufvk("testnet").unwrap_err(), BridgeError::WrongKeyLength(31));
}

#[test]
fn withdrawal_building_is_refused_with_amount_and_recipient() {
    let builder = OrchardTxBuilder::new(&[0x42u8; 32]).unwrap();
    let err = builder.build_withdrawal("utest1abc", 5000).unwrap_err();
    assert_eq!(err, BridgeError::TxBuildingUnavailable { amount: 5000, recipient: "utest1abc".to_string() });
}

#[test]
fn address_from_ufvk_matches_address_from_group_key() {
    let key = [0x42u8; 32];
    let ufvk = BridgeAddressGenerator::derive_ufvk_encoded(&key, "testnet").unwrap();
    let from_ufvk = BridgeAddressGenerator::generate_address_from_ufvk(&ufvk, ConsensusNetwork::TestNetwork).unwrap();
    let direct = BridgeAddressGenerator::generate_bridge_ua(&key, "testnet").unwrap();
    assert_eq!(from_ufvk, direct);
}

#[test]
fn ufvk_for_other_network_is_refused() {
    let ufvk = BridgeAddressGenerator::derive_ufvk_encoded(&[0x42u8; 32], "testnet").unwrap();
    let err = BridgeAddressGenerator::generate_address_from_ufvk(&ufvk, ConsensusNetwork::MainNetwork).unwrap_err();
    assert_eq!(err, BridgeError::NetworkMismatch);
}

#[test]
fn garbage_ufvk_is_refused() {
    let err = BridgeAddressGenerator::generate_address_from_ufvk("not a key", ConsensusNetwork::TestNetwork).unwrap_err();
    assert_eq!(err, BridgeError::UfvkDecodeFailed);
}

#[test]
fn fvk_round_trips_through_its_encoding() {
    let fvk = BridgeAddressGenerator::derive_fvk(&[0x42u8; 32]).unwrap();
    let encoded = BridgeAddressGenerator::encode_ufvk(&fvk, ConsensusNetwork::TestNetwork).unwrap();
    assert_eq!(encoded, BridgeAddressGenerator::derive_ufvk_encoded(&[0x42u8; 32], "testnet").unwrap());
    let address = BridgeAddressGenerator::generate_address_from_fvk(&fvk, ConsensusNetwork::TestNetwork).unwrap();
    assert_eq!(address, BridgeAddressGenerator::generate_bridge_ua(&[0x42u8; 32], "testnet").unwrap());
}

#[test]
fn sorting_keeps_arrival_order_within_a_node() {
    let c = |node_id: u16, tag: u8| FvkContribution { node_id, ak_bytes: vec![tag], nk_bytes: vec![] };
    let sorted = sort_contributions_by_node(vec![c(2, 1), c(1, 2), c(2, 3), c(1, 4), c(3, 5)]);
    let order: Vec<(u16, u8)> = sorted.iter().map(|x| (x.node_id, x.ak_bytes[0])).collect();
    assert_eq!(order, vec![(1, 2), (1, 4), (2, 1), (2, 3), (3, 5)]);
}

fn pallas_point(bytes: &[u8]) -> pasta_curves::pallas::Point {
    let mut arr = [0u8; 32];
    arr.copy_from_slice(bytes);
    Option::from(pasta_curves::pallas::Point::from_bytes(&arr)).unwrap()
}

#[test]
fn contribution_points_are_generator_multiples() {
    let shards = derive_orchard_shards_from_frost(&[0x42u8; 32], &[0x99u8; 32], 1).unwrap();
    let c = compute_fvk_contribution(&shards).unwrap();
    let mut ask = [0u8; 32];
    ask.copy_from_slice(&shards.ask_share);
    let scalar: pasta_curves::pallas::Scalar = Option::from(pasta_curves::pallas::Scalar::from_repr(ask)).unwrap();
    let expected = (pasta_curves::pallas::Point::generator() * scalar).to_bytes();
    assert_eq!(c.ak_bytes, expected.to_vec());
    assert_ne!(c.ak_bytes, shards.ask_share);
}

#[test]
fn summed_points_match_the_group_sum() {
    let group_key = [0x99u8; 32];
    let (s1, c1) = local_fvk_contribution(&[1u8; 32], &group_key, 1).unwrap();
    let (_, c2) = local_fvk_contribution(&[2u8; 32], &group_key, 2).unwrap();
    let expected_ak = (pallas_point(&c1.ak_bytes) + pallas_point(&c2.ak_bytes)).to_bytes();
    let expected_nk = (pallas_point(&c1.nk_bytes) + pallas_point(&c2.nk_bytes)).to_bytes();
    let result = complete_ceremony(1, &[], &group_key, s1, &vec![c1, c2], "mainnet").unwrap();
    assert_eq!(result.aggregated_ak, expected_ak.to_vec());
    assert_eq!(result.aggregated_nk, expected_nk.to_vec());
    assert!(result.bridge_ua.starts_with("u1"));
}

#[test]
fn aggregation_with_undecodable_point_is_refused() {
    // 0xff.. is not the encoding of a Pallas point.
    let c = FvkContribution { node_id: 1, ak_bytes: vec![0xffu8; 32], nk_bytes: vec![0xffu8; 32] };
    let err = aggregate_fvk_contributions(&vec![c], &[1u8; 32]).err().unwrap();
    assert_eq!(err, BridgeError::InvalidPoint);
}

#[test]
fn aggregation_is_independent_of_contribution_order() {
    let group_key = [0x5au8; 32];
    let mut contributions = Vec::new();
    let mut rivk: Vec<u8> = Vec::new();
    for node in [1u16, 2, 3] {
        let (shards, contribution) = local_fvk_contribution(&[node as u8 + 10; 32], &group_key, node).unwrap();
        rivk = shards.rivk;
        contributions.push(contribution);
    }
    let in_order = aggregate_fvk_contributions(&contributions, &rivk).unwrap();
    let reordered = vec![contributions[2].clone(), contributions[0].clone(), contributions[1].clone()];
    let shuffled = aggregate_fvk_contributions(&reordered, &rivk).unwrap();
    assert_eq!(in_order.to_bytes().to_vec(), shuffled.to_bytes().to_vec());
}
