use bridge_custody::bytes::{copy_prefix32, u16_to_le, u32_to_le, u64_from_le_at, u64_to_le};
use bridge_custody::decimal::parse_u64;
use bridge_custody::dkg_coordinator::{all_nodes, consensus_network_from_name, identifier_node_id, peers_except};
use bridge_custody::error::{AttestationField, BridgeError};
use bridge_custody::hexcodec::decode_hex_text;
use bridge_custody::types::{
    default_bridge_api_url, default_enclave_url, default_keypair_path, default_min_zcash_confirmations,
    default_poll_interval, default_withdrawal_poll_interval, EnclaveAttestation,
};
use bridge_custody::ua_builder::{parse_network_name, AddressNetwork, ConsensusNetwork};

fn attestation() -> EnclaveAttestation {
    EnclaveAttestation {
        note_commitment: "11".repeat(32),
        amount: 0x0102,
        recipient_solana: "22".repeat(32),
        block_height: 7,
        enclave_signature: "33".repeat(64),
        enclave_pubkey: "44".repeat(32),
    }
}

#[test]
fn little_endian_encodings() {
    assert_eq!(u64_to_le(0x0102030405060708), 0x0102030405060708u64.to_le_bytes());
    assert_eq!(u32_to_le(0xdeadbeef), 0xdeadbeefu32.to_le_bytes());
    assert_eq!(u16_to_le(0x1234), [0x34, 0x12]);
    let data = [0u8, 1, 2, 3, 4, 5, 6, 7, 8, 9];
    assert_eq!(u64_from_le_at(&data, 1), u64::from_le_bytes([1, 2, 3, 4, 5, 6, 7, 8]));
}

#[test]
fn prefix_copy_pads_and_truncates() {
    let mut expected = [0u8; 32];
    expected[0] = 9;
    expected[1] = 8;
    assert_eq!(copy_prefix32(&[9, 8]), expected);
    assert_eq!(copy_prefix32(&[1u8; 40]), [1u8; 32]);
}

#[test]
fn decimal_parsing() {
    assert_eq!(parse_u64("0"), Some(0));
    assert_eq!(parse_u64("18446744073709551615"), Some(u64::MAX));
    assert_eq!(parse_u64("18446744073709551616"), None);
    assert_eq!(parse_u64(""), None);
    assert_eq!(parse_u64("-1"), None);
    assert_eq!(parse_u64("12a"), None);
    assert_eq!(parse_u64("+5"), Some(5));
}

#[test]
fn hex_decoding() {
    assert_eq!(decode_hex_text(&"00ff".to_string()), Some(vec![0, 255]));
    assert_eq!(decode_hex_text(&"ABcd".to_string()), Some(vec![0xab, 0xcd]));
    assert_eq!(decode_hex_text(&"abc".to_string()), None);
    assert_eq!(decode_hex_text(&"gg".to_string()), None);
}

#[test]
fn attestation_serializes_to_176_bytes() {
    let bytes = attestation().to_attestation_bytes().unwrap();
    assert_eq!(bytes.len(), 176);
    assert_eq!(&bytes[0..32], &[0x11u8; 32]);
    assert_eq!(&bytes[32..40], &0x0102u64.to_le_bytes());
    assert_eq!(&bytes[40..72], &[0x22u8; 32]);
    assert_eq!(&bytes[72..80], &7u64.to_le_bytes());
    assert_eq!(&bytes[80..144], &[0x33u8; 64]);
    assert_eq!(&bytes[144..176], &[0x44u8; 32]);
}

#[test]
fn attestation_field_errors() {
    let mut a = attestation();
    a.recipient_solana = "zz".to_string();
    assert_eq!(a.to_attestation_bytes().unwrap_err(), BridgeError::InvalidHex(AttestationField::RecipientSolana));
    let mut b = attestation();
    b.enclave_signature = "33".repeat(63);
    assert_eq!(
        b.to_attestation_bytes().unwrap_err(),
        BridgeError::WrongFieldLength { field: AttestationField::EnclaveSignature, expected: 64, actual: 63 }
    );
    let mut c = attestation();
    c.note_commitment = "1".to_string();
    c.enclave_pubkey = "x".to_string();
    assert_eq!(c.to_attestation_bytes().unwrap_err(), BridgeError::InvalidHex(AttestationField::NoteCommitment));
    assert_eq!(attestation().recipient_solana_bytes().unwrap(), [0x22u8; 32]);
    assert_eq!(attestation().enclave_pubkey_bytes().unwrap(), [0x44u8; 32]);
    assert_eq!(attestation().note_commitment_bytes().unwrap(), [0x11u8; 32]);
    assert_eq!(attestation().enclave_signature_bytes().unwrap(), [0x33u8; 64]);
}

#[test]
fn configuration_defaults() {
    assert_eq!(default_keypair_path(), "/data/solana-keypair.json");
    assert_eq!(default_enclave_url(), "http://localhost:8081");
    assert_eq!(default_poll_interval(), 10);
    assert_eq!(default_bridge_api_url(), "http://localhost:3001");
    assert_eq!(default_withdrawal_poll_interval(), 15);
    assert_eq!(default_min_zcash_confirmations(), 2);
}

#[test]
fn node_lists() {
    assert_eq!(all_nodes(3), vec![1, 2, 3]);
    assert_eq!(all_nodes(0), Vec::<u16>::new());
    assert_eq!(peers_except(2, 3), vec![1, 3]);
    assert_eq!(peers_except(5, 3), vec![1, 2, 3]);
}

#[test]
fn identifier_bytes_to_node_id() {
    assert_eq!(identifier_node_id(&[3, 0, 0, 0]), 3);
    assert_eq!(identifier_node_id(&[0x34, 0x12]), 0x1234);
}

#[test]
fn network_names() {
    assert_eq!(parse_network_name("mainnet").unwrap(), AddressNetwork::Main);
    assert_eq!(parse_network_name("testnet").unwrap(), AddressNetwork::Test);
    assert_eq!(parse_network_name("Testnet").unwrap_err(), BridgeError::InvalidNetwork("Testnet".to_string()));
    assert_eq!(consensus_network_from_name("testnet").unwrap(), ConsensusNetwork::TestNetwork);
    assert_eq!(consensus_network_from_name("mainnet").unwrap(), ConsensusNetwork::MainNetwork);
    assert!(consensus_network_from_name("x").is_err());
}

#[test]
fn error_messages_carry_the_node_texts() {
    assert_eq!(BridgeError::WrongKeyLength(16).message(), "FROST key must be 32 bytes, got 16");
    assert_eq!(BridgeError::NoContributions.message(), "Need at least one contribution");
    assert_eq!(BridgeError::InvalidNetwork("x".to_string()).message(), "Invalid network: x");
    assert_eq!(BridgeError::UnknownPeer(9).message(), "Unknown peer: 9");
    assert_eq!(
        BridgeError::WrongFieldLength { field: AttestationField::NoteCommitment, expected: 32, actual: 3 }.message(),
        "note_commitment must be 32 bytes"
    );
    assert_eq!(
        BridgeError::AccountDataTooShort { needed: 130, actual: 8 }.message(),
        "BurnIntent account data too short"
    );
    assert_eq!(
        BridgeError::TxBuildingUnavailable { amount: 5, recipient: "u1x".to_string() }.message(),
        "Transaction building not yet available. Need Orchard bundle creation with FROST signing. Target: 5 zatoshis to u1x"
    );
}
