//! The node's HTTP API: request and response bodies, and what the handlers compute
//! from their inputs.

use vstd::prelude::*;
use crate::bytes::to_array32;
use crate::hexcodec::{decode_hex, hex_text};
use crate::text::{has_prefix, owned, text_starts_with};
use crate::types::DkgResult;
use crate::ua_builder::{ua_prefix, AddressNetwork};

verus! {

broadcast use vstd::string::group_string_axioms;

/// A withdrawal requested by a user.
#[derive(Debug, Clone)]
pub struct WithdrawalRequest {
    /// Recipient Zcash address.
    pub to_address: String,
    /// Amount in zatoshis.
    pub amount: u64,
}

/// The answer to a withdrawal request.
#[derive(Debug, Clone)]
pub struct WithdrawalResponse {
    pub txid: String,
    pub status: String,
}

/// The bridge's deposit address, viewing key and network.
#[derive(Debug, Clone)]
pub struct BridgeAddressResponse {
    pub unified_address: String,
    pub ufvk: String,
    pub network: String,
}

/// A request for a per-user deposit address.
#[derive(Debug, Clone)]
pub struct DeriveAddressRequest {
    /// Solana public key as 64 hex digits.
    pub solana_pubkey: String,
    /// Derivation nonce, unique per user.
    pub nonce: u64,
}

/// A per-user deposit address.
#[derive(Debug, Clone)]
pub struct DeriveAddressResponse {
    pub child_address: String,
    pub child_ufvk: String,
    pub solana_pubkey: String,
    pub nonce: u64,
    pub network: String,
}

/// The message of a Solana public key that is not 64 hex digits.
pub open spec fn invalid_pubkey_message() -> Seq<char> {
    "Invalid Solana pubkey format (use 64-char hex)"@
}

/// A Solana public key given as hex: the 32 bytes it decodes to, or an error message
/// when it is not hex or not 32 bytes.
pub fn parse_solana_pubkey(s: &str) -> (res: Result<[u8; 32], String>)
    ensures
        match hex_text(s@) {
            Some(b) if b.len() == 32 => res matches Ok(k) && k@ == b,
            _ => res matches Err(m) && m@ == invalid_pubkey_message(),
        },
{
    if let Some(bytes) = decode_hex(s) {
        if bytes.len() == 32 {
            return Ok(to_array32(bytes.as_slice()));
        }
    }
    Err(owned("Invalid Solana pubkey format (use 64-char hex)"))
}

/// The network an address is labelled with: "testnet" for a text that begins with
/// "utest", "mainnet" for any other.
pub open spec fn network_label(address: Seq<char>) -> Seq<char> {
    if has_prefix(address, "utest"@) {
        "testnet"@
    } else {
        "mainnet"@
    }
}

/// The label of the network of a bridge address.
pub fn bridge_network_label(bridge_ua: &str) -> (res: String)
    ensures
        res@ == network_label(bridge_ua@),
{
    if text_starts_with(bridge_ua, "utest") {
        owned("testnet")
    } else {
        owned("mainnet")
    }
}

/// The bridge address answer for the node's DKG result.
pub fn bridge_address_response(dkg: DkgResult) -> (res: BridgeAddressResponse)
    ensures
        res.unified_address == dkg.bridge_ua,
        res.ufvk == dkg.full_viewing_key,
        res.network@ == network_label(dkg.bridge_ua@),
{
    let network = bridge_network_label(dkg.bridge_ua.as_str());
    BridgeAddressResponse { unified_address: dkg.bridge_ua, ufvk: dkg.full_viewing_key, network }
}

/// A unified address encoded for the test network is labelled "testnet", and one
/// encoded for the main network "mainnet".
pub proof fn lemma_network_label_of_encoding(address: Seq<char>, net: AddressNetwork)
    requires
        has_prefix(address, ua_prefix(net)),
        net == AddressNetwork::Test || net == AddressNetwork::Main,
    ensures
        network_label(address) == (if net == AddressNetwork::Test {
            "testnet"@
        } else {
            "mainnet"@
        }),
{
    reveal_strlit("utest");
    if net == AddressNetwork::Test {
        assert(address.subrange(0, 5) =~= "utest"@) by {
            assert(address.subrange(0, 6) =~= ua_prefix(net));
            assert forall|i: int| 0 <= i < 5 implies address.subrange(0, 5)[i] == "utest"@[i] by {
                assert(address.subrange(0, 5)[i] == address.subrange(0, 6)[i]);
            }
        }
    } else {
        assert(address.subrange(0, 2) =~= ua_prefix(net));
        assert(address[1] == '1');
        if has_prefix(address, "utest"@) {
            assert(address.subrange(0, 5)[1] == 't');
            assert(address[1] == 't');
        }
    }
}

} // verus!
