//! Builder of Orchard withdrawal transactions for the bridge key.

use vstd::prelude::*;
use crate::error::BridgeError;
use crate::text::{has_prefix, owned};
use crate::ua_builder::{
    fvk_of_group_key, group_key_error, network_from_name, ua_of_fvk, ua_prefix, ufvk_prefix, unified_fvk_encoding,
    BridgeAddressGenerator,
};

verus! {

/// Builds Orchard transactions for bridge withdrawals from the bridge's FROST group key.
pub struct OrchardTxBuilder {
    frost_group_key: Vec<u8>,
}

impl OrchardTxBuilder {
    /// The FROST group key the builder holds.
    pub closed spec fn group_key(&self) -> Seq<u8> {
        self.frost_group_key@
    }

    /// A builder holding a copy of the group key; never fails.
    pub fn new(frost_group_key: &[u8]) -> (res: Result<Self, BridgeError>)
        ensures
            res matches Ok(b) && b.group_key() == frost_group_key@,
    {
        let mut key: Vec<u8> = Vec::new();
        crate::bytes::append_bytes(&mut key, frost_group_key);
        Ok(OrchardTxBuilder { frost_group_key: key })
    }

    /// Orchard transaction building is not available: every request is refused with
    /// an error that carries the amount (zatoshis) and the recipient.
    pub fn build_withdrawal(&self, recipient: &str, amount: u64) -> (res: Result<Vec<u8>, BridgeError>)
        ensures
            res matches Err(BridgeError::TxBuildingUnavailable { amount: a, recipient: r }) && a == amount
                && r@ == recipient@,
    {
        Err(BridgeError::TxBuildingUnavailable { amount, recipient: owned(recipient) })
    }

    /// The bridge's unified address (for deposits) on "mainnet" or "testnet".
    pub fn get_bridge_address(&self, network: &str) -> (res: Result<String, BridgeError>)
        ensures
            network_from_name(network@) is None ==> (res matches Err(BridgeError::InvalidNetwork(s)) && s@ == network@),
            (network_from_name(network@) is Some && group_key_error(self.group_key()) is Some) ==> res
                == Err::<String, BridgeError>(group_key_error(self.group_key()).unwrap()),
            (network_from_name(network@) is Some && fvk_of_group_key(self.group_key()) is Some) ==> match ua_of_fvk(
                fvk_of_group_key(self.group_key()).unwrap(),
                network_from_name(network@).unwrap(),
            ) {
                Some(s) => res matches Ok(r) && r@ == s,
                None => res == Err::<String, BridgeError>(BridgeError::UnifiedEncodingFailed),
            },
            res matches Ok(r) ==> network_from_name(network@) is Some && has_prefix(r@, ua_prefix(network_from_name(network@).unwrap())),
    {
        BridgeAddressGenerator::generate_bridge_ua(self.frost_group_key.as_slice(), network)
    }

    /// The bridge's unified full viewing key (for the enclave scanner).
    pub fn get_bridge_ufvk(&self, network: &str) -> (res: Result<String, BridgeError>)
        ensures
            group_key_error(self.group_key()) is Some ==> res == Err::<String, BridgeError>(group_key_error(self.group_key()).unwrap()),
            (group_key_error(self.group_key()) is None && network_from_name(network@) is None) ==> (res matches Err(BridgeError::InvalidNetwork(s)) && s@ == network@),
            (fvk_of_group_key(self.group_key()) is Some && network_from_name(network@) is Some) ==> match unified_fvk_encoding(
                fvk_of_group_key(self.group_key()).unwrap(),
                network_from_name(network@).unwrap(),
            ) {
                Some(s) => res matches Ok(r) && r@ == s,
                None => res == Err::<String, BridgeError>(BridgeError::UnifiedEncodingFailed),
            },
            res matches Ok(r) ==> network_from_name(network@) is Some && has_prefix(r@, ufvk_prefix(network_from_name(network@).unwrap())),
    {
        BridgeAddressGenerator::derive_ufvk_encoded(self.frost_group_key.as_slice(), network)
    }
}

} // verus!
