//! Orchard keys and ZIP 316 unified addresses / full viewing keys of the bridge.

use vstd::prelude::*;
use crate::error::BridgeError;
use crate::text::{has_prefix, owned, text_eq};
use zcash_address::unified::{Address, Container, Encoding, Fvk, Receiver, Revision, Ufvk, Uitem};
use zcash_protocol::consensus::NetworkType;

verus! {

broadcast use vstd::string::group_string_axioms;

/// A Zcash network as unified encodings name it.
#[derive(Debug, Clone, Copy, PartialEq, Eq, Structural)]
pub enum AddressNetwork {
    Main,
    Test,
    Regtest,
}

/// A Zcash consensus network (main or test).
#[derive(Debug, Clone, Copy, PartialEq, Eq, Structural)]
pub enum ConsensusNetwork {
    MainNetwork,
    TestNetwork,
}

/// A component of a unified full viewing key, as the library reads it.
pub enum UfvkItem {
    Orchard([u8; 96]),
    Other,
}

/// The value of a unified full viewing key component.
pub enum UfvkItemView {
    Orchard(Seq<u8>),
    Other,
}

impl UfvkItem {
    pub open spec fn view(&self) -> UfvkItemView {
        match self {
            UfvkItem::Orchard(b) => UfvkItemView::Orchard(b@),
            UfvkItem::Other => UfvkItemView::Other,
        }
    }
}

/// The component values of a list of unified full viewing key components.
pub open spec fn ufvk_items_view(items: Seq<UfvkItem>) -> Seq<UfvkItemView> {
    items.map_values(|it: UfvkItem| it.view())
}

/// Whether 32 bytes are a valid Orchard spending key (`SpendingKey::from_bytes` is some).
pub uninterp spec fn orchard_spending_key_valid(sk: Seq<u8>) -> bool;

/// The 96-byte raw full viewing key of a spending key.
pub uninterp spec fn orchard_fvk_of_spending_key(sk: Seq<u8>) -> Seq<u8>;

/// Whether 96 bytes are a valid raw Orchard full viewing key.
pub uninterp spec fn orchard_fvk_decodes(fvk: Seq<u8>) -> bool;

/// The 43-byte raw Orchard address at diversifier index 0, external scope.
pub uninterp spec fn orchard_default_address(fvk: Seq<u8>) -> Seq<u8>;

/// The unified address holding one Orchard receiver, encoded for a network.
pub uninterp spec fn unified_address_encoding(receiver: Seq<u8>, net: AddressNetwork) -> Option<Seq<char>>;

/// The unified full viewing key holding one Orchard key, encoded for a network.
pub uninterp spec fn unified_fvk_encoding(fvk: Seq<u8>, net: AddressNetwork) -> Option<Seq<char>>;

/// The network and the data components (in preference order) of an encoded unified
/// full viewing key.
pub uninterp spec fn unified_fvk_decoding(text: Seq<char>) -> Option<(AddressNetwork, Seq<UfvkItemView>)>;

/// The human-readable part of a revision-0 unified address, then the separator `1`.
pub open spec fn ua_prefix(net: AddressNetwork) -> Seq<char> {
    match net {
        AddressNetwork::Main => seq!['u', '1'],
        AddressNetwork::Test => seq!['u', 't', 'e', 's', 't', '1'],
        AddressNetwork::Regtest => seq!['u', 'r', 'e', 'g', 't', 'e', 's', 't', '1'],
    }
}

/// The human-readable part of a revision-0 unified full viewing key, then `1`.
pub open spec fn ufvk_prefix(net: AddressNetwork) -> Seq<char> {
    match net {
        AddressNetwork::Main => seq!['u', 'v', 'i', 'e', 'w', '1'],
        AddressNetwork::Test => seq!['u', 'v', 'i', 'e', 'w', 't', 'e', 's', 't', '1'],
        AddressNetwork::Regtest => seq![
            'u', 'v', 'i', 'e', 'w', 'r', 'e', 'g', 't', 'e', 's', 't', '1',
        ],
    }
}

/// `SpendingKey::from_bytes(sk).is_some()`.
#[verifier::external_body]
fn spending_key_valid(sk: [u8; 32]) -> (res: bool)
    ensures
        res == orchard_spending_key_valid(sk@),
{
    bool::from(orchard::keys::SpendingKey::from_bytes(sk).is_some())
}

/// `FullViewingKey::from(&sk).to_bytes()` for a valid spending key; the raw key of a
/// valid spending key parses back with `FullViewingKey::from_bytes`.
#[verifier::external_body]
fn fvk_of_spending_key(sk: [u8; 32]) -> (res: [u8; 96])
    requires
        orchard_spending_key_valid(sk@),
    ensures
        res@ == orchard_fvk_of_spending_key(sk@),
        orchard_fvk_decodes(res@),
{
    let sk = orchard::keys::SpendingKey::from_bytes(sk).unwrap();
    orchard::keys::FullViewingKey::from(&sk).to_bytes()
}

/// `FullViewingKey::from_bytes(fvk).is_some()`.
#[verifier::external_body]
fn fvk_decodes(fvk: &[u8; 96]) -> (res: bool)
    ensures
        res == orchard_fvk_decodes(fvk@),
{
    orchard::keys::FullViewingKey::from_bytes(fvk).is_some()
}

/// `fvk.address_at(0u32, Scope::External).to_raw_address_bytes()`.
#[verifier::external_body]
fn default_address(fvk: &[u8; 96]) -> (res: [u8; 43])
    requires
        orchard_fvk_decodes(fvk@),
    ensures
        res@ == orchard_default_address(fvk@),
{
    let fvk = orchard::keys::FullViewingKey::from_bytes(fvk).unwrap();
    fvk.address_at(0u32, orchard::keys::Scope::External).to_raw_address_bytes()
}

/// `Address::try_from_items` on one Orchard receiver (revision 0), then `encode`; an
/// encoding starts with the network's human-readable part and the separator.
#[verifier::external_body]
fn encode_unified_address(receiver: [u8; 43], net: AddressNetwork) -> (res: Option<String>)
    ensures
        res matches Some(s) ==> unified_address_encoding(receiver@, net) == Some(s@),
        res is None ==> unified_address_encoding(receiver@, net) is None,
        res matches Some(s) ==> has_prefix(s@, ua_prefix(net)),
{
    let net = match net {
        AddressNetwork::Main => NetworkType::Main,
        AddressNetwork::Test => NetworkType::Test,
        AddressNetwork::Regtest => NetworkType::Regtest,
    };
    Address::try_from_items(Revision::R0, vec![Uitem::Data(Receiver::Orchard(receiver))])
        .ok()
        .map(|ua| ua.encode(&net))
}

/// `Ufvk::try_from_items` on one Orchard key (revision 0), then `encode`; an encoding
/// starts with the network's human-readable part and the separator.
#[verifier::external_body]
fn encode_unified_fvk(fvk: [u8; 96], net: AddressNetwork) -> (res: Option<String>)
    ensures
        res matches Some(s) ==> unified_fvk_encoding(fvk@, net) == Some(s@),
        res is None ==> unified_fvk_encoding(fvk@, net) is None,
        res matches Some(s) ==> has_prefix(s@, ufvk_prefix(net)),
{
    let net = match net {
        AddressNetwork::Main => NetworkType::Main,
        AddressNetwork::Test => NetworkType::Test,
        AddressNetwork::Regtest => NetworkType::Regtest,
    };
    Ufvk::try_from_items(Revision::R0, vec![Uitem::Data(Fvk::Orchard(fvk))])
        .ok()
        .map(|ufvk| ufvk.encode(&net))
}

/// `Ufvk::decode`, then `items()` with each Orchard key kept and the other kinds of
/// component marked. Decoding a text that `encode_unified_fvk` produced gives back its
/// network and its one Orchard key.
#[verifier::external_body]
fn decode_unified_fvk(text: &str) -> (res: Option<(AddressNetwork, Vec<UfvkItem>)>)
    ensures
        res matches Some(r) ==> unified_fvk_decoding(text@) == Some((r.0, ufvk_items_view(r.1@))),
        res is None ==> unified_fvk_decoding(text@) is None,
        res is None ==> forall|key_net: (Seq<u8>, AddressNetwork)|
            #[trigger] unified_fvk_encoding(key_net.0, key_net.1) != Some(text@),
        res matches Some(r) ==> forall|key_net: (Seq<u8>, AddressNetwork)|
            #[trigger] unified_fvk_encoding(key_net.0, key_net.1) == Some(text@) ==> r.0 == key_net.1
                && ufvk_items_view(r.1@) == seq![UfvkItemView::Orchard(key_net.0)],
{
    Ufvk::decode(text).ok().map(|(net, _revision, ufvk)| {
        let net = match net {
            NetworkType::Main => AddressNetwork::Main,
            NetworkType::Test => AddressNetwork::Test,
            NetworkType::Regtest => AddressNetwork::Regtest,
        };
        let items = ufvk.items().into_iter().map(|item| match item {
            Fvk::Orchard(bytes) => UfvkItem::Orchard(bytes),
            _ => UfvkItem::Other,
        }).collect();
        (net, items)
    })
}

/// The unified-encoding network of a network name ("mainnet" or "testnet").
pub open spec fn network_from_name(name: Seq<char>) -> Option<AddressNetwork> {
    if name == "mainnet"@ {
        Some(AddressNetwork::Main)
    } else if name == "testnet"@ {
        Some(AddressNetwork::Test)
    } else {
        None
    }
}

/// The unified-encoding network of a consensus network.
pub open spec fn consensus_address_network(n: ConsensusNetwork) -> AddressNetwork {
    match n {
        ConsensusNetwork::MainNetwork => AddressNetwork::Main,
        ConsensusNetwork::TestNetwork => AddressNetwork::Test,
    }
}

/// Maps "mainnet" and "testnet" to their network; any other name is an error that
/// carries the name.
pub fn parse_network_name(name: &str) -> (res: Result<AddressNetwork, BridgeError>)
    ensures
        network_from_name(name@) matches Some(n) ==> res == Ok::<AddressNetwork, BridgeError>(n),
        network_from_name(name@) is None ==> (res matches Err(BridgeError::InvalidNetwork(s)) && s@ == name@),
{
    if text_eq(name, "mainnet") {
        Ok(AddressNetwork::Main)
    } else if text_eq(name, "testnet") {
        Ok(AddressNetwork::Test)
    } else {
        Err(BridgeError::InvalidNetwork(owned(name)))
    }
}

/// The unified-encoding network of a consensus network.
pub fn address_network(n: ConsensusNetwork) -> (res: AddressNetwork)
    ensures
        res == consensus_address_network(n),
{
    match n {
        ConsensusNetwork::MainNetwork => AddressNetwork::Main,
        ConsensusNetwork::TestNetwork => AddressNetwork::Test,
    }
}

/// A valid Orchard spending key.
pub struct OrchardSpendingKey {
    bytes: [u8; 32],
}

impl OrchardSpendingKey {
    #[verifier::type_invariant]
    spec fn valid(self) -> bool {
        orchard_spending_key_valid(self.bytes@)
    }

    pub closed spec fn view(self) -> Seq<u8> {
        self.bytes@
    }

    /// The raw key bytes.
    pub fn to_bytes(&self) -> (res: [u8; 32])
        ensures
            res@ == self.view(),
            orchard_spending_key_valid(res@),
    {
        proof {
            use_type_invariant(self);
        }
        self.bytes
    }
}

/// A valid raw Orchard full viewing key (ak, nk, rivk; 32 bytes each).
pub struct OrchardFvk {
    bytes: [u8; 96],
}

impl OrchardFvk {
    #[verifier::type_invariant]
    spec fn valid(self) -> bool {
        orchard_fvk_decodes(self.bytes@)
    }

    pub closed spec fn view(self) -> Seq<u8> {
        self.bytes@
    }

    /// Parses raw bytes; `Some` exactly when they are a valid full viewing key.
    pub fn from_bytes(bytes: [u8; 96]) -> (res: Option<OrchardFvk>)
        ensures
            res is Some <==> orchard_fvk_decodes(bytes@),
            res matches Some(f) ==> (f.view() == bytes@),
    {
        if fvk_decodes(&bytes) {
            Some(OrchardFvk { bytes })
        } else {
            None
        }
    }

    /// The raw 96-byte encoding.
    pub fn to_bytes(&self) -> (res: [u8; 96])
        ensures
            res@ == self.view(),
            orchard_fvk_decodes(res@),
    {
        proof {
            use_type_invariant(self);
        }
        self.bytes
    }

    /// The full viewing key of a spending key.
    pub fn from_spending_key(sk: &OrchardSpendingKey) -> (res: OrchardFvk)
        ensures
            res.view() == orchard_fvk_of_spending_key(sk.view()),
    {
        let b = sk.to_bytes();
        OrchardFvk { bytes: fvk_of_spending_key(b) }
    }
}

/// The bridge's unified address for a raw full viewing key and network.
pub open spec fn ua_of_fvk(fvk: Seq<u8>, net: AddressNetwork) -> Option<Seq<char>> {
    unified_address_encoding(orchard_default_address(fvk), net)
}

/// The full viewing key a FROST group key stands for, when the key is a valid
/// 32-byte Orchard spending key.
pub open spec fn fvk_of_group_key(key: Seq<u8>) -> Option<Seq<u8>> {
    if key.len() == 32 && orchard_spending_key_valid(key) {
        Some(orchard_fvk_of_spending_key(key))
    } else {
        None
    }
}

/// The error of reading a FROST group key as an Orchard spending key, if any.
pub open spec fn group_key_error(key: Seq<u8>) -> Option<BridgeError> {
    if key.len() != 32 {
        Some(BridgeError::WrongKeyLength(key.len() as usize))
    } else if !orchard_spending_key_valid(key) {
        Some(BridgeError::InvalidSpendingKey)
    } else {
        None
    }
}

/// Builds addresses and viewing keys of the bridge from its key material.
pub struct BridgeAddressGenerator;

impl BridgeAddressGenerator {
    /// The unified address (one Orchard receiver at diversifier index 0) of the
    /// spending key that the FROST group key stands for, encoded for "mainnet" or
    /// "testnet". The network name is checked first, then the key.
    pub fn generate_bridge_ua(frost_group_key: &[u8], network: &str) -> (res: Result<String, BridgeError>)
        ensures
            network_from_name(network@) is None ==> (res matches Err(BridgeError::InvalidNetwork(s)) && s@ == network@),
            (network_from_name(network@) is Some && group_key_error(frost_group_key@) is Some) ==> res
                == Err::<String, BridgeError>(group_key_error(frost_group_key@).unwrap()),
            (network_from_name(network@) is Some && fvk_of_group_key(frost_group_key@) is Some) ==> match ua_of_fvk(
                fvk_of_group_key(frost_group_key@).unwrap(),
                network_from_name(network@).unwrap(),
            ) {
                Some(s) => res matches Ok(r) && r@ == s,
                None => res == Err::<String, BridgeError>(BridgeError::UnifiedEncodingFailed),
            },
            res matches Ok(r) ==> network_from_name(network@) is Some && has_prefix(r@, ua_prefix(network_from_name(network@).unwrap())),
    {
        let net = parse_network_name(network)?;
        let sk = Self::frost_key_to_orchard_sk(frost_group_key)?;
        let fvk = OrchardFvk::from_spending_key(&sk);
        Self::address_for(&fvk, net)
    }

    /// The unified address of a full viewing key on a network.
    fn address_for(fvk: &OrchardFvk, net: AddressNetwork) -> (res: Result<String, BridgeError>)
        ensures
            match ua_of_fvk(fvk.view(), net) {
                Some(s) => res matches Ok(r) && r@ == s,
                None => res == Err::<String, BridgeError>(BridgeError::UnifiedEncodingFailed),
            },
            res matches Ok(r) ==> has_prefix(r@, ua_prefix(net)),
    {
        let bytes = fvk.to_bytes();
        let receiver = default_address(&bytes);
        match encode_unified_address(receiver, net) {
            Some(s) => Ok(s),
            None => Err(BridgeError::UnifiedEncodingFailed),
        }
    }

    /// Reads a FROST group key as an Orchard spending key: it must be 32 bytes and a
    /// valid spending key.
    pub fn frost_key_to_orchard_sk(frost_key: &[u8]) -> (res: Result<OrchardSpendingKey, BridgeError>)
        ensures
            group_key_error(frost_key@) is Some ==> res == Err::<OrchardSpendingKey, BridgeError>(group_key_error(frost_key@).unwrap()),
            group_key_error(frost_key@) is None ==> (res matches Ok(sk) && sk.view() == frost_key@),
    {
        if frost_key.len() != 32 {
            return Err(BridgeError::WrongKeyLength(frost_key.len()));
        }
        let key_bytes = crate::bytes::to_array32(frost_key);
        if !spending_key_valid(key_bytes) {
            return Err(BridgeError::InvalidSpendingKey);
        }
        Ok(OrchardSpendingKey { bytes: key_bytes })
    }

    /// The unified full viewing key (one Orchard key) of the spending key that the FROST
    /// group key stands for, encoded for "mainnet" or "testnet". The key is checked
    /// first, then the network name.
    pub fn derive_ufvk_encoded(frost_group_key: &[u8], network: &str) -> (res: Result<String, BridgeError>)
        ensures
            group_key_error(frost_group_key@) is Some ==> res == Err::<String, BridgeError>(group_key_error(frost_group_key@).unwrap()),
            (group_key_error(frost_group_key@) is None && network_from_name(network@) is None) ==> (res matches Err(BridgeError::InvalidNetwork(s)) && s@ == network@),
            (fvk_of_group_key(frost_group_key@) is Some && network_from_name(network@) is Some) ==> match unified_fvk_encoding(
                fvk_of_group_key(frost_group_key@).unwrap(),
                network_from_name(network@).unwrap(),
            ) {
                Some(s) => res matches Ok(r) && r@ == s,
                None => res == Err::<String, BridgeError>(BridgeError::UnifiedEncodingFailed),
            },
            res matches Ok(r) ==> network_from_name(network@) is Some && has_prefix(r@, ufvk_prefix(network_from_name(network@).unwrap())),
    {
        let sk = Self::frost_key_to_orchard_sk(frost_group_key)?;
        let fvk = OrchardFvk::from_spending_key(&sk);
        let net = parse_network_name(network)?;
        Self::ufvk_for(&fvk, net)
    }

    /// The unified full viewing key of a full viewing key on a network.
    fn ufvk_for(fvk: &OrchardFvk, net: AddressNetwork) -> (res: Result<String, BridgeError>)
        ensures
            match unified_fvk_encoding(fvk.view(), net) {
                Some(s) => res matches Ok(r) && r@ == s,
                None => res == Err::<String, BridgeError>(BridgeError::UnifiedEncodingFailed),
            },
            res matches Ok(r) ==> has_prefix(r@, ufvk_prefix(net)),
    {
        let bytes = fvk.to_bytes();
        match encode_unified_fvk(bytes, net) {
            Some(s) => Ok(s),
            None => Err(BridgeError::UnifiedEncodingFailed),
        }
    }

    /// The raw Orchard full viewing key of the spending key that the group key stands for.
    pub fn derive_fvk(frost_group_key: &[u8]) -> (res: Result<OrchardFvk, BridgeError>)
        ensures
            group_key_error(frost_group_key@) is Some ==> res == Err::<OrchardFvk, BridgeError>(group_key_error(frost_group_key@).unwrap()),
            fvk_of_group_key(frost_group_key@) is Some ==> (res matches Ok(f) && f.view() == fvk_of_group_key(frost_group_key@).unwrap()),
    {
        let sk = Self::frost_key_to_orchard_sk(frost_group_key)?;
        Ok(OrchardFvk::from_spending_key(&sk))
    }

    /// The unified address of the first Orchard key inside an encoded unified full
    /// viewing key, which must be for the given network.
    pub fn generate_address_from_ufvk(ufvk_str: &str, network: ConsensusNetwork) -> (res: Result<String, BridgeError>)
        ensures
            match address_from_ufvk_outcome(ufvk_str@, consensus_address_network(network)) {
                Ok(s) => res matches Ok(r) && r@ == s,
                Err(e) => res == Err::<String, BridgeError>(e),
            },
            forall|fvk: Seq<u8>|
                #[trigger] unified_fvk_encoding(fvk, consensus_address_network(network)) == Some(ufvk_str@)
                    && orchard_fvk_decodes(fvk) ==> match ua_of_fvk(fvk, consensus_address_network(network)) {
                    Some(s) => res matches Ok(r) && r@ == s,
                    None => res == Err::<String, BridgeError>(BridgeError::UnifiedEncodingFailed),
                },
            res matches Ok(r) ==> has_prefix(r@, ua_prefix(consensus_address_network(network))),
            forall|fvk: Seq<u8>, n: AddressNetwork|
                #[trigger] unified_fvk_encoding(fvk, n) == Some(ufvk_str@) && n != consensus_address_network(network)
                    ==> res == Err::<String, BridgeError>(BridgeError::NetworkMismatch),
    {
        let net = address_network(network);
        let decoded = decode_unified_fvk(ufvk_str);
        proof {
            assert forall|fvk: Seq<u8>, n: AddressNetwork|
                #[trigger] unified_fvk_encoding(fvk, n) == Some(ufvk_str@) implies (decoded matches Some(r)
                    && r.0 == n) by {
                let kn = (fvk, n);
                assert(unified_fvk_encoding(kn.0, kn.1) == Some(ufvk_str@));
            }
            assert forall|fvk: Seq<u8>|
                #[trigger] unified_fvk_encoding(fvk, net) == Some(ufvk_str@) implies (decoded matches Some(r)
                    && r.0 == net && ufvk_items_view(r.1@) == seq![UfvkItemView::Orchard(fvk)]) by {
                let kn = (fvk, net);
                assert(unified_fvk_encoding(kn.0, kn.1) == Some(ufvk_str@));
            }
        }
        let (decoded_net, items) = match decoded {
            Some(d) => d,
            None => return Err(BridgeError::UfvkDecodeFailed),
        };
        proof {
            assert forall|fvk: Seq<u8>|
                #[trigger] unified_fvk_encoding(fvk, net) == Some(ufvk_str@) implies
                    first_orchard(ufvk_items_view(items@)) == Some(fvk) && decoded_net == net by {
                let one = seq![UfvkItemView::Orchard(fvk)];
                assert(one.drop_first() =~= Seq::<UfvkItemView>::empty());
                assert(first_orchard(one) == Some(fvk));
            }
        }
        if decoded_net != net {
            return Err(BridgeError::NetworkMismatch);
        }
        let fvk_bytes = match first_orchard_key(&items) {
            Some(b) => b,
            None => return Err(BridgeError::NoOrchardFvk),
        };
        let fvk = match OrchardFvk::from_bytes(fvk_bytes) {
            Some(f) => f,
            None => return Err(BridgeError::InvalidFvk),
        };
        Self::address_for(&fvk, net)
    }

    /// The unified address (diversifier index 0) of a full viewing key.
    pub fn generate_address_from_fvk(fvk: &OrchardFvk, network: ConsensusNetwork) -> (res: Result<String, BridgeError>)
        ensures
            match ua_of_fvk(fvk.view(), consensus_address_network(network)) {
                Some(s) => res matches Ok(r) && r@ == s,
                None => res == Err::<String, BridgeError>(BridgeError::UnifiedEncodingFailed),
            },
            res matches Ok(r) ==> has_prefix(r@, ua_prefix(consensus_address_network(network))),
    {
        let net = address_network(network);
        Self::address_for(fvk, net)
    }

    /// A full viewing key encoded as a unified full viewing key.
    pub fn encode_ufvk(fvk: &OrchardFvk, network: ConsensusNetwork) -> (res: Result<String, BridgeError>)
        ensures
            match unified_fvk_encoding(fvk.view(), consensus_address_network(network)) {
                Some(s) => res matches Ok(r) && r@ == s,
                None => res == Err::<String, BridgeError>(BridgeError::UnifiedEncodingFailed),
            },
            res matches Ok(r) ==> has_prefix(r@, ufvk_prefix(consensus_address_network(network))),
    {
        let net = address_network(network);
        Self::ufvk_for(fvk, net)
    }
}

/// The first Orchard key among unified full viewing key components.
pub open spec fn first_orchard(items: Seq<UfvkItemView>) -> Option<Seq<u8>>
    decreases items.len(),
{
    if items.len() == 0 {
        None
    } else {
        match items[0] {
            UfvkItemView::Orchard(b) => Some(b),
            UfvkItemView::Other => first_orchard(items.drop_first()),
        }
    }
}

/// The first Orchard key among the components, scanning in order.
fn first_orchard_key(items: &Vec<UfvkItem>) -> (res: Option<[u8; 96]>)
    ensures
        match first_orchard(ufvk_items_view(items@)) {
            Some(b) => res matches Some(r) && r@ == b,
            None => res is None,
        },
{
    let ghost views = ufvk_items_view(items@);
    proof {
        assert(views.subrange(0, views.len() as int) =~= views);
    }
    let mut i: usize = 0;
    while i < items.len()
        invariant
            0 <= i <= items@.len(),
            views == ufvk_items_view(items@),
            first_orchard(views) == first_orchard(views.subrange(i as int, views.len() as int)),
        decreases items@.len() - i,
    {
        proof {
            let rest = views.subrange(i as int, views.len() as int);
            assert(rest[0] == items@[i as int].view());
            assert(rest.drop_first() =~= views.subrange(i + 1, views.len() as int));
        }
        match &items[i] {
            UfvkItem::Orchard(bytes) => {
                return Some(*bytes);
            },
            UfvkItem::Other => {},
        }
        i = i + 1;
    }
    proof {
        assert(views.subrange(i as int, views.len() as int) =~= Seq::<UfvkItemView>::empty());
    }
    None
}

/// What deriving an address from an encoded unified full viewing key gives.
pub open spec fn address_from_ufvk_outcome(text: Seq<char>, net: AddressNetwork) -> Result<Seq<char>, BridgeError> {
    match unified_fvk_decoding(text) {
        None => Err(BridgeError::UfvkDecodeFailed),
        Some((decoded, items)) => if decoded != net {
            Err(BridgeError::NetworkMismatch)
        } else {
            match first_orchard(items) {
                None => Err(BridgeError::NoOrchardFvk),
                Some(fvk) => if !orchard_fvk_decodes(fvk) {
                    Err(BridgeError::InvalidFvk)
                } else {
                    match ua_of_fvk(fvk, net) {
                        Some(s) => Ok(s),
                        None => Err(BridgeError::UnifiedEncodingFailed),
                    }
                },
            }
        },
    }
}

} // verus!
