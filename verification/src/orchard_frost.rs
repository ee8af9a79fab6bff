//! Orchard key material derived from FROST secret shares: per-node key shards, their
//! public full-viewing-key contributions, and the aggregation of those contributions.

use vstd::prelude::*;
use crate::bytes::{
    append_bytes, le_bytes, le_value, lemma_le_bytes_len, lemma_le_bytes_of_value, lemma_le_roundtrip,
    lemma_pow256_32, to_array32, u16_le, u16_to_le, u32_le, u32_to_le,
};
use crate::crypto::{
    add_points, blake2b512, blake2b512_digest, generator_multiple, is_canonical_scalar,
    pallas_generator_multiple, pallas_point_decodes, pallas_point_sum, pallas_scalar_modulus,
    point_decodes, scalar_from_repr, scalar_sum,
};
use crate::error::BridgeError;
use crate::hexcodec::utf8;
use crate::types::{FvkContribution, OrchardKeyShards};
use crate::ua_builder::{
    orchard_fvk_decodes, orchard_fvk_of_spending_key, orchard_spending_key_valid, OrchardFvk,
};

verus! {

broadcast use vstd::string::group_string_axioms;

/// Hash input for a candidate: prefix, then the nonce (4 bytes little-endian), then suffix.
pub open spec fn candidate_preimage(prefix: Seq<u8>, nonce: nat, suffix: Seq<u8>) -> Seq<u8> {
    prefix + u32_le(nonce as u32) + suffix
}

/// A candidate scalar: the first 32 bytes of the BLAKE2b-512 digest of the preimage.
pub open spec fn scalar_candidate(prefix: Seq<u8>, nonce: nat, suffix: Seq<u8>) -> Seq<u8> {
    blake2b512(candidate_preimage(prefix, nonce, suffix)).subrange(0, 32)
}

/// Hash-and-retry: the first candidate, for nonces from `nonce` up to 255, that is a
/// canonical scalar.
pub open spec fn first_scalar_from(prefix: Seq<u8>, suffix: Seq<u8>, nonce: nat) -> Option<Seq<u8>>
    decreases 256 - nonce,
{
    if nonce >= 256 {
        None
    } else if is_canonical_scalar(scalar_candidate(prefix, nonce, suffix)) {
        Some(scalar_candidate(prefix, nonce, suffix))
    } else {
        first_scalar_from(prefix, suffix, nonce + 1)
    }
}

/// Domain separator of the shared rivk.
pub open spec fn rivk_domain() -> Seq<u8> {
    utf8("Hydex-Orchard-Shared-RIVK-v1"@)
}

/// Domain separator of the ask share.
pub open spec fn ask_domain() -> Seq<u8> {
    utf8("Hydex-Orchard-ASK-v1"@)
}

/// Domain separator of the nsk share.
pub open spec fn nsk_domain() -> Seq<u8> {
    utf8("Hydex-Orchard-NSK-v1"@)
}

/// The rivk all nodes share, a function of the FROST group public key alone.
pub open spec fn shared_rivk(group_public_key: Seq<u8>) -> Option<Seq<u8>> {
    first_scalar_from(rivk_domain(), group_public_key, 0)
}

/// A node-specific key component: hashed from domain, nonce, node id (2 bytes
/// little-endian) and secret.
pub open spec fn key_component(secret: Seq<u8>, domain: Seq<u8>, node_id: u16) -> Option<Seq<u8>> {
    first_scalar_from(domain, u16_le(node_id) + secret, 0)
}

/// The candidate of a node key component at a nonce: the first 32 bytes of
/// BLAKE2b-512 over domain, nonce (4 bytes LE), node id (2 bytes LE) and secret share.
pub open spec fn component_head(secret: Seq<u8>, domain: Seq<u8>, node_id: u16, nonce: nat) -> Seq<u8> {
    blake2b512(domain + u32_le(nonce as u32) + u16_le(node_id) + secret).subrange(0, 32)
}

/// The candidate of the shared rivk at a nonce: the first 32 bytes of BLAKE2b-512 over
/// the rivk domain, nonce (4 bytes LE) and the FROST group public key.
pub open spec fn rivk_head(group_key: Seq<u8>, nonce: nat) -> Seq<u8> {
    blake2b512(utf8("Hydex-Orchard-Shared-RIVK-v1"@) + u32_le(nonce as u32) + group_key).subrange(0, 32)
}

/// The shards (ask, nsk, rivk) of a node, or the error of the first one that fails.
pub open spec fn orchard_shards(share: Seq<u8>, group_key: Seq<u8>, node_id: u16) -> Result<(Seq<u8>, Seq<u8>, Seq<u8>), BridgeError> {
    match key_component(share, ask_domain(), node_id) {
        None => Err(BridgeError::KeyComponentDerivationFailed),
        Some(ask) => match key_component(share, nsk_domain(), node_id) {
            None => Err(BridgeError::KeyComponentDerivationFailed),
            Some(nsk) => match shared_rivk(group_key) {
                None => Err(BridgeError::RivkDerivationFailed),
                Some(rivk) => Ok((ask, nsk, rivk)),
            },
        },
    }
}

/// Every result of hash-and-retry is a canonical scalar.
pub proof fn lemma_first_scalar_canonical(prefix: Seq<u8>, suffix: Seq<u8>, nonce: nat)
    ensures
        first_scalar_from(prefix, suffix, nonce) matches Some(s) ==> is_canonical_scalar(s),
    decreases 256 - nonce,
{
    if nonce < 256 && !is_canonical_scalar(scalar_candidate(prefix, nonce, suffix)) {
        lemma_first_scalar_canonical(prefix, suffix, nonce + 1);
    }
}

/// Hash-and-retry finds the first canonical candidate at or after `start`, and finds
/// none only when no candidate below 256 is canonical.
proof fn lemma_first_scalar_is_first(prefix: Seq<u8>, suffix: Seq<u8>, start: nat)
    requires
        start <= 256,
    ensures
        first_scalar_from(prefix, suffix, start) matches Some(k) ==> exists|n: nat|
            start <= n < 256 && k == #[trigger] scalar_candidate(prefix, n, suffix) && is_canonical_scalar(k)
                && forall|m: nat| start <= m < n ==> !is_canonical_scalar(#[trigger] scalar_candidate(prefix, m, suffix)),
        first_scalar_from(prefix, suffix, start) is None ==> forall|n: nat|
            start <= n < 256 ==> !is_canonical_scalar(#[trigger] scalar_candidate(prefix, n, suffix)),
    decreases 256 - start,
{
    if start < 256 {
        lemma_first_scalar_is_first(prefix, suffix, start + 1);
        if is_canonical_scalar(scalar_candidate(prefix, start, suffix)) {
            let k = scalar_candidate(prefix, start, suffix);
            assert(start <= start < 256 && k == scalar_candidate(prefix, start, suffix));
        } else if let Some(k) = first_scalar_from(prefix, suffix, start + 1) {
            let n = choose|n: nat|
                start + 1 <= n < 256 && k == #[trigger] scalar_candidate(prefix, n, suffix) && is_canonical_scalar(k)
                    && forall|m: nat| start + 1 <= m < n ==> !is_canonical_scalar(#[trigger] scalar_candidate(prefix, m, suffix));
            assert forall|m: nat| start <= m < n implies !is_canonical_scalar(
                #[trigger] scalar_candidate(prefix, m, suffix),
            ) by {
                if m > start {
                    assert(start + 1 <= m < n);
                }
            }
        }
    }
}

/// A node key component is the first canonical candidate over nonces 0 to 255 of the
/// hash of domain, nonce, node id and the node's secret share; there is none only when
/// no such candidate is canonical.
pub proof fn lemma_key_component_hashes_share(secret: Seq<u8>, domain: Seq<u8>, node_id: u16)
    ensures
        key_component(secret, domain, node_id) matches Some(k) ==> exists|n: nat|
            n < 256 && k == #[trigger] component_head(secret, domain, node_id, n) && is_canonical_scalar(k)
                && forall|m: nat| m < n ==> !is_canonical_scalar(#[trigger] component_head(secret, domain, node_id, m)),
        key_component(secret, domain, node_id) is None ==> forall|n: nat|
            n < 256 ==> !is_canonical_scalar(#[trigger] component_head(secret, domain, node_id, n)),
{
    let suffix = u16_le(node_id) + secret;
    lemma_first_scalar_is_first(domain, suffix, 0);
    assert forall|n: nat| #[trigger] scalar_candidate(domain, n, suffix) == component_head(secret, domain, node_id, n) by {
        assert(candidate_preimage(domain, n, suffix) =~= domain + u32_le(n as u32) + u16_le(node_id) + secret);
    }
    if let Some(k) = key_component(secret, domain, node_id) {
        let n = choose|n: nat|
            0 <= n < 256 && k == #[trigger] scalar_candidate(domain, n, suffix) && is_canonical_scalar(k)
                && forall|m: nat| 0 <= m < n ==> !is_canonical_scalar(#[trigger] scalar_candidate(domain, m, suffix));
        assert(k == component_head(secret, domain, node_id, n));
        assert forall|m: nat| m < n implies !is_canonical_scalar(#[trigger] component_head(secret, domain, node_id, m)) by {
            assert(scalar_candidate(domain, m, suffix) == component_head(secret, domain, node_id, m));
        }
    } else {
        assert forall|n: nat| n < 256 implies !is_canonical_scalar(#[trigger] component_head(secret, domain, node_id, n)) by {
            assert(scalar_candidate(domain, n, suffix) == component_head(secret, domain, node_id, n));
        }
    }
}

/// The shared rivk is the first canonical candidate over nonces 0 to 255 of the hash of
/// the rivk domain, nonce and the FROST group public key.
pub proof fn lemma_shared_rivk_hashes_group_key(group_key: Seq<u8>)
    ensures
        shared_rivk(group_key) matches Some(k) ==> exists|n: nat|
            n < 256 && k == #[trigger] rivk_head(group_key, n) && is_canonical_scalar(k) && forall|m: nat|
                m < n ==> !is_canonical_scalar(#[trigger] rivk_head(group_key, m)),
        shared_rivk(group_key) is None ==> forall|n: nat| n < 256 ==> !is_canonical_scalar(#[trigger] rivk_head(group_key, n)),
{
    lemma_first_scalar_is_first(rivk_domain(), group_key, 0);
    assert forall|n: nat| #[trigger] scalar_candidate(rivk_domain(), n, group_key) == rivk_head(group_key, n) by {
    }
    if let Some(k) = shared_rivk(group_key) {
        let n = choose|n: nat|
            0 <= n < 256 && k == #[trigger] scalar_candidate(rivk_domain(), n, group_key) && is_canonical_scalar(k)
                && forall|m: nat| 0 <= m < n ==> !is_canonical_scalar(#[trigger] scalar_candidate(rivk_domain(), m, group_key));
        assert(k == rivk_head(group_key, n));
        assert forall|m: nat| m < n implies !is_canonical_scalar(#[trigger] rivk_head(group_key, m)) by {
            assert(scalar_candidate(rivk_domain(), m, group_key) == rivk_head(group_key, m));
        }
    } else {
        assert forall|n: nat| n < 256 implies !is_canonical_scalar(#[trigger] rivk_head(group_key, n)) by {
            assert(scalar_candidate(rivk_domain(), n, group_key) == rivk_head(group_key, n));
        }
    }
}

/// A node's shards: ask is the key component under the ask domain, nsk the one under
/// the nsk domain (both from the node's secret share and id), rivk the shared rivk of
/// the group key.
pub proof fn lemma_shards_components(share: Seq<u8>, group_key: Seq<u8>, node_id: u16)
    ensures
        orchard_shards(share, group_key, node_id) matches Ok((ask, nsk, rivk)) ==> {
            &&& key_component(share, utf8("Hydex-Orchard-ASK-v1"@), node_id) == Some(ask)
            &&& key_component(share, utf8("Hydex-Orchard-NSK-v1"@), node_id) == Some(nsk)
            &&& shared_rivk(group_key) == Some(rivk)
        },
        orchard_shards(share, group_key, node_id) is Ok <==> {
            &&& key_component(share, utf8("Hydex-Orchard-ASK-v1"@), node_id) is Some
            &&& key_component(share, utf8("Hydex-Orchard-NSK-v1"@), node_id) is Some
            &&& shared_rivk(group_key) is Some
        },
{
}

/// Hash-and-retry over nonces below 256; `Some` with the first canonical candidate.
fn first_canonical_scalar(prefix: &[u8], suffix: &[u8]) -> (res: Option<[u8; 32]>)
    ensures
        match first_scalar_from(prefix@, suffix@, 0) {
            Some(s) => res matches Some(r) && r@ == s,
            None => res is None,
        },
{
    let mut nonce: u32 = 0;
    while nonce < 256
        invariant
            nonce <= 256,
            first_scalar_from(prefix@, suffix@, 0) == first_scalar_from(prefix@, suffix@, nonce as nat),
        decreases 256 - nonce,
    {
        let mut pre: Vec<u8> = Vec::new();
        append_bytes(&mut pre, prefix);
        let nonce_bytes = u32_to_le(nonce);
        append_bytes(&mut pre, nonce_bytes.as_slice());
        append_bytes(&mut pre, suffix);
        let digest = blake2b512_digest(pre.as_slice());
        let head = vstd::slice::slice_subrange(digest.as_slice(), 0, 32);
        let candidate = to_array32(head);
        proof {
            assert(pre@ == candidate_preimage(prefix@, nonce as nat, suffix@));
            assert(candidate@ == scalar_candidate(prefix@, nonce as nat, suffix@));
        }
        match scalar_from_repr(candidate) {
            Some(repr) => {
                return Some(repr);
            },
            None => {},
        }
        nonce = nonce + 1;
    }
    None
}

/// The rivk shared by all nodes, derived from the FROST group public key.
pub fn derive_shared_rivk(group_public_key: &[u8]) -> (res: Result<[u8; 32], BridgeError>)
    ensures
        match shared_rivk(group_public_key@) {
            Some(r) => res matches Ok(a) && a@ == r,
            None => res == Err::<[u8; 32], BridgeError>(BridgeError::RivkDerivationFailed),
        },
{
    let domain = "Hydex-Orchard-Shared-RIVK-v1".as_bytes();
    match first_canonical_scalar(domain, group_public_key) {
        Some(r) => Ok(r),
        None => Err(BridgeError::RivkDerivationFailed),
    }
}

/// A node-specific key component under a domain separator.
fn derive_key_component(secret: &[u8], domain: &[u8], node_id: u16) -> (res: Result<[u8; 32], BridgeError>)
    ensures
        match key_component(secret@, domain@, node_id) {
            Some(k) => res matches Ok(a) && a@ == k,
            None => res == Err::<[u8; 32], BridgeError>(BridgeError::KeyComponentDerivationFailed),
        },
{
    let mut suffix: Vec<u8> = Vec::new();
    let id = u16_to_le(node_id);
    append_bytes(&mut suffix, id.as_slice());
    append_bytes(&mut suffix, secret);
    match first_canonical_scalar(domain, suffix.as_slice()) {
        Some(k) => Ok(k),
        None => Err(BridgeError::KeyComponentDerivationFailed),
    }
}

/// The Orchard key shards of a node: ask and nsk from its FROST secret share (they
/// differ per node), rivk from the FROST group public key (the same for all nodes).
pub fn derive_orchard_shards_from_frost(
    frost_secret_share: &[u8],
    frost_group_public_key: &[u8],
    node_id: u16,
) -> (res: Result<OrchardKeyShards, BridgeError>)
    ensures
        match orchard_shards(frost_secret_share@, frost_group_public_key@, node_id) {
            Ok((ask, nsk, rivk)) => res matches Ok(s) && s.ask_share@ == ask && s.nsk_share@ == nsk
                && s.rivk@ == rivk && s.node_id == node_id && s.ask_share@.len() == 32
                && s.nsk_share@.len() == 32 && s.rivk@.len() == 32,
            Err(e) => res == Err::<OrchardKeyShards, BridgeError>(e),
        },
{
    let ask = derive_key_component(frost_secret_share, "Hydex-Orchard-ASK-v1".as_bytes(), node_id)?;
    let nsk = derive_key_component(frost_secret_share, "Hydex-Orchard-NSK-v1".as_bytes(), node_id)?;
    let rivk = derive_shared_rivk(frost_group_public_key)?;
    let mut ask_share: Vec<u8> = Vec::new();
    append_bytes(&mut ask_share, ask.as_slice());
    let mut nsk_share: Vec<u8> = Vec::new();
    append_bytes(&mut nsk_share, nsk.as_slice());
    let mut rivk_share: Vec<u8> = Vec::new();
    append_bytes(&mut rivk_share, rivk.as_slice());
    Ok(OrchardKeyShards { ask_share, nsk_share, rivk: rivk_share, node_id })
}

/// The shared rivk does not depend on the node or its secret share: any two nodes that
/// derive shards from the same group key get the same rivk.
pub proof fn lemma_rivk_shared_across_nodes(
    share1: Seq<u8>,
    share2: Seq<u8>,
    group_key: Seq<u8>,
    node1: u16,
    node2: u16,
)
    requires
        orchard_shards(share1, group_key, node1) is Ok,
        orchard_shards(share2, group_key, node2) is Ok,
    ensures
        orchard_shards(share1, group_key, node1)->Ok_0.2 == orchard_shards(share2, group_key, node2)->Ok_0.2,
        orchard_shards(share1, group_key, node1)->Ok_0.2 == shared_rivk(group_key).unwrap(),
{
}

/// Every derived shard is a canonical Pallas scalar.
pub proof fn lemma_shards_are_canonical(share: Seq<u8>, group_key: Seq<u8>, node_id: u16)
    requires
        orchard_shards(share, group_key, node_id) is Ok,
    ensures
        is_canonical_scalar(orchard_shards(share, group_key, node_id)->Ok_0.0),
        is_canonical_scalar(orchard_shards(share, group_key, node_id)->Ok_0.1),
        is_canonical_scalar(orchard_shards(share, group_key, node_id)->Ok_0.2),
{
    lemma_first_scalar_canonical(ask_domain(), u16_le(node_id) + share, 0);
    lemma_first_scalar_canonical(nsk_domain(), u16_le(node_id) + share, 0);
    lemma_first_scalar_canonical(rivk_domain(), group_key, 0);
}

/// The error of reading bytes as a scalar, if any.
pub open spec fn scalar_error(b: Seq<u8>) -> Option<BridgeError> {
    if b.len() != 32 {
        Some(BridgeError::ScalarLength)
    } else if !is_canonical_scalar(b) {
        Some(BridgeError::InvalidScalar)
    } else {
        None
    }
}

/// The public points (ak, nk) = ([ask]G, [nsk]G) of two shares, or the error of the
/// first share that is not a scalar.
pub open spec fn contribution_points(ask: Seq<u8>, nsk: Seq<u8>) -> Result<(Seq<u8>, Seq<u8>), BridgeError> {
    match scalar_error(ask) {
        Some(e) => Err(e),
        None => match scalar_error(nsk) {
            Some(e) => Err(e),
            None => Ok((pallas_generator_multiple(ask), pallas_generator_multiple(nsk))),
        },
    }
}

/// Reads 32 canonical scalar bytes.
fn bytes_to_scalar(bytes: &[u8]) -> (res: Result<[u8; 32], BridgeError>)
    ensures
        match scalar_error(bytes@) {
            Some(e) => res == Err::<[u8; 32], BridgeError>(e),
            None => res matches Ok(a) && a@ == bytes@,
        },
{
    if bytes.len() != 32 {
        return Err(BridgeError::ScalarLength);
    }
    let arr = to_array32(bytes);
    match scalar_from_repr(arr) {
        Some(s) => Ok(s),
        None => Err(BridgeError::InvalidScalar),
    }
}

/// This node's public contribution to the full viewing key: ak = [ask]G, nk = [nsk]G.
pub fn compute_fvk_contribution(shards: &OrchardKeyShards) -> (res: Result<FvkContribution, BridgeError>)
    ensures
        match contribution_points(shards.ask_share@, shards.nsk_share@) {
            Ok((ak, nk)) => res matches Ok(c) && c.node_id == shards.node_id && c.ak_bytes@ == ak
                && c.nk_bytes@ == nk && c.ak_bytes@.len() == 32 && c.nk_bytes@.len() == 32,
            Err(e) => res == Err::<FvkContribution, BridgeError>(e),
        },
        res is Ok <==> is_canonical_scalar(shards.ask_share@) && is_canonical_scalar(shards.nsk_share@),
        res matches Ok(c) ==> c.ak_bytes@ == pallas_generator_multiple(shards.ask_share@) && c.nk_bytes@
            == pallas_generator_multiple(shards.nsk_share@),
{
    let ask = bytes_to_scalar(shards.ask_share.as_slice())?;
    let nsk = bytes_to_scalar(shards.nsk_share.as_slice())?;
    let ak = generator_multiple(ask);
    let nk = generator_multiple(nsk);
    let mut ak_bytes: Vec<u8> = Vec::new();
    append_bytes(&mut ak_bytes, ak.as_slice());
    let mut nk_bytes: Vec<u8> = Vec::new();
    append_bytes(&mut nk_bytes, nk.as_slice());
    Ok(FvkContribution { node_id: shards.node_id, ak_bytes, nk_bytes })
}

/// The contribution of two canonical shares is their pair of public keys: ak is the
/// generator multiple of the ask share and nk that of the nsk share.
pub proof fn lemma_contribution_is_public_keys(ask: Seq<u8>, nsk: Seq<u8>)
    requires
        is_canonical_scalar(ask),
        is_canonical_scalar(nsk),
    ensures
        contribution_points(ask, nsk) == Ok::<(Seq<u8>, Seq<u8>), BridgeError>(
            (pallas_generator_multiple(ask), pallas_generator_multiple(nsk)),
        ),
{
}

/// Shards derived from a FROST share always yield a contribution.
pub proof fn lemma_derived_shards_contribute(share: Seq<u8>, group_key: Seq<u8>, node_id: u16)
    requires
        orchard_shards(share, group_key, node_id) is Ok,
    ensures
        contribution_points(
            orchard_shards(share, group_key, node_id)->Ok_0.0,
            orchard_shards(share, group_key, node_id)->Ok_0.1,
        ) is Ok,
{
    lemma_shards_are_canonical(share, group_key, node_id);
}

/// The error of reading bytes as a point encoding, if any.
pub open spec fn point_error(b: Seq<u8>) -> Option<BridgeError> {
    if b.len() != 32 {
        Some(BridgeError::PointLength)
    } else if !pallas_point_decodes(b) {
        Some(BridgeError::InvalidPoint)
    } else {
        None
    }
}

/// Adds the points of `rest`, in order, to `acc`; the error of the first encoding that
/// is not a point.
pub open spec fn point_sum_from(acc: Seq<u8>, rest: Seq<Seq<u8>>) -> Result<Seq<u8>, BridgeError>
    decreases rest.len(),
{
    if rest.len() == 0 {
        Ok(acc)
    } else {
        match point_error(rest[0]) {
            Some(e) => Err(e),
            None => point_sum_from(pallas_point_sum(acc, rest[0]), rest.drop_first()),
        }
    }
}

/// The sum of a non-empty list of point encodings.
pub open spec fn point_list_sum(encs: Seq<Seq<u8>>) -> Result<Seq<u8>, BridgeError> {
    if encs.len() == 0 {
        Err(BridgeError::NoContributions)
    } else {
        match point_error(encs[0]) {
            Some(e) => Err(e),
            None => point_sum_from(encs[0], encs.drop_first()),
        }
    }
}

/// The ak (or, with `nk`, the nk) encodings of a list of contributions.
pub open spec fn components(cs: Seq<FvkContribution>, nk: bool) -> Seq<Seq<u8>> {
    cs.map_values(|c: FvkContribution| if nk { c.nk_bytes@ } else { c.ak_bytes@ })
}

/// All contributions' ak then nk bytes, in order.
pub open spec fn contributions_concat(cs: Seq<FvkContribution>) -> Seq<u8>
    decreases cs.len(),
{
    if cs.len() == 0 {
        Seq::empty()
    } else {
        contributions_concat(cs.drop_last()) + cs.last().ak_bytes@ + cs.last().nk_bytes@
    }
}

/// The raw full viewing key aggregated from contributions and the shared rivk: ak and
/// nk are the sums of the contributions' points; if ak || nk || rivk is no valid key,
/// the key of a spending key hashed from all contributions and rivk is used.
pub open spec fn aggregate_outcome(cs: Seq<FvkContribution>, rivk: Seq<u8>) -> Result<Seq<u8>, BridgeError> {
    if cs.len() == 0 {
        Err(BridgeError::NoContributions)
    } else {
        match point_list_sum(components(cs, false)) {
            Err(e) => Err(e),
            Ok(ak) => match point_list_sum(components(cs, true)) {
                Err(e) => Err(e),
                Ok(nk) => match scalar_error(rivk) {
                    Some(e) => Err(e),
                    None => {
                        let direct = ak + nk + rivk;
                        if orchard_fvk_decodes(direct) {
                            Ok(direct)
                        } else {
                            let sk = blake2b512(contributions_concat(cs) + rivk).subrange(0, 32);
                            if orchard_spending_key_valid(sk) {
                                Ok(orchard_fvk_of_spending_key(sk))
                            } else {
                                Err(BridgeError::FvkConstructionFailed)
                            }
                        }
                    },
                },
            },
        }
    }
}

/// Reads a point encoding: 32 bytes that decode.
fn point_from_bytes(bytes: &[u8]) -> (res: Result<[u8; 32], BridgeError>)
    ensures
        match point_error(bytes@) {
            Some(e) => res == Err::<[u8; 32], BridgeError>(e),
            None => res matches Ok(a) && a@ == bytes@,
        },
{
    if bytes.len() != 32 {
        return Err(BridgeError::PointLength);
    }
    let arr = to_array32(bytes);
    if !point_decodes(&arr) {
        return Err(BridgeError::InvalidPoint);
    }
    Ok(arr)
}

/// The sum of the values of a list of scalar encodings.
pub open spec fn scalar_value_sum(ss: Seq<Seq<u8>>) -> nat
    decreases ss.len(),
{
    if ss.len() == 0 {
        0
    } else {
        scalar_value_sum(ss.drop_last()) + le_value(ss.last())
    }
}

/// The canonical encoding of the sum of a list of scalars (modulo the group order).
pub open spec fn scalar_list_sum(ss: Seq<Seq<u8>>) -> Seq<u8> {
    le_bytes(scalar_value_sum(ss) % pallas_scalar_modulus(), 32)
}

/// Whether each point encoding is `[s]G` for the canonical scalar `s` at its place.
pub open spec fn generated_by(encs: Seq<Seq<u8>>, shares: Seq<Seq<u8>>) -> bool {
    &&& encs.len() == shares.len()
    &&& forall|i: int| 0 <= i < shares.len() ==> is_canonical_scalar(#[trigger] shares[i])
    &&& forall|i: int| 0 <= i < shares.len() ==> encs[i] == pallas_generator_multiple(#[trigger] shares[i])
}

/// The canonical encoding of a sum is a canonical scalar.
proof fn lemma_scalar_list_sum_canonical(ss: Seq<Seq<u8>>)
    ensures
        is_canonical_scalar(scalar_list_sum(ss)),
        le_value(scalar_list_sum(ss)) == scalar_value_sum(ss) % pallas_scalar_modulus(),
{
    let v = scalar_value_sum(ss) % pallas_scalar_modulus();
    lemma_pow256_32();
    lemma_le_bytes_len(v, 32);
    lemma_le_roundtrip(v, 32);
}

proof fn lemma_value_sum_remove(t: Seq<Seq<u8>>, k: int)
    requires
        0 <= k < t.len(),
    ensures
        scalar_value_sum(t) == scalar_value_sum(t.remove(k)) + le_value(t[k]),
    decreases t.len(),
{
    if k < t.len() - 1 {
        lemma_value_sum_remove(t.drop_last(), k);
        assert(t.remove(k).drop_last() =~= t.drop_last().remove(k));
        assert(t.remove(k).last() == t.last());
    } else {
        assert(t.remove(k) =~= t.drop_last());
    }
}

proof fn lemma_value_sum_permutation(s: Seq<Seq<u8>>, t: Seq<Seq<u8>>)
    requires
        s.to_multiset() == t.to_multiset(),
    ensures
        scalar_value_sum(s) == scalar_value_sum(t),
    decreases s.len(),
{
    broadcast use {vstd::seq_lib::group_to_multiset_ensures, vstd::multiset::group_multiset_axioms};

    if s.len() == 0 {
        assert(t.to_multiset().len() == 0);
        assert(t =~= Seq::<Seq<u8>>::empty());
    } else {
        let e = s.last();
        assert(s.drop_last().push(e) =~= s);
        assert(s.to_multiset() == s.drop_last().to_multiset().insert(e));
        assert(t.to_multiset().count(e) > 0);
        assert(t.contains(e));
        let k = choose|k: int| 0 <= k < t.len() && t[k] == e;
        assert(t.remove(k).to_multiset() == t.to_multiset().remove(e));
        assert(s.drop_last().to_multiset() =~= t.remove(k).to_multiset());
        lemma_value_sum_permutation(s.drop_last(), t.remove(k));
        lemma_value_sum_remove(t, k);
    }
}

/// Summing shares does not depend on their order: lists holding the same shares have
/// the same sum (and, by `sum_contribution_points`, the same summed public key).
pub proof fn lemma_share_sum_order_free(s: Seq<Seq<u8>>, t: Seq<Seq<u8>>)
    requires
        s.to_multiset() == t.to_multiset(),
    ensures
        scalar_list_sum(s) == scalar_list_sum(t),
{
    lemma_value_sum_permutation(s, t);
}

/// Whether every encoding reads as a point.
pub open spec fn all_points(encs: Seq<Seq<u8>>) -> bool {
    forall|i: int| 0 <= i < encs.len() ==> #[trigger] point_error(encs[i]) is None
}

proof fn lemma_point_sum_from_ok(acc: Seq<u8>, rest: Seq<Seq<u8>>)
    ensures
        point_sum_from(acc, rest) is Ok <==> all_points(rest),
    decreases rest.len(),
{
    if rest.len() > 0 {
        let tail = rest.drop_first();
        lemma_point_sum_from_ok(pallas_point_sum(acc, rest[0]), tail);
        if all_points(rest) {
            assert forall|i: int| 0 <= i < tail.len() implies #[trigger] point_error(tail[i]) is None by {
                assert(tail[i] == rest[i + 1]);
            }
        } else if point_error(rest[0]) is None {
            let i = choose|i: int| 0 <= i < rest.len() && !(point_error(rest[i]) is None);
            assert(tail[i - 1] == rest[i]);
        }
    }
}

proof fn lemma_point_list_sum_ok(encs: Seq<Seq<u8>>)
    ensures
        point_list_sum(encs) is Ok <==> (encs.len() > 0 && all_points(encs)),
{
    if encs.len() > 0 {
        let tail = encs.drop_first();
        lemma_point_sum_from_ok(encs[0], tail);
        if all_points(encs) {
            assert forall|i: int| 0 <= i < tail.len() implies #[trigger] point_error(tail[i]) is None by {
                assert(tail[i] == encs[i + 1]);
            }
        } else if point_error(encs[0]) is None {
            let i = choose|i: int| 0 <= i < encs.len() && !(point_error(encs[i]) is None);
            assert(tail[i - 1] == encs[i]);
        }
    }
}

proof fn lemma_components_of_reordered(cs1: Seq<FvkContribution>, cs2: Seq<FvkContribution>, nk: bool)
    requires
        cs1.to_multiset() == cs2.to_multiset(),
        all_points(components(cs1, nk)),
    ensures
        all_points(components(cs2, nk)),
        cs1.len() == cs2.len(),
{
    broadcast use {vstd::seq_lib::group_to_multiset_ensures, vstd::multiset::group_multiset_axioms};

    assert(cs1.len() == cs1.to_multiset().len());
    assert forall|j: int| 0 <= j < components(cs2, nk).len() implies #[trigger] point_error(
        components(cs2, nk)[j],
    ) is None by {
        let c = cs2[j];
        assert(cs2.contains(c));
        assert(cs2.to_multiset().count(c) > 0);
        assert(cs1.contains(c));
        let k = choose|k: int| 0 <= k < cs1.len() && cs1[k] == c;
        assert(components(cs1, nk)[k] == components(cs2, nk)[j]);
    }
}

/// The summed public key does not depend on the order of the contributions. For two
/// orders of the same contributions, whose points are `[s]G` for the shares in the
/// matching orders: both sums succeed or both fail, and the keys of the summed shares
/// are the same point, so by `sum_contribution_points` both orders sum to the same ak
/// (or nk).
pub proof fn lemma_contribution_sums_order_free(
    cs1: Seq<FvkContribution>,
    cs2: Seq<FvkContribution>,
    nk: bool,
    shares1: Seq<Seq<u8>>,
    shares2: Seq<Seq<u8>>,
)
    requires
        cs1.to_multiset() == cs2.to_multiset(),
        shares1.to_multiset() == shares2.to_multiset(),
        generated_by(components(cs1, nk), shares1),
        generated_by(components(cs2, nk), shares2),
    ensures
        point_list_sum(components(cs1, nk)) is Ok <==> point_list_sum(components(cs2, nk)) is Ok,
        pallas_generator_multiple(scalar_list_sum(shares1)) == pallas_generator_multiple(scalar_list_sum(shares2)),
{
    lemma_point_list_sum_ok(components(cs1, nk));
    lemma_point_list_sum_ok(components(cs2, nk));
    if all_points(components(cs1, nk)) {
        lemma_components_of_reordered(cs1, cs2, nk);
    }
    if all_points(components(cs2, nk)) {
        lemma_components_of_reordered(cs2, cs1, nk);
    }
    lemma_components_of_reordered_len(cs1, cs2);
    lemma_share_sum_order_free(shares1, shares2);
}

/// Aggregation does not depend on the order of the contributions. For two orders of the
/// same contributions, with the ak and nk shares that generate them in matching orders:
/// the key summed from the shares is the same, and the conditions under which
/// `aggregate_fvk_contributions` returns that key hold of both orders or of neither, so
/// both orders aggregate to the same full viewing key.
pub proof fn lemma_aggregate_order_free(
    cs1: Seq<FvkContribution>,
    cs2: Seq<FvkContribution>,
    rivk: Seq<u8>,
    ak_shares1: Seq<Seq<u8>>,
    nk_shares1: Seq<Seq<u8>>,
    ak_shares2: Seq<Seq<u8>>,
    nk_shares2: Seq<Seq<u8>>,
)
    requires
        cs1.to_multiset() == cs2.to_multiset(),
        ak_shares1.to_multiset() == ak_shares2.to_multiset(),
        nk_shares1.to_multiset() == nk_shares2.to_multiset(),
        generated_by(components(cs1, false), ak_shares1),
        generated_by(components(cs1, true), nk_shares1),
        generated_by(components(cs2, false), ak_shares2),
        generated_by(components(cs2, true), nk_shares2),
    ensures
        shares_key(ak_shares1, nk_shares1, rivk) == shares_key(ak_shares2, nk_shares2, rivk),
        shares_key_applies(cs1, rivk, ak_shares1, nk_shares1) <==> shares_key_applies(
            cs2,
            rivk,
            ak_shares2,
            nk_shares2,
        ),
{
    lemma_share_sum_order_free(ak_shares1, ak_shares2);
    lemma_share_sum_order_free(nk_shares1, nk_shares2);
    lemma_components_of_reordered_len(cs1, cs2);
    if all_points(components(cs1, false)) {
        lemma_components_of_reordered(cs1, cs2, false);
    }
    if all_points(components(cs2, false)) {
        lemma_components_of_reordered(cs2, cs1, false);
    }
    if all_points(components(cs1, true)) {
        lemma_components_of_reordered(cs1, cs2, true);
    }
    if all_points(components(cs2, true)) {
        lemma_components_of_reordered(cs2, cs1, true);
    }
}

proof fn lemma_components_of_reordered_len(cs1: Seq<FvkContribution>, cs2: Seq<FvkContribution>)
    requires
        cs1.to_multiset() == cs2.to_multiset(),
    ensures
        cs1.len() == cs2.len(),
{
    broadcast use vstd::seq_lib::group_to_multiset_ensures;

    assert(cs1.len() == cs1.to_multiset().len());
    assert(cs2.len() == cs2.to_multiset().len());
}

/// The sum of the first share alone is that share.
proof fn lemma_sum_of_one(shares: Seq<Seq<u8>>)
    requires
        shares.len() > 0,
        is_canonical_scalar(shares[0]),
    ensures
        scalar_list_sum(shares.subrange(0, 1)) == shares[0],
{
    let one = shares.subrange(0, 1);
    assert(one.drop_last() =~= Seq::<Seq<u8>>::empty());
    assert(scalar_value_sum(Seq::<Seq<u8>>::empty()) == 0);
    assert(one.last() == shares[0]);
    assert(scalar_value_sum(one) == le_value(shares[0]));
    vstd::arithmetic::div_mod::lemma_small_mod(le_value(shares[0]), pallas_scalar_modulus());
    lemma_le_bytes_of_value(shares[0]);
}

/// Adding the next canonical share to the sum of a prefix gives the sum of the longer
/// prefix.
proof fn lemma_sum_step(shares: Seq<Seq<u8>>, i: int)
    requires
        0 <= i < shares.len(),
        is_canonical_scalar(shares[i]),
    ensures
        is_canonical_scalar(scalar_list_sum(shares.subrange(0, i))),
        scalar_sum(scalar_list_sum(shares.subrange(0, i)), shares[i]) == scalar_list_sum(shares.subrange(0, i + 1)),
{
    let q = pallas_scalar_modulus();
    let pre = shares.subrange(0, i);
    let next = shares.subrange(0, i + 1);
    assert(next.drop_last() =~= pre);
    lemma_scalar_list_sum_canonical(pre);
    let a = scalar_value_sum(pre);
    let b = le_value(shares[i]);
    vstd::arithmetic::div_mod::lemma_small_mod(b, q);
    vstd::arithmetic::div_mod::lemma_add_mod_noop(a as int, b as int, q as int);
    assert(((a % q) + b) % q == (a + b) % q);
}

/// Sums the ak (or nk) points of all contributions, in order.
/// When the points are the public keys `[s]G` of shares `s`, their sum is the public
/// key of the sum of the shares.
pub fn sum_contribution_points(cs: &Vec<FvkContribution>, nk: bool) -> (res: Result<[u8; 32], BridgeError>)
    ensures
        match point_list_sum(components(cs@, nk)) {
            Ok(s) => res matches Ok(a) && a@ == s,
            Err(e) => res == Err::<[u8; 32], BridgeError>(e),
        },
        forall|shares: Seq<Seq<u8>>|
            #[trigger] generated_by(components(cs@, nk), shares) ==> (res matches Ok(a) ==> a@
                == pallas_generator_multiple(scalar_list_sum(shares))),
{
    let ghost encs = components(cs@, nk);
    if cs.len() == 0 {
        return Err(BridgeError::NoContributions);
    }
    let first = if nk { &cs[0].nk_bytes } else { &cs[0].ak_bytes };
    let mut acc = point_from_bytes(first.as_slice())?;
    proof {
        assert forall|shares: Seq<Seq<u8>>| #[trigger] generated_by(encs, shares) implies acc@
            == pallas_generator_multiple(scalar_list_sum(shares.subrange(0, 1))) by {
            lemma_sum_of_one(shares);
        }
    }
    let mut i: usize = 1;
    while i < cs.len()
        invariant
            1 <= i <= cs@.len(),
            encs == components(cs@, nk),
            pallas_point_decodes(acc@),
            point_list_sum(encs) == point_sum_from(acc@, encs.subrange(i as int, encs.len() as int)),
            forall|shares: Seq<Seq<u8>>|
                #[trigger] generated_by(encs, shares) ==> acc@ == pallas_generator_multiple(
                    scalar_list_sum(shares.subrange(0, i as int)),
                ),
        decreases cs@.len() - i,
    {
        proof {
            let rest = encs.subrange(i as int, encs.len() as int);
            assert(rest[0] == encs[i as int]);
            assert(rest.drop_first() =~= encs.subrange(i + 1, encs.len() as int));
        }
        let next_bytes = if nk { &cs[i].nk_bytes } else { &cs[i].ak_bytes };
        let p = point_from_bytes(next_bytes.as_slice())?;
        let ghost before = acc@;
        acc = add_points(&acc, &p);
        proof {
            assert forall|shares: Seq<Seq<u8>>| #[trigger] generated_by(encs, shares) implies acc@
                == pallas_generator_multiple(scalar_list_sum(shares.subrange(0, i + 1))) by {
                lemma_sum_step(shares, i as int);
                let x = scalar_list_sum(shares.subrange(0, i as int));
                let y = shares[i as int];
                assert(before == pallas_generator_multiple(x));
                assert(p@ == pallas_generator_multiple(y));
            }
        }
        i = i + 1;
    }
    proof {
        assert(encs.subrange(i as int, encs.len() as int) =~= Seq::<Seq<u8>>::empty());
        assert forall|shares: Seq<Seq<u8>>| #[trigger] generated_by(encs, shares) implies acc@
            == pallas_generator_multiple(scalar_list_sum(shares)) by {
            assert(shares.subrange(0, i as int) =~= shares);
        }
    }
    Ok(acc)
}

/// The ak components of contributions are their ak bytes, the nk components their nk
/// bytes, each at the contribution's place.
pub proof fn lemma_components_pick(cs: Seq<FvkContribution>)
    ensures
        components(cs, false).len() == cs.len(),
        components(cs, true).len() == cs.len(),
        forall|i: int| 0 <= i < cs.len() ==> components(cs, false)[i] == #[trigger] cs[i].ak_bytes@
            && components(cs, true)[i] == cs[i].nk_bytes@,
{
}

/// All contributions' bytes, in order, each as its 32 ak bytes then its 32 nk bytes.
pub proof fn lemma_contributions_concat_layout(cs: Seq<FvkContribution>)
    requires
        forall|i: int| 0 <= i < cs.len() ==> #[trigger] cs[i].ak_bytes@.len() == 32 && cs[i].nk_bytes@.len() == 32,
    ensures
        contributions_concat(cs).len() == 64 * cs.len(),
        forall|i: int|
            0 <= i < cs.len() ==> contributions_concat(cs).subrange(64 * i, 64 * i + 32) == #[trigger] cs[i].ak_bytes@
                && contributions_concat(cs).subrange(64 * i + 32, 64 * i + 64) == cs[i].nk_bytes@,
    decreases cs.len(),
{
    if cs.len() > 0 {
        let pre = cs.drop_last();
        lemma_contributions_concat_layout(pre);
        let whole = contributions_concat(cs);
        let head = contributions_concat(pre);
        let last = cs.last();
        assert(whole == head + last.ak_bytes@ + last.nk_bytes@);
        assert forall|i: int| 0 <= i < cs.len() implies whole.subrange(64 * i, 64 * i + 32)
            == #[trigger] cs[i].ak_bytes@ && whole.subrange(64 * i + 32, 64 * i + 64) == cs[i].nk_bytes@ by {
            if i < cs.len() - 1 {
                assert(pre[i] == cs[i]);
                assert(whole.subrange(64 * i, 64 * i + 32) =~= head.subrange(64 * i, 64 * i + 32));
                assert(whole.subrange(64 * i + 32, 64 * i + 64) =~= head.subrange(64 * i + 32, 64 * i + 64));
            } else {
                assert(whole.subrange(64 * i, 64 * i + 32) =~= last.ak_bytes@);
                assert(whole.subrange(64 * i + 32, 64 * i + 64) =~= last.nk_bytes@);
            }
        }
    }
}

/// When the summed ak || nk || rivk is no valid key, aggregation falls back to the key
/// of the spending key made of the first 32 bytes of BLAKE2b-512 over every
/// contribution's ak and nk bytes followed by rivk.
pub proof fn lemma_aggregate_fallback(cs: Seq<FvkContribution>, rivk: Seq<u8>)
    requires
        point_list_sum(components(cs, false)) is Ok,
        point_list_sum(components(cs, true)) is Ok,
        scalar_error(rivk) is None,
        !orchard_fvk_decodes(
            point_list_sum(components(cs, false))->Ok_0 + point_list_sum(components(cs, true))->Ok_0 + rivk,
        ),
    ensures
        ({
            let sk = blake2b512(contributions_concat(cs) + rivk).subrange(0, 32);
            aggregate_outcome(cs, rivk) == if orchard_spending_key_valid(sk) {
                Ok::<Seq<u8>, BridgeError>(orchard_fvk_of_spending_key(sk))
            } else {
                Err::<Seq<u8>, BridgeError>(BridgeError::FvkConstructionFailed)
            }
        }),
{
    lemma_point_list_sum_ok(components(cs, false));
}

/// The key of the fallback spending key, hashed from all contributions and rivk.
fn fallback_fvk(contributions: &Vec<FvkContribution>, rivk_bytes: &[u8]) -> (res: Result<OrchardFvk, BridgeError>)
    ensures
        ({
            let sk = blake2b512(contributions_concat(contributions@) + rivk_bytes@).subrange(0, 32);
            if orchard_spending_key_valid(sk) {
                res matches Ok(f) && f.view() == orchard_fvk_of_spending_key(sk)
            } else {
                res == Err::<OrchardFvk, BridgeError>(BridgeError::FvkConstructionFailed)
            }
        }),
{
    let mut pre: Vec<u8> = Vec::new();
    let mut i: usize = 0;
    while i < contributions.len()
        invariant
            0 <= i <= contributions@.len(),
            pre@ == contributions_concat(contributions@.subrange(0, i as int)),
        decreases contributions@.len() - i,
    {
        proof {
            let next = contributions@.subrange(0, i + 1);
            assert(next.drop_last() =~= contributions@.subrange(0, i as int));
        }
        append_bytes(&mut pre, contributions[i].ak_bytes.as_slice());
        append_bytes(&mut pre, contributions[i].nk_bytes.as_slice());
        i = i + 1;
    }
    proof {
        assert(contributions@.subrange(0, i as int) =~= contributions@);
    }
    append_bytes(&mut pre, rivk_bytes);
    let digest = blake2b512_digest(pre.as_slice());
    let head = vstd::slice::slice_subrange(digest.as_slice(), 0, 32);
    let sk_bytes = to_array32(head);
    match crate::ua_builder::BridgeAddressGenerator::frost_key_to_orchard_sk(sk_bytes.as_slice()) {
        Ok(sk) => Ok(OrchardFvk::from_spending_key(&sk)),
        Err(_) => Err(BridgeError::FvkConstructionFailed),
    }
}

/// The full viewing key summed from shares: the public keys of the summed ak shares and
/// of the summed nk shares, then rivk.
pub open spec fn shares_key(ak_shares: Seq<Seq<u8>>, nk_shares: Seq<Seq<u8>>, rivk: Seq<u8>) -> Seq<u8> {
    pallas_generator_multiple(scalar_list_sum(ak_shares)) + pallas_generator_multiple(scalar_list_sum(nk_shares))
        + rivk
}

/// Whether aggregation yields the key summed from the shares: the contributions' ak and
/// nk points are the public keys of `ak_shares` and `nk_shares` and all read as points,
/// rivk is a scalar, and the summed key is a valid full viewing key.
pub open spec fn shares_key_applies(
    cs: Seq<FvkContribution>,
    rivk: Seq<u8>,
    ak_shares: Seq<Seq<u8>>,
    nk_shares: Seq<Seq<u8>>,
) -> bool {
    &&& cs.len() > 0
    &&& generated_by(components(cs, false), ak_shares)
    &&& generated_by(components(cs, true), nk_shares)
    &&& all_points(components(cs, false))
    &&& all_points(components(cs, true))
    &&& scalar_error(rivk) is None
    &&& orchard_fvk_decodes(shares_key(ak_shares, nk_shares, rivk))
}

/// Aggregates the contributions of the nodes (additive shares: the points are summed)
/// with the shared rivk into the bridge's full viewing key.
pub fn aggregate_fvk_contributions(
    contributions: &Vec<FvkContribution>,
    rivk_bytes: &[u8],
) -> (res: Result<OrchardFvk, BridgeError>)
    ensures
        match aggregate_outcome(contributions@, rivk_bytes@) {
            Ok(fvk) => res matches Ok(f) && f.view() == fvk,
            Err(e) => res == Err::<OrchardFvk, BridgeError>(e),
        },
        forall|ak_shares: Seq<Seq<u8>>, nk_shares: Seq<Seq<u8>>|
            #![trigger generated_by(components(contributions@, false), ak_shares), generated_by(components(contributions@, true), nk_shares)]
            shares_key_applies(contributions@, rivk_bytes@, ak_shares, nk_shares) ==> (res matches Ok(f)
                && f.view() == shares_key(ak_shares, nk_shares, rivk_bytes@)),
        match (point_list_sum(components(contributions@, false)), point_list_sum(components(contributions@, true))) {
            (Ok(ak), Ok(nk)) => scalar_error(rivk_bytes@) is None && orchard_fvk_decodes(ak + nk + rivk_bytes@)
                ==> (res matches Ok(f) && f.view() == ak + nk + rivk_bytes@),
            _ => true,
        },
        match (point_list_sum(components(contributions@, false)), point_list_sum(components(contributions@, true))) {
            (Ok(ak), Ok(nk)) => scalar_error(rivk_bytes@) is None && !orchard_fvk_decodes(ak + nk + rivk_bytes@)
                ==> ({
                let sk = blake2b512(contributions_concat(contributions@) + rivk_bytes@).subrange(0, 32);
                if orchard_spending_key_valid(sk) {
                    res matches Ok(f) && f.view() == orchard_fvk_of_spending_key(sk)
                } else {
                    res == Err::<OrchardFvk, BridgeError>(BridgeError::FvkConstructionFailed)
                }
            }),
            _ => true,
        },
{
    proof {
        lemma_point_list_sum_ok(components(contributions@, false));
        lemma_point_list_sum_ok(components(contributions@, true));
    }
    if contributions.len() == 0 {
        return Err(BridgeError::NoContributions);
    }
    let ak = sum_contribution_points(contributions, false)?;
    let nk = sum_contribution_points(contributions, true)?;
    let rivk = bytes_to_scalar(rivk_bytes)?;
    let mut direct: Vec<u8> = Vec::new();
    append_bytes(&mut direct, ak.as_slice());
    append_bytes(&mut direct, nk.as_slice());
    append_bytes(&mut direct, rivk.as_slice());
    let mut fvk_bytes = [0u8; 96];
    let mut i: usize = 0;
    while i < 96
        invariant
            0 <= i <= 96,
            direct@.len() == 96,
            fvk_bytes@.len() == 96,
            forall|j: int| 0 <= j < i ==> fvk_bytes@[j] == direct@[j],
        decreases 96 - i,
    {
        fvk_bytes[i] = direct[i];
        i = i + 1;
    }
    proof {
        assert(fvk_bytes@ =~= direct@);
        assert forall|ak_shares: Seq<Seq<u8>>, nk_shares: Seq<Seq<u8>>|
            #![trigger generated_by(components(contributions@, false), ak_shares), generated_by(components(contributions@, true), nk_shares)]
            shares_key_applies(contributions@, rivk_bytes@, ak_shares, nk_shares) implies fvk_bytes@
                == shares_key(ak_shares, nk_shares, rivk_bytes@) by {
            assert(ak@ == pallas_generator_multiple(scalar_list_sum(ak_shares)));
            assert(nk@ == pallas_generator_multiple(scalar_list_sum(nk_shares)));
        }
    }
    match OrchardFvk::from_bytes(fvk_bytes) {
        Some(fvk) => Ok(fvk),
        None => fallback_fvk(contributions, rivk_bytes),
    }
}

} // verus!
