//! Decisions of the DKG ceremony that do not need the network: which nodes to hear
//! from, the order of the exchanged contributions, and the ceremony's result once the
//! FROST rounds and the exchange are done.

use vstd::prelude::*;
use crate::bytes::append_bytes;
use crate::error::BridgeError;
use crate::orchard_frost::{
    aggregate_fvk_contributions, aggregate_outcome, components, compute_fvk_contribution,
    contribution_points, derive_orchard_shards_from_frost, orchard_shards, point_list_sum,
    sum_contribution_points,
};
use crate::text::{owned, text_eq};
use crate::types::{DkgResult, FvkContribution, OrchardKeyShards};
use crate::ua_builder::{
    consensus_address_network, ua_of_fvk, unified_fvk_encoding, BridgeAddressGenerator,
    ConsensusNetwork, OrchardFvk,
};

verus! {

broadcast use {vstd::string::group_string_axioms, vstd::seq_lib::group_to_multiset_ensures};

/// The node ids 1, 2, ..., `total`.
pub open spec fn node_range(total: u16) -> Seq<u16> {
    Seq::new(total as nat, |i: int| (i + 1) as u16)
}

/// Whether a node id is not `me`.
pub open spec fn is_other(me: u16) -> spec_fn(u16) -> bool {
    |id: u16| id != me
}

/// The node ids 1..=`total` without `me`, ascending.
pub open spec fn other_nodes(me: u16, total: u16) -> Seq<u16> {
    node_range(total).filter(is_other(me))
}

/// All node ids, 1..=`total`, ascending.
pub fn all_nodes(total: u16) -> (res: Vec<u16>)
    ensures
        res@ == node_range(total),
{
    let mut res: Vec<u16> = Vec::new();
    let mut id: u16 = 1;
    while id <= total
        invariant
            1 <= id,
            id as int <= total as int + 1,
            res@ == node_range(total).subrange(0, id - 1),
        decreases total as int + 1 - id,
    {
        res.push(id);
        proof {
            assert(res@ =~= node_range(total).subrange(0, id as int));
        }
        if id == total {
            proof {
                assert(res@ =~= node_range(total));
            }
            return res;
        }
        id = id + 1;
    }
    proof {
        assert(res@ =~= node_range(total));
    }
    res
}

/// The other nodes, 1..=`total` without `me`, ascending: those whose messages a node
/// waits for.
pub fn peers_except(me: u16, total: u16) -> (res: Vec<u16>)
    ensures
        res@ == other_nodes(me, total),
{
    let all = all_nodes(total);
    let mut res: Vec<u16> = Vec::new();
    let mut i: usize = 0;
    while i < all.len()
        invariant
            0 <= i <= all@.len(),
            all@ == node_range(total),
            res@ == all@.subrange(0, i as int).filter(is_other(me)),
        decreases all@.len() - i,
    {
        proof {
            let next = all@.subrange(0, i + 1);
            assert(next.drop_last() =~= all@.subrange(0, i as int));
            reveal_with_fuel(Seq::filter, 1);
        }
        if all[i] != me {
            res.push(all[i]);
        }
        i = i + 1;
    }
    proof {
        assert(all@.subrange(0, all@.len() as int) =~= all@);
    }
    res
}

/// A FROST identifier's node id: its first two serialized bytes, little-endian.
pub fn identifier_node_id(id_bytes: &[u8]) -> (res: u16)
    requires
        id_bytes@.len() >= 2,
    ensures
        res as int == id_bytes@[0] as int + 256 * id_bytes@[1] as int,
{
    let lo = id_bytes[0] as u16;
    let hi = id_bytes[1] as u16;
    lo + 256 * hi
}

/// Contributions ordered by node id.
pub open spec fn sorted_by_node(s: Seq<FvkContribution>) -> bool {
    forall|i: int, j: int| 0 <= i < j < s.len() ==> s[i].node_id <= s[j].node_id
}

/// The first position in a node-sorted list at which a contribution of node `id` goes
/// after all contributions of nodes up to `id`.
fn insertion_point(s: &Vec<FvkContribution>, id: u16) -> (k: usize)
    requires
        sorted_by_node(s@),
    ensures
        k <= s@.len(),
        forall|j: int| 0 <= j < k ==> s@[j].node_id <= id,
        forall|j: int| k <= j < s@.len() ==> s@[j].node_id > id,
{
    let mut k: usize = 0;
    while k < s.len() && s[k].node_id <= id
        invariant
            k <= s@.len(),
            sorted_by_node(s@),
            forall|j: int| 0 <= j < k ==> s@[j].node_id <= id,
        decreases s@.len() - k,
    {
        k = k + 1;
    }
    k
}

/// How many contributions at the front of a list are of nodes up to `id`.
pub open spec fn front_up_to(s: Seq<FvkContribution>, id: u16) -> nat
    decreases s.len(),
{
    if s.len() == 0 {
        0
    } else if s[0].node_id <= id {
        1 + front_up_to(s.drop_first(), id)
    } else {
        0
    }
}

/// A contribution put into a node-sorted list after every contribution of a node up
/// to its own.
pub open spec fn insert_by_node(s: Seq<FvkContribution>, c: FvkContribution) -> Seq<FvkContribution> {
    s.insert(front_up_to(s, c.node_id) as int, c)
}

/// The contributions ordered by node id, those of the same node in the order they
/// came: each one in turn put after all those of nodes up to its own.
pub open spec fn ordered_by_node(s: Seq<FvkContribution>) -> Seq<FvkContribution>
    decreases s.len(),
{
    if s.len() == 0 {
        s
    } else {
        insert_by_node(ordered_by_node(s.drop_last()), s.last())
    }
}

proof fn lemma_front_up_to(s: Seq<FvkContribution>, id: u16, k: int)
    requires
        0 <= k <= s.len(),
        forall|j: int| 0 <= j < k ==> s[j].node_id <= id,
        forall|j: int| k <= j < s.len() ==> s[j].node_id > id,
    ensures
        front_up_to(s, id) == k,
    decreases s.len(),
{
    if s.len() > 0 && k > 0 {
        let t = s.drop_first();
        assert forall|j: int| 0 <= j < k - 1 implies t[j].node_id <= id by {
            assert(t[j] == s[j + 1]);
        }
        assert forall|j: int| k - 1 <= j < t.len() implies t[j].node_id > id by {
            assert(t[j] == s[j + 1]);
        }
        lemma_front_up_to(t, id, k - 1);
    }
}

proof fn lemma_front_up_to_bounds(s: Seq<FvkContribution>, id: u16)
    ensures
        front_up_to(s, id) <= s.len(),
        forall|j: int| 0 <= j < front_up_to(s, id) ==> s[j].node_id <= id,
        front_up_to(s, id) < s.len() ==> s[front_up_to(s, id) as int].node_id > id,
    decreases s.len(),
{
    if s.len() > 0 && s[0].node_id <= id {
        let t = s.drop_first();
        lemma_front_up_to_bounds(t, id);
        assert forall|j: int| 0 <= j < front_up_to(s, id) implies s[j].node_id <= id by {
            if j > 0 {
                assert(s[j] == t[j - 1]);
            }
        }
        if front_up_to(s, id) < s.len() {
            assert(s[front_up_to(s, id) as int] == t[front_up_to(t, id) as int]);
        }
    }
}

/// Putting a contribution into a node-sorted list keeps it sorted; the ones after it
/// are of later nodes.
proof fn lemma_insert_by_node(t: Seq<FvkContribution>, c: FvkContribution)
    requires
        sorted_by_node(t),
    ensures
        sorted_by_node(insert_by_node(t, c)),
        forall|j: int| front_up_to(t, c.node_id) <= j < t.len() ==> t[j].node_id > c.node_id,
{
    lemma_front_up_to_bounds(t, c.node_id);
    let k = front_up_to(t, c.node_id) as int;
    assert forall|j: int| k <= j < t.len() implies t[j].node_id > c.node_id by {
        assert(t[k].node_id <= t[j].node_id);
    }
    let r = insert_by_node(t, c);
    assert forall|a: int, b: int| 0 <= a < b < r.len() implies r[a].node_id <= r[b].node_id by {
        if b < k {
        } else if b == k {
        } else if a < k {
        } else if a == k {
        } else {
        }
    }
}

/// The ordering is sorted by node id.
pub proof fn lemma_ordered_by_node_sorted(s: Seq<FvkContribution>)
    ensures
        sorted_by_node(ordered_by_node(s)),
    decreases s.len(),
{
    if s.len() > 0 {
        lemma_ordered_by_node_sorted(s.drop_last());
        lemma_insert_by_node(ordered_by_node(s.drop_last()), s.last());
    }
}

/// Whether a contribution is of node `id`.
pub open spec fn of_node(id: u16) -> spec_fn(FvkContribution) -> bool {
    |c: FvkContribution| c.node_id == id
}

proof fn lemma_filter_none(t: Seq<FvkContribution>, p: spec_fn(FvkContribution) -> bool)
    requires
        forall|j: int| 0 <= j < t.len() ==> !p(t[j]),
    ensures
        t.filter(p) == Seq::<FvkContribution>::empty(),
    decreases t.len(),
{
    reveal_with_fuel(Seq::filter, 1);
    if t.len() > 0 {
        lemma_filter_none(t.drop_last(), p);
    }
}

/// Ordering by node keeps the contributions of each node in the order they came.
pub proof fn lemma_ordering_keeps_order_within_node(s: Seq<FvkContribution>, id: u16)
    ensures
        ordered_by_node(s).filter(of_node(id)) == s.filter(of_node(id)),
    decreases s.len(),
{
    reveal_with_fuel(Seq::filter, 2);
    if s.len() > 0 {
        let p = of_node(id);
        let t = ordered_by_node(s.drop_last());
        let c = s.last();
        lemma_ordering_keeps_order_within_node(s.drop_last(), id);
        lemma_ordered_by_node_sorted(s.drop_last());
        lemma_insert_by_node(t, c);
        lemma_front_up_to_bounds(t, c.node_id);
        let k = front_up_to(t, c.node_id) as int;
        let pre = t.subrange(0, k);
        let suf = t.subrange(k, t.len() as int);
        assert(t.insert(k, c) =~= pre + seq![c] + suf);
        assert(t =~= pre + suf);
        Seq::filter_distributes_over_add(pre + seq![c], suf, p);
        Seq::filter_distributes_over_add(pre, seq![c], p);
        Seq::filter_distributes_over_add(pre, suf, p);
        assert(seq![c].drop_last() =~= Seq::<FvkContribution>::empty());
        if c.node_id == id {
            assert forall|j: int| 0 <= j < suf.len() implies !p(suf[j]) by {
                assert(suf[j] == t[k + j]);
            }
            lemma_filter_none(suf, p);
            assert(pre.filter(p) + seq![c] + Seq::<FvkContribution>::empty() =~= pre.filter(p).push(c));
            assert(pre.filter(p) + Seq::<FvkContribution>::empty() =~= pre.filter(p));
        } else {
            assert(pre.filter(p) + Seq::<FvkContribution>::empty() =~= pre.filter(p));
        }
    }
}

/// Orders contributions by node id (insertion sort; equal ids keep their order).
pub fn sort_contributions_by_node(contributions: Vec<FvkContribution>) -> (res: Vec<FvkContribution>)
    ensures
        res@ == ordered_by_node(contributions@),
        sorted_by_node(res@),
        res@.to_multiset() == contributions@.to_multiset(),
        res@.len() == contributions@.len(),
{
    broadcast use vstd::multiset::group_multiset_axioms;

    let ghost input = contributions@;
    let mut sorted: Vec<FvkContribution> = Vec::new();
    let mut rest = contributions;
    proof {
        assert(input.subrange(0, 0) =~= Seq::<FvkContribution>::empty());
        assert(rest@ =~= input.subrange(0, input.len() as int));
    }
    while rest.len() > 0
        invariant
            sorted_by_node(sorted@),
            sorted@.to_multiset().add(rest@.to_multiset()) == input.to_multiset(),
            sorted@.len() + rest@.len() == input.len(),
            rest@ == input.subrange(input.len() - rest@.len(), input.len() as int),
            sorted@ == ordered_by_node(input.subrange(0, input.len() - rest@.len())),
        decreases rest@.len(),
    {
        let ghost before_rest = rest@;
        let ghost before_sorted = sorted@;
        let ghost i = input.len() - rest@.len();
        let c = rest.remove(0);
        let k = insertion_point(&sorted, c.node_id);
        sorted.insert(k, c);
        proof {
            assert(c == input[i]);
            lemma_front_up_to(before_sorted, c.node_id, k as int);
            let prefix = input.subrange(0, i + 1);
            assert(prefix.drop_last() =~= input.subrange(0, i));
            assert(prefix.last() == c);
            assert(rest@ =~= input.subrange(input.len() - rest@.len(), input.len() as int));
            assert(before_rest.to_multiset().contains(c));
            assert(sorted@.to_multiset() =~= before_sorted.to_multiset().insert(c));
            assert(rest@.to_multiset() =~= before_rest.to_multiset().remove(c));
            assert(sorted@.to_multiset().add(rest@.to_multiset()) =~= before_sorted.to_multiset().add(
                before_rest.to_multiset(),
            ));
            assert forall|a: int, b: int| 0 <= a < b < sorted@.len() implies sorted@[a].node_id
                <= sorted@[b].node_id by {
                if a < k && b == k {
                } else if a == k && b > k {
                } else {
                }
            }
        }
    }
    proof {
        assert(input.subrange(0, input.len() as int) =~= input);
        assert(rest@.to_multiset() =~= vstd::multiset::Multiset::<FvkContribution>::empty());
        assert(sorted@.to_multiset() =~= sorted@.to_multiset().add(rest@.to_multiset()));
    }
    sorted
}

/// The consensus network named "testnet" or "mainnet".
pub open spec fn consensus_from_name(name: Seq<char>) -> Option<ConsensusNetwork> {
    if name == "testnet"@ {
        Some(ConsensusNetwork::TestNetwork)
    } else if name == "mainnet"@ {
        Some(ConsensusNetwork::MainNetwork)
    } else {
        None
    }
}

/// Maps "testnet" and "mainnet" to their consensus network; any other name is an
/// error that carries it.
pub fn consensus_network_from_name(name: &str) -> (res: Result<ConsensusNetwork, BridgeError>)
    ensures
        consensus_from_name(name@) is Some ==> res == Ok::<ConsensusNetwork, BridgeError>(consensus_from_name(name@).unwrap()),
        consensus_from_name(name@) is None ==> (res matches Err(BridgeError::InvalidNetwork(s)) && s@ == name@),
{
    if text_eq(name, "testnet") {
        Ok(ConsensusNetwork::TestNetwork)
    } else if text_eq(name, "mainnet") {
        Ok(ConsensusNetwork::MainNetwork)
    } else {
        Err(BridgeError::InvalidNetwork(owned(name)))
    }
}

/// The bridge's unified address for an aggregated full viewing key and network name.
pub fn generate_ua_from_fvk(fvk: &OrchardFvk, network: &str) -> (res: Result<String, BridgeError>)
    ensures
        consensus_from_name(network@) is None ==> (res matches Err(BridgeError::InvalidNetwork(s)) && s@ == network@),
        consensus_from_name(network@) is Some ==> match ua_of_fvk(fvk.view(), consensus_address_network(consensus_from_name(network@).unwrap())) {
            Some(a) => res matches Ok(r) && r@ == a,
            None => res == Err::<String, BridgeError>(BridgeError::UnifiedEncodingFailed),
        },
{
    let net = consensus_network_from_name(network)?;
    BridgeAddressGenerator::generate_address_from_fvk(fvk, net)
}

/// The bridge's unified full viewing key for an aggregated key and network name.
pub fn encode_ufvk_from_fvk(fvk: &OrchardFvk, network: &str) -> (res: Result<String, BridgeError>)
    ensures
        consensus_from_name(network@) is None ==> (res matches Err(BridgeError::InvalidNetwork(s)) && s@ == network@),
        consensus_from_name(network@) is Some ==> match unified_fvk_encoding(fvk.view(), consensus_address_network(consensus_from_name(network@).unwrap())) {
            Some(a) => res matches Ok(r) && r@ == a,
            None => res == Err::<String, BridgeError>(BridgeError::UnifiedEncodingFailed),
        },
{
    let net = consensus_network_from_name(network)?;
    BridgeAddressGenerator::encode_ufvk(fvk, net)
}

/// After the FROST rounds: this node's Orchard shards from its signing share and the
/// group verifying key, and its public contribution to the full viewing key.
pub fn local_fvk_contribution(
    signing_share: &[u8],
    group_verifying_key: &[u8],
    node_id: u16,
) -> (res: Result<(OrchardKeyShards, FvkContribution), BridgeError>)
    ensures
        match orchard_shards(signing_share@, group_verifying_key@, node_id) {
            Ok((ask, nsk, rivk)) => res matches Ok((s, c)) && s.ask_share@ == ask && s.nsk_share@ == nsk
                && s.rivk@ == rivk && s.node_id == node_id && c.node_id == node_id
                && contribution_points(ask, nsk) == Ok::<(Seq<u8>, Seq<u8>), BridgeError>((c.ak_bytes@, c.nk_bytes@)),
            Err(e) => res == Err::<(OrchardKeyShards, FvkContribution), BridgeError>(e),
        },
{
    let shards = derive_orchard_shards_from_frost(signing_share, group_verifying_key, node_id)?;
    proof {
        crate::orchard_frost::lemma_derived_shards_contribute(signing_share@, group_verifying_key@, node_id);
    }
    let contribution = compute_fvk_contribution(&shards)?;
    Ok((shards, contribution))
}

/// When aggregation succeeds, the point sums of both components succeed.
proof fn lemma_aggregate_ok_sums_ok(cs: Seq<FvkContribution>, rivk: Seq<u8>)
    requires
        aggregate_outcome(cs, rivk) is Ok,
    ensures
        point_list_sum(components(cs, false)) is Ok,
        point_list_sum(components(cs, true)) is Ok,
{
}

/// The result of a ceremony, given the node's serialized FROST key package, the group
/// verifying key, the node's shards and the contributions of all nodes (ordered by
/// node id).
pub fn complete_ceremony(
    node_id: u16,
    key_package: &[u8],
    group_verifying_key: &[u8],
    orchard_shards: OrchardKeyShards,
    contributions: &Vec<FvkContribution>,
    network: &str,
) -> (res: Result<DkgResult, BridgeError>)
    ensures
        aggregate_outcome(contributions@, orchard_shards.rivk@) matches Err(e) ==> res == Err::<DkgResult, BridgeError>(e),
        aggregate_outcome(contributions@, orchard_shards.rivk@) is Ok && consensus_from_name(network@) is None ==> (res matches Err(BridgeError::InvalidNetwork(s)) && s@ == network@),
        aggregate_outcome(contributions@, orchard_shards.rivk@) is Ok && consensus_from_name(network@) is Some ==> ({
            let fvk = aggregate_outcome(contributions@, orchard_shards.rivk@)->Ok_0;
            let net = consensus_address_network(consensus_from_name(network@).unwrap());
            match (ua_of_fvk(fvk, net), unified_fvk_encoding(fvk, net)) {
                (Some(ua), Some(ufvk)) => res matches Ok(r) && r.node_id == node_id && r.key_share@ == key_package@
                    && r.group_verifying_key@ == group_verifying_key@ && r.orchard_shards == orchard_shards
                    && r.bridge_ua@ == ua && r.full_viewing_key@ == ufvk
                    && r.aggregated_ak@ == point_list_sum(components(contributions@, false))->Ok_0
                    && r.aggregated_nk@ == point_list_sum(components(contributions@, true))->Ok_0
                    && r.shared_rivk@ == orchard_shards.rivk@,
                _ => res == Err::<DkgResult, BridgeError>(BridgeError::UnifiedEncodingFailed),
            }
        }),
{
    let fvk = aggregate_fvk_contributions(contributions, orchard_shards.rivk.as_slice())?;
    proof {
        lemma_aggregate_ok_sums_ok(contributions@, orchard_shards.rivk@);
    }
    let ak = sum_contribution_points(contributions, false)?;
    let nk = sum_contribution_points(contributions, true)?;
    let bridge_ua = generate_ua_from_fvk(&fvk, network)?;
    let full_viewing_key = encode_ufvk_from_fvk(&fvk, network)?;
    let mut aggregated_ak: Vec<u8> = Vec::new();
    append_bytes(&mut aggregated_ak, ak.as_slice());
    let mut aggregated_nk: Vec<u8> = Vec::new();
    append_bytes(&mut aggregated_nk, nk.as_slice());
    let mut key_share: Vec<u8> = Vec::new();
    append_bytes(&mut key_share, key_package);
    let mut group_key: Vec<u8> = Vec::new();
    append_bytes(&mut group_key, group_verifying_key);
    let mut shared_rivk: Vec<u8> = Vec::new();
    append_bytes(&mut shared_rivk, orchard_shards.rivk.as_slice());
    Ok(DkgResult {
        node_id,
        key_share: key_share,
        group_verifying_key: group_key,
        orchard_shards,
        bridge_ua,
        full_viewing_key,
        aggregated_ak,
        aggregated_nk,
        shared_rivk,
    })
}

} // verus!
