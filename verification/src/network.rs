//! The shared message store of the in-memory node network: one mailbox per DKG
//! round and per FROST signing phase, keyed by sender (and receiver in round 2).

use vstd::prelude::*;
use std::collections::HashMap;
use crate::network_http::{poll_step, FetchOutcome, PollStep};
use std::sync::{Arc, Mutex};

verus! {

broadcast use vstd::std_specs::hash::group_hash_axioms;

/// The key of a round-2 message from `from` to `to`.
pub open spec fn pair_key(from: u16, to: u16) -> u32 {
    (from as int * 65536 + to as int) as u32
}

/// Distinct sender/receiver pairs have distinct keys.
pub proof fn lemma_pair_key_injective(a: u16, b: u16, c: u16, d: u16)
    ensures
        pair_key(a, b) == pair_key(c, d) <==> (a == c && b == d),
{
    assert(0 <= a as int * 65536 + b as int <= 0xffff_ffff);
    assert(0 <= c as int * 65536 + d as int <= 0xffff_ffff);
}

fn round2_key(from: u16, to: u16) -> (k: u32)
    ensures
        k == pair_key(from, to),
{
    (from as u32) * 65536 + (to as u32)
}

/// The messages of a mailbox as byte sequences.
pub open spec fn mailbox_view(m: Map<u16, Vec<u8>>) -> Map<u16, Seq<u8>> {
    m.map_values(|v: Vec<u8>| v@)
}

/// The messages posted on the network.
pub struct NetworkStorage {
    round1_messages: HashMap<u16, Vec<u8>>,
    round2_messages: HashMap<u32, Vec<u8>>,
    commitments: HashMap<u16, Vec<u8>>,
    signature_shares: HashMap<u16, Vec<u8>>,
}

impl NetworkStorage {
    /// DKG round-1 packages by sender.
    pub closed spec fn round1(&self) -> Map<u16, Seq<u8>> {
        mailbox_view(self.round1_messages@)
    }

    /// DKG round-2 packages by (sender, receiver).
    pub closed spec fn round2(&self) -> Map<(u16, u16), Seq<u8>> {
        Map::new(
            |k: (u16, u16)| self.round2_messages@.contains_key(pair_key(k.0, k.1)),
            |k: (u16, u16)| self.round2_messages@[pair_key(k.0, k.1)]@,
        )
    }

    /// Signing commitments by sender.
    pub closed spec fn commitments(&self) -> Map<u16, Seq<u8>> {
        mailbox_view(self.commitments@)
    }

    /// Signature shares by sender.
    pub closed spec fn signature_shares(&self) -> Map<u16, Seq<u8>> {
        mailbox_view(self.signature_shares@)
    }

    /// Posts the round-1 package of `from`, replacing an earlier one.
    pub fn post_round1(&mut self, from: u16, data: Vec<u8>)
        ensures
            final(self).round1() == old(self).round1().insert(from, data@),
            final(self).round2() == old(self).round2(),
            final(self).commitments() == old(self).commitments(),
            final(self).signature_shares() == old(self).signature_shares(),
    {
        let ghost d = data@;
        self.round1_messages.insert(from, data);
        proof {
            assert(self.round1() =~= old(self).round1().insert(from, d));
            assert(self.round2() =~= old(self).round2());
        }
    }

    /// The round-1 package of `from`, if posted.
    pub fn round1_from(&self, from: u16) -> (res: Option<Vec<u8>>)
        ensures
            match res {
                Some(v) => self.round1().contains_key(from) && v@ == self.round1()[from],
                None => !self.round1().contains_key(from),
            },
    {
        match self.round1_messages.get(&from) {
            Some(v) => Some(v.clone()),
            None => None,
        }
    }

    /// Posts the round-2 package from `from` to `to`, replacing an earlier one.
    pub fn post_round2(&mut self, from: u16, to: u16, data: Vec<u8>)
        ensures
            final(self).round2() == old(self).round2().insert((from, to), data@),
            final(self).round1() == old(self).round1(),
            final(self).commitments() == old(self).commitments(),
            final(self).signature_shares() == old(self).signature_shares(),
    {
        let ghost d = data@;
        let k = round2_key(from, to);
        self.round2_messages.insert(k, data);
        proof {
            assert forall|p: (u16, u16)| #[trigger] self.round2().contains_key(p) == old(self).round2().insert(
                (from, to),
                d,
            ).contains_key(p) by {
                lemma_pair_key_injective(p.0, p.1, from, to);
            }
            assert forall|p: (u16, u16)| #[trigger] self.round2().contains_key(p) implies self.round2()[p]
                == old(self).round2().insert((from, to), d)[p] by {
                lemma_pair_key_injective(p.0, p.1, from, to);
            }
            assert(self.round2() =~= old(self).round2().insert((from, to), d));
            assert(self.round1() =~= old(self).round1());
        }
    }

    /// The round-2 package from `from` to `to`, if posted.
    pub fn round2_from(&self, from: u16, to: u16) -> (res: Option<Vec<u8>>)
        ensures
            match res {
                Some(v) => self.round2().contains_key((from, to)) && v@ == self.round2()[(from, to)],
                None => !self.round2().contains_key((from, to)),
            },
    {
        let k = round2_key(from, to);
        match self.round2_messages.get(&k) {
            Some(v) => Some(v.clone()),
            None => None,
        }
    }

    /// Posts the signing commitments of `node`, replacing earlier ones.
    pub fn post_commitments(&mut self, node: u16, data: Vec<u8>)
        ensures
            final(self).commitments() == old(self).commitments().insert(node, data@),
            final(self).round1() == old(self).round1(),
            final(self).round2() == old(self).round2(),
            final(self).signature_shares() == old(self).signature_shares(),
    {
        let ghost d = data@;
        self.commitments.insert(node, data);
        proof {
            assert(self.commitments() =~= old(self).commitments().insert(node, d));
            assert(self.round2() =~= old(self).round2());
        }
    }

    /// The signing commitments of `from`, if posted.
    pub fn commitments_from(&self, from: u16) -> (res: Option<Vec<u8>>)
        ensures
            match res {
                Some(v) => self.commitments().contains_key(from) && v@ == self.commitments()[from],
                None => !self.commitments().contains_key(from),
            },
    {
        match self.commitments.get(&from) {
            Some(v) => Some(v.clone()),
            None => None,
        }
    }

    /// Posts the signature share of `node`, replacing an earlier one.
    pub fn post_signature_shares(&mut self, node: u16, data: Vec<u8>)
        ensures
            final(self).signature_shares() == old(self).signature_shares().insert(node, data@),
            final(self).round1() == old(self).round1(),
            final(self).round2() == old(self).round2(),
            final(self).commitments() == old(self).commitments(),
    {
        let ghost d = data@;
        self.signature_shares.insert(node, data);
        proof {
            assert(self.signature_shares() =~= old(self).signature_shares().insert(node, d));
            assert(self.round2() =~= old(self).round2());
        }
    }

    /// The signature share of `from`, if posted.
    pub fn signature_shares_from(&self, from: u16) -> (res: Option<Vec<u8>>)
        ensures
            match res {
                Some(v) => self.signature_shares().contains_key(from) && v@ == self.signature_shares()[from],
                None => !self.signature_shares().contains_key(from),
            },
    {
        match self.signature_shares.get(&from) {
            Some(v) => Some(v.clone()),
            None => None,
        }
    }
}

impl Default for NetworkStorage {
    /// An empty network: no message in any mailbox.
    fn default() -> (res: Self)
        ensures
            res.round1() == Map::<u16, Seq<u8>>::empty(),
            res.round2() == Map::<(u16, u16), Seq<u8>>::empty(),
            res.commitments() == Map::<u16, Seq<u8>>::empty(),
            res.signature_shares() == Map::<u16, Seq<u8>>::empty(),
    {
        let res = NetworkStorage {
            round1_messages: HashMap::new(),
            round2_messages: HashMap::new(),
            commitments: HashMap::new(),
            signature_shares: HashMap::new(),
        };
        proof {
            assert(res.round1() =~= Map::<u16, Seq<u8>>::empty());
            assert(res.round2() =~= Map::<(u16, u16), Seq<u8>>::empty());
            assert(res.commitments() =~= Map::<u16, Seq<u8>>::empty());
            assert(res.signature_shares() =~= Map::<u16, Seq<u8>>::empty());
        }
        res
    }
}

/// A message posted to a mailbox is what a later read of that key gives back, and
/// the other keys read as before.
pub proof fn lemma_mailbox_read_after_write<K>(before: Map<K, Seq<u8>>, after: Map<K, Seq<u8>>, key: K, data: Seq<
    u8,
>)
    requires
        after == before.insert(key, data),
    ensures
        after.contains_key(key),
        after[key] == data,
        forall|other: K| other != key ==> (#[trigger] after.contains_key(other) == before.contains_key(other)),
        forall|other: K| other != key && before.contains_key(other) ==> #[trigger] after[other] == before[other],
{
}

/// `std::sync::Mutex`, held opaque: the library only hands it on.
#[verifier::external_type_specification]
#[verifier::external_body]
#[verifier::reject_recursive_types(T)]
pub struct ExMutex<T: ?Sized>(Mutex<T>);

/// The storage a lock was created holding. This is a fact of the lock's creation
/// only: what the lock holds later changes behind shared references and is not named.
pub uninterp spec fn lock_initial_storage(lock: Mutex<NetworkStorage>) -> NetworkStorage;

/// `Mutex::new(storage)`: a new unlocked lock created holding `storage`. What it
/// holds after later locking is not stated.
#[verifier::external_body]
fn new_lock(storage: NetworkStorage) -> (res: Mutex<NetworkStorage>)
    ensures
        lock_initial_storage(res) == storage,
{
    Mutex::new(storage)
}

/// A node's handle on the shared network.
#[derive(Clone)]
pub struct NetworkClient {
    pub node_id: u16,
    pub storage: Arc<Mutex<NetworkStorage>>,
}

impl NetworkClient {
    /// The handle of node `node_id` on `storage`.
    pub fn new(node_id: u16, storage: Arc<Mutex<NetworkStorage>>) -> (res: Self)
        ensures
            res.node_id == node_id,
            res.storage == storage,
    {
        NetworkClient { node_id, storage }
    }
}

/// A fresh network shared behind a lock; it starts with every mailbox empty.
pub fn create_shared_network() -> (res: Arc<Mutex<NetworkStorage>>)
    ensures
        lock_initial_storage(*res).round1() == Map::<u16, Seq<u8>>::empty(),
        lock_initial_storage(*res).round2() == Map::<(u16, u16), Seq<u8>>::empty(),
        lock_initial_storage(*res).commitments() == Map::<u16, Seq<u8>>::empty(),
        lock_initial_storage(*res).signature_shares() == Map::<u16, Seq<u8>>::empty(),
{
    let storage = NetworkStorage::default();
    Arc::new(new_lock(storage))
}

/// The last attempt (from 0) of waiting for a message on the shared network: a node
/// looks 100 times.
pub const RECEIVE_LAST_ATTEMPT: u32 = 99;

/// Waiting for a message that was never posted looks for it on attempts 0 to 99 and
/// then times out: 100 looks in all, retrying after each but the last.
pub proof fn lemma_missing_message_times_out(attempt: u32)
    requires
        attempt <= RECEIVE_LAST_ATTEMPT,
    ensures
        attempt < RECEIVE_LAST_ATTEMPT ==> poll_step(attempt, RECEIVE_LAST_ATTEMPT, FetchOutcome::NotFound, false)
            == PollStep::Retry,
        attempt == RECEIVE_LAST_ATTEMPT ==> poll_step(attempt, RECEIVE_LAST_ATTEMPT, FetchOutcome::NotFound, false)
            == PollStep::TimedOut,
{
}

} // verus!
