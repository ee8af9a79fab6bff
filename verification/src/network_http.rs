//! The HTTP transport between nodes: message framing (base64 payloads), the URLs a
//! node posts to and polls, the peer table, the retry decisions of posting and
//! polling, and the message board a node's server keeps.

use vstd::prelude::*;
use vstd::string::*;
use crate::decimal::{decimal_text, push_decimal};
use crate::error::BridgeError;
use crate::network::{lemma_pair_key_injective, pair_key};
use crate::text::owned;
use crate::types::PeerInfo;
use base64::Engine;
use std::collections::HashMap;

verus! {

broadcast use {vstd::std_specs::hash::group_hash_axioms, vstd::string::group_string_axioms};

/// The standard base64 text (with padding) of some bytes.
pub uninterp spec fn base64_encoding(data: Seq<u8>) -> Seq<char>;

/// The bytes a standard base64 text decodes to, when it is canonical base64.
pub uninterp spec fn base64_decoding(text: Seq<char>) -> Option<Seq<u8>>;

/// `general_purpose::STANDARD.encode(data)` of the `base64` crate. Its output uses
/// canonical padding, which the same engine decodes back to `data`.
#[verifier::external_body]
fn base64_encode(data: &[u8]) -> (res: String)
    ensures
        res@ == base64_encoding(data@),
        base64_decoding(res@) == Some(data@),
{
    base64::engine::general_purpose::STANDARD.encode(data)
}

/// `general_purpose::STANDARD.decode(text)` of the `base64` crate, its error dropped.
#[verifier::external_body]
fn base64_decode(text: &str) -> (res: Option<Vec<u8>>)
    ensures
        match base64_decoding(text@) {
            Some(b) => res matches Some(v) && v@ == b,
            None => res is None,
        },
{
    base64::engine::general_purpose::STANDARD.decode(text).ok()
}

/// A DKG round-1, commitment or share message: sender and base64 payload.
#[derive(Debug, Clone)]
pub struct DkgMessage {
    pub from_node: u16,
    pub data: String,
}

/// A DKG round-2 message: sender, receiver and base64 payload.
#[derive(Debug, Clone)]
pub struct DkgRound2Message {
    pub from_node: u16,
    pub to_node: u16,
    pub data: String,
}

/// The payload of a message, or the error of a payload that is not base64.
pub open spec fn payload_of(data: Seq<char>) -> Result<Seq<u8>, BridgeError> {
    match base64_decoding(data) {
        Some(b) => Ok(b),
        None => Err(BridgeError::InvalidBase64),
    }
}

/// Decodes a base64 payload.
fn decode_payload(data: &String) -> (res: Result<Vec<u8>, BridgeError>)
    ensures
        match payload_of(data@) {
            Ok(b) => res matches Ok(v) && v@ == b,
            Err(e) => res == Err::<Vec<u8>, BridgeError>(e),
        },
{
    match base64_decode(data.as_str()) {
        Some(v) => Ok(v),
        None => Err(BridgeError::InvalidBase64),
    }
}

impl DkgMessage {
    /// The message carrying `data` from `from_node`; its payload decodes back to `data`.
    pub fn encode(from_node: u16, data: &[u8]) -> (res: Self)
        ensures
            res.from_node == from_node,
            res.data@ == base64_encoding(data@),
            payload_of(res.data@) == Ok::<Seq<u8>, BridgeError>(data@),
    {
        DkgMessage { from_node, data: base64_encode(data) }
    }

    /// The bytes the message carries.
    pub fn payload(&self) -> (res: Result<Vec<u8>, BridgeError>)
        ensures
            match payload_of(self.data@) {
                Ok(b) => res matches Ok(v) && v@ == b,
                Err(e) => res == Err::<Vec<u8>, BridgeError>(e),
            },
    {
        decode_payload(&self.data)
    }
}

impl DkgRound2Message {
    /// The message carrying `data` from `from_node` to `to_node`; its payload decodes
    /// back to `data`.
    pub fn encode(from_node: u16, to_node: u16, data: &[u8]) -> (res: Self)
        ensures
            res.from_node == from_node,
            res.to_node == to_node,
            res.data@ == base64_encoding(data@),
            payload_of(res.data@) == Ok::<Seq<u8>, BridgeError>(data@),
    {
        DkgRound2Message { from_node, to_node, data: base64_encode(data) }
    }

    /// The bytes the message carries.
    pub fn payload(&self) -> (res: Result<Vec<u8>, BridgeError>)
        ensures
            match payload_of(self.data@) {
                Ok(b) => res matches Ok(v) && v@ == b,
                Err(e) => res == Err::<Vec<u8>, BridgeError>(e),
            },
    {
        decode_payload(&self.data)
    }
}

/// The kinds of message nodes exchange.
#[derive(Debug, Clone, Copy, PartialEq, Eq, Structural)]
pub enum MessageKind {
    Round1,
    Round2,
    SigningCommitments,
    SignatureShares,
    FvkContributions,
}

/// The endpoint path of a kind of message.
pub open spec fn kind_path(kind: MessageKind) -> Seq<char> {
    match kind {
        MessageKind::Round1 => "/api/dkg/round1"@,
        MessageKind::Round2 => "/api/dkg/round2"@,
        MessageKind::SigningCommitments => "/api/signing/commitments"@,
        MessageKind::SignatureShares => "/api/signing/shares"@,
        MessageKind::FvkContributions => "/api/dkg/fvk"@,
    }
}

fn path_of(kind: MessageKind) -> (res: &'static str)
    ensures
        res@ == kind_path(kind),
{
    match kind {
        MessageKind::Round1 => "/api/dkg/round1",
        MessageKind::Round2 => "/api/dkg/round2",
        MessageKind::SigningCommitments => "/api/signing/commitments",
        MessageKind::SignatureShares => "/api/signing/shares",
        MessageKind::FvkContributions => "/api/dkg/fvk",
    }
}

/// The node's own server, where its messages are stored first.
pub open spec fn local_server() -> Seq<char> {
    "http://localhost:8080"@
}

/// Where a message of a kind is posted on the server at `base`.
pub fn post_url(base: &str, kind: MessageKind) -> (res: String)
    ensures
        res@ == base@ + kind_path(kind),
{
    let mut url = owned(base);
    url.append(path_of(kind));
    url
}

/// Where a message of a kind is posted on the node's own server.
pub fn local_post_url(kind: MessageKind) -> (res: String)
    ensures
        res@ == local_server() + kind_path(kind),
{
    post_url("http://localhost:8080", kind)
}

/// The URL polled for the message of a kind from node `from`, as node `me` with this
/// peer table: on its own server for its own messages, on the sender's otherwise;
/// round 2 also names the receiver. A sender that is neither `me` nor a peer is an
/// error.
pub open spec fn receive_url_of(me: u16, peers: Map<u16, String>, kind: MessageKind, from: u16) -> Result<
    Seq<char>,
    BridgeError,
> {
    if from != me && !peers.contains_key(from) {
        Err(BridgeError::UnknownPeer(from))
    } else {
        let base = if from == me {
            local_server()
        } else {
            peers[from]@
        };
        let path = base + kind_path(kind) + "/"@ + decimal_text(from as nat);
        Ok(
            if kind == MessageKind::Round2 {
                path + "/"@ + decimal_text(me as nat)
            } else {
                path
            },
        )
    }
}

/// The URL to poll for the message of a kind from node `from`.
pub fn receive_url(me: u16, peers: &HashMap<u16, String>, kind: MessageKind, from: u16) -> (res: Result<
    String,
    BridgeError,
>)
    ensures
        match receive_url_of(me, peers@, kind, from) {
            Ok(u) => res matches Ok(s) && s@ == u,
            Err(e) => res == Err::<String, BridgeError>(e),
        },
{
    let mut url = if from == me {
        owned("http://localhost:8080")
    } else {
        match peers.get(&from) {
            Some(addr) => addr.clone(),
            None => return Err(BridgeError::UnknownPeer(from)),
        }
    };
    url.append(path_of(kind));
    url.append("/");
    push_decimal(&mut url, from as u64);
    if kind == MessageKind::Round2 {
        url.append("/");
        push_decimal(&mut url, me as u64);
    }
    Ok(url)
}

/// The peer table of a peer list: each node's address, a later entry for the same
/// node replacing an earlier one.
pub open spec fn peer_table(peers: Seq<PeerInfo>) -> Map<u16, String>
    decreases peers.len(),
{
    if peers.len() == 0 {
        Map::empty()
    } else {
        peer_table(peers.drop_last()).insert(peers.last().node_id, peers.last().address)
    }
}

/// The peer table of the configured peers.
pub fn peer_map(peers: &Vec<PeerInfo>) -> (res: HashMap<u16, String>)
    ensures
        res@ == peer_table(peers@),
{
    let mut table: HashMap<u16, String> = HashMap::new();
    let mut i: usize = 0;
    while i < peers.len()
        invariant
            0 <= i <= peers@.len(),
            table@ == peer_table(peers@.subrange(0, i as int)),
        decreases peers@.len() - i,
    {
        proof {
            assert(peers@.subrange(0, i + 1).drop_last() =~= peers@.subrange(0, i as int));
        }
        table.insert(peers[i].node_id, peers[i].address.clone());
        i = i + 1;
    }
    proof {
        assert(peers@.subrange(0, i as int) =~= peers@);
    }
    table
}

/// The last attempt (from 0) of posting a message to a node's server: 5 tries.
pub const POST_LAST_ATTEMPT: u32 = 4;

/// The last attempt (from 0) of polling a node's server for a message: 30 tries.
pub const POLL_LAST_ATTEMPT: u32 = 29;

/// What came back from polling a server for a message.
#[derive(Debug, Clone, Copy, PartialEq, Eq, Structural)]
pub enum FetchOutcome {
    /// The message was there.
    Found,
    /// The server answered that it has no such message yet.
    NotFound,
    /// The request failed or the server answered otherwise.
    Failed,
}

/// What a poller does next.
#[derive(Debug, Clone, Copy, PartialEq, Eq, Structural)]
pub enum PollStep {
    /// Take the message.
    Accept,
    /// Wait and poll again.
    Retry,
    /// Give up: the last attempt failed.
    TimedOut,
    /// Give up: the message never appeared.
    Exhausted,
}

/// The step after attempt number `attempt` (from 0) of a poll limited to attempts
/// `0..=last`. A found message is taken; before the last attempt anything else is
/// retried; at the last attempt a "not found" exhausts the poll where the poller
/// tells it apart, and anything else times it out.
pub open spec fn poll_step(attempt: u32, last: u32, outcome: FetchOutcome, tells_not_found: bool) -> PollStep {
    if outcome == FetchOutcome::Found {
        PollStep::Accept
    } else if attempt < last {
        PollStep::Retry
    } else if outcome == FetchOutcome::NotFound && tells_not_found {
        PollStep::Exhausted
    } else {
        PollStep::TimedOut
    }
}

/// Decides the step of a poll.
pub fn next_poll_step(attempt: u32, last: u32, outcome: FetchOutcome, tells_not_found: bool) -> (res: PollStep)
    ensures
        res == poll_step(attempt, last, outcome, tells_not_found),
        res == PollStep::Retry ==> attempt < last,
{
    match outcome {
        FetchOutcome::Found => PollStep::Accept,
        _ => {
            if attempt < last {
                PollStep::Retry
            } else if outcome == FetchOutcome::NotFound && tells_not_found {
                PollStep::Exhausted
            } else {
                PollStep::TimedOut
            }
        },
    }
}

/// What a poster does next.
#[derive(Debug, Clone, Copy, PartialEq, Eq, Structural)]
pub enum PostStep {
    Delivered,
    Retry,
    GiveUp,
}

/// The step after attempt `attempt` of a post limited to attempts `0..=last`.
pub open spec fn post_step(attempt: u32, last: u32, delivered: bool) -> PostStep {
    if delivered {
        PostStep::Delivered
    } else if attempt < last {
        PostStep::Retry
    } else {
        PostStep::GiveUp
    }
}

/// Decides the step of a post.
pub fn next_post_step(attempt: u32, last: u32, delivered: bool) -> (res: PostStep)
    ensures
        res == post_step(attempt, last, delivered),
{
    if delivered {
        PostStep::Delivered
    } else if attempt < last {
        PostStep::Retry
    } else {
        PostStep::GiveUp
    }
}

/// A poll or post retries only before its last attempt, so it makes at most `last + 1`
/// attempts; a found or delivered message always ends it.
pub proof fn lemma_attempts_are_bounded(attempt: u32, last: u32, outcome: FetchOutcome, tells: bool, delivered: bool)
    ensures
        poll_step(attempt, last, outcome, tells) == PollStep::Retry ==> attempt < last,
        post_step(attempt, last, delivered) == PostStep::Retry ==> attempt < last,
        outcome == FetchOutcome::Found ==> poll_step(attempt, last, outcome, tells) == PollStep::Accept,
        delivered ==> post_step(attempt, last, delivered) == PostStep::Delivered,
        attempt >= last ==> poll_step(attempt, last, outcome, tells) != PollStep::Retry,
        attempt >= last ==> post_step(attempt, last, delivered) != PostStep::Retry,
{
}

/// The messages a node's server holds, as the base64 texts it was sent.
pub struct MessageBoard {
    round1: HashMap<u16, String>,
    round2: HashMap<u32, String>,
    commitments: HashMap<u16, String>,
    shares: HashMap<u16, String>,
    fvk: HashMap<u16, String>,
}

impl MessageBoard {
    /// Round-1 payloads by sender.
    pub closed spec fn round1_view(&self) -> Map<u16, String> {
        self.round1@
    }

    /// Round-2 payloads by (sender, receiver).
    pub closed spec fn round2_view(&self) -> Map<(u16, u16), String> {
        Map::new(
            |k: (u16, u16)| self.round2@.contains_key(pair_key(k.0, k.1)),
            |k: (u16, u16)| self.round2@[pair_key(k.0, k.1)],
        )
    }

    /// Commitment payloads by sender.
    pub closed spec fn commitments_view(&self) -> Map<u16, String> {
        self.commitments@
    }

    /// Signature share payloads by sender.
    pub closed spec fn shares_view(&self) -> Map<u16, String> {
        self.shares@
    }

    /// FVK contribution payloads by sender.
    pub closed spec fn fvk_view(&self) -> Map<u16, String> {
        self.fvk@
    }

    /// An empty board.
    pub fn new() -> (res: Self)
        ensures
            res.round1_view() == Map::<u16, String>::empty(),
            res.round2_view() == Map::<(u16, u16), String>::empty(),
            res.commitments_view() == Map::<u16, String>::empty(),
            res.shares_view() == Map::<u16, String>::empty(),
            res.fvk_view() == Map::<u16, String>::empty(),
    {
        let res = MessageBoard {
            round1: HashMap::new(),
            round2: HashMap::new(),
            commitments: HashMap::new(),
            shares: HashMap::new(),
            fvk: HashMap::new(),
        };
        proof {
            assert(res.round2_view() =~= Map::<(u16, u16), String>::empty());
        }
        res
    }

    /// Stores a round-1 message under its sender.
    pub fn post_round1(&mut self, msg: DkgMessage)
        ensures
            final(self).round1_view() == old(self).round1_view().insert(msg.from_node, msg.data),
            final(self).round2_view() == old(self).round2_view(),
            final(self).commitments_view() == old(self).commitments_view(),
            final(self).shares_view() == old(self).shares_view(),
            final(self).fvk_view() == old(self).fvk_view(),
    {
        self.round1.insert(msg.from_node, msg.data);
        proof {
            assert(self.round2_view() =~= old(self).round2_view());
        }
    }

    /// The round-1 message of `node`, if stored.
    pub fn round1_message(&self, node: u16) -> (res: Option<DkgMessage>)
        ensures
            match res {
                Some(m) => self.round1_view().contains_key(node) && m.from_node == node && m.data
                    == self.round1_view()[node],
                None => !self.round1_view().contains_key(node),
            },
    {
        match self.round1.get(&node) {
            Some(d) => Some(DkgMessage { from_node: node, data: d.clone() }),
            None => None,
        }
    }

    /// Stores a round-2 message under its sender and receiver.
    pub fn post_round2(&mut self, msg: DkgRound2Message)
        ensures
            final(self).round2_view() == old(self).round2_view().insert((msg.from_node, msg.to_node), msg.data),
            final(self).round1_view() == old(self).round1_view(),
            final(self).commitments_view() == old(self).commitments_view(),
            final(self).shares_view() == old(self).shares_view(),
            final(self).fvk_view() == old(self).fvk_view(),
    {
        let ghost from = msg.from_node;
        let ghost to = msg.to_node;
        let ghost d = msg.data;
        let k = (msg.from_node as u32) * 65536 + (msg.to_node as u32);
        self.round2.insert(k, msg.data);
        proof {
            assert(k == pair_key(from, to));
            assert forall|p: (u16, u16)| #[trigger] self.round2_view().contains_key(p)
                == old(self).round2_view().insert((from, to), d).contains_key(p) by {
                lemma_pair_key_injective(p.0, p.1, from, to);
            }
            assert forall|p: (u16, u16)| #[trigger] self.round2_view().contains_key(p) implies self.round2_view()[p]
                == old(self).round2_view().insert((from, to), d)[p] by {
                lemma_pair_key_injective(p.0, p.1, from, to);
            }
            assert(self.round2_view() =~= old(self).round2_view().insert((from, to), d));
        }
    }

    /// The round-2 message from `from` to `to`, if stored.
    pub fn round2_message(&self, from: u16, to: u16) -> (res: Option<DkgRound2Message>)
        ensures
            match res {
                Some(m) => self.round2_view().contains_key((from, to)) && m.from_node == from && m.to_node == to
                    && m.data == self.round2_view()[(from, to)],
                None => !self.round2_view().contains_key((from, to)),
            },
    {
        let k = (from as u32) * 65536 + (to as u32);
        proof {
            assert(k == pair_key(from, to));
        }
        match self.round2.get(&k) {
            Some(d) => Some(DkgRound2Message { from_node: from, to_node: to, data: d.clone() }),
            None => None,
        }
    }

    /// Stores signing commitments under their sender.
    pub fn post_commitments(&mut self, msg: DkgMessage)
        ensures
            final(self).commitments_view() == old(self).commitments_view().insert(msg.from_node, msg.data),
            final(self).round1_view() == old(self).round1_view(),
            final(self).round2_view() == old(self).round2_view(),
            final(self).shares_view() == old(self).shares_view(),
            final(self).fvk_view() == old(self).fvk_view(),
    {
        self.commitments.insert(msg.from_node, msg.data);
        proof {
            assert(self.round2_view() =~= old(self).round2_view());
        }
    }

    /// The signing commitments of `node`, if stored.
    pub fn commitments_message(&self, node: u16) -> (res: Option<DkgMessage>)
        ensures
            match res {
                Some(m) => self.commitments_view().contains_key(node) && m.from_node == node && m.data
                    == self.commitments_view()[node],
                None => !self.commitments_view().contains_key(node),
            },
    {
        match self.commitments.get(&node) {
            Some(d) => Some(DkgMessage { from_node: node, data: d.clone() }),
            None => None,
        }
    }

    /// Stores a signature share under its sender.
    pub fn post_shares(&mut self, msg: DkgMessage)
        ensures
            final(self).shares_view() == old(self).shares_view().insert(msg.from_node, msg.data),
            final(self).round1_view() == old(self).round1_view(),
            final(self).round2_view() == old(self).round2_view(),
            final(self).commitments_view() == old(self).commitments_view(),
            final(self).fvk_view() == old(self).fvk_view(),
    {
        self.shares.insert(msg.from_node, msg.data);
        proof {
            assert(self.round2_view() =~= old(self).round2_view());
        }
    }

    /// The signature share of `node`, if stored.
    pub fn shares_message(&self, node: u16) -> (res: Option<DkgMessage>)
        ensures
            match res {
                Some(m) => self.shares_view().contains_key(node) && m.from_node == node && m.data
                    == self.shares_view()[node],
                None => !self.shares_view().contains_key(node),
            },
    {
        match self.shares.get(&node) {
            Some(d) => Some(DkgMessage { from_node: node, data: d.clone() }),
            None => None,
        }
    }

    /// Stores an FVK contribution under its sender.
    pub fn post_fvk_contribution(&mut self, msg: DkgMessage)
        ensures
            final(self).fvk_view() == old(self).fvk_view().insert(msg.from_node, msg.data),
            final(self).round1_view() == old(self).round1_view(),
            final(self).round2_view() == old(self).round2_view(),
            final(self).commitments_view() == old(self).commitments_view(),
            final(self).shares_view() == old(self).shares_view(),
    {
        self.fvk.insert(msg.from_node, msg.data);
        proof {
            assert(self.round2_view() =~= old(self).round2_view());
        }
    }

    /// The FVK contribution of `node`, if stored.
    pub fn fvk_contribution_message(&self, node: u16) -> (res: Option<DkgMessage>)
        ensures
            match res {
                Some(m) => self.fvk_view().contains_key(node) && m.from_node == node && m.data == self.fvk_view()[node],
                None => !self.fvk_view().contains_key(node),
            },
    {
        match self.fvk.get(&node) {
            Some(d) => Some(DkgMessage { from_node: node, data: d.clone() }),
            None => None,
        }
    }
}

} // verus!
