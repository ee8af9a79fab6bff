use base64::Engine;
use bridge_custody::decimal::push_decimal;
use bridge_custody::error::BridgeError;
use bridge_custody::network_http::{
    local_post_url, next_poll_step, next_post_step, peer_map, post_url, receive_url, DkgMessage, DkgRound2Message,
    FetchOutcome, MessageBoard, MessageKind, PollStep, PostStep,
};
use bridge_custody::types::PeerInfo;
use std::collections::HashMap;

fn peers() -> HashMap<u16, String> {
    peer_map(&vec![
        PeerInfo { node_id: 2, address: "http://mpc-node2:8080".to_string() },
        PeerInfo { node_id: 3, address: "http://old:8080".to_string() },
        PeerInfo { node_id: 3, address: "http://mpc-node3:8080".to_string() },
    ])
}

#[test]
fn decimal_text_of_numbers() {
    for n in [0u64, 7, 10, 65535, 1234567890, u64::MAX] {
        let mut s = "x".to_string();
        push_decimal(&mut s, n);
        assert_eq!(s, format!("x{}", n));
    }
}

#[test]
fn later_peer_entries_replace_earlier_ones() {
    let table = peers();
    assert_eq!(table.len(), 2);
    assert_eq!(table.get(&3).unwrap(), "http://mpc-node3:8080");
}

#[test]
fn receive_urls() {
    let table = peers();
    assert_eq!(receive_url(1, &table, MessageKind::Round1, 1).unwrap(), "http://localhost:8080/api/dkg/round1/1");
    assert_eq!(receive_url(1, &table, MessageKind::Round1, 2).unwrap(), "http://mpc-node2:8080/api/dkg/round1/2");
    assert_eq!(receive_url(1, &table, MessageKind::Round2, 3).unwrap(), "http://mpc-node3:8080/api/dkg/round2/3/1");
    assert_eq!(
        receive_url(1, &table, MessageKind::SigningCommitments, 2).unwrap(),
        "http://mpc-node2:8080/api/signing/commitments/2"
    );
    assert_eq!(
        receive_url(3, &table, MessageKind::SignatureShares, 3).unwrap(),
        "http://localhost:8080/api/signing/shares/3"
    );
    assert_eq!(receive_url(1, &table, MessageKind::Round1, 9).unwrap_err(), BridgeError::UnknownPeer(9));
}

#[test]
fn post_urls() {
    assert_eq!(local_post_url(MessageKind::Round2), "http://localhost:8080/api/dkg/round2");
    assert_eq!(post_url("http://mpc-node2:8080", MessageKind::Round1), "http://mpc-node2:8080/api/dkg/round1");
    assert_eq!(post_url("http://n", MessageKind::FvkContributions), "http://n/api/dkg/fvk");
}

#[test]
fn messages_carry_base64_payloads() {
    let m = DkgMessage::encode(2, &[1, 2, 3, 250]);
    assert_eq!(m.from_node, 2);
    assert_eq!(m.data, base64::engine::general_purpose::STANDARD.encode([1u8, 2, 3, 250]));
    assert_eq!(m.payload().unwrap(), vec![1, 2, 3, 250]);
    let r = DkgRound2Message::encode(1, 3, b"hello");
    assert_eq!(r.data, "aGVsbG8=");
    assert_eq!((r.from_node, r.to_node), (1, 3));
    assert_eq!(r.payload().unwrap(), b"hello".to_vec());
    let bad = DkgMessage { from_node: 1, data: "***".to_string() };
    assert_eq!(bad.payload().unwrap_err(), BridgeError::InvalidBase64);
}

#[test]
fn poll_steps() {
    assert_eq!(next_poll_step(0, 29, FetchOutcome::Found, true), PollStep::Accept);
    assert_eq!(next_poll_step(29, 29, FetchOutcome::Found, false), PollStep::Accept);
    assert_eq!(next_poll_step(5, 29, FetchOutcome::NotFound, true), PollStep::Retry);
    assert_eq!(next_poll_step(28, 29, FetchOutcome::Failed, false), PollStep::Retry);
    assert_eq!(next_poll_step(29, 29, FetchOutcome::NotFound, true), PollStep::Exhausted);
    assert_eq!(next_poll_step(29, 29, FetchOutcome::NotFound, false), PollStep::TimedOut);
    assert_eq!(next_poll_step(29, 29, FetchOutcome::Failed, true), PollStep::TimedOut);
}

#[test]
fn post_steps() {
    assert_eq!(next_post_step(0, 4, true), PostStep::Delivered);
    assert_eq!(next_post_step(3, 4, false), PostStep::Retry);
    assert_eq!(next_post_step(4, 4, false), PostStep::GiveUp);
}

#[test]
fn board_read_after_write() {
    let mut board = MessageBoard::new();
    assert!(board.round1_message(1).is_none());
    board.post_round1(DkgMessage { from_node: 1, data: "AQ==".to_string() });
    board.post_round2(DkgRound2Message { from_node: 1, to_node: 2, data: "Ag==".to_string() });
    board.post_commitments(DkgMessage { from_node: 2, data: "Aw==".to_string() });
    board.post_shares(DkgMessage { from_node: 3, data: "BA==".to_string() });
    board.post_fvk_contribution(DkgMessage { from_node: 1, data: "BQ==".to_string() });
    let r1 = board.round1_message(1).unwrap();
    assert_eq!((r1.from_node, r1.data.as_str()), (1, "AQ=="));
    let r2 = board.round2_message(1, 2).unwrap();
    assert_eq!((r2.from_node, r2.to_node, r2.data.as_str()), (1, 2, "Ag=="));
    assert!(board.round2_message(2, 1).is_none());
    assert_eq!(board.commitments_message(2).unwrap().data, "Aw==");
    assert_eq!(board.shares_message(3).unwrap().data, "BA==");
    assert_eq!(board.fvk_contribution_message(1).unwrap().data, "BQ==");
    assert!(board.commitments_message(1).is_none());
    board.post_round1(DkgMessage { from_node: 1, data: "Bg==".to_string() });
    assert_eq!(board.round1_message(1).unwrap().data, "Bg==");
}
