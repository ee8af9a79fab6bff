use bridge_custody::attestation_service::{attestation_stats, failed_record, submitted_record, AttestationServiceConfig};
use bridge_custody::error::BridgeError;
use bridge_custody::solana_client::AttestationSubmitResult;
use bridge_custody::types::{AttestationStatus, EnclaveAttestation};
use bridge_custody::withdrawal_service::{
    apply_operation_report, awaiting_zcash, burn_intent_from_pending_item, finalization_txid, mark_finalized,
    withdrawal_stats, BurnIntent, BurnStatus, OperationReport, WithdrawalAction, WithdrawalRecord,
    WithdrawalServiceConfig, WithdrawalStatus,
};
use std::time::Duration;

fn attestation() -> EnclaveAttestation {
    EnclaveAttestation {
        note_commitment: "11".repeat(32),
        amount: 100_000,
        recipient_solana: "22".repeat(32),
        block_height: 3_000_000,
        enclave_signature: "33".repeat(64),
        enclave_pubkey: "44".repeat(32),
    }
}

fn burn() -> BurnIntent {
    BurnIntent {
        burn_id: 7,
        user: [9u8; 32],
        amount: 50_000,
        status: BurnStatus::Processing,
        encrypted_data_hash: [0u8; 32],
        zcash_txid: [0u8; 32],
    }
}

#[test]
fn attestation_service_test_config_default() {
    let config = AttestationServiceConfig::default();
    assert_eq!(config.poll_interval, Duration::from_secs(10));
    assert_eq!(config.max_retries, 3);
}

#[test]
fn attestation_retry_delay_default() {
    assert_eq!(AttestationServiceConfig::default().retry_delay, Duration::from_secs(5));
}

#[test]
fn withdrawal_service_test_config_default() {
    let config = WithdrawalServiceConfig::default();
    assert_eq!(config.poll_interval, Duration::from_secs(15));
    assert_eq!(config.max_retries, 3);
    assert_eq!(config.min_zcash_confirmations, 2);
}

#[test]
fn withdrawal_retry_delay_default() {
    assert_eq!(WithdrawalServiceConfig::default().retry_delay, Duration::from_secs(10));
}

#[test]
fn test_burn_status_conversion() {
    assert_eq!(BurnStatus::from(0), BurnStatus::Pending);
    assert_eq!(BurnStatus::from(1), BurnStatus::Processing);
    assert_eq!(BurnStatus::from(2), BurnStatus::Completed);
    assert_eq!(BurnStatus::from(3), BurnStatus::Failed);
    assert_eq!(BurnStatus::from(255), BurnStatus::Failed);
}

#[test]
fn submitted_and_failed_records() {
    let ok = submitted_record(attestation(), AttestationSubmitResult::minted("sig".to_string(), 4), 1_700_000_000);
    assert_eq!(ok.status, AttestationStatus::Submitted);
    assert_eq!(ok.deposit_id, 4);
    assert_eq!(ok.solana_signature, Some("sig".to_string()));
    assert_eq!(ok.submitted_at, Some(1_700_000_000));
    assert_eq!(ok.error, None);
    let bad = failed_record(attestation(), "rpc down".to_string());
    assert_eq!(bad.status, AttestationStatus::Failed("rpc down".to_string()));
    assert_eq!(bad.error, Some("rpc down".to_string()));
    assert_eq!(bad.deposit_id, 0);
    assert_eq!(bad.submitted_at, None);
}

#[test]
fn attestation_stats_count_each_status() {
    let mut records = vec![
        submitted_record(attestation(), AttestationSubmitResult::minted("a".to_string(), 1), 1),
        failed_record(attestation(), "x".to_string()),
        submitted_record(attestation(), AttestationSubmitResult::already_claimed(2), 2),
    ];
    let mut confirmed = submitted_record(attestation(), AttestationSubmitResult::minted("b".to_string(), 3), 3);
    confirmed.status = AttestationStatus::Confirmed;
    records.push(confirmed);
    let mut pending = failed_record(attestation(), "y".to_string());
    pending.status = AttestationStatus::Pending;
    records.push(pending);
    let stats = attestation_stats(&records);
    assert_eq!(stats.total_processed, 5);
    assert_eq!(stats.submitted, 2);
    assert_eq!(stats.confirmed, 1);
    assert_eq!(stats.failed, 1);
}

#[test]
fn pending_item_is_read_into_a_burn_intent() {
    let user = solana_sdk::pubkey::Pubkey::new_from_array([3u8; 32]).to_string();
    let b = burn_intent_from_pending_item(12, &user, "250000", "abcd", "Processing");
    assert_eq!(b.burn_id, 12);
    assert_eq!(b.user, [3u8; 32]);
    assert_eq!(b.amount, 250_000);
    assert_eq!(b.status, BurnStatus::Processing);
    let mut hash = [0u8; 32];
    hash[0] = 0xab;
    hash[1] = 0xcd;
    assert_eq!(b.encrypted_data_hash, hash);
    assert_eq!(b.zcash_txid, [0u8; 32]);
}

#[test]
fn malformed_pending_item_falls_back_to_zeros() {
    let b = burn_intent_from_pending_item(1, "not-a-key", "12x", "zz", "Pending");
    assert_eq!(b.user, [0u8; 32]);
    assert_eq!(b.amount, 0);
    assert_eq!(b.encrypted_data_hash, [0u8; 32]);
    assert_eq!(b.status, BurnStatus::Pending);
    let other = burn_intent_from_pending_item(1, "x", "1", "", "Completed");
    assert_eq!(other.status, BurnStatus::Pending);
}

#[test]
fn operation_report_success_confirms() {
    let mut record = WithdrawalRecord::submitted(&burn(), "op-1".to_string());
    assert!(awaiting_zcash(&record));
    let action = apply_operation_report(&mut record, OperationReport::Success { txid: Some("ab".repeat(32)) });
    assert_eq!(action, WithdrawalAction::FinalizeSuccess);
    assert_eq!(record.status, WithdrawalStatus::ZcashConfirmed);
    assert_eq!(record.zcash_txid, Some("ab".repeat(32)));
    assert!(!awaiting_zcash(&record));
    assert_eq!(finalization_txid(&record).unwrap(), [0xabu8; 32]);
    mark_finalized(&mut record);
    assert_eq!(record.status, WithdrawalStatus::SolanaFinalized);
}

#[test]
fn operation_report_failure_records_message() {
    let mut record = WithdrawalRecord::submitted(&burn(), "op-2".to_string());
    let action = apply_operation_report(&mut record, OperationReport::Failed { message: None });
    assert_eq!(action, WithdrawalAction::FinalizeFailure);
    assert_eq!(record.status, WithdrawalStatus::Failed("Unknown error".to_string()));
    assert_eq!(record.error, Some("Unknown error".to_string()));
    let mut other = WithdrawalRecord::submitted(&burn(), "op-3".to_string());
    apply_operation_report(&mut other, OperationReport::Failed { message: Some("no funds".to_string()) });
    assert_eq!(other.error, Some("no funds".to_string()));
}

#[test]
fn operation_report_in_progress_changes_nothing() {
    let mut record = WithdrawalRecord::submitted(&burn(), "op-4".to_string());
    assert_eq!(apply_operation_report(&mut record, OperationReport::InProgress), WithdrawalAction::Nothing);
    assert_eq!(apply_operation_report(&mut record, OperationReport::Unknown), WithdrawalAction::Nothing);
    assert_eq!(apply_operation_report(&mut record, OperationReport::Success { txid: None }), WithdrawalAction::Nothing);
    assert_eq!(record.status, WithdrawalStatus::ZcashSubmitted);
    assert_eq!(record.zcash_operation_id, Some("op-4".to_string()));
}

#[test]
fn finalization_needs_a_txid() {
    let record = WithdrawalRecord::submitted(&burn(), "op-5".to_string());
    assert_eq!(finalization_txid(&record).unwrap_err(), BridgeError::MissingZcashTxid);
}

#[test]
fn non_hex_txid_finalizes_with_zeros() {
    let mut record = WithdrawalRecord::submitted(&burn(), "op-6".to_string());
    record.zcash_txid = Some("xyz".to_string());
    assert_eq!(finalization_txid(&record).unwrap(), [0u8; 32]);
}

#[test]
fn withdrawal_stats_count_each_status() {
    let mut records = Vec::new();
    for status in [
        WithdrawalStatus::Pending,
        WithdrawalStatus::ZcashSubmitted,
        WithdrawalStatus::ZcashConfirmed,
        WithdrawalStatus::SolanaFinalized,
        WithdrawalStatus::SolanaFinalized,
        WithdrawalStatus::Failed("e".to_string()),
    ] {
        let mut r = WithdrawalRecord::submitted(&burn(), "op".to_string());
        r.status = status;
        records.push(r);
    }
    let stats = withdrawal_stats(&records);
    assert_eq!(stats.total_processed, 6);
    assert_eq!(stats.pending, 1);
    assert_eq!(stats.zcash_submitted, 1);
    assert_eq!(stats.completed, 2);
    assert_eq!(stats.failed, 1);
}
