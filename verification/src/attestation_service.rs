//! Bookkeeping of the attestation service: its configuration, the record kept of
//! each submitted or failed attestation, and statistics over those records.

use vstd::prelude::*;
use crate::solana_client::AttestationSubmitResult;
use crate::timing::{duration_of_secs, secs_duration};
use crate::types::{AttestationRecord, AttestationStatus, EnclaveAttestation};
use std::time::Duration;

verus! {

/// Configuration of the attestation service.
#[derive(Debug)]
pub struct AttestationServiceConfig {
    pub poll_interval: Duration,
    pub max_retries: u32,
    pub retry_delay: Duration,
}

impl Default for AttestationServiceConfig {
    /// Poll every 10 s, 3 retries 5 s apart.
    fn default() -> (res: Self)
        ensures
            res.poll_interval == duration_of_secs(10),
            res.max_retries == 3,
            res.retry_delay == duration_of_secs(5),
    {
        AttestationServiceConfig {
            poll_interval: secs_duration(10),
            max_retries: 3,
            retry_delay: secs_duration(5),
        }
    }
}

impl AttestationServiceConfig {
    /// The configuration a node runs the service with: its configured poll interval,
    /// 3 retries 5 s apart.
    pub fn with_poll_interval(poll_interval_secs: u64) -> (res: Self)
        ensures
            res.poll_interval == duration_of_secs(poll_interval_secs),
            res.max_retries == 3,
            res.retry_delay == duration_of_secs(5),
    {
        AttestationServiceConfig {
            poll_interval: secs_duration(poll_interval_secs),
            max_retries: 3,
            retry_delay: secs_duration(5),
        }
    }
}

/// Statistics about attestation processing.
#[derive(Debug, Clone, Copy)]
pub struct AttestationStats {
    pub total_processed: usize,
    pub submitted: usize,
    pub confirmed: usize,
    pub failed: usize,
}

/// The record of an attestation that was submitted to Solana at time `now`.
pub fn submitted_record(attestation: EnclaveAttestation, result: AttestationSubmitResult, now: i64) -> (res:
    AttestationRecord)
    ensures
        res.attestation == attestation,
        res.deposit_id == result.deposit_id,
        res.status == AttestationStatus::Submitted,
        res.solana_signature == Some(result.signature),
        res.submitted_at == Some(now),
        res.confirmed_at is None,
        res.error is None,
{
    AttestationRecord {
        attestation,
        deposit_id: result.deposit_id,
        status: AttestationStatus::Submitted,
        solana_signature: Some(result.signature),
        submitted_at: Some(now),
        confirmed_at: None,
        error: None,
    }
}

/// The record of an attestation whose submission failed with `message`.
pub fn failed_record(attestation: EnclaveAttestation, message: String) -> (res: AttestationRecord)
    ensures
        res.attestation == attestation,
        res.deposit_id == 0,
        res.status matches AttestationStatus::Failed(m) && m@ == message@,
        res.solana_signature is None,
        res.submitted_at is None,
        res.confirmed_at is None,
        res.error matches Some(e) && e@ == message@,
{
    let copy = message.clone();
    AttestationRecord {
        attestation,
        deposit_id: 0,
        status: AttestationStatus::Failed(copy),
        solana_signature: None,
        submitted_at: None,
        confirmed_at: None,
        error: Some(message),
    }
}

/// The kind of an attestation status: 0 pending, 1 submitted, 2 confirmed, 3 failed.
pub open spec fn attestation_kind(s: AttestationStatus) -> nat {
    match s {
        AttestationStatus::Pending => 0,
        AttestationStatus::Submitted => 1,
        AttestationStatus::Confirmed => 2,
        AttestationStatus::Failed(_) => 3,
    }
}

/// How many records are of a kind.
pub open spec fn count_attestations(s: Seq<AttestationRecord>, kind: nat) -> nat
    decreases s.len(),
{
    if s.len() == 0 {
        0
    } else {
        count_attestations(s.drop_last(), kind) + if attestation_kind(s.last().status) == kind {
            1nat
        } else {
            0nat
        }
    }
}

/// Every record has exactly one kind.
pub proof fn lemma_attestation_kinds_partition(s: Seq<AttestationRecord>)
    ensures
        count_attestations(s, 0) + count_attestations(s, 1) + count_attestations(s, 2) + count_attestations(s, 3)
            == s.len(),
    decreases s.len(),
{
    if s.len() > 0 {
        lemma_attestation_kinds_partition(s.drop_last());
    }
}

/// Counts the records by status; pending ones are in the total only.
pub fn attestation_stats(records: &Vec<AttestationRecord>) -> (res: AttestationStats)
    ensures
        res.total_processed == records@.len(),
        res.submitted == count_attestations(records@, 1),
        res.confirmed == count_attestations(records@, 2),
        res.failed == count_attestations(records@, 3),
        res.submitted + res.confirmed + res.failed + count_attestations(records@, 0) == res.total_processed,
{
    let mut submitted: usize = 0;
    let mut confirmed: usize = 0;
    let mut failed: usize = 0;
    let mut i: usize = 0;
    while i < records.len()
        invariant
            0 <= i <= records@.len(),
            submitted == count_attestations(records@.subrange(0, i as int), 1),
            confirmed == count_attestations(records@.subrange(0, i as int), 2),
            failed == count_attestations(records@.subrange(0, i as int), 3),
            submitted + confirmed + failed <= i,
        decreases records@.len() - i,
    {
        proof {
            let next = records@.subrange(0, i + 1);
            assert(next.drop_last() =~= records@.subrange(0, i as int));
            lemma_attestation_kinds_partition(records@.subrange(0, i as int));
        }
        match &records[i].status {
            AttestationStatus::Submitted => {
                submitted = submitted + 1;
            },
            AttestationStatus::Confirmed => {
                confirmed = confirmed + 1;
            },
            AttestationStatus::Failed(_) => {
                failed = failed + 1;
            },
            AttestationStatus::Pending => {},
        }
        i = i + 1;
    }
    proof {
        assert(records@.subrange(0, i as int) =~= records@);
        lemma_attestation_kinds_partition(records@);
    }
    AttestationStats { total_processed: records.len(), submitted, confirmed, failed }
}

} // verus!
