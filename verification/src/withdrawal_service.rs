//! Bookkeeping of the withdrawal service: burn intents read from the bridge API, the
//! progress of each withdrawal through Zcash and Solana, and statistics.

use vstd::prelude::*;
use crate::bytes::{copy_prefix32, padded32};
use crate::decimal::{parse_u64, parsed_u64};
use crate::error::BridgeError;
use crate::hexcodec::{decode_hex, hex_text};
use crate::solana_client::{base58_pubkey, parse_pubkey};
use crate::text::{owned, text_eq};
use crate::timing::{duration_of_secs, secs_duration};
use std::time::Duration;

verus! {

broadcast use vstd::string::group_string_axioms;

/// Configuration of the withdrawal service.
#[derive(Debug)]
pub struct WithdrawalServiceConfig {
    pub poll_interval: Duration,
    pub max_retries: u32,
    pub retry_delay: Duration,
    /// Confirmations before a Zcash transaction counts as complete.
    pub min_zcash_confirmations: u32,
}

impl Default for WithdrawalServiceConfig {
    /// Poll every 15 s, 3 retries 10 s apart, 2 confirmations.
    fn default() -> (res: Self)
        ensures
            res.poll_interval == duration_of_secs(15),
            res.max_retries == 3,
            res.retry_delay == duration_of_secs(10),
            res.min_zcash_confirmations == 2,
    {
        WithdrawalServiceConfig {
            poll_interval: secs_duration(15),
            max_retries: 3,
            retry_delay: secs_duration(10),
            min_zcash_confirmations: 2,
        }
    }
}

impl WithdrawalServiceConfig {
    /// The configuration a node runs the service with: its configured poll interval
    /// and confirmations, 3 retries 10 s apart.
    pub fn with_settings(poll_interval_secs: u64, min_zcash_confirmations: u32) -> (res: Self)
        ensures
            res.poll_interval == duration_of_secs(poll_interval_secs),
            res.max_retries == 3,
            res.retry_delay == duration_of_secs(10),
            res.min_zcash_confirmations == min_zcash_confirmations,
    {
        WithdrawalServiceConfig {
            poll_interval: secs_duration(poll_interval_secs),
            max_retries: 3,
            retry_delay: secs_duration(10),
            min_zcash_confirmations,
        }
    }
}

/// Status of a burn intent on Solana.
#[derive(Debug, Clone, Copy, PartialEq, Eq, Structural)]
pub enum BurnStatus {
    Pending,
    Processing,
    Completed,
    Failed,
}

/// The status a status byte stands for: 0 pending, 1 processing, 2 completed, 3 and
/// any other value failed.
pub open spec fn burn_status_of(v: u8) -> BurnStatus {
    if v == 0 {
        BurnStatus::Pending
    } else if v == 1 {
        BurnStatus::Processing
    } else if v == 2 {
        BurnStatus::Completed
    } else {
        BurnStatus::Failed
    }
}

impl From<u8> for BurnStatus {
    fn from(val: u8) -> (res: Self) {
        match val {
            0 => BurnStatus::Pending,
            1 => BurnStatus::Processing,
            2 => BurnStatus::Completed,
            3 => BurnStatus::Failed,
            _ => BurnStatus::Failed,
        }
    }
}

impl vstd::std_specs::convert::FromSpecImpl<u8> for BurnStatus {
    open spec fn obeys_from_spec() -> bool {
        true
    }

    open spec fn from_spec(v: u8) -> Self {
        burn_status_of(v)
    }
}

/// A burn intent to be paid out on Zcash.
#[derive(Debug, Clone, Copy)]
pub struct BurnIntent {
    pub burn_id: u64,
    pub user: [u8; 32],
    pub amount: u64,
    pub status: BurnStatus,
    pub encrypted_data_hash: [u8; 32],
    pub zcash_txid: [u8; 32],
}

/// The burn status named by the bridge API: "Processing", else pending.
pub open spec fn api_burn_status(s: Seq<char>) -> BurnStatus {
    if s == "Processing"@ {
        BurnStatus::Processing
    } else {
        BurnStatus::Pending
    }
}

/// The burn intent of an item of the bridge API's pending list: the user's key (all
/// zeros if it does not parse), the amount (0 if it does not parse), the first up to
/// 32 bytes of the hex address hash (zero-padded; all zeros if not hex), the status,
/// and a zero txid.
pub fn burn_intent_from_pending_item(
    burn_id: u64,
    user: &str,
    amount: &str,
    zcash_address_hash: &str,
    status: &str,
) -> (res: BurnIntent)
    ensures
        res.burn_id == burn_id,
        res.user@ == (match base58_pubkey(user@) {
            Some(k) => k,
            None => Seq::new(32, |i: int| 0u8),
        }),
        res.amount == (match parsed_u64(amount@) {
            Some(a) => a,
            None => 0,
        }),
        res.encrypted_data_hash@ == padded32(match hex_text(zcash_address_hash@) {
            Some(b) => b,
            None => Seq::empty(),
        }),
        res.status == api_burn_status(status@),
        res.zcash_txid@ == Seq::new(32, |i: int| 0u8),
{
    let user_key = match parse_pubkey(user) {
        Some(k) => k,
        None => {
            let z = [0u8; 32];
            proof {
                assert(z@ =~= Seq::new(32, |i: int| 0u8));
            }
            z
        },
    };
    let hash = match decode_hex(zcash_address_hash) {
        Some(bytes) => copy_prefix32(bytes.as_slice()),
        None => {
            let z = [0u8; 32];
            proof {
                assert(z@ =~= padded32(Seq::empty()));
            }
            z
        },
    };
    let value = match parse_u64(amount) {
        Some(a) => a,
        None => 0,
    };
    let st = if text_eq(status, "Processing") {
        BurnStatus::Processing
    } else {
        BurnStatus::Pending
    };
    let zero = [0u8; 32];
    proof {
        assert(zero@ =~= Seq::new(32, |i: int| 0u8));
    }
    BurnIntent {
        burn_id,
        user: user_key,
        amount: value,
        status: st,
        encrypted_data_hash: hash,
        zcash_txid: zero,
    }
}

/// Where a withdrawal is.
#[derive(Debug, Clone, PartialEq)]
pub enum WithdrawalStatus {
    Pending,
    ZcashSubmitted,
    ZcashConfirmed,
    SolanaFinalized,
    Failed(String),
}

/// A withdrawal being tracked.
#[derive(Debug, Clone)]
pub struct WithdrawalRecord {
    pub burn_id: u64,
    pub user: [u8; 32],
    pub amount: u64,
    pub zcash_operation_id: Option<String>,
    pub zcash_txid: Option<String>,
    pub status: WithdrawalStatus,
    pub error: Option<String>,
}

impl WithdrawalRecord {
    /// A withdrawal whose Zcash operation was just started.
    pub fn submitted(burn: &BurnIntent, operation_id: String) -> (res: Self)
        ensures
            res.burn_id == burn.burn_id,
            res.user == burn.user,
            res.amount == burn.amount,
            res.zcash_operation_id == Some(operation_id),
            res.zcash_txid is None,
            res.status == WithdrawalStatus::ZcashSubmitted,
            res.error is None,
    {
        WithdrawalRecord {
            burn_id: burn.burn_id,
            user: burn.user,
            amount: burn.amount,
            zcash_operation_id: Some(operation_id),
            zcash_txid: None,
            status: WithdrawalStatus::ZcashSubmitted,
            error: None,
        }
    }
}

/// The status report of a Zcash operation.
#[derive(Debug, Clone)]
pub enum OperationReport {
    /// The operation succeeded; the transaction id if the report holds one.
    Success { txid: Option<String> },
    /// The operation failed; the error message if the report holds one.
    Failed { message: Option<String> },
    /// Still executing or queued.
    InProgress,
    /// No report, or an unknown status.
    Unknown,
}

/// The report of an operation status entry: its status text, the txid of its result
/// and the message of its error, where the entry has them.
pub fn operation_report(status: Option<&str>, txid: Option<String>, error_message: Option<String>) -> (res:
    OperationReport)
    ensures
        match status {
            Some(s) => if s@ == "success"@ {
                res == (OperationReport::Success { txid })
            } else if s@ == "failed"@ {
                res == (OperationReport::Failed { message: error_message })
            } else if s@ == "executing"@ || s@ == "queued"@ {
                res is InProgress
            } else {
                res is Unknown
            },
            None => res is Unknown,
        },
{
    match status {
        Some(s) => {
            if text_eq(s, "success") {
                OperationReport::Success { txid }
            } else if text_eq(s, "failed") {
                OperationReport::Failed { message: error_message }
            } else if text_eq(s, "executing") || text_eq(s, "queued") {
                OperationReport::InProgress
            } else {
                OperationReport::Unknown
            }
        },
        None => OperationReport::Unknown,
    }
}

/// What has to be done on Solana after a report.
#[derive(Debug, Clone, Copy, PartialEq, Eq, Structural)]
pub enum WithdrawalAction {
    Nothing,
    FinalizeSuccess,
    FinalizeFailure,
}

/// Whether a withdrawal's Zcash operation is to be checked: it was submitted and has
/// an operation id.
pub fn awaiting_zcash(record: &WithdrawalRecord) -> (res: bool)
    ensures
        res == (record.status == WithdrawalStatus::ZcashSubmitted && record.zcash_operation_id is Some),
{
    match (&record.status, &record.zcash_operation_id) {
        (WithdrawalStatus::ZcashSubmitted, Some(_)) => true,
        _ => false,
    }
}

/// Applies the report of a withdrawal's Zcash operation. Success with a txid records
/// it and confirms; failure records the message ("Unknown error" if none) and fails;
/// anything else changes nothing.
pub fn apply_operation_report(record: &mut WithdrawalRecord, report: OperationReport) -> (action: WithdrawalAction)
    ensures
        match report {
            OperationReport::Success { txid: Some(t) } => action == WithdrawalAction::FinalizeSuccess
                && final(record).zcash_txid == Some(t)
                && final(record).status == WithdrawalStatus::ZcashConfirmed
                && final(record).burn_id == old(record).burn_id && final(record).user == old(record).user
                && final(record).amount == old(record).amount
                && final(record).zcash_operation_id == old(record).zcash_operation_id
                && final(record).error == old(record).error,
            OperationReport::Failed { message } => action == WithdrawalAction::FinalizeFailure && ({
                let m = match message {
                    Some(s) => s@,
                    None => "Unknown error"@,
                };
                &&& final(record).status matches WithdrawalStatus::Failed(s) && s@ == m
                &&& final(record).error matches Some(e) && e@ == m
            }) && final(record).burn_id == old(record).burn_id && final(record).user == old(record).user
                && final(record).amount == old(record).amount
                && final(record).zcash_operation_id == old(record).zcash_operation_id
                && final(record).zcash_txid == old(record).zcash_txid,
            _ => action == WithdrawalAction::Nothing && *final(record) == *old(record),
        },
{
    match report {
        OperationReport::Success { txid: Some(t) } => {
            record.zcash_txid = Some(t);
            record.status = WithdrawalStatus::ZcashConfirmed;
            WithdrawalAction::FinalizeSuccess
        },
        OperationReport::Failed { message } => {
            let msg = match message {
                Some(s) => s,
                None => owned("Unknown error"),
            };
            let copy = msg.clone();
            record.status = WithdrawalStatus::Failed(copy);
            record.error = Some(msg);
            WithdrawalAction::FinalizeFailure
        },
        _ => WithdrawalAction::Nothing,
    }
}

/// Records that a withdrawal was finalized on Solana.
pub fn mark_finalized(record: &mut WithdrawalRecord)
    ensures
        final(record).status == WithdrawalStatus::SolanaFinalized,
        final(record).burn_id == old(record).burn_id,
        final(record).user == old(record).user,
        final(record).amount == old(record).amount,
        final(record).zcash_operation_id == old(record).zcash_operation_id,
        final(record).zcash_txid == old(record).zcash_txid,
        final(record).error == old(record).error,
{
    record.status = WithdrawalStatus::SolanaFinalized;
}

/// A Zcash txid as 32 bytes: the hex decoding (nothing if not hex), first 32 bytes,
/// zero-padded.
pub open spec fn txid_as_bytes(txid: Seq<char>) -> Seq<u8> {
    padded32(match hex_text(txid) {
        Some(b) => b,
        None => Seq::empty(),
    })
}

/// The txid to finalize a withdrawal with; a withdrawal without one cannot be finalized.
pub fn finalization_txid(record: &WithdrawalRecord) -> (res: Result<[u8; 32], BridgeError>)
    ensures
        match record.zcash_txid {
            Some(t) => res matches Ok(b) && b@ == txid_as_bytes(t@),
            None => res == Err::<[u8; 32], BridgeError>(BridgeError::MissingZcashTxid),
        },
{
    match &record.zcash_txid {
        Some(t) => {
            let b = match decode_hex(t.as_str()) {
                Some(bytes) => copy_prefix32(bytes.as_slice()),
                None => {
                    let z = [0u8; 32];
                    proof {
                        assert(z@ =~= padded32(Seq::empty()));
                    }
                    z
                },
            };
            Ok(b)
        },
        None => Err(BridgeError::MissingZcashTxid),
    }
}

/// Statistics about withdrawal processing.
#[derive(Debug, Clone, Copy)]
pub struct WithdrawalStats {
    pub total_processed: usize,
    pub pending: usize,
    pub zcash_submitted: usize,
    pub completed: usize,
    pub failed: usize,
}

/// The kind of a withdrawal status: 0 pending, 1 submitted, 2 confirmed, 3 finalized,
/// 4 failed.
pub open spec fn withdrawal_kind(s: WithdrawalStatus) -> nat {
    match s {
        WithdrawalStatus::Pending => 0,
        WithdrawalStatus::ZcashSubmitted => 1,
        WithdrawalStatus::ZcashConfirmed => 2,
        WithdrawalStatus::SolanaFinalized => 3,
        WithdrawalStatus::Failed(_) => 4,
    }
}

/// How many records are of a kind.
pub open spec fn count_withdrawals(s: Seq<WithdrawalRecord>, kind: nat) -> nat
    decreases s.len(),
{
    if s.len() == 0 {
        0
    } else {
        count_withdrawals(s.drop_last(), kind) + if withdrawal_kind(s.last().status) == kind { 1nat } else { 0nat }
    }
}

/// Every record has exactly one kind.
pub proof fn lemma_withdrawal_kinds_partition(s: Seq<WithdrawalRecord>)
    ensures
        count_withdrawals(s, 0) + count_withdrawals(s, 1) + count_withdrawals(s, 2) + count_withdrawals(s, 3)
            + count_withdrawals(s, 4) == s.len(),
    decreases s.len(),
{
    if s.len() > 0 {
        lemma_withdrawal_kinds_partition(s.drop_last());
    }
}

/// Counts the tracked withdrawals by status; confirmed-but-not-finalized ones are in
/// the total only.
pub fn withdrawal_stats(records: &Vec<WithdrawalRecord>) -> (res: WithdrawalStats)
    ensures
        res.total_processed == records@.len(),
        res.pending == count_withdrawals(records@, 0),
        res.zcash_submitted == count_withdrawals(records@, 1),
        res.completed == count_withdrawals(records@, 3),
        res.failed == count_withdrawals(records@, 4),
        res.pending + res.zcash_submitted + res.completed + res.failed + count_withdrawals(records@, 2)
            == res.total_processed,
{
    let mut pending: usize = 0;
    let mut submitted: usize = 0;
    let mut completed: usize = 0;
    let mut failed: usize = 0;
    let mut i: usize = 0;
    while i < records.len()
        invariant
            0 <= i <= records@.len(),
            pending == count_withdrawals(records@.subrange(0, i as int), 0),
            submitted == count_withdrawals(records@.subrange(0, i as int), 1),
            completed == count_withdrawals(records@.subrange(0, i as int), 3),
            failed == count_withdrawals(records@.subrange(0, i as int), 4),
            pending + submitted + completed + failed <= i,
        decreases records@.len() - i,
    {
        proof {
            let next = records@.subrange(0, i + 1);
            assert(next.drop_last() =~= records@.subrange(0, i as int));
            lemma_withdrawal_kinds_partition(records@.subrange(0, i as int));
        }
        match &records[i].status {
            WithdrawalStatus::Pending => {
                pending = pending + 1;
            },
            WithdrawalStatus::ZcashSubmitted => {
                submitted = submitted + 1;
            },
            WithdrawalStatus::SolanaFinalized => {
                completed = completed + 1;
            },
            WithdrawalStatus::Failed(_) => {
                failed = failed + 1;
            },
            WithdrawalStatus::ZcashConfirmed => {},
        }
        i = i + 1;
    }
    proof {
        assert(records@.subrange(0, i as int) =~= records@);
        lemma_withdrawal_kinds_partition(records@);
    }
    WithdrawalStats { total_processed: records.len(), pending, zcash_submitted: submitted, completed, failed }
}

} // verus!
