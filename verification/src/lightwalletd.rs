//! Records returned by the lightwalletd REST endpoints.

use vstd::prelude::*;

verus! {

/// A block: height, hash and time.
#[derive(Debug, Clone)]
pub struct BlockInfo {
    pub height: u64,
    pub hash: String,
    pub time: u64,
}

/// A transaction: id, height and confirmations.
#[derive(Debug, Clone)]
pub struct TxInfo {
    pub txid: String,
    pub height: u64,
    pub confirmations: u64,
}

} // verus!
