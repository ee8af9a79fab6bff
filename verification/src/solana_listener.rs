//! The listener for burn events of the Solana bridge program.

use vstd::prelude::*;
use crate::error::BridgeError;

verus! {

/// Where burn events are read from.
pub struct SolanaEventListener {
    pub _rpc_url: String,
    pub _program_id: String,
}

impl SolanaEventListener {
    /// A listener on the RPC endpoint `rpc_url` for the program `program_id`.
    pub fn new(rpc_url: String, program_id: String) -> (res: Result<Self, BridgeError>)
        ensures
            res matches Ok(l) && l._rpc_url == rpc_url && l._program_id == program_id,
    {
        Ok(SolanaEventListener { _rpc_url: rpc_url, _program_id: program_id })
    }
}

} // verus!
