//! Bodies exchanged with the enclave's REST API, and the normal form of its base URL.

use vstd::prelude::*;
use crate::types::EnclaveAttestation;

verus! {

/// The enclave's status.
#[derive(Debug, Clone)]
pub struct EnclaveStatusResponse {
    pub provisioned: bool,
    pub enclave_pubkey: String,
    pub pending_attestations: usize,
    pub last_scanned_height: u64,
}

/// The result of a manual scan.
#[derive(Debug, Clone)]
pub struct ScanResultResponse {
    pub blocks_scanned: u64,
    pub deposits_found: usize,
    pub attestations: Vec<EnclaveAttestation>,
}

/// Provisioning of the enclave with the bridge's viewing key.
#[derive(Debug, Clone)]
pub struct ProvisionRequest {
    pub ufvk: String,
    pub bridge_ua: String,
}

/// The enclave's answer to provisioning.
#[derive(Debug, Clone)]
pub struct ProvisionResponse {
    pub enclave_pubkey: String,
    pub status: String,
}

/// A text without its trailing slashes, however many.
pub open spec fn without_trailing_slashes(s: Seq<char>) -> Seq<char>
    decreases s.len(),
{
    if s.len() > 0 && s.last() == '/' {
        without_trailing_slashes(s.drop_last())
    } else {
        s
    }
}

/// Removing trailing slashes keeps a prefix and leaves none at the end.
pub proof fn lemma_without_trailing_slashes(s: Seq<char>)
    ensures
        without_trailing_slashes(s).len() <= s.len(),
        without_trailing_slashes(s) == s.subrange(0, without_trailing_slashes(s).len() as int),
        without_trailing_slashes(s).len() == 0 || without_trailing_slashes(s).last() != '/',
        forall|i: int| without_trailing_slashes(s).len() <= i < s.len() ==> s[i] == '/',
    decreases s.len(),
{
    if s.len() > 0 && s.last() == '/' {
        lemma_without_trailing_slashes(s.drop_last());
        let t = without_trailing_slashes(s.drop_last());
        assert(s.drop_last().subrange(0, t.len() as int) =~= s.subrange(0, t.len() as int));
        assert forall|i: int| t.len() <= i < s.len() implies s[i] == '/' by {
            if i < s.len() - 1 {
                assert(s.drop_last()[i] == s[i]);
            }
        }
    } else {
        assert(s.subrange(0, s.len() as int) =~= s);
    }
}

/// The enclave's base URL as requests are built on it: without trailing slashes.
pub fn normalize_base_url(base_url: &str) -> (res: String)
    ensures
        res@ == without_trailing_slashes(base_url@),
{
    let n = base_url.unicode_len();
    let mut end: usize = n;
    proof {
        assert(base_url@.subrange(0, n as int) =~= base_url@);
    }
    while end > 0 && base_url.get_char(end - 1) == '/'
        invariant
            end <= n,
            n == base_url@.len(),
            without_trailing_slashes(base_url@) == without_trailing_slashes(base_url@.subrange(0, end as int)),
        decreases end,
    {
        proof {
            let t = base_url@.subrange(0, end as int);
            assert(t.drop_last() =~= base_url@.subrange(0, end - 1));
        }
        end = end - 1;
    }
    proof {
        let t = base_url@.subrange(0, end as int);
        if end > 0 {
            assert(t.last() == base_url@[end - 1]);
        }
    }
    base_url.substring_char(0, end).to_string()
}

} // verus!
