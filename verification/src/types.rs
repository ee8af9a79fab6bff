//! Configuration, key material and attestation types of an MPC node.

use vstd::prelude::*;
use crate::bytes::{append_bytes, to_array32, to_array64, u64_le, u64_to_le};
use crate::error::{AttestationField, BridgeError};
use crate::hexcodec::{decode_hex_text, hex_text};
use crate::text::owned;

verus! {

broadcast use vstd::string::group_string_axioms;

/// Configuration of one MPC node.
#[derive(Debug, Clone)]
pub struct NodeConfig {
    pub node_id: u16,
    pub total_nodes: u16,
    pub threshold: u16,
    pub peers: Vec<PeerInfo>,
    pub zcash: ZcashConfig,
    pub solana: SolanaConfig,
    pub network: NetworkConfig,
    pub enclave: EnclaveConfig,
    pub bridge_api: BridgeApiConfig,
    pub withdrawal: WithdrawalConfig,
}

/// Another MPC node and the base URL it listens on (e.g. "http://mpc-node2:8080").
#[derive(Debug, Clone)]
pub struct PeerInfo {
    pub node_id: u16,
    pub address: String,
}

/// Zcash RPC access and network name ("mainnet" or "testnet").
#[derive(Debug, Clone)]
pub struct ZcashConfig {
    pub rpc_url: String,
    pub rpc_user: String,
    pub rpc_password: String,
    pub network: String,
}

/// Solana RPC access, bridge program and payer keypair file.
#[derive(Debug, Clone)]
pub struct SolanaConfig {
    pub rpc_url: String,
    pub bridge_program_id: String,
    pub keypair_path: String,
}

/// The keypair file used when the configuration names none.
pub fn default_keypair_path() -> (res: String)
    ensures
        res@ == "/data/solana-keypair.json"@,
{
    owned("/data/solana-keypair.json")
}

/// Where this node's coordination server listens.
#[derive(Debug, Clone)]
pub struct NetworkConfig {
    pub listen_address: String,
    pub port: u16,
}

/// The enclave service.
#[derive(Debug, Clone)]
pub struct EnclaveConfig {
    pub url: String,
    pub poll_interval_secs: u64,
    pub enabled: bool,
}

impl Default for EnclaveConfig {
    /// Empty URL, zero interval, disabled.
    fn default() -> (res: Self)
        ensures
            res.url@ == Seq::<char>::empty(),
            res.poll_interval_secs == 0,
            !res.enabled,
    {
        EnclaveConfig { url: String::new(), poll_interval_secs: 0, enabled: false }
    }
}

/// The enclave URL used when the configuration names none.
pub fn default_enclave_url() -> (res: String)
    ensures
        res@ == "http://localhost:8081"@,
{
    owned("http://localhost:8081")
}

/// The enclave poll interval (seconds) used when the configuration names none.
pub fn default_poll_interval() -> (res: u64)
    ensures
        res == 10,
{
    10
}

/// The bridge API service.
#[derive(Debug, Clone)]
pub struct BridgeApiConfig {
    pub url: String,
    pub api_key: String,
}

impl Default for BridgeApiConfig {
    /// Empty URL and key.
    fn default() -> (res: Self)
        ensures
            res.url@ == Seq::<char>::empty(),
            res.api_key@ == Seq::<char>::empty(),
    {
        BridgeApiConfig { url: String::new(), api_key: String::new() }
    }
}

/// The bridge API URL used when the configuration names none.
pub fn default_bridge_api_url() -> (res: String)
    ensures
        res@ == "http://localhost:3001"@,
{
    owned("http://localhost:3001")
}

/// The withdrawal service.
#[derive(Debug, Clone)]
pub struct WithdrawalConfig {
    pub enabled: bool,
    pub poll_interval_secs: u64,
    pub min_zcash_confirmations: u32,
}

impl Default for WithdrawalConfig {
    /// Disabled, zero interval, zero confirmations.
    fn default() -> (res: Self)
        ensures
            !res.enabled,
            res.poll_interval_secs == 0,
            res.min_zcash_confirmations == 0,
    {
        WithdrawalConfig { enabled: false, poll_interval_secs: 0, min_zcash_confirmations: 0 }
    }
}

/// The withdrawal poll interval (seconds) used when the configuration names none.
pub fn default_withdrawal_poll_interval() -> (res: u64)
    ensures
        res == 15,
{
    15
}

/// The Zcash confirmations a withdrawal waits for when the configuration names none.
pub fn default_min_zcash_confirmations() -> (res: u32)
    ensures
        res == 2,
{
    2
}

/// Orchard key shards derived from a FROST secret share.
#[derive(Debug, Clone)]
pub struct OrchardKeyShards {
    /// This node's share of the spend authorizing key (32-byte scalar; secret).
    pub ask_share: Vec<u8>,
    /// This node's share of the nullifier deriving key (32-byte scalar; secret).
    pub nsk_share: Vec<u8>,
    /// The rivk shared by all nodes (32-byte scalar).
    pub rivk: Vec<u8>,
    /// The node that owns the shards.
    pub node_id: u16,
}

/// A node's public contribution to the full viewing key.
#[derive(Debug, Clone)]
pub struct FvkContribution {
    pub node_id: u16,
    /// `[ask]G` (32-byte point encoding).
    pub ak_bytes: Vec<u8>,
    /// `[nsk]G` (32-byte point encoding).
    pub nk_bytes: Vec<u8>,
}

/// What a DKG ceremony leaves a node with.
#[derive(Debug, Clone)]
pub struct DkgResult {
    pub node_id: u16,
    /// The serialized FROST key package.
    pub key_share: Vec<u8>,
    /// The FROST group verifying key.
    pub group_verifying_key: Vec<u8>,
    /// This node's Orchard key shards (secret).
    pub orchard_shards: OrchardKeyShards,
    /// The bridge's unified address.
    pub bridge_ua: String,
    /// The bridge's unified full viewing key.
    pub full_viewing_key: String,
    /// Sum of all nodes' ak contributions.
    pub aggregated_ak: Vec<u8>,
    /// Sum of all nodes' nk contributions.
    pub aggregated_nk: Vec<u8>,
    /// The shared rivk.
    pub shared_rivk: Vec<u8>,
}

/// A withdrawal to be signed.
#[derive(Debug, Clone)]
pub struct WithdrawalRequest {
    pub burn_id: String,
    pub amount: u64,
    pub recipient_address: String,
    pub solana_requester: String,
}

/// State of a signing ceremony.
#[derive(Debug, Clone, Copy, PartialEq, Eq, Structural)]
pub enum SigningStatus {
    Pending,
    InProgress,
    Complete,
    Failed,
}

/// An attestation from the enclave; the byte fields are hex text.
#[derive(Debug, Clone)]
pub struct EnclaveAttestation {
    /// 32 bytes.
    pub note_commitment: String,
    /// Zatoshis.
    pub amount: u64,
    /// 32 bytes (a Solana public key).
    pub recipient_solana: String,
    pub block_height: u64,
    /// 64 bytes.
    pub enclave_signature: String,
    /// 32 bytes.
    pub enclave_pubkey: String,
}

/// The bytes of a hex field that must decode to `n` bytes, or the error for it.
pub open spec fn field_bytes(text: Seq<char>, field: AttestationField, n: usize) -> Result<Seq<u8>, BridgeError> {
    match hex_text(text) {
        None => Err(BridgeError::InvalidHex(field)),
        Some(b) => if b.len() == n {
            Ok(b)
        } else {
            Err(BridgeError::WrongFieldLength { field, expected: n, actual: b.len() as usize })
        },
    }
}

/// The attestation wire format: note commitment (32), amount (8, little-endian),
/// recipient (32), block height (8, little-endian), signature (64), pubkey (32); or
/// the error of the first field that does not parse.
pub open spec fn attestation_bytes(a: EnclaveAttestation) -> Result<Seq<u8>, BridgeError> {
    match field_bytes(a.note_commitment@, AttestationField::NoteCommitment, 32) {
        Err(e) => Err(e),
        Ok(nc) => match field_bytes(a.recipient_solana@, AttestationField::RecipientSolana, 32) {
            Err(e) => Err(e),
            Ok(rs) => match field_bytes(a.enclave_signature@, AttestationField::EnclaveSignature, 64) {
                Err(e) => Err(e),
                Ok(sig) => match field_bytes(a.enclave_pubkey@, AttestationField::EnclavePubkey, 32) {
                    Err(e) => Err(e),
                    Ok(pk) => Ok(nc + u64_le(a.amount) + rs + u64_le(a.block_height) + sig + pk),
                },
            },
        },
    }
}

/// Decodes a hex field that must hold `n` bytes.
fn decode_field(text: &String, field: AttestationField, n: usize) -> (res: Result<Vec<u8>, BridgeError>)
    ensures
        match field_bytes(text@, field, n) {
            Ok(b) => res matches Ok(v) && v@ == b,
            Err(e) => res == Err::<Vec<u8>, BridgeError>(e),
        },
{
    match decode_hex_text(text) {
        None => Err(BridgeError::InvalidHex(field)),
        Some(v) => {
            if v.len() == n {
                Ok(v)
            } else {
                Err(BridgeError::WrongFieldLength { field, expected: n, actual: v.len() })
            }
        },
    }
}

impl EnclaveAttestation {
    /// The 32-byte note commitment.
    pub fn note_commitment_bytes(&self) -> (res: Result<[u8; 32], BridgeError>)
        ensures
            match field_bytes(self.note_commitment@, AttestationField::NoteCommitment, 32) {
                Ok(b) => res matches Ok(a) && a@ == b,
                Err(e) => res == Err::<[u8; 32], BridgeError>(e),
            },
    {
        let v = decode_field(&self.note_commitment, AttestationField::NoteCommitment, 32)?;
        Ok(to_array32(v.as_slice()))
    }

    /// The 32-byte recipient Solana public key.
    pub fn recipient_solana_bytes(&self) -> (res: Result<[u8; 32], BridgeError>)
        ensures
            match field_bytes(self.recipient_solana@, AttestationField::RecipientSolana, 32) {
                Ok(b) => res matches Ok(a) && a@ == b,
                Err(e) => res == Err::<[u8; 32], BridgeError>(e),
            },
    {
        let v = decode_field(&self.recipient_solana, AttestationField::RecipientSolana, 32)?;
        Ok(to_array32(v.as_slice()))
    }

    /// The 64-byte enclave signature.
    pub fn enclave_signature_bytes(&self) -> (res: Result<[u8; 64], BridgeError>)
        ensures
            match field_bytes(self.enclave_signature@, AttestationField::EnclaveSignature, 64) {
                Ok(b) => res matches Ok(a) && a@ == b,
                Err(e) => res == Err::<[u8; 64], BridgeError>(e),
            },
    {
        let v = decode_field(&self.enclave_signature, AttestationField::EnclaveSignature, 64)?;
        Ok(to_array64(v.as_slice()))
    }

    /// The 32-byte enclave public key.
    pub fn enclave_pubkey_bytes(&self) -> (res: Result<[u8; 32], BridgeError>)
        ensures
            match field_bytes(self.enclave_pubkey@, AttestationField::EnclavePubkey, 32) {
                Ok(b) => res matches Ok(a) && a@ == b,
                Err(e) => res == Err::<[u8; 32], BridgeError>(e),
            },
    {
        let v = decode_field(&self.enclave_pubkey, AttestationField::EnclavePubkey, 32)?;
        Ok(to_array32(v.as_slice()))
    }

    /// Serializes to the 176-byte attestation format.
    pub fn to_attestation_bytes(&self) -> (res: Result<Vec<u8>, BridgeError>)
        ensures
            match attestation_bytes(*self) {
                Ok(b) => res matches Ok(v) && v@ == b && v@.len() == 176,
                Err(e) => res == Err::<Vec<u8>, BridgeError>(e),
            },
    {
        let nc = self.note_commitment_bytes()?;
        let rs = self.recipient_solana_bytes()?;
        let sig = self.enclave_signature_bytes()?;
        let pk = self.enclave_pubkey_bytes()?;
        let mut out: Vec<u8> = Vec::with_capacity(176);
        append_bytes(&mut out, nc.as_slice());
        let amount = u64_to_le(self.amount);
        append_bytes(&mut out, amount.as_slice());
        append_bytes(&mut out, rs.as_slice());
        let height = u64_to_le(self.block_height);
        append_bytes(&mut out, height.as_slice());
        append_bytes(&mut out, sig.as_slice());
        append_bytes(&mut out, pk.as_slice());
        proof {
            crate::bytes::lemma_u64_le_roundtrip(self.amount);
            crate::bytes::lemma_u64_le_roundtrip(self.block_height);
        }
        Ok(out)
    }
}

/// Where an attestation is in the submission pipeline.
#[derive(Debug, Clone, PartialEq)]
pub enum AttestationStatus {
    Pending,
    Submitted,
    Confirmed,
    Failed(String),
}

/// An attestation and the outcome of submitting it.
#[derive(Debug, Clone)]
pub struct AttestationRecord {
    pub attestation: EnclaveAttestation,
    pub deposit_id: u64,
    pub status: AttestationStatus,
    pub solana_signature: Option<String>,
    pub submitted_at: Option<i64>,
    pub confirmed_at: Option<i64>,
    pub error: Option<String>,
}

} // verus!
