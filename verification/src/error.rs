//! The library's error type.

use vstd::prelude::*;
use vstd::string::*;
use crate::decimal::{decimal_text, push_decimal};
use crate::text::owned;

verus! {

/// Which hex-encoded attestation field a parse error is about.
#[derive(Debug, Clone, Copy, PartialEq, Eq, Structural)]
pub enum AttestationField {
    NoteCommitment,
    RecipientSolana,
    EnclaveSignature,
    EnclavePubkey,
}

/// Errors of the bridge custody logic.
#[derive(Debug, Clone, PartialEq, Eq)]
pub enum BridgeError {
    /// A field was not valid hex.
    InvalidHex(AttestationField),
    /// A field decoded to the wrong number of bytes.
    WrongFieldLength { field: AttestationField, expected: usize, actual: usize },
    /// The network name is neither "mainnet" nor "testnet".
    InvalidNetwork(String),
    /// A FROST group key must be 32 bytes.
    WrongKeyLength(usize),
    /// The key bytes are not a valid Orchard spending key.
    InvalidSpendingKey,
    /// The unified container could not be built.
    UnifiedEncodingFailed,
    /// The unified full viewing key could not be decoded.
    UfvkDecodeFailed,
    /// The unified full viewing key is for another network.
    NetworkMismatch,
    /// The unified full viewing key holds no Orchard component.
    NoOrchardFvk,
    /// The Orchard full viewing key bytes are invalid.
    InvalidFvk,
    /// No nonce below 256 gave a canonical scalar for the shared rivk.
    RivkDerivationFailed,
    /// No nonce below 256 gave a canonical scalar for a key component.
    KeyComponentDerivationFailed,
    /// A scalar must be 32 bytes.
    ScalarLength,
    /// The 32 bytes are not a canonical Pallas scalar.
    InvalidScalar,
    /// A point must be 32 bytes.
    PointLength,
    /// The 32 bytes are not a Pallas point encoding.
    InvalidPoint,
    /// FVK aggregation was given no contributions.
    NoContributions,
    /// Neither the aggregated components nor the fallback key gave a full viewing key.
    FvkConstructionFailed,
    /// Orchard transaction building is not available; carries amount and recipient.
    TxBuildingUnavailable { amount: u64, recipient: String },
    /// An account's data is shorter than its layout requires.
    AccountDataTooShort { needed: usize, actual: usize },
    /// A text is not a base58 Solana public key.
    InvalidPubkey,
    /// A Solana public key must be 32 bytes.
    InvalidPubkeyLength(usize),
    /// No program address could be derived from these seeds.
    NoProgramAddress,
    /// A message came from a node that is neither this node nor a known peer.
    UnknownPeer(u16),
    /// A message payload is not base64.
    InvalidBase64,
    /// A withdrawal has no Zcash transaction id yet.
    MissingZcashTxid,
}

/// The name of an attestation field, as the enclave's records spell it.
pub open spec fn field_name(f: AttestationField) -> Seq<char> {
    match f {
        AttestationField::NoteCommitment => "note_commitment"@,
        AttestationField::RecipientSolana => "recipient_solana"@,
        AttestationField::EnclaveSignature => "enclave_signature"@,
        AttestationField::EnclavePubkey => "enclave_pubkey"@,
    }
}

fn field_text(f: AttestationField) -> (res: &'static str)
    ensures
        res@ == field_name(f),
{
    match f {
        AttestationField::NoteCommitment => "note_commitment",
        AttestationField::RecipientSolana => "recipient_solana",
        AttestationField::EnclaveSignature => "enclave_signature",
        AttestationField::EnclavePubkey => "enclave_pubkey",
    }
}

/// The text of an error. Where the node wrote a text of its own it is that text; where
/// the text came from an outside crate's error, a fixed text names the failure.
pub open spec fn error_message(e: BridgeError) -> Seq<char> {
    match e {
        BridgeError::InvalidHex(f) => field_name(f) + " is not valid hex"@,
        BridgeError::WrongFieldLength { field, expected, actual } => field_name(field) + " must be "@
            + decimal_text(expected as nat) + " bytes"@,
        BridgeError::InvalidNetwork(n) => "Invalid network: "@ + n@,
        BridgeError::WrongKeyLength(n) => "FROST key must be 32 bytes, got "@ + decimal_text(n as nat),
        BridgeError::InvalidSpendingKey => "Invalid key bytes for Orchard spending key"@,
        BridgeError::UnifiedEncodingFailed => "Failed to create unified encoding"@,
        BridgeError::UfvkDecodeFailed => "Failed to decode UFVK"@,
        BridgeError::NetworkMismatch => "Network mismatch"@,
        BridgeError::NoOrchardFvk => "No Orchard FVK in UFVK"@,
        BridgeError::InvalidFvk => "Invalid FVK bytes"@,
        BridgeError::RivkDerivationFailed => "Failed to derive valid rivk after 256 attempts"@,
        BridgeError::KeyComponentDerivationFailed => "Failed to derive valid key component after 256 attempts"@,
        BridgeError::ScalarLength => "Expected 32 bytes for scalar"@,
        BridgeError::InvalidScalar => "Invalid scalar bytes"@,
        BridgeError::PointLength => "Expected 32 bytes for point"@,
        BridgeError::InvalidPoint => "Invalid point bytes"@,
        BridgeError::NoContributions => "Need at least one contribution"@,
        BridgeError::FvkConstructionFailed =>
            "Failed to construct FullViewingKey from aggregated components AND fallback failed"@,
        BridgeError::TxBuildingUnavailable { amount, recipient } =>
            "Transaction building not yet available. Need Orchard bundle creation with FROST signing. Target: "@
            + decimal_text(amount as nat) + " zatoshis to "@ + recipient@,
        BridgeError::AccountDataTooShort { needed, actual } => if needed == 145 {
            "Bridge config account data too short"@
        } else if needed == 153 {
            "Bridge config account data too short for burn_nonce"@
        } else if needed == 130 {
            "BurnIntent account data too short"@
        } else {
            "Account data too short: need "@ + decimal_text(needed as nat) + " bytes, got "@ + decimal_text(
                actual as nat,
            )
        },
        BridgeError::InvalidPubkey => "Invalid program ID"@,
        BridgeError::InvalidPubkeyLength(n) => "Invalid Solana pubkey bytes: "@ + decimal_text(n as nat)
            + " bytes"@,
        BridgeError::NoProgramAddress => "Unable to find a viable program address bump seed"@,
        BridgeError::UnknownPeer(n) => "Unknown peer: "@ + decimal_text(n as nat),
        BridgeError::InvalidBase64 => "Invalid base64 payload"@,
        BridgeError::MissingZcashTxid => "No Zcash txid available"@,
    }
}

impl BridgeError {
    /// The text of the error.
    pub fn message(&self) -> (res: String)
        ensures
            res@ == error_message(*self),
    {
        match self {
            BridgeError::InvalidHex(f) => {
                let mut s = owned(field_text(*f));
                s.append(" is not valid hex");
                s
            },
            BridgeError::WrongFieldLength { field, expected, actual: _ } => {
                let mut s = owned(field_text(*field));
                s.append(" must be ");
                push_decimal(&mut s, *expected as u64);
                s.append(" bytes");
                s
            },
            BridgeError::InvalidNetwork(n) => {
                let mut s = owned("Invalid network: ");
                s.append(n.as_str());
                s
            },
            BridgeError::WrongKeyLength(n) => {
                let mut s = owned("FROST key must be 32 bytes, got ");
                push_decimal(&mut s, *n as u64);
                s
            },
            BridgeError::InvalidSpendingKey => owned("Invalid key bytes for Orchard spending key"),
            BridgeError::UnifiedEncodingFailed => owned("Failed to create unified encoding"),
            BridgeError::UfvkDecodeFailed => owned("Failed to decode UFVK"),
            BridgeError::NetworkMismatch => owned("Network mismatch"),
            BridgeError::NoOrchardFvk => owned("No Orchard FVK in UFVK"),
            BridgeError::InvalidFvk => owned("Invalid FVK bytes"),
            BridgeError::RivkDerivationFailed => owned("Failed to derive valid rivk after 256 attempts"),
            BridgeError::KeyComponentDerivationFailed => owned(
                "Failed to derive valid key component after 256 attempts",
            ),
            BridgeError::ScalarLength => owned("Expected 32 bytes for scalar"),
            BridgeError::InvalidScalar => owned("Invalid scalar bytes"),
            BridgeError::PointLength => owned("Expected 32 bytes for point"),
            BridgeError::InvalidPoint => owned("Invalid point bytes"),
            BridgeError::NoContributions => owned("Need at least one contribution"),
            BridgeError::FvkConstructionFailed => owned(
                "Failed to construct FullViewingKey from aggregated components AND fallback failed",
            ),
            BridgeError::TxBuildingUnavailable { amount, recipient } => {
                let mut s = owned(
                    "Transaction building not yet available. Need Orchard bundle creation with FROST signing. Target: ",
                );
                push_decimal(&mut s, *amount);
                s.append(" zatoshis to ");
                s.append(recipient.as_str());
                s
            },
            BridgeError::AccountDataTooShort { needed, actual } => {
                if *needed == 145 {
                    owned("Bridge config account data too short")
                } else if *needed == 153 {
                    owned("Bridge config account data too short for burn_nonce")
                } else if *needed == 130 {
                    owned("BurnIntent account data too short")
                } else {
                    let mut s = owned("Account data too short: need ");
                    push_decimal(&mut s, *needed as u64);
                    s.append(" bytes, got ");
                    push_decimal(&mut s, *actual as u64);
                    s
                }
            },
            BridgeError::InvalidPubkey => owned("Invalid program ID"),
            BridgeError::InvalidPubkeyLength(n) => {
                let mut s = owned("Invalid Solana pubkey bytes: ");
                push_decimal(&mut s, *n as u64);
                s.append(" bytes");
                s
            },
            BridgeError::NoProgramAddress => owned("Unable to find a viable program address bump seed"),
            BridgeError::UnknownPeer(n) => {
                let mut s = owned("Unknown peer: ");
                push_decimal(&mut s, *n as u64);
                s
            },
            BridgeError::InvalidBase64 => owned("Invalid base64 payload"),
            BridgeError::MissingZcashTxid => owned("No Zcash txid available"),
        }
    }
}

} // verus!
