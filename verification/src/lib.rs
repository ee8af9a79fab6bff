//! Custody logic of an MPC node of a Zcash-Solana bridge: Orchard key material
//! derived from FROST shares, unified address and viewing key encoding, Solana
//! bridge-program instruction and account layouts, and the bookkeeping of the
//! attestation and withdrawal services.

pub mod bytes;
pub mod crypto;
pub mod error;
pub mod hexcodec;
pub mod text;
pub mod ua_builder;
pub mod tx_builder;
pub mod types;
pub mod orchard_frost;
pub mod dkg_coordinator;
pub mod solana_client;
pub mod decimal;
pub mod timing;
pub mod withdrawal_service;
pub mod attestation_service;
pub mod network;
pub mod api;
pub mod enclave_client;
pub mod mpc_node;
pub mod solana_listener;
pub mod lightwalletd;
pub mod network_http;
