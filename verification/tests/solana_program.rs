use bridge_custody::error::BridgeError;
use bridge_custody::solana_client::{
    account_exists, burn_intent_from_account, burn_nonce_from_config, burn_scan_start, deposit_intent_candidates,
    deposit_intent_outcome, deposit_nonce_from_config, deposit_ua_hash, first_existing, derive_associated_token_address, get_account_discriminator,
    get_instruction_discriminator, pending_burns_from_accounts,
    AttestationSubmitResult, BridgeProgram, MintPlan, ASSOCIATED_TOKEN_PROGRAM_ID, SYSTEM_PROGRAM_ID, TOKEN_PROGRAM_ID,
};
use sha2::{Digest, Sha256};
use solana_sdk::pubkey::Pubkey;
use std::str::FromStr;

const PROGRAM: &str = "HefTNtytDcQgSQmBpPuwjGipbVcJTMRHnppU9poWRXhD";

fn program() -> BridgeProgram {
    BridgeProgram::from_program_id(PROGRAM).unwrap()
}

fn pda(seeds: &[&[u8]]) -> [u8; 32] {
    Pubkey::find_program_address(seeds, &Pubkey::from_str(PROGRAM).unwrap()).0.to_bytes()
}

#[test]
fn test_instruction_discriminator() {
    let disc = get_instruction_discriminator("init_intent");
    assert_eq!(disc.len(), 8);
}

#[test]
fn discriminator_is_head_of_sha256() {
    let digest = Sha256::digest(b"global:mint_simple");
    assert_eq!(get_instruction_discriminator("mint_simple").to_vec(), digest[..8].to_vec());
}

#[test]
fn test_pda_derivation() {
    let (bridge_config, _) = program().derive_bridge_config_pda().unwrap();
    assert!(!Pubkey::new_from_array(bridge_config).to_string().is_empty());
}

#[test]
fn pdas_match_solana_sdk() {
    let p = program();
    assert_eq!(p.derive_bridge_config_pda().unwrap().0, pda(&[b"bridge-config"]));
    assert_eq!(p.derive_szec_mint_pda().unwrap().0, pda(&[b"szec-mint"]));
    assert_eq!(p.derive_mint_authority_pda().unwrap().0, pda(&[b"mint-authority"]));
    let user = [5u8; 32];
    assert_eq!(
        p.derive_deposit_intent_pda(&user, 3).unwrap().0,
        pda(&[b"deposit-intent", &user, &3u64.to_le_bytes()])
    );
    assert_eq!(p.derive_burn_intent_pda(&user, 9).unwrap().0, pda(&[b"burn-intent", &user, &9u64.to_le_bytes()]));
    let note = [7u8; 32];
    assert_eq!(p.derive_claim_tracker_pda(&note).unwrap().0, pda(&[b"claim-tracker", &note]));
}

#[test]
fn invalid_program_id_is_refused() {
    assert_eq!(BridgeProgram::from_program_id("not base58 !").unwrap_err(), BridgeError::InvalidPubkey);
}

#[test]
fn associated_token_address_matches_derivation() {
    let owner = [1u8; 32];
    let mint = [2u8; 32];
    let expected = Pubkey::find_program_address(
        &[&owner, &TOKEN_PROGRAM_ID, &mint],
        &Pubkey::new_from_array(ASSOCIATED_TOKEN_PROGRAM_ID),
    )
    .0
    .to_bytes();
    assert_eq!(derive_associated_token_address(&owner, &mint).unwrap(), expected);
}

#[test]
fn mint_simple_layout() {
    let p = program();
    let payer = [1u8; 32];
    let user = [2u8; 32];
    let note = [3u8; 32];
    let ix = p.mint_simple_instruction(&payer, &user, 4, &note, 1000, 77).unwrap();
    let mut data = get_instruction_discriminator("mint_simple").to_vec();
    data.extend_from_slice(&note);
    data.extend_from_slice(&1000u64.to_le_bytes());
    data.extend_from_slice(&77u64.to_le_bytes());
    assert_eq!(ix.data, data);
    assert_eq!(ix.accounts.len(), 12);
    assert_eq!(ix.accounts[0].pubkey, payer);
    assert!(ix.accounts[0].is_signer && !ix.accounts[0].is_writable);
    assert!(ix.accounts[1].is_signer && ix.accounts[1].is_writable);
    assert_eq!(ix.accounts[2].pubkey, pda(&[b"bridge-config"]));
    assert_eq!(ix.accounts[7].pubkey, user);
    assert_eq!(ix.accounts[11].pubkey, SYSTEM_PROGRAM_ID);
    assert_eq!(ix.program_id, Pubkey::from_str(PROGRAM).unwrap().to_bytes());
}

#[test]
fn create_deposit_layout() {
    let p = program();
    let ix = p.create_deposit_for_user_instruction(&[1u8; 32], &[2u8; 32], &[3u8; 32], 6).unwrap();
    assert_eq!(ix.data.len(), 8 + 32 + 32);
    assert_eq!(&ix.data[8..40], &[2u8; 32]);
    assert_eq!(ix.accounts.len(), 5);
    assert_eq!(ix.accounts[3].pubkey, pda(&[b"deposit-intent", &[2u8; 32], &6u64.to_le_bytes()]));
}

#[test]
fn burn_instructions_layout() {
    let p = program();
    let mark = p.mark_burn_processing_instruction(&[1u8; 32], &[2u8; 32], 5).unwrap();
    assert_eq!(mark.data, get_instruction_discriminator("mark_burn_processing").to_vec());
    assert_eq!(mark.accounts.len(), 3);
    assert!(mark.accounts[2].is_writable && !mark.accounts[1].is_writable);
    let fin = p.finalize_withdrawal_instruction(&[1u8; 32], &[2u8; 32], 5, &[0xaau8; 32], false).unwrap();
    assert_eq!(fin.data.len(), 41);
    assert_eq!(fin.data[40], 0);
    let ok = p.finalize_withdrawal_instruction(&[1u8; 32], &[2u8; 32], 5, &[0xaau8; 32], true).unwrap();
    assert_eq!(ok.data[40], 1);
    assert_eq!(&ok.data[8..40], &[0xaau8; 32]);
}

#[test]
fn nonces_are_read_at_their_offsets() {
    let mut data = vec![0u8; 160];
    data[137..145].copy_from_slice(&41u64.to_le_bytes());
    data[145..153].copy_from_slice(&17u64.to_le_bytes());
    assert_eq!(deposit_nonce_from_config(&data).unwrap(), 41);
    assert_eq!(burn_nonce_from_config(&data).unwrap(), 17);
}

#[test]
fn short_config_data_is_refused() {
    assert_eq!(
        deposit_nonce_from_config(&[0u8; 144]).unwrap_err(),
        BridgeError::AccountDataTooShort { needed: 145, actual: 144 }
    );
    assert_eq!(
        burn_nonce_from_config(&[0u8; 150]).unwrap_err(),
        BridgeError::AccountDataTooShort { needed: 153, actual: 150 }
    );
}

#[test]
fn burn_intent_account_is_read() {
    let mut data = vec![0u8; 130];
    data[9..17].copy_from_slice(&8u64.to_le_bytes());
    data[17..49].copy_from_slice(&[4u8; 32]);
    data[49..57].copy_from_slice(&999u64.to_le_bytes());
    data[57] = 1;
    data[58..90].copy_from_slice(&[5u8; 32]);
    data[90..122].copy_from_slice(&[6u8; 32]);
    let b = burn_intent_from_account(&data).unwrap();
    assert_eq!(b.burn_id, 8);
    assert_eq!(b.user, [4u8; 32]);
    assert_eq!(b.amount, 999);
    assert_eq!(b.status, 1);
    assert_eq!(b.encrypted_data_hash, [5u8; 32]);
    assert_eq!(b.zcash_txid, [6u8; 32]);
    assert_eq!(
        burn_intent_from_account(&data[..129]).unwrap_err(),
        BridgeError::AccountDataTooShort { needed: 130, actual: 129 }
    );
}

#[test]
fn deposit_candidates_newest_first() {
    assert_eq!(deposit_intent_candidates(10), vec![10, 9, 8, 7, 6]);
    assert_eq!(deposit_intent_candidates(2), vec![2, 1, 0]);
    assert_eq!(deposit_intent_candidates(0), vec![0]);
}

#[test]
fn ua_hash_is_sha256_of_user_nonce_tag() {
    let mut h = Sha256::new();
    h.update([8u8; 32]);
    h.update(3u64.to_le_bytes());
    h.update(b"hydex-ua-hash");
    let expected: [u8; 32] = h.finalize().into();
    assert_eq!(deposit_ua_hash(&[8u8; 32], 3), expected);
}

#[test]
fn scan_start_saturates() {
    assert_eq!(burn_scan_start(100, 20), 80);
    assert_eq!(burn_scan_start(5, 20), 0);
}

#[test]
fn account_lookup_outcomes() {
    let found: Result<Option<Vec<u8>>, String> = Ok(Some(vec![1]));
    let missing: Result<Option<Vec<u8>>, String> = Ok(None);
    let failed: Result<Option<Vec<u8>>, String> = Err("rpc".to_string());
    assert!(account_exists(&found));
    assert!(!account_exists(&missing));
    assert!(!account_exists(&failed));
}

#[test]
fn submit_results() {
    let c = AttestationSubmitResult::already_claimed(3);
    assert_eq!(c.signature, "already_claimed");
    assert!(!c.success);
    let m = AttestationSubmitResult::minted("sig".to_string(), 4);
    assert!(m.success);
    assert_eq!(m.deposit_id, 4);
}

#[test]
fn claimed_note_is_not_minted_again() {
    let p = program();
    match p.plan_mint(&[1u8; 32], &[2u8; 32], 5, &[3u8; 32], 10, 20, true).unwrap() {
        MintPlan::AlreadyClaimed(r) => {
            assert_eq!(r.signature, "already_claimed");
            assert_eq!(r.deposit_id, 5);
            assert!(!r.success);
        }
        MintPlan::Mint(_) => panic!("a claimed note was planned for minting"),
    }
    match p.plan_mint(&[1u8; 32], &[2u8; 32], 5, &[3u8; 32], 10, 20, false).unwrap() {
        MintPlan::Mint(ix) => {
            let direct = p.mint_simple_instruction(&[1u8; 32], &[2u8; 32], 5, &[3u8; 32], 10, 20).unwrap();
            assert_eq!(ix.data, direct.data);
            assert_eq!(ix.accounts, direct.accounts);
        }
        MintPlan::AlreadyClaimed(_) => panic!("an unclaimed note was not minted"),
    }
}

#[test]
fn first_existing_candidate() {
    assert_eq!(first_existing(10, &vec![false, false, true]), Some(8));
    assert_eq!(first_existing(10, &vec![true]), Some(10));
    assert_eq!(first_existing(10, &vec![false, false, false, false, false]), None);
    assert_eq!(first_existing(1, &vec![false, true]), Some(0));
    assert_eq!(first_existing(3, &vec![]), None);
}

#[test]
fn deposit_intent_outcomes() {
    assert_eq!(deposit_intent_outcome::<String>(Some(4), None, None), Ok(4));
    assert_eq!(deposit_intent_outcome::<String>(None, Some(Ok(7)), None), Ok(7));
    assert_eq!(deposit_intent_outcome(None, Some(Err("race".to_string())), Some(6)), Ok(6));
    assert_eq!(deposit_intent_outcome(None, Some(Err("race".to_string())), None), Err("race".to_string()));
}

fn burn_account(disc: [u8; 8], burn_id: u64, status: u8) -> Vec<u8> {
    let mut data = vec![0u8; 130];
    data[0..8].copy_from_slice(&disc);
    data[9..17].copy_from_slice(&burn_id.to_le_bytes());
    data[17..49].copy_from_slice(&[4u8; 32]);
    data[57] = status;
    data
}

#[test]
fn account_discriminator_is_head_of_sha256() {
    let digest = Sha256::digest(b"account:BurnIntent");
    assert_eq!(get_account_discriminator("BurnIntent").to_vec(), digest[..8].to_vec());
}

#[test]
fn pending_burns_are_picked_from_accounts() {
    let disc = get_account_discriminator("BurnIntent");
    let accounts = vec![
        burn_account(disc, 5, 0),
        burn_account(disc, 6, 1),
        burn_account([0u8; 8], 7, 0),
        burn_account(disc, 2, 0),
        burn_account(disc, 9, 0),
        burn_account(disc, 11, 0),
        vec![0u8; 20],
    ];
    let picked = pending_burns_from_accounts(&accounts, 3, 10);
    let ids: Vec<u64> = picked.iter().map(|b| b.burn_id).collect();
    assert_eq!(ids, vec![5, 9]);
    assert_eq!(picked[0].user, [4u8; 32]);
    assert_eq!(picked[0].status, 0);
}
