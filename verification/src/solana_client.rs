//! The bridge program's Solana side: program-derived addresses, instruction data and
//! account lists, and the layouts of its accounts.

use vstd::prelude::*;
use crate::bytes::{append_bytes, to_array32, u64_at, u64_from_le_at, u64_le, u64_to_le};
use crate::crypto::{sha256, sha256_digest};
use crate::error::BridgeError;
use crate::hexcodec::utf8;
use crate::text::owned;
use solana_sdk::pubkey::Pubkey;
use std::str::FromStr;

verus! {

broadcast use vstd::string::group_string_axioms;

/// The address derived from seeds under a program, and its bump seed, when one exists.
pub uninterp spec fn program_address(seeds: Seq<Seq<u8>>, program: Seq<u8>) -> Option<(Seq<u8>, u8)>;

/// The 32 bytes of a base58 Solana public key text, when it is one.
pub uninterp spec fn base58_pubkey(text: Seq<char>) -> Option<Seq<u8>>;

/// The byte strings of a list of seeds.
pub open spec fn seeds_view(seeds: Seq<Vec<u8>>) -> Seq<Seq<u8>> {
    seeds.map_values(|s: Vec<u8>| s@)
}

/// `Pubkey::try_find_program_address(seeds, program)`, keys taken as their 32 bytes.
#[verifier::external_body]
fn find_program_address(seeds: &Vec<Vec<u8>>, program: &[u8; 32]) -> (res: Option<([u8; 32], u8)>)
    ensures
        res matches Some(r) ==> program_address(seeds_view(seeds@), program@) == Some((r.0@, r.1)),
        res is None ==> program_address(seeds_view(seeds@), program@) is None,
{
    let refs: Vec<&[u8]> = seeds.iter().map(|s| s.as_slice()).collect();
    Pubkey::try_find_program_address(&refs, &Pubkey::new_from_array(*program))
        .map(|(address, bump)| (address.to_bytes(), bump))
}

/// `Pubkey::from_str(text)`, the key taken as its 32 bytes.
#[verifier::external_body]
pub(crate) fn parse_pubkey(text: &str) -> (res: Option<[u8; 32]>)
    ensures
        res matches Some(k) ==> base58_pubkey(text@) == Some(k@),
        res is None ==> base58_pubkey(text@) is None,
{
    Pubkey::from_str(text).ok().map(|k| k.to_bytes())
}

/// The SPL token program (TokenkegQfeZyiNwAJbNbGKPFXCWuBvf9Ss623VQ5DA).
pub const TOKEN_PROGRAM_ID: [u8; 32] = [
    6, 221, 246, 225, 215, 101, 161, 147, 217, 203, 225, 70, 206, 235, 121, 172, 28, 180, 133, 237,
    95, 91, 55, 145, 58, 140, 245, 133, 126, 255, 0, 169,
];

/// The associated token account program (ATokenGPvbdGVxr1b2hvZbsiqW5xWH25efTNsLJA8knL).
pub const ASSOCIATED_TOKEN_PROGRAM_ID: [u8; 32] = [
    140, 151, 37, 143, 78, 36, 137, 241, 187, 61, 16, 41, 20, 142, 13, 131, 11, 90, 19, 153, 218,
    255, 16, 132, 4, 142, 123, 216, 219, 233, 248, 89,
];

/// The system program (11111111111111111111111111111111).
pub const SYSTEM_PROGRAM_ID: [u8; 32] = [
    0, 0, 0, 0, 0, 0, 0, 0, 0, 0, 0, 0, 0, 0, 0, 0, 0, 0, 0, 0, 0, 0, 0, 0, 0, 0, 0, 0, 0, 0, 0, 0,
];

/// An account an instruction touches.
#[derive(Debug, Clone, Copy, PartialEq, Eq)]
pub struct AccountSpec {
    pub pubkey: [u8; 32],
    pub is_signer: bool,
    pub is_writable: bool,
}

/// An instruction of a program: its accounts in order, and its data.
#[derive(Debug, Clone)]
pub struct InstructionSpec {
    pub program_id: [u8; 32],
    pub accounts: Vec<AccountSpec>,
    pub data: Vec<u8>,
}

/// Whether an account entry is for `key` with these flags.
pub open spec fn account_is(a: AccountSpec, key: Seq<u8>, signer: bool, writable: bool) -> bool {
    a.pubkey@ == key && a.is_signer == signer && a.is_writable == writable
}

/// A writable account entry.
fn writable(key: [u8; 32], signer: bool) -> (res: AccountSpec)
    ensures
        account_is(res, key@, signer, true),
{
    AccountSpec { pubkey: key, is_signer: signer, is_writable: true }
}

/// A read-only account entry.
fn readonly(key: [u8; 32], signer: bool) -> (res: AccountSpec)
    ensures
        account_is(res, key@, signer, false),
{
    AccountSpec { pubkey: key, is_signer: signer, is_writable: false }
}

/// The Anchor discriminator of an instruction: the first 8 bytes of the SHA-256 of
/// "global:" followed by its name.
pub open spec fn discriminator(name: Seq<char>) -> Seq<u8> {
    sha256(utf8("global:"@) + utf8(name)).subrange(0, 8)
}

/// The first 8 bytes of the SHA-256 of `prefix` followed by `name`.
fn anchor_hash8(prefix: &str, name: &str) -> (res: [u8; 8])
    ensures
        res@ == sha256(utf8(prefix@) + utf8(name@)).subrange(0, 8),
{
    let mut pre: Vec<u8> = Vec::new();
    append_bytes(&mut pre, prefix.as_bytes());
    append_bytes(&mut pre, name.as_bytes());
    let digest = sha256_digest(pre.as_slice());
    let mut out = [0u8; 8];
    let mut i: usize = 0;
    while i < 8
        invariant
            0 <= i <= 8,
            digest@.len() == 32,
            out@.len() == 8,
            forall|j: int| 0 <= j < i ==> out@[j] == digest@[j],
        decreases 8 - i,
    {
        out[i] = digest[i];
        i = i + 1;
    }
    proof {
        assert(out@ =~= digest@.subrange(0, 8));
    }
    out
}

/// The Anchor instruction discriminator of `name`.
pub fn get_instruction_discriminator(name: &str) -> (res: [u8; 8])
    ensures
        res@ == discriminator(name@),
{
    anchor_hash8("global:", name)
}

/// The Anchor account discriminator of an account type: the first 8 bytes of the
/// SHA-256 of "account:" followed by the type's name.
pub open spec fn account_discriminator(name: Seq<char>) -> Seq<u8> {
    sha256(utf8("account:"@) + utf8(name)).subrange(0, 8)
}

/// The Anchor account discriminator of the account type `name`.
pub fn get_account_discriminator(name: &str) -> (res: [u8; 8])
    ensures
        res@ == account_discriminator(name@),
{
    anchor_hash8("account:", name)
}

/// Seeds made of a text tag alone.
pub open spec fn tag_seeds(tag: Seq<char>) -> Seq<Seq<u8>> {
    seq![utf8(tag)]
}

/// Seeds made of a text tag, a key and a little-endian `u64`.
pub open spec fn keyed_seeds(tag: Seq<char>, key: Seq<u8>, n: u64) -> Seq<Seq<u8>> {
    seq![utf8(tag), key, u64_le(n)]
}

/// A vector holding a text's UTF-8 bytes.
fn text_bytes(s: &str) -> (res: Vec<u8>)
    ensures
        res@ == utf8(s@),
{
    let mut v: Vec<u8> = Vec::new();
    append_bytes(&mut v, s.as_bytes());
    v
}

/// A vector holding the bytes of a slice.
fn slice_bytes(s: &[u8]) -> (res: Vec<u8>)
    ensures
        res@ == s@,
{
    let mut v: Vec<u8> = Vec::new();
    append_bytes(&mut v, s);
    v
}

/// The program of the bridge, from which its accounts are derived.
#[derive(Debug, Clone, Copy)]
pub struct BridgeProgram {
    pub program_id: [u8; 32],
}

impl BridgeProgram {
    /// The bridge program whose id is the base58 text `program_id`.
    pub fn from_program_id(program_id: &str) -> (res: Result<BridgeProgram, BridgeError>)
        ensures
            match base58_pubkey(program_id@) {
                Some(k) => res matches Ok(p) && p.program_id@ == k,
                None => res == Err::<BridgeProgram, BridgeError>(BridgeError::InvalidPubkey),
            },
    {
        match parse_pubkey(program_id) {
            Some(k) => Ok(BridgeProgram { program_id: k }),
            None => Err(BridgeError::InvalidPubkey),
        }
    }

    /// Derives an address from seeds under the bridge program.
    fn derive(&self, seeds: &Vec<Vec<u8>>) -> (res: Option<([u8; 32], u8)>)
        ensures
            match program_address(seeds_view(seeds@), self.program_id@) {
                Some((a, b)) => res matches Some(r) && r.0@ == a && r.1 == b,
                None => res is None,
            },
    {
        find_program_address(seeds, &self.program_id)
    }

    /// Derives from a text tag alone.
    fn derive_tagged(&self, tag: &str) -> (res: Option<([u8; 32], u8)>)
        ensures
            match program_address(tag_seeds(tag@), self.program_id@) {
                Some((a, b)) => res matches Some(r) && r.0@ == a && r.1 == b,
                None => res is None,
            },
    {
        let mut seeds: Vec<Vec<u8>> = Vec::new();
        seeds.push(text_bytes(tag));
        proof {
            assert(seeds_view(seeds@) =~= tag_seeds(tag@));
        }
        self.derive(&seeds)
    }

    /// Derives from a text tag, a key and a little-endian `u64`.
    fn derive_keyed(&self, tag: &str, key: &[u8; 32], n: u64) -> (res: Option<([u8; 32], u8)>)
        ensures
            match program_address(keyed_seeds(tag@, key@, n), self.program_id@) {
                Some((a, b)) => res matches Some(r) && r.0@ == a && r.1 == b,
                None => res is None,
            },
    {
        let mut seeds: Vec<Vec<u8>> = Vec::new();
        seeds.push(text_bytes(tag));
        seeds.push(slice_bytes(key.as_slice()));
        let le = u64_to_le(n);
        seeds.push(slice_bytes(le.as_slice()));
        proof {
            assert(seeds_view(seeds@) =~= keyed_seeds(tag@, key@, n));
        }
        self.derive(&seeds)
    }

    /// The bridge config account: seeds ["bridge-config"].
    pub fn derive_bridge_config_pda(&self) -> (res: Option<([u8; 32], u8)>)
        ensures
            match program_address(tag_seeds("bridge-config"@), self.program_id@) {
                Some((a, b)) => res matches Some(r) && r.0@ == a && r.1 == b,
                None => res is None,
            },
    {
        self.derive_tagged("bridge-config")
    }

    /// A user's deposit intent: seeds ["deposit-intent", user, deposit id (LE)].
    pub fn derive_deposit_intent_pda(&self, user: &[u8; 32], deposit_id: u64) -> (res: Option<([u8; 32], u8)>)
        ensures
            match program_address(keyed_seeds("deposit-intent"@, user@, deposit_id), self.program_id@) {
                Some((a, b)) => res matches Some(r) && r.0@ == a && r.1 == b,
                None => res is None,
            },
    {
        self.derive_keyed("deposit-intent", user, deposit_id)
    }

    /// The claim tracker of a note (which prevents minting twice):
    /// seeds ["claim-tracker", note commitment].
    pub fn derive_claim_tracker_pda(&self, note_commitment: &[u8; 32]) -> (res: Option<([u8; 32], u8)>)
        ensures
            match program_address(seq![utf8("claim-tracker"@), note_commitment@], self.program_id@) {
                Some((a, b)) => res matches Some(r) && r.0@ == a && r.1 == b,
                None => res is None,
            },
    {
        let mut seeds: Vec<Vec<u8>> = Vec::new();
        seeds.push(text_bytes("claim-tracker"));
        seeds.push(slice_bytes(note_commitment.as_slice()));
        proof {
            assert(seeds_view(seeds@) =~= seq![utf8("claim-tracker"@), note_commitment@]);
        }
        self.derive(&seeds)
    }

    /// The sZEC mint: seeds ["szec-mint"].
    pub fn derive_szec_mint_pda(&self) -> (res: Option<([u8; 32], u8)>)
        ensures
            match program_address(tag_seeds("szec-mint"@), self.program_id@) {
                Some((a, b)) => res matches Some(r) && r.0@ == a && r.1 == b,
                None => res is None,
            },
    {
        self.derive_tagged("szec-mint")
    }

    /// The mint authority: seeds ["mint-authority"].
    pub fn derive_mint_authority_pda(&self) -> (res: Option<([u8; 32], u8)>)
        ensures
            match program_address(tag_seeds("mint-authority"@), self.program_id@) {
                Some((a, b)) => res matches Some(r) && r.0@ == a && r.1 == b,
                None => res is None,
            },
    {
        self.derive_tagged("mint-authority")
    }

    /// A user's burn intent: seeds ["burn-intent", user, burn id (LE)].
    pub fn derive_burn_intent_pda(&self, user: &[u8; 32], burn_id: u64) -> (res: Option<([u8; 32], u8)>)
        ensures
            match program_address(keyed_seeds("burn-intent"@, user@, burn_id), self.program_id@) {
                Some((a, b)) => res matches Some(r) && r.0@ == a && r.1 == b,
                None => res is None,
            },
    {
        self.derive_keyed("burn-intent", user, burn_id)
    }
}

/// The associated token account of an owner for a mint: seeds [owner, token program,
/// mint] under the associated token account program.
pub open spec fn associated_token_address(owner: Seq<u8>, mint: Seq<u8>) -> Option<Seq<u8>> {
    match program_address(seq![owner, TOKEN_PROGRAM_ID@, mint], ASSOCIATED_TOKEN_PROGRAM_ID@) {
        Some((a, _)) => Some(a),
        None => None,
    }
}

/// The associated token account of `owner` for `mint`.
pub fn derive_associated_token_address(owner: &[u8; 32], mint: &[u8; 32]) -> (res: Option<[u8; 32]>)
    ensures
        match associated_token_address(owner@, mint@) {
            Some(a) => res matches Some(r) && r@ == a,
            None => res is None,
        },
{
    let token_program = TOKEN_PROGRAM_ID;
    let ata_program = ASSOCIATED_TOKEN_PROGRAM_ID;
    let mut seeds: Vec<Vec<u8>> = Vec::new();
    seeds.push(slice_bytes(owner.as_slice()));
    seeds.push(slice_bytes(token_program.as_slice()));
    seeds.push(slice_bytes(mint.as_slice()));
    proof {
        assert(seeds_view(seeds@) =~= seq![owner@, TOKEN_PROGRAM_ID@, mint@]);
    }
    match find_program_address(&seeds, &ata_program) {
        Some((address, _bump)) => Some(address),
        None => None,
    }
}

/// The address of a derivation, without its bump.
pub open spec fn pda(seeds: Seq<Seq<u8>>, program: Seq<u8>) -> Option<Seq<u8>> {
    match program_address(seeds, program) {
        Some((a, _)) => Some(a),
        None => None,
    }
}

/// An account entry as (key, signer, writable).
pub open spec fn account_view(a: AccountSpec) -> (Seq<u8>, bool, bool) {
    (a.pubkey@, a.is_signer, a.is_writable)
}

/// The entries of an account list.
pub open spec fn accounts_view(s: Seq<AccountSpec>) -> Seq<(Seq<u8>, bool, bool)> {
    s.map_values(|a: AccountSpec| account_view(a))
}

/// Instruction data of `mint_simple`: discriminator, note commitment, amount and block
/// height (both little-endian).
pub open spec fn mint_simple_data(note_commitment: Seq<u8>, amount: u64, block_height: u64) -> Seq<u8> {
    discriminator("mint_simple"@) + note_commitment + u64_le(amount) + u64_le(block_height)
}

/// Accounts of `mint_simple`, in the order of the program's `MintSimple` struct.
pub open spec fn mint_simple_accounts(
    program: Seq<u8>,
    payer: Seq<u8>,
    user: Seq<u8>,
    deposit_id: u64,
    note_commitment: Seq<u8>,
) -> Option<Seq<(Seq<u8>, bool, bool)>> {
    match (
        pda(tag_seeds("bridge-config"@), program),
        pda(keyed_seeds("deposit-intent"@, user, deposit_id), program),
        pda(seq![utf8("claim-tracker"@), note_commitment], program),
        pda(tag_seeds("szec-mint"@), program),
        pda(tag_seeds("mint-authority"@), program),
    ) {
        (Some(config), Some(deposit), Some(claim), Some(mint), Some(authority)) => match associated_token_address(user, mint) {
            Some(user_token) => Some(seq![
                (payer, true, false),
                (payer, true, true),
                (config, false, true),
                (deposit, false, true),
                (claim, false, true),
                (mint, false, true),
                (authority, false, false),
                (user, false, false),
                (user_token, false, true),
                (ASSOCIATED_TOKEN_PROGRAM_ID@, false, false),
                (TOKEN_PROGRAM_ID@, false, false),
                (SYSTEM_PROGRAM_ID@, false, false),
            ]),
            None => None,
        },
        _ => None,
    }
}

/// Accounts of `create_deposit_for_user`.
pub open spec fn create_deposit_accounts(program: Seq<u8>, payer: Seq<u8>, recipient: Seq<u8>, deposit_nonce: u64) -> Option<Seq<(Seq<u8>, bool, bool)>> {
    match (pda(tag_seeds("bridge-config"@), program), pda(keyed_seeds("deposit-intent"@, recipient, deposit_nonce), program)) {
        (Some(config), Some(deposit)) => Some(seq![
            (payer, true, false),
            (payer, true, true),
            (config, false, true),
            (deposit, false, true),
            (SYSTEM_PROGRAM_ID@, false, false),
        ]),
        _ => None,
    }
}

/// Accounts of `mark_burn_processing` and `finalize_withdrawal`.
pub open spec fn burn_update_accounts(program: Seq<u8>, payer: Seq<u8>, user: Seq<u8>, burn_id: u64) -> Option<Seq<(Seq<u8>, bool, bool)>> {
    match (pda(tag_seeds("bridge-config"@), program), pda(keyed_seeds("burn-intent"@, user, burn_id), program)) {
        (Some(config), Some(burn)) => Some(seq![
            (payer, true, false),
            (config, false, false),
            (burn, false, true),
        ]),
        _ => None,
    }
}

/// The accounts of `mint_simple` in the order of the program's `MintSimple` struct:
/// payer (signer, then signer and writable), bridge config, the user's deposit intent
/// for the deposit id, the note's claim tracker, the sZEC mint (all writable), the mint
/// authority, the user, the user's token account (writable), then the associated token,
/// token and system programs.
pub proof fn lemma_mint_simple_account_slots(
    program: Seq<u8>,
    payer: Seq<u8>,
    user: Seq<u8>,
    deposit_id: u64,
    note_commitment: Seq<u8>,
)
    requires
        mint_simple_accounts(program, payer, user, deposit_id, note_commitment) is Some,
    ensures
        ({
            let accts = mint_simple_accounts(program, payer, user, deposit_id, note_commitment).unwrap();
            let mint = program_address(seq![utf8("szec-mint"@)], program).unwrap().0;
            &&& accts.len() == 12
            &&& accts[0] == (payer, true, false)
            &&& accts[1] == (payer, true, true)
            &&& accts[2] == (program_address(seq![utf8("bridge-config"@)], program).unwrap().0, false, true)
            &&& accts[3] == (program_address(seq![utf8("deposit-intent"@), user, u64_le(deposit_id)], program).unwrap().0, false, true)
            &&& accts[4] == (program_address(seq![utf8("claim-tracker"@), note_commitment], program).unwrap().0, false, true)
            &&& accts[5] == (mint, false, true)
            &&& accts[6] == (program_address(seq![utf8("mint-authority"@)], program).unwrap().0, false, false)
            &&& accts[7] == (user, false, false)
            &&& accts[8] == (program_address(seq![user, TOKEN_PROGRAM_ID@, mint], ASSOCIATED_TOKEN_PROGRAM_ID@).unwrap().0, false, true)
            &&& accts[9] == (ASSOCIATED_TOKEN_PROGRAM_ID@, false, false)
            &&& accts[10] == (TOKEN_PROGRAM_ID@, false, false)
            &&& accts[11] == (SYSTEM_PROGRAM_ID@, false, false)
        }),
{
}

/// The accounts of a burn-intent update: the payer (signer, read-only), the bridge
/// config (read-only), then the user's burn intent for the burn id (writable).
pub proof fn lemma_burn_update_account_slots(program: Seq<u8>, payer: Seq<u8>, user: Seq<u8>, burn_id: u64)
    requires
        burn_update_accounts(program, payer, user, burn_id) is Some,
    ensures
        ({
            let accts = burn_update_accounts(program, payer, user, burn_id).unwrap();
            &&& accts.len() == 3
            &&& accts[0] == (payer, true, false)
            &&& accts[1] == (program_address(seq![utf8("bridge-config"@)], program).unwrap().0, false, false)
            &&& accts[2] == (program_address(seq![utf8("burn-intent"@), user, u64_le(burn_id)], program).unwrap().0, false, true)
        }),
{
}

/// Whether an instruction is for the program, with these accounts and data.
pub open spec fn instruction_is(ix: InstructionSpec, program: Seq<u8>, accounts: Seq<(Seq<u8>, bool, bool)>, data: Seq<u8>) -> bool {
    ix.program_id@ == program && accounts_view(ix.accounts@) == accounts && ix.data@ == data
}

/// Unwraps a derived address.
fn found(d: Option<([u8; 32], u8)>) -> (res: Result<[u8; 32], BridgeError>)
    ensures
        match d {
            Some(r) => res == Ok::<[u8; 32], BridgeError>(r.0),
            None => res == Err::<[u8; 32], BridgeError>(BridgeError::NoProgramAddress),
        },
{
    match d {
        Some((address, _bump)) => Ok(address),
        None => Err(BridgeError::NoProgramAddress),
    }
}

/// What to do with an attested deposit.
#[derive(Debug, Clone)]
pub enum MintPlan {
    /// The note was minted for already: nothing is minted again.
    AlreadyClaimed(AttestationSubmitResult),
    /// Send this `mint_simple` instruction.
    Mint(InstructionSpec),
}

impl BridgeProgram {
    /// Plans the mint of an attested deposit: a note whose claim tracker exists is not
    /// minted again; otherwise the `mint_simple` instruction for it.
    pub fn plan_mint(
        &self,
        payer: &[u8; 32],
        user: &[u8; 32],
        deposit_id: u64,
        note_commitment: &[u8; 32],
        amount: u64,
        block_height: u64,
        note_claimed: bool,
    ) -> (res: Result<MintPlan, BridgeError>)
        ensures
            note_claimed ==> (res matches Ok(MintPlan::AlreadyClaimed(r)) && r.signature@ == "already_claimed"@
                && r.deposit_id == deposit_id && !r.success),
            !note_claimed ==> match mint_simple_accounts(self.program_id@, payer@, user@, deposit_id, note_commitment@) {
                Some(accts) => res matches Ok(MintPlan::Mint(ix)) && instruction_is(ix, self.program_id@, accts,
                    mint_simple_data(note_commitment@, amount, block_height)),
                None => res == Err::<MintPlan, BridgeError>(BridgeError::NoProgramAddress),
            },
    {
        if note_claimed {
            return Ok(MintPlan::AlreadyClaimed(AttestationSubmitResult::already_claimed(deposit_id)));
        }
        let ix = self.mint_simple_instruction(payer, user, deposit_id, note_commitment, amount, block_height)?;
        Ok(MintPlan::Mint(ix))
    }

    /// The `mint_simple` instruction that mints for an attested deposit.
    pub fn mint_simple_instruction(
        &self,
        payer: &[u8; 32],
        user: &[u8; 32],
        deposit_id: u64,
        note_commitment: &[u8; 32],
        amount: u64,
        block_height: u64,
    ) -> (res: Result<InstructionSpec, BridgeError>)
        ensures
            match mint_simple_accounts(self.program_id@, payer@, user@, deposit_id, note_commitment@) {
                Some(accts) => res matches Ok(ix) && instruction_is(ix, self.program_id@, accts, mint_simple_data(note_commitment@, amount, block_height)),
                None => res == Err::<InstructionSpec, BridgeError>(BridgeError::NoProgramAddress),
            },        res matches Ok(ix) ==> {
            &&& ix.accounts@.len() == 12
            &&& ix.data@.len() == 56
            &&& ix.data@.subrange(0, 8) == sha256(utf8("global:"@) + utf8("mint_simple"@)).subrange(0, 8)
            &&& ix.data@.subrange(8, 40) == note_commitment@
            &&& ix.data@.subrange(40, 48) == u64_le(amount)
            &&& ix.data@.subrange(48, 56) == u64_le(block_height)
            &&& account_is(ix.accounts@[0], payer@, true, false)
            &&& account_is(ix.accounts@[1], payer@, true, true)
            &&& account_is(ix.accounts@[2], program_address(seq![utf8("bridge-config"@)], self.program_id@).unwrap().0, false, true)
            &&& account_is(ix.accounts@[3], program_address(seq![utf8("deposit-intent"@), user@, u64_le(deposit_id)], self.program_id@).unwrap().0, false, true)
            &&& account_is(ix.accounts@[4], program_address(seq![utf8("claim-tracker"@), note_commitment@], self.program_id@).unwrap().0, false, true)
            &&& account_is(ix.accounts@[5], program_address(seq![utf8("szec-mint"@)], self.program_id@).unwrap().0, false, true)
            &&& account_is(ix.accounts@[6], program_address(seq![utf8("mint-authority"@)], self.program_id@).unwrap().0, false, false)
            &&& account_is(ix.accounts@[7], user@, false, false)
            &&& account_is(ix.accounts@[9], ASSOCIATED_TOKEN_PROGRAM_ID@, false, false)
            &&& account_is(ix.accounts@[10], TOKEN_PROGRAM_ID@, false, false)
            &&& account_is(ix.accounts@[11], SYSTEM_PROGRAM_ID@, false, false)
        },
    {
        let disc = get_instruction_discriminator("mint_simple");
        let mut data: Vec<u8> = Vec::new();
        append_bytes(&mut data, disc.as_slice());
        append_bytes(&mut data, note_commitment.as_slice());
        let a = u64_to_le(amount);
        append_bytes(&mut data, a.as_slice());
        let h = u64_to_le(block_height);
        append_bytes(&mut data, h.as_slice());

        let config = found(self.derive_bridge_config_pda())?;
        let deposit = found(self.derive_deposit_intent_pda(user, deposit_id))?;
        let claim = found(self.derive_claim_tracker_pda(note_commitment))?;
        let mint = found(self.derive_szec_mint_pda())?;
        let authority = found(self.derive_mint_authority_pda())?;
        let user_token = match derive_associated_token_address(user, &mint) {
            Some(t) => t,
            None => return Err(BridgeError::NoProgramAddress),
        };
        let mut accounts: Vec<AccountSpec> = Vec::new();
        accounts.push(readonly(*payer, true));
        accounts.push(writable(*payer, true));
        accounts.push(writable(config, false));
        accounts.push(writable(deposit, false));
        accounts.push(writable(claim, false));
        accounts.push(writable(mint, false));
        accounts.push(readonly(authority, false));
        accounts.push(readonly(*user, false));
        accounts.push(writable(user_token, false));
        accounts.push(readonly(ASSOCIATED_TOKEN_PROGRAM_ID, false));
        accounts.push(readonly(TOKEN_PROGRAM_ID, false));
        accounts.push(readonly(SYSTEM_PROGRAM_ID, false));
        proof {
            assert(data@.subrange(0, 8) =~= disc@);
            assert(data@.subrange(8, 40) =~= note_commitment@);
            assert(data@.subrange(40, 48) =~= a@);
            assert(data@.subrange(48, 56) =~= h@);
        }
        let ix = InstructionSpec { program_id: self.program_id, accounts, data };
        proof {
            assert(accounts_view(ix.accounts@) =~= mint_simple_accounts(self.program_id@, payer@, user@, deposit_id, note_commitment@).unwrap());
        }
        Ok(ix)
    }

    /// The `create_deposit_for_user` instruction: recipient and UA hash as data.
    pub fn create_deposit_for_user_instruction(
        &self,
        payer: &[u8; 32],
        recipient: &[u8; 32],
        ua_hash: &[u8; 32],
        deposit_nonce: u64,
    ) -> (res: Result<InstructionSpec, BridgeError>)
        ensures
            match create_deposit_accounts(self.program_id@, payer@, recipient@, deposit_nonce) {
                Some(accts) => res matches Ok(ix) && instruction_is(ix, self.program_id@, accts,
                    discriminator("create_deposit_for_user"@) + recipient@ + ua_hash@),
                None => res == Err::<InstructionSpec, BridgeError>(BridgeError::NoProgramAddress),
            },
            res matches Ok(ix) ==> {
                &&& ix.accounts@.len() == 5
                &&& account_is(ix.accounts@[0], payer@, true, false)
                &&& account_is(ix.accounts@[1], payer@, true, true)
                &&& account_is(ix.accounts@[2], program_address(seq![utf8("bridge-config"@)], self.program_id@).unwrap().0, false, true)
                &&& account_is(ix.accounts@[3], program_address(seq![utf8("deposit-intent"@), recipient@, u64_le(deposit_nonce)], self.program_id@).unwrap().0, false, true)
                &&& account_is(ix.accounts@[4], SYSTEM_PROGRAM_ID@, false, false)
                &&& ix.data@.len() == 72
                &&& ix.data@.subrange(0, 8) == sha256(utf8("global:"@) + utf8("create_deposit_for_user"@)).subrange(0, 8)
                &&& ix.data@.subrange(8, 40) == recipient@
                &&& ix.data@.subrange(40, 72) == ua_hash@
            },
    {
        let disc = get_instruction_discriminator("create_deposit_for_user");
        let mut data: Vec<u8> = Vec::new();
        append_bytes(&mut data, disc.as_slice());
        append_bytes(&mut data, recipient.as_slice());
        append_bytes(&mut data, ua_hash.as_slice());
        let config = found(self.derive_bridge_config_pda())?;
        let deposit = found(self.derive_deposit_intent_pda(recipient, deposit_nonce))?;
        let mut accounts: Vec<AccountSpec> = Vec::new();
        accounts.push(readonly(*payer, true));
        accounts.push(writable(*payer, true));
        accounts.push(writable(config, false));
        accounts.push(writable(deposit, false));
        accounts.push(readonly(SYSTEM_PROGRAM_ID, false));
        proof {
            assert(data@.subrange(0, 8) =~= disc@);
            assert(data@.subrange(8, 40) =~= recipient@);
            assert(data@.subrange(40, 72) =~= ua_hash@);
        }
        let ix = InstructionSpec { program_id: self.program_id, accounts, data };
        proof {
            assert(accounts_view(ix.accounts@) =~= create_deposit_accounts(self.program_id@, payer@, recipient@, deposit_nonce).unwrap());
        }
        Ok(ix)
    }

    /// The accounts of an update to a burn intent.
    fn burn_update(&self, payer: &[u8; 32], user: &[u8; 32], burn_id: u64) -> (res: Result<Vec<AccountSpec>, BridgeError>)
        ensures
            match burn_update_accounts(self.program_id@, payer@, user@, burn_id) {
                Some(accts) => res matches Ok(v) && accounts_view(v@) == accts,
                None => res == Err::<Vec<AccountSpec>, BridgeError>(BridgeError::NoProgramAddress),
            },
            res matches Ok(v) ==> {
                &&& v@.len() == 3
                &&& account_is(v@[0], payer@, true, false)
                &&& account_is(v@[1], program_address(seq![utf8("bridge-config"@)], self.program_id@).unwrap().0, false, false)
                &&& account_is(v@[2], program_address(seq![utf8("burn-intent"@), user@, u64_le(burn_id)], self.program_id@).unwrap().0, false, true)
            },
    {
        let config = found(self.derive_bridge_config_pda())?;
        let burn = found(self.derive_burn_intent_pda(user, burn_id))?;
        let mut accounts: Vec<AccountSpec> = Vec::new();
        accounts.push(readonly(*payer, true));
        accounts.push(readonly(config, false));
        accounts.push(writable(burn, false));
        proof {
            assert(accounts_view(accounts@) =~= burn_update_accounts(self.program_id@, payer@, user@, burn_id).unwrap());
        }
        Ok(accounts)
    }

    /// The `mark_burn_processing` instruction (data: the discriminator alone).
    pub fn mark_burn_processing_instruction(&self, payer: &[u8; 32], user: &[u8; 32], burn_id: u64) -> (res: Result<InstructionSpec, BridgeError>)
        ensures
            match burn_update_accounts(self.program_id@, payer@, user@, burn_id) {
                Some(accts) => res matches Ok(ix) && instruction_is(ix, self.program_id@, accts, discriminator("mark_burn_processing"@)),
                None => res == Err::<InstructionSpec, BridgeError>(BridgeError::NoProgramAddress),
            },
            res matches Ok(ix) ==> {
                &&& ix.accounts@.len() == 3
                &&& account_is(ix.accounts@[0], payer@, true, false)
                &&& account_is(ix.accounts@[1], program_address(seq![utf8("bridge-config"@)], self.program_id@).unwrap().0, false, false)
                &&& account_is(ix.accounts@[2], program_address(seq![utf8("burn-intent"@), user@, u64_le(burn_id)], self.program_id@).unwrap().0, false, true)
            },
    {
        let disc = get_instruction_discriminator("mark_burn_processing");
        let accounts = self.burn_update(payer, user, burn_id)?;
        let data = slice_bytes(disc.as_slice());
        Ok(InstructionSpec { program_id: self.program_id, accounts, data })
    }

    /// The `finalize_withdrawal` instruction: the Zcash txid and a success byte (1 or 0).
    pub fn finalize_withdrawal_instruction(
        &self,
        payer: &[u8; 32],
        user: &[u8; 32],
        burn_id: u64,
        zcash_txid: &[u8; 32],
        success: bool,
    ) -> (res: Result<InstructionSpec, BridgeError>)
        ensures
            match burn_update_accounts(self.program_id@, payer@, user@, burn_id) {
                Some(accts) => res matches Ok(ix) && instruction_is(ix, self.program_id@, accts,
                    discriminator("finalize_withdrawal"@) + zcash_txid@ + seq![if success { 1u8 } else { 0u8 }]),
                None => res == Err::<InstructionSpec, BridgeError>(BridgeError::NoProgramAddress),
            },
            res matches Ok(ix) ==> {
                &&& ix.accounts@.len() == 3
                &&& ix.data@.len() == 41
                &&& ix.data@.subrange(0, 8) == sha256(utf8("global:"@) + utf8("finalize_withdrawal"@)).subrange(0, 8)
                &&& ix.data@.subrange(8, 40) == zcash_txid@
                &&& ix.data@[40] == (if success { 1u8 } else { 0u8 })
                &&& account_is(ix.accounts@[0], payer@, true, false)
                &&& account_is(ix.accounts@[1], program_address(seq![utf8("bridge-config"@)], self.program_id@).unwrap().0, false, false)
                &&& account_is(ix.accounts@[2], program_address(seq![utf8("burn-intent"@), user@, u64_le(burn_id)], self.program_id@).unwrap().0, false, true)
            },
    {
        let disc = get_instruction_discriminator("finalize_withdrawal");
        let mut data: Vec<u8> = Vec::new();
        append_bytes(&mut data, disc.as_slice());
        append_bytes(&mut data, zcash_txid.as_slice());
        let flag: u8 = if success { 1u8 } else { 0u8 };
        let ghost before = data@;
        data.push(flag);
        proof {
            assert(data@ =~= before + seq![flag]);
            assert(data@.subrange(0, 8) =~= disc@);
            assert(data@.subrange(8, 40) =~= zcash_txid@);
        }
        let accounts = self.burn_update(payer, user, burn_id)?;
        Ok(InstructionSpec { program_id: self.program_id, accounts, data })
    }
}

/// The deposit nonce in bridge config data: a little-endian `u64` at offset 137 (after
/// discriminator, bump, admin, enclave authority, MPC authority and mint).
pub open spec fn deposit_nonce_of(data: Seq<u8>) -> Result<u64, BridgeError> {
    if data.len() < 145 {
        Err(BridgeError::AccountDataTooShort { needed: 145, actual: data.len() as usize })
    } else {
        Ok(u64_at(data, 137))
    }
}

/// The burn nonce in bridge config data: a little-endian `u64` at offset 145.
pub open spec fn burn_nonce_of(data: Seq<u8>) -> Result<u64, BridgeError> {
    if data.len() < 153 {
        Err(BridgeError::AccountDataTooShort { needed: 153, actual: data.len() as usize })
    } else {
        Ok(u64_at(data, 145))
    }
}

/// Reads the deposit nonce from bridge config account data.
pub fn deposit_nonce_from_config(data: &[u8]) -> (res: Result<u64, BridgeError>)
    ensures
        res == deposit_nonce_of(data@),
{
    if data.len() < 145 {
        return Err(BridgeError::AccountDataTooShort { needed: 145, actual: data.len() });
    }
    Ok(u64_from_le_at(data, 137))
}

/// Reads the burn nonce from bridge config account data.
pub fn burn_nonce_from_config(data: &[u8]) -> (res: Result<u64, BridgeError>)
    ensures
        res == burn_nonce_of(data@),
{
    if data.len() < 153 {
        return Err(BridgeError::AccountDataTooShort { needed: 153, actual: data.len() });
    }
    Ok(u64_from_le_at(data, 145))
}

/// A nonce written little-endian at an offset of an account reads back unchanged.
pub proof fn lemma_nonce_layout_roundtrip(before: Seq<u8>, n: u64, after: Seq<u8>)
    ensures
        u64_at(before + u64_le(n) + after, before.len() as int) == n,
{
    crate::bytes::lemma_u64_le_roundtrip(n);
    let whole = before + u64_le(n) + after;
    assert(whole.subrange(before.len() as int, before.len() as int + 8) =~= u64_le(n));
}

/// A burn intent as stored by the bridge program.
#[derive(Debug, Clone, Copy)]
pub struct BurnIntentData {
    pub burn_id: u64,
    pub user: [u8; 32],
    pub amount: u64,
    pub status: u8,
    pub encrypted_data_hash: [u8; 32],
    pub zcash_txid: [u8; 32],
}

/// Whether burn intent data was read from account data laid out as discriminator (8),
/// bump (1), burn id (8), user (32), amount (8), status (1), encrypted data hash (32),
/// Zcash txid (32), created at (8).
pub open spec fn burn_intent_layout(b: BurnIntentData, data: Seq<u8>) -> bool {
    &&& b.burn_id == u64_at(data, 9)
    &&& b.user@ == data.subrange(17, 49)
    &&& b.amount == u64_at(data, 49)
    &&& b.status == data[57]
    &&& b.encrypted_data_hash@ == data.subrange(58, 90)
    &&& b.zcash_txid@ == data.subrange(90, 122)
}

/// Reads a burn intent account; its data must hold at least 130 bytes.
pub fn burn_intent_from_account(data: &[u8]) -> (res: Result<BurnIntentData, BridgeError>)
    ensures
        data@.len() < 130 ==> res == Err::<BurnIntentData, BridgeError>(BridgeError::AccountDataTooShort { needed: 130, actual: data@.len() as usize }),
        data@.len() >= 130 ==> (res matches Ok(b) && burn_intent_layout(b, data@)),
{
    if data.len() < 130 {
        return Err(BridgeError::AccountDataTooShort { needed: 130, actual: data.len() });
    }
    let burn_id = u64_from_le_at(data, 9);
    let user = to_array32(vstd::slice::slice_subrange(data, 17, 49));
    let amount = u64_from_le_at(data, 49);
    let status = data[57];
    let encrypted_data_hash = to_array32(vstd::slice::slice_subrange(data, 58, 90));
    let zcash_txid = to_array32(vstd::slice::slice_subrange(data, 90, 122));
    Ok(BurnIntentData { burn_id, user, amount, status, encrypted_data_hash, zcash_txid })
}

/// Whether account data is a burn intent (by its account discriminator) that is
/// pending (status 0) and whose burn id lies in `start..=end`.
pub open spec fn is_pending_burn(data: Seq<u8>, start: u64, end: u64) -> bool {
    &&& data.len() >= 130
    &&& data.subrange(0, 8) == account_discriminator("BurnIntent"@)
    &&& data[57] == 0
    &&& start <= u64_at(data, 9) <= end
}

/// The byte strings of a list of account data.
pub open spec fn datas_view(accounts: Seq<Vec<u8>>) -> Seq<Seq<u8>> {
    accounts.map_values(|a: Vec<u8>| a@)
}

/// The pending burn intents among program accounts: those data that are pending
/// burn intents with ids in `start..=end`, in the order given, each read with the
/// burn intent layout.
pub fn pending_burns_from_accounts(accounts: &Vec<Vec<u8>>, start: u64, end: u64) -> (res: Vec<BurnIntentData>)
    ensures
        ({
            let picked = datas_view(accounts@).filter(|d: Seq<u8>| is_pending_burn(d, start, end));
            &&& res@.len() == picked.len()
            &&& forall|i: int| 0 <= i < res@.len() ==> burn_intent_layout(#[trigger] res@[i], picked[i])
        }),
{
    let disc = get_account_discriminator("BurnIntent");
    let ghost pred = |d: Seq<u8>| is_pending_burn(d, start, end);
    let mut res: Vec<BurnIntentData> = Vec::new();
    let mut i: usize = 0;
    while i < accounts.len()
        invariant
            0 <= i <= accounts@.len(),
            disc@ == account_discriminator("BurnIntent"@),
            pred == (|d: Seq<u8>| is_pending_burn(d, start, end)),
            res@.len() == datas_view(accounts@.subrange(0, i as int)).filter(pred).len(),
            forall|k: int| 0 <= k < res@.len() ==> burn_intent_layout(#[trigger] res@[k],
                datas_view(accounts@.subrange(0, i as int)).filter(pred)[k]),
        decreases accounts@.len() - i,
    {
        let data = accounts[i].as_slice();
        let ghost before = datas_view(accounts@.subrange(0, i as int));
        let ghost after = datas_view(accounts@.subrange(0, i + 1));
        proof {
            assert(after.drop_last() =~= before);
            assert(after.last() == data@);
            reveal_with_fuel(Seq::filter, 1);
        }
        let mut pending = data.len() >= 130;
        if pending {
            let mut j: usize = 0;
            while j < 8
                invariant
                    0 <= j <= 8,
                    data@.len() >= 130,
                    disc@.len() == 8,
                    pending == (forall|m: int| 0 <= m < j ==> data@[m] == disc@[m]),
                decreases 8 - j,
            {
                if data[j] != disc[j] {
                    pending = false;
                }
                j = j + 1;
            }
            proof {
                if pending {
                    assert(data@.subrange(0, 8) =~= disc@);
                } else {
                    assert(data@.subrange(0, 8) != disc@) by {
                        let m = choose|m: int| 0 <= m < 8 && data@[m] != disc@[m];
                        assert(data@.subrange(0, 8)[m] != disc@[m]);
                    }
                }
            }
        }
        if pending {
            if data[57] != 0 {
                pending = false;
            } else {
                let id = u64_from_le_at(data, 9);
                if id < start || id > end {
                    pending = false;
                }
            }
        }
        proof {
            assert(pending == pred(data@));
        }
        if pending {
            match burn_intent_from_account(data) {
                Ok(b) => {
                    res.push(b);
                },
                Err(_) => {},
            }
        }
        proof {
            assert(after.filter(pred) == if pred(data@) { before.filter(pred).push(data@) } else { before.filter(pred) });
        }
        i = i + 1;
    }
    proof {
        assert(accounts@.subrange(0, accounts@.len() as int) =~= accounts@);
    }
    res
}

/// Whether an account lookup found the account; a failed lookup counts as not found.
pub fn account_exists<E>(lookup: &Result<Option<Vec<u8>>, E>) -> (res: bool)
    ensures
        res == (lookup matches Ok(Some(_))),
{
    match lookup {
        Ok(Some(_)) => true,
        _ => false,
    }
}

/// The deposit ids checked for an existing intent: the nonce and up to four below it.
pub open spec fn deposit_candidates(nonce: u64) -> Seq<u64> {
    Seq::new(if nonce < 4 { (nonce + 1) as nat } else { 5 }, |k: int| (nonce - k) as u64)
}

/// The deposit ids to check for an existing intent, newest first.
pub fn deposit_intent_candidates(deposit_nonce: u64) -> (res: Vec<u64>)
    ensures
        res@ == deposit_candidates(deposit_nonce),
{
    let mut res: Vec<u64> = Vec::new();
    let mut offset: u64 = 0;
    while offset < 5
        invariant
            offset <= 5,
            offset <= deposit_nonce + 1,
            res@ == deposit_candidates(deposit_nonce).subrange(0, offset as int),
        decreases 5 - offset,
    {
        if deposit_nonce < offset {
            proof {
                assert(res@ =~= deposit_candidates(deposit_nonce));
            }
            return res;
        }
        res.push(deposit_nonce - offset);
        offset = offset + 1;
        proof {
            assert(res@ =~= deposit_candidates(deposit_nonce).subrange(0, offset as int));
        }
    }
    proof {
        assert(res@ =~= deposit_candidates(deposit_nonce));
    }
    res
}

/// The deposit id of the first candidate found to have an intent, the candidates of
/// `nonce` checked in order; `exists` holds the answers for those checked so far.
pub fn first_existing(nonce: u64, exists: &Vec<bool>) -> (res: Option<u64>)
    requires
        exists@.len() <= deposit_candidates(nonce).len(),
    ensures
        res is Some <==> exists|i: int| 0 <= i < exists@.len() && exists@[i],
        res matches Some(id) ==> exists|i: int|
            0 <= i < exists@.len() && exists@[i] && (forall|j: int| 0 <= j < i ==> !exists@[j])
                && id == deposit_candidates(nonce)[i],
{
    let mut i: usize = 0;
    while i < exists.len()
        invariant
            0 <= i <= exists@.len(),
            exists@.len() <= deposit_candidates(nonce).len(),
            forall|j: int| 0 <= j < i ==> !exists@[j],
        decreases exists@.len() - i,
    {
        if exists[i] {
            let id = nonce - i as u64;
            proof {
                assert(id == deposit_candidates(nonce)[i as int]);
            }
            return Some(id);
        }
        i = i + 1;
    }
    None
}

/// The deposit id used for a user's deposit: an intent found among the candidates;
/// else the one created; else, when creating failed (another node may have created
/// it meanwhile), one found by checking again; else the error of the creation.
/// Creating is only tried when nothing was found.
pub fn deposit_intent_outcome<E>(found: Option<u64>, created: Option<Result<u64, E>>, refound: Option<u64>) -> (res:
    Result<u64, E>)
    requires
        found is None ==> created is Some,
    ensures
        found matches Some(id) ==> res == Ok::<u64, E>(id),
        found is None ==> match created->Some_0 {
            Ok(id) => res == Ok::<u64, E>(id),
            Err(e) => match refound {
                Some(id) => res == Ok::<u64, E>(id),
                None => res == Err::<u64, E>(e),
            },
        },
{
    match found {
        Some(id) => Ok(id),
        None => match created {
            Some(Ok(id)) => Ok(id),
            Some(Err(e)) => match refound {
                Some(id) => Ok(id),
                None => Err(e),
            },
            None => {
                proof {
                    assert(false);
                }
                Ok(0)
            },
        },
    }
}

/// The UA hash of a deposit intent created without a known address:
/// SHA-256 of user, nonce (little-endian) and "hydex-ua-hash".
pub open spec fn placeholder_ua_hash(user: Seq<u8>, nonce: u64) -> Seq<u8> {
    sha256(user + u64_le(nonce) + utf8("hydex-ua-hash"@))
}

/// The UA hash for a deposit intent created on a user's behalf.
pub fn deposit_ua_hash(user: &[u8; 32], deposit_nonce: u64) -> (res: [u8; 32])
    ensures
        res@ == placeholder_ua_hash(user@, deposit_nonce),
{
    let mut pre: Vec<u8> = Vec::new();
    append_bytes(&mut pre, user.as_slice());
    let n = u64_to_le(deposit_nonce);
    append_bytes(&mut pre, n.as_slice());
    append_bytes(&mut pre, "hydex-ua-hash".as_bytes());
    sha256_digest(pre.as_slice())
}

/// The first burn id scanned for pending burns: the nonce less the lookback, at least 0.
pub fn burn_scan_start(burn_nonce: u64, max_lookback: u64) -> (res: u64)
    ensures
        res == (if max_lookback > burn_nonce { 0 } else { burn_nonce - max_lookback }),
{
    if max_lookback > burn_nonce {
        0
    } else {
        burn_nonce - max_lookback
    }
}

/// The result of submitting an attestation.
#[derive(Debug, Clone)]
pub struct AttestationSubmitResult {
    pub signature: String,
    pub deposit_id: u64,
    pub success: bool,
}

impl AttestationSubmitResult {
    /// The note was already claimed: nothing is minted.
    pub fn already_claimed(deposit_id: u64) -> (res: Self)
        ensures
            res.signature@ == "already_claimed"@,
            res.deposit_id == deposit_id,
            !res.success,
    {
        AttestationSubmitResult { signature: owned("already_claimed"), deposit_id, success: false }
    }

    /// The mint transaction was sent.
    pub fn minted(signature: String, deposit_id: u64) -> (res: Self)
        ensures
            res.signature == signature,
            res.deposit_id == deposit_id,
            res.success,
    {
        AttestationSubmitResult { signature, deposit_id, success: true }
    }
}

/// A deposit intent account (simplified).
#[derive(Debug, Clone, Copy)]
pub struct DepositIntentAccount {
    pub deposit_id: u64,
    pub user: [u8; 32],
    pub diversifier_index: u32,
    pub status: u8,
    pub amount: u64,
    pub note_commitment: [u8; 32],
}

} // verus!
