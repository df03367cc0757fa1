//! The persisted ledger state and the addresses derived from it.
use crate::address::{
    derive_address, derived_address, find_address, found_address, lemma_seed_lengths,
    view_of_found, view_of_option, Address, MINT_AUTH_SEED, POS_MINT_SEED,
    STAKE_STATE_SEED, VAULT_AUTH_SEED, VAULT_SEED,
};
use vstd::prelude::*;
use vstd::string::StringSliceAdditionalSpecFns;

verus! {

/// Binds one deposit mint to its receipt mint, with the nonces that re-derive
/// the ledger's addresses.
#[derive(Clone, Copy, Debug)]
pub struct StakeState {
    pub xtoken_mint: Address,
    pub pos_mint: Address,
    pub stake_state_nonce: u8,
    pub vault_nonce: u8,
    pub mint_auth_nonce: u8,
    pub vault_auth_nonce: u8,
}

/// Address of the state of the ledger for `deposit_mint`.
pub open spec fn stake_state_address(deposit_mint: Seq<u8>, nonce: u8, program_id: Seq<u8>) -> Option<Seq<u8>> {
    derived_address(STAKE_STATE_SEED.spec_bytes(), seq![deposit_mint], nonce, program_id)
}

/// Address of the receipt mint of the ledger whose state lives at `state`.
pub open spec fn pos_mint_address(state: Seq<u8>, nonce: u8, program_id: Seq<u8>) -> Option<Seq<u8>> {
    derived_address(POS_MINT_SEED.spec_bytes(), seq![state], nonce, program_id)
}

/// Address of the vault of the ledger whose state lives at `state`.
pub open spec fn vault_address(state: Seq<u8>, nonce: u8, program_id: Seq<u8>) -> Option<Seq<u8>> {
    derived_address(VAULT_SEED.spec_bytes(), seq![state], nonce, program_id)
}

/// Address of the mint authority.
pub open spec fn mint_authority_address(nonce: u8, program_id: Seq<u8>) -> Option<Seq<u8>> {
    derived_address(MINT_AUTH_SEED.spec_bytes(), seq![], nonce, program_id)
}

/// Address of the vault authority.
pub open spec fn vault_authority_address(nonce: u8, program_id: Seq<u8>) -> Option<Seq<u8>> {
    derived_address(VAULT_AUTH_SEED.spec_bytes(), seq![], nonce, program_id)
}

/// Derives the address of the ledger state for `deposit_mint`.
pub fn derive_stake_state(deposit_mint: &Address, nonce: u8, program_id: &Address) -> (r: Option<Address>)
    ensures
        view_of_option(r) == stake_state_address(deposit_mint@, nonce, program_id@),
{
    let context = vec![*deposit_mint];
    assert(context@.map_values(|a: Address| a@) =~= seq![deposit_mint@]);
    proof {
        lemma_seed_lengths();
    }
    derive_address(STAKE_STATE_SEED, &context, nonce, program_id)
}

/// Derives the address of the receipt mint of the ledger at `state`.
pub fn derive_pos_mint(state: &Address, nonce: u8, program_id: &Address) -> (r: Option<Address>)
    ensures
        view_of_option(r) == pos_mint_address(state@, nonce, program_id@),
{
    let context = vec![*state];
    assert(context@.map_values(|a: Address| a@) =~= seq![state@]);
    proof {
        lemma_seed_lengths();
    }
    derive_address(POS_MINT_SEED, &context, nonce, program_id)
}

/// Derives the address of the vault of the ledger at `state`.
pub fn derive_vault(state: &Address, nonce: u8, program_id: &Address) -> (r: Option<Address>)
    ensures
        view_of_option(r) == vault_address(state@, nonce, program_id@),
{
    let context = vec![*state];
    assert(context@.map_values(|a: Address| a@) =~= seq![state@]);
    proof {
        lemma_seed_lengths();
    }
    derive_address(VAULT_SEED, &context, nonce, program_id)
}

/// Derives the address of the mint authority.
pub fn derive_mint_authority(nonce: u8, program_id: &Address) -> (r: Option<Address>)
    ensures
        view_of_option(r) == mint_authority_address(nonce, program_id@),
{
    let context: Vec<Address> = Vec::new();
    assert(context@.map_values(|a: Address| a@) =~= Seq::<Seq<u8>>::empty());
    proof {
        lemma_seed_lengths();
    }
    derive_address(MINT_AUTH_SEED, &context, nonce, program_id)
}

/// Derives the address of the vault authority.
pub fn derive_vault_authority(nonce: u8, program_id: &Address) -> (r: Option<Address>)
    ensures
        view_of_option(r) == vault_authority_address(nonce, program_id@),
{
    let context: Vec<Address> = Vec::new();
    assert(context@.map_values(|a: Address| a@) =~= Seq::<Seq<u8>>::empty());
    proof {
        lemma_seed_lengths();
    }
    derive_address(VAULT_AUTH_SEED, &context, nonce, program_id)
}

/// The canonical address and nonce of the state of the ledger for
/// `deposit_mint`.
pub open spec fn stake_state_found(deposit_mint: Seq<u8>, program_id: Seq<u8>) -> Option<(Seq<u8>, u8)> {
    found_address(STAKE_STATE_SEED.spec_bytes(), seq![deposit_mint], program_id)
}

/// The canonical address and nonce of the receipt mint of the ledger at `state`.
pub open spec fn pos_mint_found(state: Seq<u8>, program_id: Seq<u8>) -> Option<(Seq<u8>, u8)> {
    found_address(POS_MINT_SEED.spec_bytes(), seq![state], program_id)
}

/// The canonical address and nonce of the vault of the ledger at `state`.
pub open spec fn vault_found(state: Seq<u8>, program_id: Seq<u8>) -> Option<(Seq<u8>, u8)> {
    found_address(VAULT_SEED.spec_bytes(), seq![state], program_id)
}

/// Finds the canonical address and nonce of the state for `deposit_mint`.
pub fn find_stake_state(deposit_mint: &Address, program_id: &Address) -> (r: Option<(Address, u8)>)
    ensures
        view_of_found(r) == stake_state_found(deposit_mint@, program_id@),
{
    let context = vec![*deposit_mint];
    assert(context@.map_values(|a: Address| a@) =~= seq![deposit_mint@]);
    proof {
        lemma_seed_lengths();
    }
    find_address(STAKE_STATE_SEED, &context, program_id)
}

/// Finds the canonical address and nonce of the receipt mint of the ledger at `state`.
pub fn find_pos_mint(state: &Address, program_id: &Address) -> (r: Option<(Address, u8)>)
    ensures
        view_of_found(r) == pos_mint_found(state@, program_id@),
{
    let context = vec![*state];
    assert(context@.map_values(|a: Address| a@) =~= seq![state@]);
    proof {
        lemma_seed_lengths();
    }
    find_address(POS_MINT_SEED, &context, program_id)
}

/// Finds the canonical address and nonce of the vault of the ledger at `state`.
pub fn find_vault(state: &Address, program_id: &Address) -> (r: Option<(Address, u8)>)
    ensures
        view_of_found(r) == vault_found(state@, program_id@),
{
    let context = vec![*state];
    assert(context@.map_values(|a: Address| a@) =~= seq![state@]);
    proof {
        lemma_seed_lengths();
    }
    find_address(VAULT_SEED, &context, program_id)
}

/// Whether a search found exactly `key` with `nonce`.
pub open spec fn found_as(f: Option<(Seq<u8>, u8)>, key: Seq<u8>, nonce: u8) -> bool {
    f == Some((key, nonce))
}

/// Tests whether the search result `f` is `key` with `nonce`.
pub fn is_found(f: &Option<(Address, u8)>, key: &Address, nonce: u8) -> (r: bool)
    ensures
        r == found_as(view_of_found(*f), key@, nonce),
{
    match f {
        Some((a, n)) => *a == *key && *n == nonce,
        None => false,
    }
}

/// Whether a derivation produced exactly `key`.
pub open spec fn derives_to(d: Option<Seq<u8>>, key: Seq<u8>) -> bool {
    d == Some(key)
}

/// Tests whether the derived address `d` is `key`.
pub fn is_derived(d: &Option<Address>, key: &Address) -> (r: bool)
    ensures
        r == derives_to(view_of_option(*d), key@),
{
    match d {
        Some(a) => *a == *key,
        None => false,
    }
}

} // verus!
