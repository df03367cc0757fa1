//! The accounts each instruction is given, and the checks made on them
//! before any token is moved.
use crate::address::{view_of_found, view_of_option, Address};
use crate::error::{ErrorCode, StakerError};
use crate::state::{
    derive_mint_authority, derive_stake_state, derive_vault, derive_vault_authority, derives_to,
    find_pos_mint, find_stake_state, find_vault, found_as, is_derived, is_found,
    mint_authority_address, pos_mint_found, stake_state_address, stake_state_found, vault_address,
    vault_authority_address, vault_found, StakeState,
};
use vstd::prelude::*;

verus! {

/// A token-holding account as the instruction sees it.
#[derive(Clone, Copy, Debug)]
pub struct TokenAccount {
    pub key: Address,
    pub mint: Address,
    pub owner: Address,
    pub amount: u64,
}

/// An account that the instruction is to create, and whether one already
/// lives at its address.
#[derive(Clone, Copy, Debug)]
pub struct NewAccount {
    pub key: Address,
    pub in_use: bool,
}

/// The ledger state together with the address it was loaded from.
#[derive(Clone, Copy, Debug)]
pub struct StateAccount {
    pub key: Address,
    pub data: StakeState,
}

/// The nonces chosen by the creator of a ledger.
#[derive(Clone, Copy, Debug)]
pub struct InitializeArgs {
    pub pos_mint_nonce: u8,
    pub stake_state_nonce: u8,
    pub vault_auth_nonce: u8,
    pub vault_nonce: u8,
    pub mint_auth_nonce: u8,
}

/// The amount to stake.
#[derive(Clone, Copy, Debug)]
pub struct StakeArgs {
    pub amount: u64,
}

/// The amount to unstake.
#[derive(Clone, Copy, Debug)]
pub struct UnstakeArgs {
    pub amount: u64,
}

/// Accounts of the instruction that creates a ledger.
#[derive(Clone, Copy, Debug)]
pub struct Initialize {
    pub program_id: Address,
    pub admin: Address,
    pub xtoken_mint: Address,
    pub xtoken_decimals: u8,
    pub mint_authority: Address,
    pub pos_mint: NewAccount,
    pub stake_state: NewAccount,
    pub vault_authority: Address,
    pub vault: NewAccount,
}

/// Accounts of the instruction that opens a user's two holding accounts.
#[derive(Clone, Copy, Debug)]
pub struct RegisterStake {
    pub program_id: Address,
    pub stake_state: StateAccount,
    pub user_authority: Address,
    pub xtoken_mint: Address,
    pub user_xtoken_account: NewAccount,
    pub pos_mint: Address,
    pub user_pos_account: NewAccount,
}

/// Accounts of the instruction that stakes.
#[derive(Clone, Copy, Debug)]
pub struct Stake {
    pub program_id: Address,
    pub stake_state: StateAccount,
    pub user_authority: Address,
    pub xtoken_mint: Address,
    pub user_xtoken_account: TokenAccount,
    pub pos_mint: Address,
    pub user_pos_account: TokenAccount,
    pub vault: Address,
    pub mint_authority: Address,
}

/// Accounts of the instruction that unstakes.
#[derive(Clone, Copy, Debug)]
pub struct Unstake {
    pub program_id: Address,
    pub stake_state: StateAccount,
    pub user_authority: Address,
    pub xtoken_mint: Address,
    pub user_xtoken_account: TokenAccount,
    pub pos_mint: Address,
    pub user_pos_account: TokenAccount,
    pub vault: Address,
    pub vault_authority: Address,
}

/// Addresses derived for an Initialize, before they are compared with the
/// supplied ones.
#[derive(Clone, Copy, Debug)]
pub struct InitializeDerived {
    pub mint_authority: Option<Address>,
    pub pos_mint: Option<(Address, u8)>,
    pub stake_state: Option<(Address, u8)>,
    pub vault_authority: Option<Address>,
    pub vault: Option<(Address, u8)>,
}

/// Addresses derived for a RegisterStake.
#[derive(Clone, Copy, Debug)]
pub struct RegisterDerived {
    pub stake_state: Option<Address>,
}

/// Addresses derived for a Stake.
#[derive(Clone, Copy, Debug)]
pub struct StakeDerived {
    pub stake_state: Option<Address>,
    pub vault: Option<Address>,
    pub mint_authority: Option<Address>,
}

/// Addresses derived for an Unstake.
#[derive(Clone, Copy, Debug)]
pub struct UnstakeDerived {
    pub stake_state: Option<Address>,
    pub vault: Option<Address>,
    pub vault_authority: Option<Address>,
}

/// A rejection with one of the program's own errors.
pub open spec fn program_err(e: ErrorCode) -> Result<(), StakerError> {
    Err(StakerError::Program(e))
}

/// The first failed check of an Initialize, given the derived addresses and
/// the canonical addresses and nonces found for the accounts it creates.
pub open spec fn initialize_checks(
    a: Initialize,
    args: InitializeArgs,
    mint_authority: Option<Seq<u8>>,
    pos_mint: Option<(Seq<u8>, u8)>,
    stake_state: Option<(Seq<u8>, u8)>,
    vault_authority: Option<Seq<u8>>,
    vault: Option<(Seq<u8>, u8)>,
) -> Result<(), StakerError> {
    if !derives_to(mint_authority, a.mint_authority@) {
        Err(StakerError::ConstraintSeeds)
    } else if !found_as(pos_mint, a.pos_mint.key@, args.pos_mint_nonce) {
        Err(StakerError::ConstraintSeeds)
    } else if a.pos_mint.in_use {
        Err(StakerError::AccountInUse)
    } else if !found_as(stake_state, a.stake_state.key@, args.stake_state_nonce) {
        Err(StakerError::ConstraintSeeds)
    } else if a.stake_state.in_use {
        Err(StakerError::AccountInUse)
    } else if !derives_to(vault_authority, a.vault_authority@) {
        Err(StakerError::ConstraintSeeds)
    } else if !found_as(vault, a.vault.key@, args.vault_nonce) {
        Err(StakerError::ConstraintSeeds)
    } else if a.vault.in_use {
        Err(StakerError::AccountInUse)
    } else {
        Ok(())
    }
}

/// The first failed check of an Initialize.
pub open spec fn initialize_validation(a: Initialize, args: InitializeArgs) -> Result<(), StakerError> {
    initialize_checks(
        a,
        args,
        mint_authority_address(args.mint_auth_nonce, a.program_id@),
        pos_mint_found(a.stake_state.key@, a.program_id@),
        stake_state_found(a.xtoken_mint@, a.program_id@),
        vault_authority_address(args.vault_auth_nonce, a.program_id@),
        vault_found(a.stake_state.key@, a.program_id@),
    )
}

/// The first failed check of a RegisterStake, given the derived state address.
pub open spec fn register_checks(a: RegisterStake, stake_state: Option<Seq<u8>>) -> Result<(), StakerError> {
    if !derives_to(stake_state, a.stake_state.key@) {
        Err(StakerError::ConstraintSeeds)
    } else if a.xtoken_mint@ != a.stake_state.data.xtoken_mint@ {
        program_err(ErrorCode::XtokenMintMismatch)
    } else if a.pos_mint@ != a.stake_state.data.pos_mint@ {
        program_err(ErrorCode::PosMintMismatch)
    } else if a.user_xtoken_account.in_use {
        Err(StakerError::AccountInUse)
    } else if a.user_pos_account.in_use {
        Err(StakerError::AccountInUse)
    } else {
        Ok(())
    }
}

/// Address of the state of the ledger whose data is `s`.
pub open spec fn state_address_of(s: StakeState, program_id: Seq<u8>) -> Option<Seq<u8>> {
    stake_state_address(s.xtoken_mint@, s.stake_state_nonce, program_id)
}

/// The first failed check of a RegisterStake.
pub open spec fn register_validation(a: RegisterStake) -> Result<(), StakerError> {
    register_checks(a, state_address_of(a.stake_state.data, a.program_id@))
}

/// The user's deposit account, the user's receipt account and the vault are
/// three different accounts.
pub open spec fn accounts_distinct(deposit: Seq<u8>, receipt: Seq<u8>, vault: Seq<u8>) -> bool {
    deposit != receipt && deposit != vault && receipt != vault
}

/// Tests that the user's two accounts and the vault are three different
/// accounts.
pub fn distinct_accounts(deposit: &Address, receipt: &Address, vault: &Address) -> (r: bool)
    ensures
        r == accounts_distinct(deposit@, receipt@, vault@),
{
    *deposit != *receipt && *deposit != *vault && *receipt != *vault
}

/// The first failed check of a Stake of `amount`, given the derived addresses.
pub open spec fn stake_checks(
    a: Stake,
    amount: u64,
    stake_state: Option<Seq<u8>>,
    vault: Option<Seq<u8>>,
    mint_authority: Option<Seq<u8>>,
) -> Result<(), StakerError> {
    let s = a.stake_state.data;
    if !derives_to(stake_state, a.stake_state.key@) {
        Err(StakerError::ConstraintSeeds)
    } else if !accounts_distinct(a.user_xtoken_account.key@, a.user_pos_account.key@, a.vault@) {
        program_err(ErrorCode::TokenAccountMismatch)
    } else if a.xtoken_mint@ != s.xtoken_mint@ {
        program_err(ErrorCode::XtokenMintMismatch)
    } else if a.user_xtoken_account.owner@ != a.user_authority@ {
        program_err(ErrorCode::XtokenOwnerMismatch)
    } else if a.user_xtoken_account.mint@ != a.xtoken_mint@ {
        program_err(ErrorCode::XtokenMintMismatch)
    } else if a.user_xtoken_account.amount < amount {
        program_err(ErrorCode::InsufficientFunds)
    } else if a.pos_mint@ != s.pos_mint@ {
        program_err(ErrorCode::PosMintMismatch)
    } else if a.user_pos_account.owner@ != a.user_authority@ {
        program_err(ErrorCode::PosOwnerMismatch)
    } else if a.user_pos_account.mint@ != a.pos_mint@ {
        program_err(ErrorCode::PosMintMismatch)
    } else if !derives_to(vault, a.vault@) {
        Err(StakerError::ConstraintSeeds)
    } else if !derives_to(mint_authority, a.mint_authority@) {
        Err(StakerError::ConstraintSeeds)
    } else {
        Ok(())
    }
}

/// The first failed check of a Stake of `amount`.
pub open spec fn stake_validation(a: Stake, amount: u64) -> Result<(), StakerError> {
    let s = a.stake_state.data;
    stake_checks(
        a,
        amount,
        state_address_of(s, a.program_id@),
        vault_address(a.stake_state.key@, s.vault_nonce, a.program_id@),
        mint_authority_address(s.mint_auth_nonce, a.program_id@),
    )
}

/// The first failed check of an Unstake of `amount`, given the derived addresses.
pub open spec fn unstake_checks(
    a: Unstake,
    amount: u64,
    stake_state: Option<Seq<u8>>,
    vault: Option<Seq<u8>>,
    vault_authority: Option<Seq<u8>>,
) -> Result<(), StakerError> {
    let s = a.stake_state.data;
    if !derives_to(stake_state, a.stake_state.key@) {
        Err(StakerError::ConstraintSeeds)
    } else if !accounts_distinct(a.user_xtoken_account.key@, a.user_pos_account.key@, a.vault@) {
        program_err(ErrorCode::TokenAccountMismatch)
    } else if a.xtoken_mint@ != s.xtoken_mint@ {
        program_err(ErrorCode::XtokenMintMismatch)
    } else if a.user_xtoken_account.owner@ != a.user_authority@ {
        program_err(ErrorCode::XtokenOwnerMismatch)
    } else if a.user_xtoken_account.mint@ != a.xtoken_mint@ {
        program_err(ErrorCode::XtokenMintMismatch)
    } else if a.pos_mint@ != s.pos_mint@ {
        program_err(ErrorCode::PosMintMismatch)
    } else if a.user_pos_account.owner@ != a.user_authority@ {
        program_err(ErrorCode::PosOwnerMismatch)
    } else if a.user_pos_account.mint@ != a.pos_mint@ {
        program_err(ErrorCode::PosMintMismatch)
    } else if a.user_pos_account.amount < amount {
        program_err(ErrorCode::InsufficientStakeAmount)
    } else if !derives_to(vault, a.vault@) {
        Err(StakerError::ConstraintSeeds)
    } else if !derives_to(vault_authority, a.vault_authority@) {
        Err(StakerError::ConstraintSeeds)
    } else {
        Ok(())
    }
}

/// The first failed check of an Unstake of `amount`.
pub open spec fn unstake_validation(a: Unstake, amount: u64) -> Result<(), StakerError> {
    let s = a.stake_state.data;
    unstake_checks(
        a,
        amount,
        state_address_of(s, a.program_id@),
        vault_address(a.stake_state.key@, s.vault_nonce, a.program_id@),
        vault_authority_address(s.vault_auth_nonce, a.program_id@),
    )
}

impl Initialize {
    /// Derives the addresses that the supplied ones must equal.
    pub fn derive(&self, args: &InitializeArgs) -> (d: InitializeDerived)
        ensures
            view_of_option(d.mint_authority) == mint_authority_address(args.mint_auth_nonce, self.program_id@),
            view_of_found(d.pos_mint) == pos_mint_found(self.stake_state.key@, self.program_id@),
            view_of_found(d.stake_state) == stake_state_found(self.xtoken_mint@, self.program_id@),
            view_of_option(d.vault_authority) == vault_authority_address(args.vault_auth_nonce, self.program_id@),
            view_of_found(d.vault) == vault_found(self.stake_state.key@, self.program_id@),
    {
        InitializeDerived {
            mint_authority: derive_mint_authority(args.mint_auth_nonce, &self.program_id),
            pos_mint: find_pos_mint(&self.stake_state.key, &self.program_id),
            stake_state: find_stake_state(&self.xtoken_mint, &self.program_id),
            vault_authority: derive_vault_authority(args.vault_auth_nonce, &self.program_id),
            vault: find_vault(&self.stake_state.key, &self.program_id),
        }
    }

    /// Checks the accounts against the derived addresses `d`, in order, and
    /// returns the first failure.
    pub fn check_constraints(&self, args: &InitializeArgs, d: &InitializeDerived) -> (r: Result<(), StakerError>)
        ensures
            r == initialize_checks(*self, *args, view_of_option(d.mint_authority), view_of_found(d.pos_mint),
                view_of_found(d.stake_state), view_of_option(d.vault_authority), view_of_found(d.vault)),
    {
        if !is_derived(&d.mint_authority, &self.mint_authority) {
            Err(StakerError::ConstraintSeeds)
        } else if !is_found(&d.pos_mint, &self.pos_mint.key, args.pos_mint_nonce) {
            Err(StakerError::ConstraintSeeds)
        } else if self.pos_mint.in_use {
            Err(StakerError::AccountInUse)
        } else if !is_found(&d.stake_state, &self.stake_state.key, args.stake_state_nonce) {
            Err(StakerError::ConstraintSeeds)
        } else if self.stake_state.in_use {
            Err(StakerError::AccountInUse)
        } else if !is_derived(&d.vault_authority, &self.vault_authority) {
            Err(StakerError::ConstraintSeeds)
        } else if !is_found(&d.vault, &self.vault.key, args.vault_nonce) {
            Err(StakerError::ConstraintSeeds)
        } else if self.vault.in_use {
            Err(StakerError::AccountInUse)
        } else {
            Ok(())
        }
    }

    /// Runs every check of an Initialize.
    pub fn validate(&self, args: &InitializeArgs) -> (r: Result<(), StakerError>)
        ensures
            r == initialize_validation(*self, *args),
    {
        let d = self.derive(args);
        self.check_constraints(args, &d)
    }
}

impl RegisterStake {
    /// Derives the state address that the supplied one must equal.
    pub fn derive(&self) -> (d: RegisterDerived)
        ensures
            view_of_option(d.stake_state) == state_address_of(self.stake_state.data, self.program_id@),
    {
        let s = &self.stake_state.data;
        RegisterDerived { stake_state: derive_stake_state(&s.xtoken_mint, s.stake_state_nonce, &self.program_id) }
    }

    /// Checks the accounts against the derived address, in order, and returns
    /// the first failure.
    pub fn check_constraints(&self, d: &RegisterDerived) -> (r: Result<(), StakerError>)
        ensures
            r == register_checks(*self, view_of_option(d.stake_state)),
    {
        let s = &self.stake_state.data;
        if !is_derived(&d.stake_state, &self.stake_state.key) {
            Err(StakerError::ConstraintSeeds)
        } else if self.xtoken_mint != s.xtoken_mint {
            Err(StakerError::Program(ErrorCode::XtokenMintMismatch))
        } else if self.pos_mint != s.pos_mint {
            Err(StakerError::Program(ErrorCode::PosMintMismatch))
        } else if self.user_xtoken_account.in_use {
            Err(StakerError::AccountInUse)
        } else if self.user_pos_account.in_use {
            Err(StakerError::AccountInUse)
        } else {
            Ok(())
        }
    }

    /// Runs every check of a RegisterStake.
    pub fn validate(&self) -> (r: Result<(), StakerError>)
        ensures
            r == register_validation(*self),
    {
        let d = self.derive();
        self.check_constraints(&d)
    }
}

impl Stake {
    /// Derives the addresses that the supplied ones must equal.
    pub fn derive(&self) -> (d: StakeDerived)
        ensures
            view_of_option(d.stake_state) == state_address_of(self.stake_state.data, self.program_id@),
            view_of_option(d.vault) == vault_address(self.stake_state.key@, self.stake_state.data.vault_nonce, self.program_id@),
            view_of_option(d.mint_authority) == mint_authority_address(self.stake_state.data.mint_auth_nonce, self.program_id@),
    {
        let s = &self.stake_state.data;
        StakeDerived {
            stake_state: derive_stake_state(&s.xtoken_mint, s.stake_state_nonce, &self.program_id),
            vault: derive_vault(&self.stake_state.key, s.vault_nonce, &self.program_id),
            mint_authority: derive_mint_authority(s.mint_auth_nonce, &self.program_id),
        }
    }

    /// Checks the accounts for a stake of `amount` against the derived
    /// addresses, in order, and returns the first failure.
    pub fn check_constraints(&self, amount: u64, d: &StakeDerived) -> (r: Result<(), StakerError>)
        ensures
            r == stake_checks(*self, amount, view_of_option(d.stake_state), view_of_option(d.vault),
                view_of_option(d.mint_authority)),
    {
        let s = &self.stake_state.data;
        if !is_derived(&d.stake_state, &self.stake_state.key) {
            Err(StakerError::ConstraintSeeds)
        } else if !distinct_accounts(&self.user_xtoken_account.key, &self.user_pos_account.key, &self.vault) {
            Err(StakerError::Program(ErrorCode::TokenAccountMismatch))
        } else if self.xtoken_mint != s.xtoken_mint {
            Err(StakerError::Program(ErrorCode::XtokenMintMismatch))
        } else if self.user_xtoken_account.owner != self.user_authority {
            Err(StakerError::Program(ErrorCode::XtokenOwnerMismatch))
        } else if self.user_xtoken_account.mint != self.xtoken_mint {
            Err(StakerError::Program(ErrorCode::XtokenMintMismatch))
        } else if self.user_xtoken_account.amount < amount {
            Err(StakerError::Program(ErrorCode::InsufficientFunds))
        } else if self.pos_mint != s.pos_mint {
            Err(StakerError::Program(ErrorCode::PosMintMismatch))
        } else if self.user_pos_account.owner != self.user_authority {
            Err(StakerError::Program(ErrorCode::PosOwnerMismatch))
        } else if self.user_pos_account.mint != self.pos_mint {
            Err(StakerError::Program(ErrorCode::PosMintMismatch))
        } else if !is_derived(&d.vault, &self.vault) {
            Err(StakerError::ConstraintSeeds)
        } else if !is_derived(&d.mint_authority, &self.mint_authority) {
            Err(StakerError::ConstraintSeeds)
        } else {
            Ok(())
        }
    }

    /// Runs every check of a stake of `amount`.
    pub fn validate(&self, amount: u64) -> (r: Result<(), StakerError>)
        ensures
            r == stake_validation(*self, amount),
    {
        let d = self.derive();
        self.check_constraints(amount, &d)
    }
}

impl Unstake {
    /// Derives the addresses that the supplied ones must equal.
    pub fn derive(&self) -> (d: UnstakeDerived)
        ensures
            view_of_option(d.stake_state) == state_address_of(self.stake_state.data, self.program_id@),
            view_of_option(d.vault) == vault_address(self.stake_state.key@, self.stake_state.data.vault_nonce, self.program_id@),
            view_of_option(d.vault_authority) == vault_authority_address(self.stake_state.data.vault_auth_nonce, self.program_id@),
    {
        let s = &self.stake_state.data;
        UnstakeDerived {
            stake_state: derive_stake_state(&s.xtoken_mint, s.stake_state_nonce, &self.program_id),
            vault: derive_vault(&self.stake_state.key, s.vault_nonce, &self.program_id),
            vault_authority: derive_vault_authority(s.vault_auth_nonce, &self.program_id),
        }
    }

    /// Checks the accounts for an unstake of `amount` against the derived
    /// addresses, in order, and returns the first failure.
    pub fn check_constraints(&self, amount: u64, d: &UnstakeDerived) -> (r: Result<(), StakerError>)
        ensures
            r == unstake_checks(*self, amount, view_of_option(d.stake_state), view_of_option(d.vault),
                view_of_option(d.vault_authority)),
    {
        let s = &self.stake_state.data;
        if !is_derived(&d.stake_state, &self.stake_state.key) {
            Err(StakerError::ConstraintSeeds)
        } else if !distinct_accounts(&self.user_xtoken_account.key, &self.user_pos_account.key, &self.vault) {
            Err(StakerError::Program(ErrorCode::TokenAccountMismatch))
        } else if self.xtoken_mint != s.xtoken_mint {
            Err(StakerError::Program(ErrorCode::XtokenMintMismatch))
        } else if self.user_xtoken_account.owner != self.user_authority {
            Err(StakerError::Program(ErrorCode::XtokenOwnerMismatch))
        } else if self.user_xtoken_account.mint != self.xtoken_mint {
            Err(StakerError::Program(ErrorCode::XtokenMintMismatch))
        } else if self.pos_mint != s.pos_mint {
            Err(StakerError::Program(ErrorCode::PosMintMismatch))
        } else if self.user_pos_account.owner != self.user_authority {
            Err(StakerError::Program(ErrorCode::PosOwnerMismatch))
        } else if self.user_pos_account.mint != self.pos_mint {
            Err(StakerError::Program(ErrorCode::PosMintMismatch))
        } else if self.user_pos_account.amount < amount {
            Err(StakerError::Program(ErrorCode::InsufficientStakeAmount))
        } else if !is_derived(&d.vault, &self.vault) {
            Err(StakerError::ConstraintSeeds)
        } else if !is_derived(&d.vault_authority, &self.vault_authority) {
            Err(StakerError::ConstraintSeeds)
        } else {
            Ok(())
        }
    }

    /// Runs every check of an unstake of `amount`.
    pub fn validate(&self, amount: u64) -> (r: Result<(), StakerError>)
        ensures
            r == unstake_validation(*self, amount),
    {
        let d = self.derive();
        self.check_constraints(amount, &d)
    }
}

/// A stake never asks for more than the user's deposit account holds: one
/// that passes its checks is for at most that balance, and once the checks
/// before the balance pass, an amount above it fails with InsufficientFunds.
pub proof fn lemma_stake_within_balance(a: Stake, amount: u64)
    ensures
        stake_validation(a, amount) is Ok ==> amount <= a.user_xtoken_account.amount,
        derives_to(state_address_of(a.stake_state.data, a.program_id@), a.stake_state.key@)
            && accounts_distinct(a.user_xtoken_account.key@, a.user_pos_account.key@, a.vault@)
            && a.xtoken_mint@ == a.stake_state.data.xtoken_mint@
            && a.user_xtoken_account.owner@ == a.user_authority@
            && a.user_xtoken_account.mint@ == a.xtoken_mint@
            && amount > a.user_xtoken_account.amount
            ==> stake_validation(a, amount) == program_err(ErrorCode::InsufficientFunds),
{
}

/// An unstake never burns more than the user's receipt account holds: one
/// that passes its checks is for at most that balance, and once the checks
/// before the balance pass, an amount above it fails with
/// InsufficientStakeAmount.
pub proof fn lemma_unstake_within_balance(a: Unstake, amount: u64)
    ensures
        unstake_validation(a, amount) is Ok ==> amount <= a.user_pos_account.amount,
        derives_to(state_address_of(a.stake_state.data, a.program_id@), a.stake_state.key@)
            && accounts_distinct(a.user_xtoken_account.key@, a.user_pos_account.key@, a.vault@)
            && a.xtoken_mint@ == a.stake_state.data.xtoken_mint@
            && a.user_xtoken_account.owner@ == a.user_authority@
            && a.user_xtoken_account.mint@ == a.xtoken_mint@
            && a.pos_mint@ == a.stake_state.data.pos_mint@
            && a.user_pos_account.owner@ == a.user_authority@
            && a.user_pos_account.mint@ == a.pos_mint@
            && amount > a.user_pos_account.amount
            ==> unstake_validation(a, amount) == program_err(ErrorCode::InsufficientStakeAmount),
{
}

/// A stake through a deposit account of another mint than the ledger's
/// deposit mint fails; once the checks before the mint's pass, it fails with
/// XtokenMintMismatch.
pub proof fn lemma_stake_deposit_mint_bound(a: Stake, amount: u64)
    requires
        a.user_xtoken_account.mint@ != a.stake_state.data.xtoken_mint@,
    ensures
        stake_validation(a, amount) is Err,
        derives_to(state_address_of(a.stake_state.data, a.program_id@), a.stake_state.key@)
            && accounts_distinct(a.user_xtoken_account.key@, a.user_pos_account.key@, a.vault@)
            && a.xtoken_mint@ == a.stake_state.data.xtoken_mint@
            && a.user_xtoken_account.owner@ == a.user_authority@
            ==> stake_validation(a, amount) == program_err(ErrorCode::XtokenMintMismatch),
{
}

/// An unstake into a deposit account of another mint than the ledger's
/// deposit mint fails; once the checks before the mint's pass, it fails with
/// XtokenMintMismatch.
pub proof fn lemma_unstake_deposit_mint_bound(a: Unstake, amount: u64)
    requires
        a.user_xtoken_account.mint@ != a.stake_state.data.xtoken_mint@,
    ensures
        unstake_validation(a, amount) is Err,
        derives_to(state_address_of(a.stake_state.data, a.program_id@), a.stake_state.key@)
            && accounts_distinct(a.user_xtoken_account.key@, a.user_pos_account.key@, a.vault@)
            && a.xtoken_mint@ == a.stake_state.data.xtoken_mint@
            && a.user_xtoken_account.owner@ == a.user_authority@
            ==> unstake_validation(a, amount) == program_err(ErrorCode::XtokenMintMismatch),
{
}

} // verus!
