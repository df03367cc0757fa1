use anchor_lang::prelude::Pubkey;
use staker_program::accounts::{
    Initialize, InitializeArgs, NewAccount, RegisterStake, Stake, StakeArgs, StateAccount,
    TokenAccount, Unstake, UnstakeArgs,
};
use staker_program::address::{derive_address, Address, VAULT_SEED};
use staker_program::error::{ErrorCode, StakerError};
use staker_program::staker_program::{initialize, register_stake, stake, unstake, StakePlan, UnstakePlan};
use staker_program::state::{
    derive_mint_authority, derive_pos_mint, derive_stake_state, derive_vault,
    derive_vault_authority, find_pos_mint, find_stake_state, find_vault, StakeState,
};
use std::collections::HashMap;

fn addr(b: u8) -> Address {
    Address { bytes: [b; 32] }
}

fn find(seeds: &[&[u8]], program_id: &Address) -> (Address, u8) {
    let (k, bump) = Pubkey::find_program_address(seeds, &Pubkey::new_from_array(program_id.bytes));
    (Address { bytes: k.to_bytes() }, bump)
}

const PROGRAM: u8 = 7;
const DEPOSIT_MINT: u8 = 1;
const ADMIN: u8 = 2;
const USER: u8 = 3;
const USER_DEPOSIT: u8 = 4;
const USER_RECEIPT: u8 = 5;

struct Setup {
    init: Initialize,
    args: InitializeArgs,
}

fn setup() -> Setup {
    let pid = addr(PROGRAM);
    let mint = addr(DEPOSIT_MINT);
    let (state, state_nonce) = find(&[b"stake-state", &mint.bytes], &pid);
    let (pos, pos_nonce) = find(&[b"pos-token", &state.bytes], &pid);
    let (vault, vault_nonce) = find(&[b"vault", &state.bytes], &pid);
    let (mint_auth, mint_auth_nonce) = find(&[b"mint-auth"], &pid);
    let (vault_auth, vault_auth_nonce) = find(&[b"vault-auth"], &pid);
    Setup {
        init: Initialize {
            program_id: pid,
            admin: addr(ADMIN),
            xtoken_mint: mint,
            xtoken_decimals: 6,
            mint_authority: mint_auth,
            pos_mint: NewAccount { key: pos, in_use: false },
            stake_state: NewAccount { key: state, in_use: false },
            vault_authority: vault_auth,
            vault: NewAccount { key: vault, in_use: false },
        },
        args: InitializeArgs {
            pos_mint_nonce: pos_nonce,
            stake_state_nonce: state_nonce,
            vault_auth_nonce: vault_auth_nonce,
            vault_nonce: vault_nonce,
            mint_auth_nonce: mint_auth_nonce,
        },
    }
}

fn state_account(s: &Setup) -> StateAccount {
    let plan = initialize(&s.init, &s.args).unwrap();
    StateAccount { key: s.init.stake_state.key, data: plan.state }
}

fn user_accounts(s: &Setup, deposit_balance: u64, receipt_balance: u64) -> (TokenAccount, TokenAccount) {
    (
        TokenAccount { key: addr(USER_DEPOSIT), mint: s.init.xtoken_mint, owner: addr(USER), amount: deposit_balance },
        TokenAccount { key: addr(USER_RECEIPT), mint: s.init.pos_mint.key, owner: addr(USER), amount: receipt_balance },
    )
}

fn stake_ctx(s: &Setup, deposit_balance: u64, receipt_balance: u64) -> Stake {
    let (d, r) = user_accounts(s, deposit_balance, receipt_balance);
    Stake {
        program_id: s.init.program_id,
        stake_state: state_account(s),
        user_authority: addr(USER),
        xtoken_mint: s.init.xtoken_mint,
        user_xtoken_account: d,
        pos_mint: s.init.pos_mint.key,
        user_pos_account: r,
        vault: s.init.vault.key,
        mint_authority: s.init.mint_authority,
    }
}

fn unstake_ctx(s: &Setup, deposit_balance: u64, receipt_balance: u64) -> Unstake {
    let (d, r) = user_accounts(s, deposit_balance, receipt_balance);
    Unstake {
        program_id: s.init.program_id,
        stake_state: state_account(s),
        user_authority: addr(USER),
        xtoken_mint: s.init.xtoken_mint,
        user_xtoken_account: d,
        pos_mint: s.init.pos_mint.key,
        user_pos_account: r,
        vault: s.init.vault.key,
        vault_authority: s.init.vault_authority,
    }
}

fn register_ctx(s: &Setup) -> RegisterStake {
    RegisterStake {
        program_id: s.init.program_id,
        stake_state: state_account(s),
        user_authority: addr(USER),
        xtoken_mint: s.init.xtoken_mint,
        user_xtoken_account: NewAccount { key: addr(USER_DEPOSIT), in_use: false },
        pos_mint: s.init.pos_mint.key,
        user_pos_account: NewAccount { key: addr(USER_RECEIPT), in_use: false },
    }
}

/// Balances and supplies that the plans are carried out on.
#[derive(Default)]
struct Ledger {
    balance: HashMap<[u8; 32], u64>,
    supply: HashMap<[u8; 32], u64>,
}

impl Ledger {
    fn bal(&self, a: &Address) -> u64 {
        *self.balance.get(&a.bytes).unwrap_or(&0)
    }
    fn sup(&self, a: &Address) -> u64 {
        *self.supply.get(&a.bytes).unwrap_or(&0)
    }
    fn apply_stake(&mut self, p: &StakePlan) {
        *self.supply.entry(p.mint_to.mint.bytes).or_insert(0) += p.amount;
        *self.balance.entry(p.mint_to.to.bytes).or_insert(0) += p.amount;
        *self.balance.get_mut(&p.transfer.from.bytes).unwrap() -= p.amount;
        *self.balance.entry(p.transfer.to.bytes).or_insert(0) += p.amount;
    }
    fn apply_unstake(&mut self, p: &UnstakePlan) {
        *self.balance.get_mut(&p.transfer.from.bytes).unwrap() -= p.amount;
        *self.balance.entry(p.transfer.to.bytes).or_insert(0) += p.amount;
        *self.balance.get_mut(&p.burn.from.bytes).unwrap() -= p.amount;
        *self.supply.get_mut(&p.burn.mint.bytes).unwrap() -= p.amount;
    }
}

#[test]
fn initialize_records_mints_and_nonces() {
    let s = setup();
    let plan = initialize(&s.init, &s.args).unwrap();
    assert_eq!(plan.state.xtoken_mint, addr(DEPOSIT_MINT));
    assert_eq!(plan.state.pos_mint, s.init.pos_mint.key);
    assert_eq!(plan.state.stake_state_nonce, s.args.stake_state_nonce);
    assert_eq!(plan.state.vault_nonce, s.args.vault_nonce);
    assert_eq!(plan.state.mint_auth_nonce, s.args.mint_auth_nonce);
    assert_eq!(plan.state.vault_auth_nonce, s.args.vault_auth_nonce);
    assert_eq!(plan.pos_mint_decimals, 6);
    assert_eq!(plan.pos_mint_authority, s.init.mint_authority);
    assert_eq!(plan.vault_mint, addr(DEPOSIT_MINT));
    assert_eq!(plan.vault_owner, s.init.vault_authority);
}

#[test]
fn initialize_twice_fails() {
    let s = setup();
    assert!(initialize(&s.init, &s.args).is_ok());
    let mut again = s.init;
    again.stake_state.in_use = true;
    again.pos_mint.in_use = false;
    assert_eq!(initialize(&again, &s.args).unwrap_err(), StakerError::AccountInUse);
}

#[test]
fn initialize_rejects_wrong_nonce_or_address() {
    let s = setup();
    let mut args = s.args;
    args.stake_state_nonce = args.stake_state_nonce.wrapping_sub(1);
    assert_eq!(initialize(&s.init, &args).unwrap_err(), StakerError::ConstraintSeeds);
    let mut init = s.init;
    init.vault.key = addr(9);
    assert_eq!(initialize(&init, &s.args).unwrap_err(), StakerError::ConstraintSeeds);
    let mut init = s.init;
    init.mint_authority = addr(9);
    assert_eq!(initialize(&init, &s.args).unwrap_err(), StakerError::ConstraintSeeds);
}

#[test]
fn initialize_rejects_existing_vault() {
    let s = setup();
    let mut init = s.init;
    init.vault.in_use = true;
    assert_eq!(initialize(&init, &s.args).unwrap_err(), StakerError::AccountInUse);
}

#[test]
fn register_creates_empty_accounts() {
    let s = setup();
    let plan = register_stake(&register_ctx(&s)).unwrap();
    assert_eq!(plan.deposit_account.key, addr(USER_DEPOSIT));
    assert_eq!(plan.deposit_account.mint, addr(DEPOSIT_MINT));
    assert_eq!(plan.deposit_account.owner, addr(USER));
    assert_eq!(plan.deposit_account.amount, 0);
    assert_eq!(plan.receipt_account.key, addr(USER_RECEIPT));
    assert_eq!(plan.receipt_account.mint, s.init.pos_mint.key);
    assert_eq!(plan.receipt_account.owner, addr(USER));
    assert_eq!(plan.receipt_account.amount, 0);
}

#[test]
fn register_rejects_wrong_mints_and_existing_accounts() {
    let s = setup();
    let mut c = register_ctx(&s);
    c.xtoken_mint = addr(9);
    assert_eq!(register_stake(&c).unwrap_err(), StakerError::Program(ErrorCode::XtokenMintMismatch));
    let mut c = register_ctx(&s);
    c.pos_mint = addr(9);
    assert_eq!(register_stake(&c).unwrap_err(), StakerError::Program(ErrorCode::PosMintMismatch));
    let mut c = register_ctx(&s);
    c.user_pos_account.in_use = true;
    assert_eq!(register_stake(&c).unwrap_err(), StakerError::AccountInUse);
}

#[test]
fn stake_plans_mint_and_transfer() {
    let s = setup();
    let c = stake_ctx(&s, 500, 0);
    let p = stake(&c, &StakeArgs { amount: 300 }).unwrap();
    assert_eq!(p.amount, 300);
    assert_eq!(p.mint_to.mint, s.init.pos_mint.key);
    assert_eq!(p.mint_to.to, addr(USER_RECEIPT));
    assert_eq!(p.mint_to.authority, s.init.mint_authority);
    assert_eq!(p.mint_auth_nonce, s.args.mint_auth_nonce);
    assert_eq!(p.transfer.from, addr(USER_DEPOSIT));
    assert_eq!(p.transfer.to, s.init.vault.key);
    assert_eq!(p.transfer.authority, addr(USER));
}

#[test]
fn stake_balance_boundary() {
    let s = setup();
    let c = stake_ctx(&s, 1000, 0);
    assert!(stake(&c, &StakeArgs { amount: 1000 }).is_ok());
    assert_eq!(
        stake(&c, &StakeArgs { amount: 1001 }).unwrap_err(),
        StakerError::Program(ErrorCode::InsufficientFunds)
    );
}

#[test]
fn unstake_balance_boundary() {
    let s = setup();
    let c = unstake_ctx(&s, 0, 1000);
    assert!(unstake(&c, &UnstakeArgs { amount: 1000 }).is_ok());
    assert_eq!(
        unstake(&c, &UnstakeArgs { amount: 1001 }).unwrap_err(),
        StakerError::Program(ErrorCode::InsufficientStakeAmount)
    );
}

#[test]
fn foreign_deposit_account_is_rejected() {
    let s = setup();
    let mut c = stake_ctx(&s, 1000, 0);
    c.user_xtoken_account.mint = addr(9);
    assert_eq!(stake(&c, &StakeArgs { amount: 1 }).unwrap_err(), StakerError::Program(ErrorCode::XtokenMintMismatch));
    let mut u = unstake_ctx(&s, 0, 1000);
    u.user_xtoken_account.mint = addr(9);
    assert_eq!(unstake(&u, &UnstakeArgs { amount: 1 }).unwrap_err(), StakerError::Program(ErrorCode::XtokenMintMismatch));
}

#[test]
fn stake_rejects_each_bad_account() {
    let s = setup();
    let mut c = stake_ctx(&s, 1000, 0);
    c.xtoken_mint = addr(9);
    assert_eq!(stake(&c, &StakeArgs { amount: 1 }).unwrap_err(), StakerError::Program(ErrorCode::XtokenMintMismatch));
    let mut c = stake_ctx(&s, 1000, 0);
    c.user_xtoken_account.owner = addr(9);
    assert_eq!(stake(&c, &StakeArgs { amount: 1 }).unwrap_err(), StakerError::Program(ErrorCode::XtokenOwnerMismatch));
    let mut c = stake_ctx(&s, 1000, 0);
    c.pos_mint = addr(9);
    assert_eq!(stake(&c, &StakeArgs { amount: 1 }).unwrap_err(), StakerError::Program(ErrorCode::PosMintMismatch));
    let mut c = stake_ctx(&s, 1000, 0);
    c.user_pos_account.owner = addr(9);
    assert_eq!(stake(&c, &StakeArgs { amount: 1 }).unwrap_err(), StakerError::Program(ErrorCode::PosOwnerMismatch));
    let mut c = stake_ctx(&s, 1000, 0);
    c.user_pos_account.mint = addr(9);
    assert_eq!(stake(&c, &StakeArgs { amount: 1 }).unwrap_err(), StakerError::Program(ErrorCode::PosMintMismatch));
    let mut c = stake_ctx(&s, 1000, 0);
    c.vault = addr(9);
    assert_eq!(stake(&c, &StakeArgs { amount: 1 }).unwrap_err(), StakerError::ConstraintSeeds);
    let mut c = stake_ctx(&s, 1000, 0);
    c.mint_authority = s.init.vault_authority;
    assert_eq!(stake(&c, &StakeArgs { amount: 1 }).unwrap_err(), StakerError::ConstraintSeeds);
    let mut c = stake_ctx(&s, 1000, 0);
    c.stake_state.key = addr(9);
    assert_eq!(stake(&c, &StakeArgs { amount: 1 }).unwrap_err(), StakerError::ConstraintSeeds);
}

#[test]
fn unstake_rejects_each_bad_account() {
    let s = setup();
    let mut c = unstake_ctx(&s, 0, 1000);
    c.user_xtoken_account.owner = addr(9);
    assert_eq!(unstake(&c, &UnstakeArgs { amount: 1 }).unwrap_err(), StakerError::Program(ErrorCode::XtokenOwnerMismatch));
    let mut c = unstake_ctx(&s, 0, 1000);
    c.user_pos_account.owner = addr(9);
    assert_eq!(unstake(&c, &UnstakeArgs { amount: 1 }).unwrap_err(), StakerError::Program(ErrorCode::PosOwnerMismatch));
    let mut c = unstake_ctx(&s, 0, 1000);
    c.pos_mint = addr(9);
    assert_eq!(unstake(&c, &UnstakeArgs { amount: 1 }).unwrap_err(), StakerError::Program(ErrorCode::PosMintMismatch));
    let mut c = unstake_ctx(&s, 0, 1000);
    c.vault_authority = s.init.mint_authority;
    assert_eq!(unstake(&c, &UnstakeArgs { amount: 1 }).unwrap_err(), StakerError::ConstraintSeeds);
    let mut c = unstake_ctx(&s, 0, 1000);
    c.vault = addr(9);
    assert_eq!(unstake(&c, &UnstakeArgs { amount: 1 }).unwrap_err(), StakerError::ConstraintSeeds);
}

#[test]
fn unstake_plans_transfer_and_burn() {
    let s = setup();
    let c = unstake_ctx(&s, 0, 1000);
    let p = unstake(&c, &UnstakeArgs { amount: 400 }).unwrap();
    assert_eq!(p.amount, 400);
    assert_eq!(p.transfer.from, s.init.vault.key);
    assert_eq!(p.transfer.to, addr(USER_DEPOSIT));
    assert_eq!(p.transfer.authority, s.init.vault_authority);
    assert_eq!(p.vault_auth_nonce, s.args.vault_auth_nonce);
    assert_eq!(p.burn.mint, s.init.pos_mint.key);
    assert_eq!(p.burn.from, addr(USER_RECEIPT));
    assert_eq!(p.burn.authority, addr(USER));
}

#[test]
fn derivation_is_deterministic_and_matches_runtime() {
    let s = setup();
    let pid = s.init.program_id;
    let state = s.init.stake_state.key;
    let a = derive_vault(&state, s.args.vault_nonce, &pid);
    let b = derive_vault(&state, s.args.vault_nonce, &pid);
    assert_eq!(a, b);
    assert_eq!(a, Some(s.init.vault.key));
    assert_eq!(derive_stake_state(&addr(DEPOSIT_MINT), s.args.stake_state_nonce, &pid), Some(state));
    assert_eq!(derive_pos_mint(&state, s.args.pos_mint_nonce, &pid), Some(s.init.pos_mint.key));
    assert_eq!(derive_mint_authority(s.args.mint_auth_nonce, &pid), Some(s.init.mint_authority));
    assert_eq!(derive_vault_authority(s.args.vault_auth_nonce, &pid), Some(s.init.vault_authority));
    assert_eq!(derive_address(VAULT_SEED, &vec![state], s.args.vault_nonce, &pid), Some(s.init.vault.key));
    assert_ne!(derive_vault(&state, s.args.vault_nonce, &pid), Some(state));
}

#[test]
fn search_finds_the_runtime_canonical_nonce() {
    let s = setup();
    let pid = s.init.program_id;
    let state = s.init.stake_state.key;
    assert_eq!(find_stake_state(&addr(DEPOSIT_MINT), &pid), Some((state, s.args.stake_state_nonce)));
    assert_eq!(find_pos_mint(&state, &pid), Some((s.init.pos_mint.key, s.args.pos_mint_nonce)));
    assert_eq!(find_vault(&state, &pid), Some((s.init.vault.key, s.args.vault_nonce)));
    assert_ne!(find_vault(&state, &pid), find_pos_mint(&state, &pid));
}

/// A nonce below the canonical one whose derivation still succeeds.
fn other_state_nonce(s: &Setup) -> (Address, u8) {
    let mut n = s.args.stake_state_nonce;
    while n > 0 {
        n -= 1;
        if let Some(k) = derive_stake_state(&addr(DEPOSIT_MINT), n, &s.init.program_id) {
            return (k, n);
        }
    }
    panic!("no second nonce derives an address");
}

#[test]
fn initialize_again_with_another_working_nonce_fails() {
    let s = setup();
    assert!(initialize(&s.init, &s.args).is_ok());
    let (key, nonce) = other_state_nonce(&s);
    assert_ne!(key, s.init.stake_state.key);
    let mut again = s.init;
    again.stake_state = NewAccount { key, in_use: false };
    let mut args = s.args;
    args.stake_state_nonce = nonce;
    // The receipt mint and vault are searched under the new state address.
    let (pos, pos_nonce) = find(&[b"pos-token", &key.bytes], &s.init.program_id);
    let (vault, vault_nonce) = find(&[b"vault", &key.bytes], &s.init.program_id);
    again.pos_mint = NewAccount { key: pos, in_use: false };
    again.vault = NewAccount { key: vault, in_use: false };
    args.pos_mint_nonce = pos_nonce;
    args.vault_nonce = vault_nonce;
    assert_eq!(initialize(&again, &args).unwrap_err(), StakerError::ConstraintSeeds);
}

#[test]
fn register_checks_mints_before_existing_accounts() {
    let s = setup();
    let mut c = register_ctx(&s);
    c.pos_mint = addr(9);
    c.user_xtoken_account.in_use = true;
    assert_eq!(register_stake(&c).unwrap_err(), StakerError::Program(ErrorCode::PosMintMismatch));
    let mut c = register_ctx(&s);
    c.user_xtoken_account.in_use = true;
    assert_eq!(register_stake(&c).unwrap_err(), StakerError::AccountInUse);
}

#[test]
fn user_accounts_must_differ_from_vault_and_each_other() {
    let s = setup();
    let mut c = stake_ctx(&s, 1000, 0);
    c.user_xtoken_account.key = s.init.vault.key;
    assert_eq!(stake(&c, &StakeArgs { amount: 1 }).unwrap_err(), StakerError::Program(ErrorCode::TokenAccountMismatch));
    let mut c = stake_ctx(&s, 1000, 0);
    c.user_pos_account.key = s.init.vault.key;
    assert_eq!(stake(&c, &StakeArgs { amount: 1 }).unwrap_err(), StakerError::Program(ErrorCode::TokenAccountMismatch));
    let mut u = unstake_ctx(&s, 0, 1000);
    u.user_pos_account.key = u.user_xtoken_account.key;
    assert_eq!(unstake(&u, &UnstakeArgs { amount: 1 }).unwrap_err(), StakerError::Program(ErrorCode::TokenAccountMismatch));
    let mut u = unstake_ctx(&s, 0, 1000);
    u.user_xtoken_account.key = s.init.vault.key;
    assert_eq!(unstake(&u, &UnstakeArgs { amount: 1 }).unwrap_err(), StakerError::Program(ErrorCode::TokenAccountMismatch));
}

#[test]
fn stake_and_unstake_keep_vault_equal_to_supply() {
    let s = setup();
    let mut ledger = Ledger::default();
    ledger.balance.insert([USER_DEPOSIT; 32], 5000);
    let receipt = s.init.pos_mint.key;
    let vault = s.init.vault.key;
    let steps: [(bool, u64); 5] = [(true, 100), (true, 250), (false, 50), (true, 1), (false, 301)];
    for (is_stake, amount) in steps {
        let dep = ledger.bal(&addr(USER_DEPOSIT));
        let rec = ledger.bal(&addr(USER_RECEIPT));
        let before = ledger.bal(&vault);
        if is_stake {
            let p = stake(&stake_ctx(&s, dep, rec), &StakeArgs { amount }).unwrap();
            ledger.apply_stake(&p);
            assert_eq!(ledger.bal(&vault), before + amount);
        } else {
            let p = unstake(&unstake_ctx(&s, dep, rec), &UnstakeArgs { amount }).unwrap();
            ledger.apply_unstake(&p);
            assert_eq!(ledger.bal(&vault), before - amount);
        }
        assert_eq!(ledger.sup(&receipt), ledger.bal(&vault));
    }
    assert_eq!(ledger.bal(&vault), 0);
}

#[test]
fn end_to_end_scenario() {
    let s = setup();
    assert_eq!(initialize(&s.init, &s.args).unwrap().pos_mint_decimals, 6);
    let reg = register_stake(&register_ctx(&s)).unwrap();
    assert_eq!(reg.deposit_account.amount, 0);
    assert_eq!(reg.receipt_account.amount, 0);
    let mut ledger = Ledger::default();
    ledger.balance.insert([USER_DEPOSIT; 32], 1_000_000);
    let vault = s.init.vault.key;

    let p = stake(&stake_ctx(&s, 1_000_000, 0), &StakeArgs { amount: 1_000_000 }).unwrap();
    ledger.apply_stake(&p);
    assert_eq!(ledger.bal(&vault), 1_000_000);
    assert_eq!(ledger.bal(&addr(USER_RECEIPT)), 1_000_000);
    assert_eq!(ledger.bal(&addr(USER_DEPOSIT)), 0);

    let dep = ledger.bal(&addr(USER_DEPOSIT));
    let p = unstake(&unstake_ctx(&s, dep, 1_000_000), &UnstakeArgs { amount: 400_000 }).unwrap();
    ledger.apply_unstake(&p);
    assert_eq!(ledger.bal(&vault), 600_000);
    assert_eq!(ledger.bal(&addr(USER_RECEIPT)), 600_000);
    assert_eq!(ledger.bal(&addr(USER_DEPOSIT)), dep + 400_000);

    let r = unstake(&unstake_ctx(&s, 400_000, 600_000), &UnstakeArgs { amount: 700_000 });
    assert_eq!(r.unwrap_err(), StakerError::Program(ErrorCode::InsufficientStakeAmount));
    assert_eq!(ledger.bal(&vault), 600_000);
    assert_eq!(ledger.bal(&addr(USER_RECEIPT)), 600_000);
    assert_eq!(ledger.bal(&addr(USER_DEPOSIT)), 400_000);
    assert_eq!(ledger.sup(&s.init.pos_mint.key), 600_000);
}

#[test]
fn error_messages() {
    assert_eq!(ErrorCode::InsufficientFunds.msg(), "Insufficient funds");
    assert_eq!(ErrorCode::InsufficientStakeAmount.msg(), "Insufficient stake amount");
    assert_eq!(ErrorCode::PosMintMismatch.msg(), "Pos Mint mismatch");
    assert_eq!(ErrorCode::XtokenOwnerMismatch.msg(), "XToken Owner mismatch");
}

#[test]
fn state_fields_are_plain_values() {
    let st = StakeState {
        xtoken_mint: addr(1),
        pos_mint: addr(2),
        stake_state_nonce: 1,
        vault_nonce: 2,
        mint_auth_nonce: 3,
        vault_auth_nonce: 4,
    };
    let copy = st;
    assert_eq!(copy.pos_mint, addr(2));
    assert_ne!(copy.xtoken_mint, copy.pos_mint);
}
