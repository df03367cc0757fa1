//! The four instructions. Each runs its checks first and, only when all of
//! them pass, hands back what the token program is to do.
use crate::accounts::{
    initialize_validation, register_validation, stake_validation, state_address_of, unstake_validation, Initialize,
    InitializeArgs, RegisterStake, Stake, StakeArgs, TokenAccount, Unstake, UnstakeArgs,
};
use crate::address::{derived_address, view_of_option, Address};
use crate::cpi::{Burn, MintTo, Transfer};
use crate::error::StakerError;
use crate::state::{
    mint_authority_address, pos_mint_address, vault_address, vault_authority_address, StakeState,
};
use vstd::prelude::*;

verus! {

/// What an Initialize creates: the ledger state, a receipt mint with the
/// deposit mint's decimals under the mint authority, and an empty vault of
/// the deposit mint under the vault authority.
#[derive(Clone, Copy, Debug)]
pub struct InitializePlan {
    pub state: StakeState,
    pub pos_mint_decimals: u8,
    pub pos_mint_authority: Address,
    pub vault_mint: Address,
    pub vault_owner: Address,
}

/// The two empty holding accounts a RegisterStake opens for its user.
#[derive(Clone, Copy, Debug)]
pub struct RegisterPlan {
    pub deposit_account: TokenAccount,
    pub receipt_account: TokenAccount,
}

/// The two token operations of a stake, each of `amount` units; the mint is
/// signed by the mint authority derived with `mint_auth_nonce`.
#[derive(Clone, Copy, Debug)]
pub struct StakePlan {
    pub mint_to: MintTo,
    pub mint_auth_nonce: u8,
    pub transfer: Transfer,
    pub amount: u64,
}

/// The two token operations of an unstake, each of `amount` units; the
/// transfer is signed by the vault authority derived with `vault_auth_nonce`.
#[derive(Clone, Copy, Debug)]
pub struct UnstakePlan {
    pub transfer: Transfer,
    pub vault_auth_nonce: u8,
    pub burn: Burn,
    pub amount: u64,
}

/// What a successful Initialize on `a` creates.
pub open spec fn initialize_plan(a: Initialize, args: InitializeArgs) -> InitializePlan {
    InitializePlan {
        state: StakeState {
            xtoken_mint: a.xtoken_mint,
            pos_mint: a.pos_mint.key,
            stake_state_nonce: args.stake_state_nonce,
            vault_nonce: args.vault_nonce,
            mint_auth_nonce: args.mint_auth_nonce,
            vault_auth_nonce: args.vault_auth_nonce,
        },
        pos_mint_decimals: a.xtoken_decimals,
        pos_mint_authority: a.mint_authority,
        vault_mint: a.xtoken_mint,
        vault_owner: a.vault_authority,
    }
}

/// The accounts a successful RegisterStake on `a` opens.
pub open spec fn register_plan(a: RegisterStake) -> RegisterPlan {
    RegisterPlan {
        deposit_account: TokenAccount {
            key: a.user_xtoken_account.key,
            mint: a.xtoken_mint,
            owner: a.user_authority,
            amount: 0,
        },
        receipt_account: TokenAccount {
            key: a.user_pos_account.key,
            mint: a.pos_mint,
            owner: a.user_authority,
            amount: 0,
        },
    }
}

/// The token operations of a successful stake of `amount`.
pub open spec fn stake_plan(a: Stake, amount: u64) -> StakePlan {
    StakePlan {
        mint_to: MintTo { mint: a.pos_mint, to: a.user_pos_account.key, authority: a.mint_authority },
        mint_auth_nonce: a.stake_state.data.mint_auth_nonce,
        transfer: Transfer { from: a.user_xtoken_account.key, to: a.vault, authority: a.user_authority },
        amount,
    }
}

/// The token operations of a successful unstake of `amount`.
pub open spec fn unstake_plan(a: Unstake, amount: u64) -> UnstakePlan {
    UnstakePlan {
        transfer: Transfer { from: a.vault, to: a.user_xtoken_account.key, authority: a.vault_authority },
        vault_auth_nonce: a.stake_state.data.vault_auth_nonce,
        burn: Burn { mint: a.pos_mint, from: a.user_pos_account.key, authority: a.user_authority },
        amount,
    }
}

/// The outcome of an instruction: its plan where `checks` passed, else the
/// first failure.
pub open spec fn outcome<P>(checks: Result<(), StakerError>, plan: P) -> Result<P, StakerError> {
    match checks {
        Ok(()) => Ok(plan),
        Err(e) => Err(e),
    }
}

/// Creates a ledger for the deposit mint of `ctx`.
pub fn initialize(ctx: &Initialize, args: &InitializeArgs) -> (r: Result<InitializePlan, StakerError>)
    ensures
        r == outcome(initialize_validation(*ctx, *args), initialize_plan(*ctx, *args)),
{
    match ctx.validate(args) {
        Ok(()) => Ok(InitializePlan {
            state: StakeState {
                xtoken_mint: ctx.xtoken_mint,
                pos_mint: ctx.pos_mint.key,
                stake_state_nonce: args.stake_state_nonce,
                vault_nonce: args.vault_nonce,
                mint_auth_nonce: args.mint_auth_nonce,
                vault_auth_nonce: args.vault_auth_nonce,
            },
            pos_mint_decimals: ctx.xtoken_decimals,
            pos_mint_authority: ctx.mint_authority,
            vault_mint: ctx.xtoken_mint,
            vault_owner: ctx.vault_authority,
        }),
        Err(e) => Err(e),
    }
}

/// Opens the user's deposit and receipt accounts for the ledger of `ctx`.
pub fn register_stake(ctx: &RegisterStake) -> (r: Result<RegisterPlan, StakerError>)
    ensures
        r == outcome(register_validation(*ctx), register_plan(*ctx)),
{
    match ctx.validate() {
        Ok(()) => Ok(RegisterPlan {
            deposit_account: TokenAccount {
                key: ctx.user_xtoken_account.key,
                mint: ctx.xtoken_mint,
                owner: ctx.user_authority,
                amount: 0,
            },
            receipt_account: TokenAccount {
                key: ctx.user_pos_account.key,
                mint: ctx.pos_mint,
                owner: ctx.user_authority,
                amount: 0,
            },
        }),
        Err(e) => Err(e),
    }
}

/// Stakes `args.amount`: mints as many receipt tokens to the user and moves
/// as many deposit tokens into the vault.
pub fn stake(ctx: &Stake, args: &StakeArgs) -> (r: Result<StakePlan, StakerError>)
    ensures
        r == outcome(stake_validation(*ctx, args.amount), stake_plan(*ctx, args.amount)),
{
    match ctx.validate(args.amount) {
        Ok(()) => Ok(StakePlan {
            mint_to: ctx.into_mint_to_context(),
            mint_auth_nonce: ctx.stake_state.data.mint_auth_nonce,
            transfer: ctx.into_transfer_context(),
            amount: args.amount,
        }),
        Err(e) => Err(e),
    }
}

/// Unstakes `args.amount`: moves as many deposit tokens from the vault back to
/// the user and burns as many of the user's receipt tokens.
pub fn unstake(ctx: &Unstake, args: &UnstakeArgs) -> (r: Result<UnstakePlan, StakerError>)
    ensures
        r == outcome(unstake_validation(*ctx, args.amount), unstake_plan(*ctx, args.amount)),
{
    match ctx.validate(args.amount) {
        Ok(()) => Ok(UnstakePlan {
            transfer: ctx.into_transfer_context(),
            vault_auth_nonce: ctx.stake_state.data.vault_auth_nonce,
            burn: ctx.into_burn_context(),
            amount: args.amount,
        }),
        Err(e) => Err(e),
    }
}

/// Deriving an address twice from the same seed, context, nonce and program
/// gives the same result.
pub proof fn lemma_derivation_deterministic(
    r1: Option<Address>,
    r2: Option<Address>,
    seed: Seq<u8>,
    context: Seq<Seq<u8>>,
    nonce: u8,
    program_id: Seq<u8>,
)
    requires
        view_of_option(r1) == derived_address(seed, context, nonce, program_id),
        view_of_option(r2) == derived_address(seed, context, nonce, program_id),
    ensures
        view_of_option(r1) == view_of_option(r2),
{
}

/// The nonces that a successful Initialize records re-derive, on every later
/// call, exactly the state, receipt mint, vault and authority addresses it
/// was given.
pub proof fn lemma_recorded_nonces_rederive(a: Initialize, args: InitializeArgs)
    requires
        initialize_validation(a, args) is Ok,
    ensures
        ({
            let s = initialize_plan(a, args).state;
            let id = a.program_id@;
            &&& state_address_of(s, id) == Some(a.stake_state.key@)
            &&& pos_mint_address(a.stake_state.key@, args.pos_mint_nonce, id) == Some(s.pos_mint@)
            &&& vault_address(a.stake_state.key@, s.vault_nonce, id) == Some(a.vault.key@)
            &&& mint_authority_address(s.mint_auth_nonce, id) == Some(a.mint_authority@)
            &&& vault_authority_address(s.vault_auth_nonce, id) == Some(a.vault_authority@)
        }),
{
}

/// Once an Initialize for a deposit mint has succeeded and its state account
/// exists, every later Initialize for that deposit mint fails, whatever
/// nonces it is given.
pub proof fn lemma_no_reinitialization(
    first: Initialize,
    args: InitializeArgs,
    second: Initialize,
    second_args: InitializeArgs,
)
    requires
        initialize_validation(first, args) is Ok,
        second.program_id@ == first.program_id@,
        second.xtoken_mint@ == first.xtoken_mint@,
        second.stake_state.key@ == first.stake_state.key@ ==> second.stake_state.in_use,
    ensures
        initialize_validation(second, second_args) is Err,
{
}

} // verus!
