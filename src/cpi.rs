//! Token-ledger operations that an instruction asks the token program to
//! perform, with the accounts each one names.
use crate::accounts::{Stake, Unstake};
use crate::address::Address;
use vstd::prelude::*;

verus! {

/// Mint receipt tokens of `mint` into `to`, signed by `authority`.
#[derive(Clone, Copy, Debug)]
pub struct MintTo {
    pub mint: Address,
    pub to: Address,
    pub authority: Address,
}

/// Move tokens from `from` to `to`, signed by `authority`.
#[derive(Clone, Copy, Debug)]
pub struct Transfer {
    pub from: Address,
    pub to: Address,
    pub authority: Address,
}

/// Burn tokens of `mint` held in `from`, signed by `authority`.
#[derive(Clone, Copy, Debug)]
pub struct Burn {
    pub mint: Address,
    pub from: Address,
    pub authority: Address,
}

impl Stake {
    /// The mint of receipt tokens into the user's receipt account, signed by
    /// the mint authority.
    pub fn into_mint_to_context(&self) -> (r: MintTo)
        ensures
            r == (MintTo { mint: self.pos_mint, to: self.user_pos_account.key, authority: self.mint_authority }),
    {
        MintTo { mint: self.pos_mint, to: self.user_pos_account.key, authority: self.mint_authority }
    }

    /// The move of deposit tokens from the user's account into the vault,
    /// signed by the user.
    pub fn into_transfer_context(&self) -> (r: Transfer)
        ensures
            r == (Transfer { from: self.user_xtoken_account.key, to: self.vault, authority: self.user_authority }),
    {
        Transfer { from: self.user_xtoken_account.key, to: self.vault, authority: self.user_authority }
    }
}

impl Unstake {
    /// The burn of receipt tokens from the user's receipt account, signed by
    /// the user.
    pub fn into_burn_context(&self) -> (r: Burn)
        ensures
            r == (Burn { mint: self.pos_mint, from: self.user_pos_account.key, authority: self.user_authority }),
    {
        Burn { mint: self.pos_mint, from: self.user_pos_account.key, authority: self.user_authority }
    }

    /// The move of deposit tokens from the vault back to the user's account,
    /// signed by the vault authority.
    pub fn into_transfer_context(&self) -> (r: Transfer)
        ensures
            r == (Transfer { from: self.vault, to: self.user_xtoken_account.key, authority: self.vault_authority }),
    {
        Transfer { from: self.vault, to: self.user_xtoken_account.key, authority: self.vault_authority }
    }
}

} // verus!
