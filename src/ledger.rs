//! A model of the token ledger that the instructions' plans act on, and the
//! laws that tie the plans to the ledger's backing invariant.
use crate::accounts::{stake_validation, unstake_validation, Stake, Unstake};
use crate::cpi::{Burn, MintTo, Transfer};
use crate::staker_program::{initialize_plan, stake_plan, unstake_plan, StakePlan, UnstakePlan};
use vstd::prelude::*;

verus! {

/// Balances of token accounts and supplies of mints, by address.
pub struct LedgerModel {
    pub balance: Map<Seq<u8>, int>,
    pub supply: Map<Seq<u8>, int>,
}

/// The value at `k`, zero where none is recorded.
pub open spec fn at(m: Map<Seq<u8>, int>, k: Seq<u8>) -> int {
    if m.contains_key(k) {
        m[k]
    } else {
        0
    }
}

/// `m` with `n` added at `k`.
pub open spec fn credit(m: Map<Seq<u8>, int>, k: Seq<u8>, n: int) -> Map<Seq<u8>, int> {
    m.insert(k, at(m, k) + n)
}

impl LedgerModel {
    /// Tokens held by `account`.
    pub open spec fn balance_of(self, account: Seq<u8>) -> int {
        at(self.balance, account)
    }

    /// Tokens of `mint` in circulation.
    pub open spec fn supply_of(self, mint: Seq<u8>) -> int {
        at(self.supply, mint)
    }

    /// Every receipt token in circulation is matched by a deposit token in
    /// the vault.
    pub open spec fn backed(self, receipt_mint: Seq<u8>, vault: Seq<u8>) -> bool {
        self.supply_of(receipt_mint) == self.balance_of(vault)
    }
}

/// A mint of `amount` units into `op.to`.
pub open spec fn apply_mint_to(l: LedgerModel, op: MintTo, amount: u64) -> LedgerModel {
    LedgerModel { balance: credit(l.balance, op.to@, amount as int), supply: credit(l.supply, op.mint@, amount as int) }
}

/// A transfer; none where the source holds less than `amount`.
pub open spec fn apply_transfer(l: LedgerModel, op: Transfer, amount: u64) -> Option<LedgerModel> {
    if l.balance_of(op.from@) < amount {
        None
    } else {
        Some(LedgerModel {
            balance: credit(credit(l.balance, op.from@, -amount), op.to@, amount as int),
            supply: l.supply,
        })
    }
}

/// A burn; none where the account holds less than `amount`.
pub open spec fn apply_burn(l: LedgerModel, op: Burn, amount: u64) -> Option<LedgerModel> {
    if l.balance_of(op.from@) < amount {
        None
    } else {
        Some(LedgerModel { balance: credit(l.balance, op.from@, -amount), supply: credit(l.supply, op.mint@, -amount) })
    }
}

/// The ledger after a stake's mint and then its transfer; none where the
/// token program would refuse either.
pub open spec fn apply_stake(l: LedgerModel, p: StakePlan) -> Option<LedgerModel> {
    apply_transfer(apply_mint_to(l, p.mint_to, p.amount), p.transfer, p.amount)
}

/// The ledger after an unstake's transfer and then its burn.
pub open spec fn apply_unstake(l: LedgerModel, p: UnstakePlan) -> Option<LedgerModel> {
    match apply_transfer(l, p.transfer, p.amount) {
        Some(m) => apply_burn(m, p.burn, p.amount),
        None => None,
    }
}

/// A stake of `amount` that passes its checks and that the token program
/// carries out, raises the receipt
/// supply and the vault's balance by exactly `amount` each, and so keeps the
/// vault backing the receipts.
pub proof fn lemma_stake_conserves(l: LedgerModel, a: Stake, amount: u64)
    requires
        stake_validation(a, amount) is Ok,
        apply_stake(l, stake_plan(a, amount)) is Some,
    ensures
        ({
            let m = apply_stake(l, stake_plan(a, amount)).unwrap();
            let receipt = a.stake_state.data.pos_mint@;
            &&& m.supply_of(receipt) == l.supply_of(receipt) + amount
            &&& m.balance_of(a.vault@) == l.balance_of(a.vault@) + amount
            &&& l.backed(receipt, a.vault@) ==> m.backed(receipt, a.vault@)
        }),
{
}

/// An unstake of `amount` that passes its checks and that the token program
/// carries out, lowers the receipt
/// supply and the vault's balance by exactly `amount` each, and so keeps the
/// vault backing the receipts.
pub proof fn lemma_unstake_conserves(l: LedgerModel, a: Unstake, amount: u64)
    requires
        unstake_validation(a, amount) is Ok,
        apply_unstake(l, unstake_plan(a, amount)) is Some,
    ensures
        ({
            let m = apply_unstake(l, unstake_plan(a, amount)).unwrap();
            let receipt = a.stake_state.data.pos_mint@;
            &&& m.supply_of(receipt) == l.supply_of(receipt) - amount
            &&& m.balance_of(a.vault@) == l.balance_of(a.vault@) - amount
            &&& l.backed(receipt, a.vault@) ==> m.backed(receipt, a.vault@)
        }),
{
}

/// A stake that passes its checks, on a ledger that holds in the user's
/// deposit account what the instruction saw there, is carried out in full:
/// the deposit account loses `amount`, and the receipt account, the vault and
/// the receipt supply each gain `amount`.
pub proof fn lemma_stake_completes(l: LedgerModel, a: Stake, amount: u64)
    requires
        stake_validation(a, amount) is Ok,
        l.balance_of(a.user_xtoken_account.key@) == a.user_xtoken_account.amount,
    ensures
        apply_stake(l, stake_plan(a, amount)) is Some,
        ({
            let m = apply_stake(l, stake_plan(a, amount)).unwrap();
            &&& m.balance_of(a.user_xtoken_account.key@) == l.balance_of(a.user_xtoken_account.key@) - amount
            &&& m.balance_of(a.user_pos_account.key@) == l.balance_of(a.user_pos_account.key@) + amount
            &&& m.balance_of(a.vault@) == l.balance_of(a.vault@) + amount
            &&& m.supply_of(a.pos_mint@) == l.supply_of(a.pos_mint@) + amount
        }),
{
}

/// An unstake that passes its checks, on a backed ledger that holds in the
/// user's receipt account what the instruction saw there and no more than the
/// receipt supply, is carried out in full: the vault and the receipt account
/// lose `amount`, and the deposit account gains it.
pub proof fn lemma_unstake_completes(l: LedgerModel, a: Unstake, amount: u64)
    requires
        unstake_validation(a, amount) is Ok,
        l.backed(a.stake_state.data.pos_mint@, a.vault@),
        l.balance_of(a.user_pos_account.key@) == a.user_pos_account.amount,
        l.balance_of(a.user_pos_account.key@) <= l.supply_of(a.stake_state.data.pos_mint@),
    ensures
        apply_unstake(l, unstake_plan(a, amount)) is Some,
        ({
            let m = apply_unstake(l, unstake_plan(a, amount)).unwrap();
            &&& m.balance_of(a.vault@) == l.balance_of(a.vault@) - amount
            &&& m.balance_of(a.user_pos_account.key@) == l.balance_of(a.user_pos_account.key@) - amount
            &&& m.balance_of(a.user_xtoken_account.key@) == l.balance_of(a.user_xtoken_account.key@) + amount
        }),
{
}

/// One instruction against a ledger's token accounts.
pub enum Call {
    Stake(Stake, u64),
    Unstake(Unstake, u64),
}

/// `c` passes its checks and acts on the ledger with receipt mint `receipt`
/// and vault `vault`.
pub open spec fn accepted_on(c: Call, receipt: Seq<u8>, vault: Seq<u8>) -> bool {
    match c {
        Call::Stake(a, n) => {
            &&& stake_validation(a, n) is Ok
            &&& a.stake_state.data.pos_mint@ == receipt
            &&& a.vault@ == vault
        },
        Call::Unstake(a, n) => {
            &&& unstake_validation(a, n) is Ok
            &&& a.stake_state.data.pos_mint@ == receipt
            &&& a.vault@ == vault
        },
    }
}

/// The ledger after one call; none where it fails.
pub open spec fn apply_call(l: LedgerModel, c: Call) -> Option<LedgerModel> {
    match c {
        Call::Stake(a, n) => apply_stake(l, stake_plan(a, n)),
        Call::Unstake(a, n) => apply_unstake(l, unstake_plan(a, n)),
    }
}

/// The ledger after `calls` in order; none where one of them fails.
pub open spec fn run(l: LedgerModel, calls: Seq<Call>) -> Option<LedgerModel>
    decreases calls.len(),
{
    if calls.len() == 0 {
        Some(l)
    } else {
        match run(l, calls.drop_last()) {
            Some(m) => apply_call(m, calls.last()),
            None => None,
        }
    }
}

/// After any sequence of successful stakes and unstakes on one ledger, the
/// receipt supply still equals the vault's balance.
pub proof fn lemma_backing_invariant(l: LedgerModel, calls: Seq<Call>, receipt: Seq<u8>, vault: Seq<u8>)
    requires
        l.backed(receipt, vault),
        forall|i: int| 0 <= i < calls.len() ==> accepted_on(#[trigger] calls[i], receipt, vault),
        run(l, calls) is Some,
    ensures
        run(l, calls).unwrap().backed(receipt, vault),
    decreases calls.len(),
{
    if calls.len() > 0 {
        let prefix = calls.drop_last();
        assert forall|i: int| 0 <= i < prefix.len() implies accepted_on(#[trigger] prefix[i], receipt, vault) by {
            assert(prefix[i] == calls[i]);
        }
        lemma_backing_invariant(l, prefix, receipt, vault);
        let m = run(l, prefix).unwrap();
        assert(accepted_on(calls[calls.len() - 1], receipt, vault));
        match calls.last() {
            Call::Stake(a, n) => lemma_stake_conserves(m, a, n),
            Call::Unstake(a, n) => lemma_unstake_conserves(m, a, n),
        }
    }
}

} // verus!
