//! A deposit-and-receipt staking ledger: deposits are locked in a vault and
//! matched one to one by a receipt token minted to the depositor.
pub mod accounts;
pub mod address;
pub mod cpi;
pub mod error;
pub mod ledger;
pub mod staker_program;
pub mod state;

use vstd::prelude::*;

verus! {

} // verus!
