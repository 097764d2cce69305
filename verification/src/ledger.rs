//! What an accepted instruction asks of the token ledger that holds the balances.

use vstd::prelude::*;
use crate::identity::Identity;

verus! {

/// One call on the token ledger. An accepted instruction returns the call it
/// needs; the caller carries it out, and discards the instruction's effects
/// if the ledger refuses.
#[derive(Clone, Copy, Debug, PartialEq, Eq)]
pub enum LedgerCall {
    /// Create `amount` new tokens in the balance of `recipient`.
    MintTo { recipient: Identity, amount: u64 },
    /// Destroy `amount` tokens from the balance of `holder`.
    Burn { holder: Identity, amount: u64 },
    /// Move `amount` tokens from the balance of `from` to that of `to`.
    Transfer { from: Identity, to: Identity, amount: u64 },
}

impl LedgerCall {
    /// The circulating supply once the ledger has carried out this call on a
    /// supply of `supply`: a mint adds to it, a burn takes from it, a transfer
    /// leaves it alone.
    pub open spec fn supply_after(self, supply: int) -> int {
        match self {
            LedgerCall::MintTo { amount, .. } => supply + amount,
            LedgerCall::Burn { amount, .. } => supply - amount,
            LedgerCall::Transfer { .. } => supply,
        }
    }
}

} // verus!
