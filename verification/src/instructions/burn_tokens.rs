//! Burning tokens from the caller's own balance.

use vstd::prelude::*;
use crate::error::BurnMintError;
use crate::events::TokensBurned;
use crate::identity::Identity;
use crate::ledger::LedgerCall;
use crate::state::role_config::BurnerRole;

verus! {

/// The records a burn works on.
#[derive(Clone, Copy, Debug, PartialEq, Eq)]
pub struct BurnTokens {
    /// The caller's token balance, as the ledger reports it before the burn.
    pub balance: u64,
    /// The slot that holds the caller's burner role: `None` while it has none.
    pub burner_role: Option<BurnerRole>,
    /// The caller, who burns from its own balance.
    pub burner: Identity,
}

/// What an accepted burn hands back: the call for the ledger and the event.
#[derive(Clone, Copy, Debug, PartialEq, Eq)]
pub struct BurnReceipt {
    pub ledger: LedgerCall,
    pub burned: TokensBurned,
}

impl BurnTokens {
    /// Whether the slot holds the burner role of the caller.
    pub open spec fn is_authorized(self) -> bool {
        self.burner_role matches Some(role) && role.burner@ == self.burner@
    }

    /// Why a burn of `amount` is refused, if it is. The caller must hold the
    /// burner role, the amount must not be zero, the balance must cover it,
    /// and the role's counters must have room; the first failure in that
    /// order is reported. A refused burn asks nothing of the ledger.
    pub open spec fn rejection(self, amount: u64) -> Option<BurnMintError> {
        if !self.is_authorized() {
            Some(BurnMintError::UnauthorizedBurner)
        } else if amount == 0 {
            Some(BurnMintError::InvalidAmount)
        } else if self.balance < amount {
            Some(BurnMintError::InsufficientBalance)
        } else if !self.burner_role->0.can_record(amount) {
            Some(BurnMintError::ArithmeticOverflow)
        } else {
            None
        }
    }

    /// The records after an accepted burn of `amount`: the role has counted it.
    pub open spec fn burned(self, amount: u64) -> BurnTokens {
        BurnTokens { burner_role: Some(self.burner_role->0.recorded(amount)), ..self }
    }

    /// The call that an accepted burn of `amount` asks of the ledger.
    pub open spec fn ledger_call(self, amount: u64) -> LedgerCall {
        LedgerCall::Burn { holder: self.burner, amount }
    }

    /// What an accepted burn of `amount` at time `now` hands back.
    pub open spec fn receipt(self, amount: u64, now: i64) -> BurnReceipt {
        BurnReceipt {
            ledger: self.ledger_call(amount),
            burned: TokensBurned { burner: self.burner, amount, timestamp: now },
        }
    }
}

/// Burns `amount` from the caller's balance at time `now`: counts the burn in
/// the caller's burner role and hands back the ledger call and the event. A
/// refused burn changes nothing and hands back no ledger call.
pub fn handler(ctx: &mut BurnTokens, amount: u64, now: i64) -> (result: Result<
    BurnReceipt,
    BurnMintError,
>)
    ensures
        match old(ctx).rejection(amount) {
            Some(e) => result == Err::<BurnReceipt, BurnMintError>(e) && *final(ctx) == *old(ctx),
            None => result == Ok::<BurnReceipt, BurnMintError>(old(ctx).receipt(amount, now))
                && *final(ctx) == old(ctx).burned(amount),
        },
{
    let mut role = match ctx.burner_role {
        Some(role) => role,
        None => { return Err(BurnMintError::UnauthorizedBurner); },
    };
    if !role.burner.same(&ctx.burner) {
        return Err(BurnMintError::UnauthorizedBurner);
    }
    if amount == 0 {
        return Err(BurnMintError::InvalidAmount);
    }
    if ctx.balance < amount {
        return Err(BurnMintError::InsufficientBalance);
    }
    match role.record_burn(amount) {
        Ok(()) => {},
        Err(e) => { return Err(e); },
    }
    ctx.burner_role = Some(role);
    Ok(
        BurnReceipt {
            ledger: LedgerCall::Burn { holder: ctx.burner, amount },
            burned: TokensBurned { burner: ctx.burner, amount, timestamp: now },
        },
    )
}

} // verus!
