//! Minting tokens to a recipient, under the supply cap.

use vstd::prelude::*;
use crate::error::BurnMintError;
use crate::events::{MintMilestone, TokensMinted};
use crate::identity::Identity;
use crate::ledger::LedgerCall;
use crate::state::role_config::MinterRole;
use crate::state::token_config::TokenConfig;
use crate::state::user_stats::UserStats;

verus! {

/// The records a mint works on.
#[derive(Clone, Debug, PartialEq, Eq)]
pub struct MintTokens {
    pub token_config: TokenConfig,
    /// The circulating supply, as the ledger reports it before the mint.
    pub supply: u64,
    /// The owner of the balance that receives the tokens.
    pub recipient: Identity,
    /// The slot that holds the recipient's mint history: `None` before its first mint.
    pub recipient_stats: Option<UserStats>,
    /// The slot that holds the caller's minter role: `None` while it has none.
    pub minter_role: Option<MinterRole>,
    /// The caller.
    pub minter: Identity,
}

/// What an accepted mint hands back: the call for the ledger and the events,
/// in the order in which they are raised.
#[derive(Clone, Copy, Debug, PartialEq, Eq)]
pub struct MintReceipt {
    pub ledger: LedgerCall,
    /// Present when the mint lifts the recipient over a milestone threshold.
    pub milestone: Option<MintMilestone>,
    pub minted: TokensMinted,
}

impl MintTokens {
    /// Whether the slot holds the minter role of the caller.
    pub open spec fn is_authorized(self) -> bool {
        self.minter_role matches Some(role) && role.minter@ == self.minter@
    }

    /// The recipient's history as the mint finds it: the stored one, or an
    /// empty one opened at time `now` if this is the recipient's first mint.
    pub open spec fn stats_before(self, now: i64) -> UserStats {
        match self.recipient_stats {
            Some(stats) => stats,
            None => UserStats::blank(self.recipient, now),
        }
    }

    /// Whether a mint of `amount` fits in every counter of the recipient's history.
    pub open spec fn stats_have_room(self, amount: u64) -> bool {
        self.recipient_stats matches Some(stats) ==> stats.can_credit(amount)
    }

    /// Why a mint of `amount` is refused, if it is. In this order: the caller
    /// must hold the minter role; the amount must not be zero; supply plus
    /// amount must fit in 64 bits, and must not exceed the cap; the mint
    /// counter, the recipient's history and the role's counters must have
    /// room. The first failure is reported.
    pub open spec fn rejection(self, amount: u64) -> Option<BurnMintError> {
        if !self.is_authorized() {
            Some(BurnMintError::UnauthorizedMinter)
        } else if amount == 0 {
            Some(BurnMintError::InvalidAmount)
        } else if self.supply + amount > u64::MAX {
            Some(BurnMintError::ArithmeticOverflow)
        } else if self.supply + amount > self.token_config.max_supply {
            Some(BurnMintError::MaxSupplyExceeded)
        } else if self.token_config.total_mint_events + 1 > u64::MAX
            || !self.stats_have_room(amount)
            || !self.minter_role->0.can_record(amount) {
            Some(BurnMintError::ArithmeticOverflow)
        } else {
            None
        }
    }

    /// The records after an accepted mint of `amount` at time `now`: the mint
    /// counter has grown by one, the recipient's history and the caller's
    /// role have counted the mint.
    pub open spec fn minted(self, amount: u64, now: i64) -> MintTokens {
        MintTokens {
            token_config: TokenConfig {
                total_mint_events: (self.token_config.total_mint_events + 1) as u64,
                ..self.token_config
            },
            recipient_stats: Some(self.stats_before(now).credited(amount, now)),
            minter_role: Some(self.minter_role->0.recorded(amount)),
            ..self
        }
    }

    /// The call that an accepted mint of `amount` asks of the ledger.
    pub open spec fn ledger_call(self, amount: u64) -> LedgerCall {
        LedgerCall::MintTo { recipient: self.recipient, amount }
    }

    /// What an accepted mint of `amount` at time `now` hands back. The mint
    /// event carries the circulating supply after the mint.
    pub open spec fn receipt(self, amount: u64, now: i64) -> MintReceipt {
        MintReceipt {
            ledger: self.ledger_call(amount),
            milestone: self.stats_before(now).milestone_event(amount),
            minted: TokensMinted {
                minter: self.minter,
                recipient: self.stats_before(now).user,
                amount,
                total_supply: (self.supply + amount) as u64,
                timestamp: now,
            },
        }
    }
}

/// Mints `amount` to the recipient at time `now`. An accepted mint counts
/// itself in the token configuration, in the recipient's history (opening it
/// on the first mint) and in the caller's role, and hands back the ledger call
/// and the events. It is accepted only if the circulating supply stays at or
/// below the cap. A refused mint changes nothing.
pub fn handler(ctx: &mut MintTokens, amount: u64, now: i64) -> (result: Result<
    MintReceipt,
    BurnMintError,
>)
    ensures
        match old(ctx).rejection(amount) {
            Some(e) => result == Err::<MintReceipt, BurnMintError>(e) && *final(ctx) == *old(ctx),
            None => result == Ok::<MintReceipt, BurnMintError>(old(ctx).receipt(amount, now))
                && *final(ctx) == old(ctx).minted(amount, now)
                && old(ctx).supply + amount <= old(ctx).token_config.max_supply,
        },
{
    let mut role = match ctx.minter_role {
        Some(role) => role,
        None => { return Err(BurnMintError::UnauthorizedMinter); },
    };
    if !role.minter.same(&ctx.minter) {
        return Err(BurnMintError::UnauthorizedMinter);
    }
    if amount == 0 {
        return Err(BurnMintError::InvalidAmount);
    }
    let new_supply = match ctx.supply.checked_add(amount) {
        Some(s) => s,
        None => { return Err(BurnMintError::ArithmeticOverflow); },
    };
    if new_supply > ctx.token_config.max_supply {
        return Err(BurnMintError::MaxSupplyExceeded);
    }
    let mint_events = match ctx.token_config.total_mint_events.checked_add(1) {
        Some(n) => n,
        None => { return Err(BurnMintError::ArithmeticOverflow); },
    };
    let (stats, milestone) = match ctx.recipient_stats {
        Some(mut stats) => {
            match stats.credit(amount, now) {
                Ok(milestone) => (stats, milestone),
                Err(e) => { return Err(e); },
            }
        },
        None => UserStats::first_mint(ctx.recipient, amount, now),
    };
    match role.record_mint(amount) {
        Ok(()) => {},
        Err(e) => { return Err(e); },
    }
    ctx.token_config.total_mint_events = mint_events;
    ctx.recipient_stats = Some(stats);
    ctx.minter_role = Some(role);
    Ok(
        MintReceipt {
            ledger: LedgerCall::MintTo { recipient: ctx.recipient, amount },
            milestone,
            minted: TokensMinted {
                minter: ctx.minter,
                recipient: stats.user,
                amount,
                total_supply: new_supply,
                timestamp: now,
            },
        },
    )
}

} // verus!
