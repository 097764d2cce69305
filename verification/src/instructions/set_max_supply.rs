//! Replacing the supply cap.

use vstd::prelude::*;
use crate::error::BurnMintError;
use crate::events::MaxSupplyUpdated;
use crate::identity::Identity;
use crate::state::token_config::TokenConfig;

verus! {

/// The records a change of the supply cap works on.
#[derive(Clone, Debug, PartialEq, Eq)]
pub struct SetMaxSupply {
    pub token_config: TokenConfig,
    /// The caller.
    pub owner: Identity,
}

impl SetMaxSupply {
    /// Why a change of the cap to `new_max_supply` is refused, if it is. The
    /// caller must own the token and the new cap must not be zero; the first
    /// failure in that order is reported. The circulating supply plays no part.
    pub open spec fn rejection(self, new_max_supply: u64) -> Option<BurnMintError> {
        if self.token_config@.owner != self.owner@ {
            Some(BurnMintError::UnauthorizedOwner)
        } else if new_max_supply == 0 {
            Some(BurnMintError::InvalidNewMaxSupply)
        } else {
            None
        }
    }

    /// The records after the cap has become `new_max_supply`.
    pub open spec fn updated(self, new_max_supply: u64) -> SetMaxSupply {
        SetMaxSupply {
            token_config: TokenConfig { max_supply: new_max_supply, ..self.token_config },
            ..self
        }
    }
}

/// Replaces the supply cap by `new_max_supply` at time `now` and reports the
/// old and the new cap. A cap below what already circulates is accepted: it
/// only stops further mints. A refused change changes nothing.
pub fn handler(ctx: &mut SetMaxSupply, new_max_supply: u64, now: i64) -> (result: Result<
    MaxSupplyUpdated,
    BurnMintError,
>)
    ensures
        match old(ctx).rejection(new_max_supply) {
            Some(e) => result == Err::<MaxSupplyUpdated, BurnMintError>(e) && *final(ctx) == *old(
                ctx,
            ),
            None => result == Ok::<MaxSupplyUpdated, BurnMintError>(
                MaxSupplyUpdated {
                    old_max_supply: old(ctx).token_config.max_supply,
                    new_max_supply,
                    updated_by: old(ctx).owner,
                    timestamp: now,
                },
            ) && *final(ctx) == old(ctx).updated(new_max_supply),
        },
{
    if !ctx.token_config.is_owner(&ctx.owner) {
        return Err(BurnMintError::UnauthorizedOwner);
    }
    if new_max_supply == 0 {
        return Err(BurnMintError::InvalidNewMaxSupply);
    }
    let old_max_supply = ctx.token_config.max_supply;
    ctx.token_config.max_supply = new_max_supply;
    Ok(MaxSupplyUpdated { old_max_supply, new_max_supply, updated_by: ctx.owner, timestamp: now })
}

} // verus!
