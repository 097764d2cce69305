//! Granting the right to burn.

use vstd::prelude::*;
use crate::error::BurnMintError;
use crate::events::BurnerRoleGranted;
use crate::identity::Identity;
use crate::state::role_config::BurnerRole;
use crate::state::token_config::TokenConfig;

verus! {

/// The records a grant of the burner role works on.
#[derive(Clone, Debug, PartialEq, Eq)]
pub struct GrantBurnRole {
    pub token_config: TokenConfig,
    /// Where the token configuration is stored.
    pub token_config_key: Identity,
    /// The slot that holds the target's burner role: `None` while it has none.
    pub burner_role: Option<BurnerRole>,
    /// The caller.
    pub owner: Identity,
}

impl GrantBurnRole {
    /// Why a grant to `burner` is refused, if it is. The caller must own the
    /// token, `burner` must not be the all-zero identity, and the slot must
    /// be empty; the first failure in that order is reported.
    pub open spec fn rejection(self, burner: Identity) -> Option<BurnMintError> {
        if self.token_config@.owner != self.owner@ {
            Some(BurnMintError::UnauthorizedOwner)
        } else if burner@ == Identity::spec_default() {
            Some(BurnMintError::InvalidBurner)
        } else if self.burner_role is Some {
            Some(BurnMintError::RoleAlreadyExists)
        } else {
            None
        }
    }

    /// The records after an accepted grant to `burner` at time `now`.
    pub open spec fn granted(self, burner: Identity, now: i64) -> GrantBurnRole {
        GrantBurnRole {
            burner_role: Some(
                BurnerRole::spec_fresh(
                    self.token_config_key,
                    burner,
                    self.owner,
                    now,
                ),
            ),
            ..self
        }
    }
}

/// Grants `burner` the burner role at time `now`: fills the slot with a role
/// whose counters are zero and reports the grant. A refused grant changes nothing.
pub fn handler(ctx: &mut GrantBurnRole, burner: Identity, now: i64) -> (result: Result<
    BurnerRoleGranted,
    BurnMintError,
>)
    ensures
        match old(ctx).rejection(burner) {
            Some(e) => result == Err::<BurnerRoleGranted, BurnMintError>(e) && *final(ctx) == *old(
                ctx,
            ),
            None => result == Ok::<BurnerRoleGranted, BurnMintError>(
                BurnerRoleGranted { burner, granted_by: old(ctx).owner, timestamp: now },
            ) && *final(ctx) == old(ctx).granted(burner, now),
        },
{
    if !ctx.token_config.is_owner(&ctx.owner) {
        return Err(BurnMintError::UnauthorizedOwner);
    }
    if burner.is_default() {
        return Err(BurnMintError::InvalidBurner);
    }
    if ctx.burner_role.is_some() {
        return Err(BurnMintError::RoleAlreadyExists);
    }
    ctx.burner_role = Some(
        BurnerRole::fresh(ctx.token_config_key, burner, ctx.owner, now),
    );
    Ok(BurnerRoleGranted { burner, granted_by: ctx.owner, timestamp: now })
}

} // verus!
