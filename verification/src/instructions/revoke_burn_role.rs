//! Withdrawing the right to burn.

use vstd::prelude::*;
use crate::error::BurnMintError;
use crate::events::BurnerRoleRevoked;
use crate::identity::Identity;
use crate::state::role_config::BurnerRole;
use crate::state::token_config::TokenConfig;

verus! {

/// The records a revocation of the burner role works on.
#[derive(Clone, Debug, PartialEq, Eq)]
pub struct RevokeBurnRole {
    pub token_config: TokenConfig,
    /// The slot that holds the target's burner role: `None` while it has none.
    pub burner_role: Option<BurnerRole>,
    /// The caller.
    pub owner: Identity,
}

impl RevokeBurnRole {
    /// Whether the slot holds the burner role of `burner`.
    pub open spec fn holds_role_of(self, burner: Identity) -> bool {
        self.burner_role matches Some(role) && role.burner@ == burner@
    }

    /// Why revoking the role of `burner` is refused, if it is. The caller must
    /// own the token and the slot must hold the role of `burner`; the first
    /// failure in that order is reported.
    pub open spec fn rejection(self, burner: Identity) -> Option<BurnMintError> {
        if self.token_config@.owner != self.owner@ {
            Some(BurnMintError::UnauthorizedOwner)
        } else if !self.holds_role_of(burner) {
            Some(BurnMintError::RoleDoesNotExist)
        } else {
            None
        }
    }

    /// The records after an accepted revocation: the slot is empty.
    pub open spec fn revoked(self) -> RevokeBurnRole {
        RevokeBurnRole { burner_role: None, ..self }
    }
}

/// Revokes the burner role of `burner` at time `now`: empties the slot, so
/// that nothing of the role is left, and reports the revocation. A refused
/// revocation changes nothing.
pub fn handler(ctx: &mut RevokeBurnRole, burner: Identity, now: i64) -> (result: Result<
    BurnerRoleRevoked,
    BurnMintError,
>)
    ensures
        match old(ctx).rejection(burner) {
            Some(e) => result == Err::<BurnerRoleRevoked, BurnMintError>(e) && *final(ctx) == *old(
                ctx,
            ),
            None => result == Ok::<BurnerRoleRevoked, BurnMintError>(
                BurnerRoleRevoked { burner, revoked_by: old(ctx).owner, timestamp: now },
            ) && *final(ctx) == old(ctx).revoked(),
        },
{
    if !ctx.token_config.is_owner(&ctx.owner) {
        return Err(BurnMintError::UnauthorizedOwner);
    }
    let held = match &ctx.burner_role {
        Some(role) => role.burner.same(&burner),
        None => false,
    };
    if !held {
        return Err(BurnMintError::RoleDoesNotExist);
    }
    let event = BurnerRoleRevoked { burner, revoked_by: ctx.owner, timestamp: now };
    ctx.burner_role = None;
    Ok(event)
}

} // verus!
