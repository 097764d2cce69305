//! Withdrawing the right to mint.

use vstd::prelude::*;
use crate::error::BurnMintError;
use crate::events::MinterRoleRevoked;
use crate::identity::Identity;
use crate::state::role_config::MinterRole;
use crate::state::token_config::TokenConfig;

verus! {

/// The records a revocation of the minter role works on.
#[derive(Clone, Debug, PartialEq, Eq)]
pub struct RevokeMintRole {
    pub token_config: TokenConfig,
    /// The slot that holds the target's minter role: `None` while it has none.
    pub minter_role: Option<MinterRole>,
    /// The caller.
    pub owner: Identity,
}

impl RevokeMintRole {
    /// Whether the slot holds the minter role of `minter`.
    pub open spec fn holds_role_of(self, minter: Identity) -> bool {
        self.minter_role matches Some(role) && role.minter@ == minter@
    }

    /// Why revoking the role of `minter` is refused, if it is. The caller must
    /// own the token and the slot must hold the role of `minter`; the first
    /// failure in that order is reported.
    pub open spec fn rejection(self, minter: Identity) -> Option<BurnMintError> {
        if self.token_config@.owner != self.owner@ {
            Some(BurnMintError::UnauthorizedOwner)
        } else if !self.holds_role_of(minter) {
            Some(BurnMintError::RoleDoesNotExist)
        } else {
            None
        }
    }

    /// The records after an accepted revocation: the slot is empty.
    pub open spec fn revoked(self) -> RevokeMintRole {
        RevokeMintRole { minter_role: None, ..self }
    }
}

/// Revokes the minter role of `minter` at time `now`: empties the slot, so
/// that nothing of the role is left, and reports the revocation. A refused
/// revocation changes nothing.
pub fn handler(ctx: &mut RevokeMintRole, minter: Identity, now: i64) -> (result: Result<
    MinterRoleRevoked,
    BurnMintError,
>)
    ensures
        match old(ctx).rejection(minter) {
            Some(e) => result == Err::<MinterRoleRevoked, BurnMintError>(e) && *final(ctx) == *old(
                ctx,
            ),
            None => result == Ok::<MinterRoleRevoked, BurnMintError>(
                MinterRoleRevoked { minter, revoked_by: old(ctx).owner, timestamp: now },
            ) && *final(ctx) == old(ctx).revoked(),
        },
{
    if !ctx.token_config.is_owner(&ctx.owner) {
        return Err(BurnMintError::UnauthorizedOwner);
    }
    let held = match &ctx.minter_role {
        Some(role) => role.minter.same(&minter),
        None => false,
    };
    if !held {
        return Err(BurnMintError::RoleDoesNotExist);
    }
    let event = MinterRoleRevoked { minter, revoked_by: ctx.owner, timestamp: now };
    ctx.minter_role = None;
    Ok(event)
}

} // verus!
