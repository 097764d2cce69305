//! Granting the right to mint.

use vstd::prelude::*;
use crate::error::BurnMintError;
use crate::events::MinterRoleGranted;
use crate::identity::Identity;
use crate::state::role_config::MinterRole;
use crate::state::token_config::TokenConfig;

verus! {

/// The records a grant of the minter role works on.
#[derive(Clone, Debug, PartialEq, Eq)]
pub struct GrantMintRole {
    pub token_config: TokenConfig,
    /// Where the token configuration is stored.
    pub token_config_key: Identity,
    /// The slot that holds the target's minter role: `None` while it has none.
    pub minter_role: Option<MinterRole>,
    /// The caller.
    pub owner: Identity,
}

impl GrantMintRole {
    /// Why a grant to `minter` is refused, if it is. The caller must own the
    /// token, `minter` must not be the all-zero identity, and the slot must
    /// be empty; the first failure in that order is reported.
    pub open spec fn rejection(self, minter: Identity) -> Option<BurnMintError> {
        if self.token_config@.owner != self.owner@ {
            Some(BurnMintError::UnauthorizedOwner)
        } else if minter@ == Identity::spec_default() {
            Some(BurnMintError::InvalidMinter)
        } else if self.minter_role is Some {
            Some(BurnMintError::RoleAlreadyExists)
        } else {
            None
        }
    }

    /// The records after an accepted grant to `minter` at time `now`.
    pub open spec fn granted(self, minter: Identity, now: i64) -> GrantMintRole {
        GrantMintRole {
            minter_role: Some(
                MinterRole::spec_fresh(
                    self.token_config_key,
                    minter,
                    self.owner,
                    now,
                ),
            ),
            ..self
        }
    }
}

/// Grants `minter` the minter role at time `now`: fills the slot with a role
/// whose counters are zero and reports the grant. A refused grant changes nothing.
pub fn handler(ctx: &mut GrantMintRole, minter: Identity, now: i64) -> (result: Result<
    MinterRoleGranted,
    BurnMintError,
>)
    ensures
        match old(ctx).rejection(minter) {
            Some(e) => result == Err::<MinterRoleGranted, BurnMintError>(e) && *final(ctx) == *old(
                ctx,
            ),
            None => result == Ok::<MinterRoleGranted, BurnMintError>(
                MinterRoleGranted { minter, granted_by: old(ctx).owner, timestamp: now },
            ) && *final(ctx) == old(ctx).granted(minter, now),
        },
{
    if !ctx.token_config.is_owner(&ctx.owner) {
        return Err(BurnMintError::UnauthorizedOwner);
    }
    if minter.is_default() {
        return Err(BurnMintError::InvalidMinter);
    }
    if ctx.minter_role.is_some() {
        return Err(BurnMintError::RoleAlreadyExists);
    }
    ctx.minter_role = Some(
        MinterRole::fresh(ctx.token_config_key, minter, ctx.owner, now),
    );
    Ok(MinterRoleGranted { minter, granted_by: ctx.owner, timestamp: now })
}

} // verus!
