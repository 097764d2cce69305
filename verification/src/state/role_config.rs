//! Minter and burner permissions, one record per identity.

use vstd::prelude::*;
use crate::error::BurnMintError;
use crate::identity::Identity;

verus! {

/// Permission of one identity to mint, with what it has minted so far.
#[derive(Clone, Copy, Debug, PartialEq, Eq)]
pub struct MinterRole {
    /// The token configuration this role belongs to.
    pub token_config: Identity,
    /// The identity that may mint.
    pub minter: Identity,
    pub granted_at: i64,
    pub granted_by: Identity,
    /// Number of mints this minter has made.
    pub mint_count: u64,
    /// Total amount this minter has minted.
    pub total_minted: u64,
}

impl MinterRole {
    /// A role as it stands right after being granted: nothing minted yet.
    pub open spec fn spec_fresh(
        token_config: Identity,
        minter: Identity,
        granted_by: Identity,
        now: i64,
    ) -> MinterRole {
        MinterRole {
            token_config,
            minter,
            granted_at: now,
            granted_by,
            mint_count: 0,
            total_minted: 0,
        }
    }

    /// A newly granted role with both counters at zero.
    pub fn fresh(
        token_config: Identity,
        minter: Identity,
        granted_by: Identity,
        now: i64,
    ) -> (role: MinterRole)
        ensures
            role == Self::spec_fresh(token_config, minter, granted_by, now),
    {
        MinterRole {
            token_config,
            minter,
            granted_at: now,
            granted_by,
            mint_count: 0,
            total_minted: 0,
        }
    }

    /// Whether one more mint of `amount` fits in both counters.
    pub open spec fn can_record(self, amount: u64) -> bool {
        self.mint_count + 1 <= u64::MAX && self.total_minted + amount <= u64::MAX
    }

    /// This role after one more mint of `amount`.
    pub open spec fn recorded(self, amount: u64) -> MinterRole {
        MinterRole {
            mint_count: (self.mint_count + 1) as u64,
            total_minted: (self.total_minted + amount) as u64,
            ..self
        }
    }

    /// Counts one more mint of `amount`, or reports overflow and leaves the role as it was.
    pub fn record_mint(&mut self, amount: u64) -> (result: Result<(), BurnMintError>)
        ensures
            old(self).can_record(amount) ==> result is Ok && *final(self) == old(self).recorded(
                amount,
            ),
            !old(self).can_record(amount) ==> result == Err::<(), BurnMintError>(
                BurnMintError::ArithmeticOverflow,
            ) && *final(self) == *old(self),
    {
        let count = match self.mint_count.checked_add(1) {
            Some(c) => c,
            None => { return Err(BurnMintError::ArithmeticOverflow); },
        };
        let total = match self.total_minted.checked_add(amount) {
            Some(t) => t,
            None => { return Err(BurnMintError::ArithmeticOverflow); },
        };
        self.mint_count = count;
        self.total_minted = total;
        Ok(())
    }
}

/// Permission of one identity to burn, with what it has burned so far.
#[derive(Clone, Copy, Debug, PartialEq, Eq)]
pub struct BurnerRole {
    /// The token configuration this role belongs to.
    pub token_config: Identity,
    /// The identity that may burn.
    pub burner: Identity,
    pub granted_at: i64,
    pub granted_by: Identity,
    /// Number of burns this burner has made.
    pub burn_count: u64,
    /// Total amount this burner has burned.
    pub total_burned: u64,
}

impl BurnerRole {
    /// A role as it stands right after being granted: nothing burned yet.
    pub open spec fn spec_fresh(
        token_config: Identity,
        burner: Identity,
        granted_by: Identity,
        now: i64,
    ) -> BurnerRole {
        BurnerRole {
            token_config,
            burner,
            granted_at: now,
            granted_by,
            burn_count: 0,
            total_burned: 0,
        }
    }

    /// A newly granted role with both counters at zero.
    pub fn fresh(
        token_config: Identity,
        burner: Identity,
        granted_by: Identity,
        now: i64,
    ) -> (role: BurnerRole)
        ensures
            role == Self::spec_fresh(token_config, burner, granted_by, now),
    {
        BurnerRole {
            token_config,
            burner,
            granted_at: now,
            granted_by,
            burn_count: 0,
            total_burned: 0,
        }
    }

    /// Whether one more burn of `amount` fits in both counters.
    pub open spec fn can_record(self, amount: u64) -> bool {
        self.burn_count + 1 <= u64::MAX && self.total_burned + amount <= u64::MAX
    }

    /// This role after one more burn of `amount`.
    pub open spec fn recorded(self, amount: u64) -> BurnerRole {
        BurnerRole {
            burn_count: (self.burn_count + 1) as u64,
            total_burned: (self.total_burned + amount) as u64,
            ..self
        }
    }

    /// Counts one more burn of `amount`, or reports overflow and leaves the role as it was.
    pub fn record_burn(&mut self, amount: u64) -> (result: Result<(), BurnMintError>)
        ensures
            old(self).can_record(amount) ==> result is Ok && *final(self) == old(self).recorded(
                amount,
            ),
            !old(self).can_record(amount) ==> result == Err::<(), BurnMintError>(
                BurnMintError::ArithmeticOverflow,
            ) && *final(self) == *old(self),
    {
        let count = match self.burn_count.checked_add(1) {
            Some(c) => c,
            None => { return Err(BurnMintError::ArithmeticOverflow); },
        };
        let total = match self.total_burned.checked_add(amount) {
            Some(t) => t,
            None => { return Err(BurnMintError::ArithmeticOverflow); },
        };
        self.burn_count = count;
        self.total_burned = total;
        Ok(())
    }
}

} // verus!
