//! Per-recipient mint history and milestone progress.

use vstd::prelude::*;
use crate::constants::MILESTONE_THRESHOLD;
use crate::error::BurnMintError;
use crate::events::MintMilestone;
use crate::identity::Identity;

verus! {

/// Number of milestone thresholds that a lifetime total of `total_minted` has reached.
pub open spec fn milestone_index(total_minted: u64) -> u64 {
    total_minted / MILESTONE_THRESHOLD
}

/// Mint history of one recipient. It is created by the first mint to the
/// recipient, updated by every later one, and never removed.
#[derive(Clone, Copy, Debug, PartialEq, Eq)]
pub struct UserStats {
    /// The recipient this history belongs to.
    pub user: Identity,
    /// Total amount minted to the recipient.
    pub total_minted: u64,
    /// Number of mints to the recipient.
    pub mint_count: u64,
    /// Index of the highest milestone threshold reached.
    pub last_milestone: u64,
    /// Number of milestones reached over all mints.
    pub milestones_achieved: u64,
    pub created_at: i64,
    pub last_mint_at: i64,
}

impl UserStats {
    /// Holds of every history that mints alone have built: both milestone
    /// fields equal the milestone index of the lifetime total.
    pub open spec fn is_consistent(self) -> bool {
        &&& self.last_milestone == milestone_index(self.total_minted)
        &&& self.milestones_achieved == self.last_milestone
    }

    /// The empty history a recipient has before the first mint reaches it.
    pub open spec fn blank(user: Identity, now: i64) -> UserStats {
        UserStats {
            user,
            total_minted: 0,
            mint_count: 0,
            last_milestone: 0,
            milestones_achieved: 0,
            created_at: now,
            last_mint_at: now,
        }
    }

    /// Whether a mint of `amount` fits in every counter.
    pub open spec fn can_credit(self, amount: u64) -> bool {
        &&& self.total_minted + amount <= u64::MAX
        &&& self.mint_count + 1 <= u64::MAX
        &&& self.crosses_milestone(amount) ==> self.milestones_achieved + (milestone_index(
            (self.total_minted + amount) as u64,
        ) - self.last_milestone) <= u64::MAX
    }

    /// Whether a mint of `amount` lifts the milestone index above the recorded one.
    pub open spec fn crosses_milestone(self, amount: u64) -> bool {
        milestone_index((self.total_minted + amount) as u64) > self.last_milestone
    }

    /// This history after a mint of `amount` at time `now`.
    pub open spec fn credited(self, amount: u64, now: i64) -> UserStats {
        let total = (self.total_minted + amount) as u64;
        let index = milestone_index(total);
        UserStats {
            total_minted: total,
            mint_count: (self.mint_count + 1) as u64,
            last_milestone: if index > self.last_milestone {
                index
            } else {
                self.last_milestone
            },
            milestones_achieved: if index > self.last_milestone {
                (self.milestones_achieved + (index - self.last_milestone)) as u64
            } else {
                self.milestones_achieved
            },
            last_mint_at: now,
            ..self
        }
    }

    /// The milestone event a mint of `amount` raises, if it crosses a threshold.
    pub open spec fn milestone_event(self, amount: u64) -> Option<MintMilestone> {
        let total = (self.total_minted + amount) as u64;
        if self.crosses_milestone(amount) {
            Some(
                MintMilestone {
                    recipient: self.user,
                    total_minted: total,
                    milestone_reached: (milestone_index(total) * MILESTONE_THRESHOLD) as u64,
                },
            )
        } else {
            None
        }
    }

    /// Adds a mint of `amount` at time `now` to this history and returns the
    /// milestone event it raises. If a counter would overflow, reports so and
    /// leaves the history as it was.
    pub fn credit(&mut self, amount: u64, now: i64) -> (result: Result<
        Option<MintMilestone>,
        BurnMintError,
    >)
        ensures
            old(self).can_credit(amount) ==> result == Ok::<Option<MintMilestone>, BurnMintError>(
                old(self).milestone_event(amount),
            ) && *final(self) == old(self).credited(amount, now),
            !old(self).can_credit(amount) ==> result == Err::<Option<MintMilestone>, BurnMintError>(
                BurnMintError::ArithmeticOverflow,
            ) && *final(self) == *old(self),
    {
        let total = match self.total_minted.checked_add(amount) {
            Some(t) => t,
            None => { return Err(BurnMintError::ArithmeticOverflow); },
        };
        let count = match self.mint_count.checked_add(1) {
            Some(c) => c,
            None => { return Err(BurnMintError::ArithmeticOverflow); },
        };
        let index = total / MILESTONE_THRESHOLD;
        let previous = self.last_milestone;
        let mut event: Option<MintMilestone> = None;
        if index > previous {
            let achieved = match self.milestones_achieved.checked_add(index - previous) {
                Some(a) => a,
                None => { return Err(BurnMintError::ArithmeticOverflow); },
            };
            self.last_milestone = index;
            self.milestones_achieved = achieved;
            event = Some(
                MintMilestone {
                    recipient: self.user,
                    total_minted: total,
                    milestone_reached: index * MILESTONE_THRESHOLD,
                },
            );
        }
        self.total_minted = total;
        self.mint_count = count;
        self.last_mint_at = now;
        Ok(event)
    }

    /// The history of a recipient whose first mint is `amount` at time `now`,
    /// with the milestone event that mint raises.
    pub fn first_mint(user: Identity, amount: u64, now: i64) -> (opened: (
        UserStats,
        Option<MintMilestone>,
    ))
        ensures
            opened.0 == Self::blank(user, now).credited(amount, now),
            opened.1 == Self::blank(user, now).milestone_event(amount),
    {
        let mut stats = UserStats {
            user,
            total_minted: 0,
            mint_count: 0,
            last_milestone: 0,
            milestones_achieved: 0,
            created_at: now,
            last_mint_at: now,
        };
        let credited = stats.credit(amount, now);
        match credited {
            Ok(event) => (stats, event),
            Err(_) => (stats, None),
        }
    }
}

/// A mint never lowers a recipient's lifetime total, milestone index or
/// milestone count, and the history of a recipient stays consistent. On a
/// consistent history the milestone count grows by exactly the difference
/// between the milestone index of the new total and that of the old one.
pub proof fn lemma_credit_is_monotone(stats: UserStats, amount: u64, now: i64)
    requires
        stats.can_credit(amount),
    ensures
        stats.credited(amount, now).total_minted == stats.total_minted + amount,
        stats.credited(amount, now).total_minted >= stats.total_minted,
        stats.credited(amount, now).mint_count == stats.mint_count + 1,
        stats.credited(amount, now).last_milestone >= stats.last_milestone,
        stats.credited(amount, now).milestones_achieved >= stats.milestones_achieved,
        stats.is_consistent() ==> stats.credited(amount, now).is_consistent(),
        stats.is_consistent() ==> stats.credited(amount, now).milestones_achieved
            - stats.milestones_achieved == milestone_index(
            stats.credited(amount, now).total_minted,
        ) - milestone_index(stats.total_minted),
{
}

/// The first mint to a recipient always fits, and the history it opens is consistent.
pub proof fn lemma_blank_accepts_any_mint(user: Identity, amount: u64, now: i64)
    ensures
        UserStats::blank(user, now).is_consistent(),
        UserStats::blank(user, now).can_credit(amount),
        UserStats::blank(user, now).credited(amount, now).is_consistent(),
        UserStats::blank(user, now).credited(amount, now).total_minted == amount,
        UserStats::blank(user, now).credited(amount, now).mint_count == 1,
{
}

} // verus!
