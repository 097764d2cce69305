//! What holds of the instructions however they are combined.

use vstd::prelude::*;
use crate::error::BurnMintError;
use crate::identity::Identity;
use crate::instructions::burn_tokens::BurnTokens;
use crate::instructions::mint_tokens::MintTokens;
use crate::ledger::LedgerCall;
use crate::program::Records;
use crate::state::user_stats::{
    lemma_blank_accepts_any_mint,
    lemma_credit_is_monotone,
    milestone_index,
};

verus! {

/// One mint or burn, with the records it is run on.
pub enum SupplyStep {
    Mint { ctx: MintTokens, amount: u64 },
    Burn { ctx: BurnTokens, amount: u64 },
}

impl SupplyStep {
    /// Whether the step is accepted when `supply` tokens circulate under a
    /// cap of `max_supply`. A mint reads that supply and that cap; a burn
    /// takes from a balance, which is part of the supply.
    pub open spec fn is_accepted(self, supply: int, max_supply: u64) -> bool {
        match self {
            SupplyStep::Mint { ctx, amount } => {
                &&& ctx.supply == supply
                &&& ctx.token_config.max_supply == max_supply
                &&& ctx.rejection(amount) is None
            },
            SupplyStep::Burn { ctx, amount } => {
                &&& ctx.balance <= supply
                &&& ctx.rejection(amount) is None
            },
        }
    }

    /// The call that the accepted step hands to the ledger.
    pub open spec fn ledger_call(self) -> LedgerCall {
        match self {
            SupplyStep::Mint { ctx, amount } => ctx.ledger_call(amount),
            SupplyStep::Burn { ctx, amount } => ctx.ledger_call(amount),
        }
    }
}

/// The circulating supply after the ledger has carried out the calls of
/// `steps`, one after the other, starting from `supply`.
pub open spec fn supply_after_all(supply: int, steps: Seq<SupplyStep>) -> int
    decreases steps.len(),
{
    if steps.len() == 0 {
        supply
    } else {
        supply_after_all(steps[0].ledger_call().supply_after(supply), steps.drop_first())
    }
}

/// Whether every step of `steps` is accepted in its turn, the first one with
/// `supply` tokens in circulation and each later one with what its
/// predecessors left, all under a cap of `max_supply`.
pub open spec fn all_accepted(supply: int, max_supply: u64, steps: Seq<SupplyStep>) -> bool
    decreases steps.len(),
{
    steps.len() > 0 ==> {
        &&& steps[0].is_accepted(supply, max_supply)
        &&& all_accepted(
            steps[0].ledger_call().supply_after(supply),
            max_supply,
            steps.drop_first(),
        )
    }
}

/// An accepted mint or burn leaves the circulating supply between zero and the cap.
pub proof fn lemma_step_keeps_supply_within_cap(supply: int, max_supply: u64, step: SupplyStep)
    requires
        0 <= supply <= max_supply,
        step.is_accepted(supply, max_supply),
    ensures
        0 <= step.ledger_call().supply_after(supply) <= max_supply,
        step is Mint ==> step.ledger_call().supply_after(supply) == supply + step->Mint_amount,
        step is Burn ==> step.ledger_call().supply_after(supply) == supply - step->Burn_amount,
{
}

/// After any sequence of accepted mints and burns that starts with a
/// circulating supply within the cap, the circulating supply is within the cap.
pub proof fn lemma_supply_stays_within_cap(supply: int, max_supply: u64, steps: Seq<SupplyStep>)
    requires
        0 <= supply <= max_supply,
        all_accepted(supply, max_supply, steps),
    ensures
        0 <= supply_after_all(supply, steps) <= max_supply,
    decreases steps.len(),
{
    if steps.len() > 0 {
        lemma_step_keeps_supply_within_cap(supply, max_supply, steps[0]);
        lemma_supply_stays_within_cap(
            steps[0].ledger_call().supply_after(supply),
            max_supply,
            steps.drop_first(),
        );
    }
}

/// An accepted mint adds its amount to the recipient's lifetime total and
/// lowers neither the total, nor the milestone index, nor the milestone
/// count. On a consistent history, which is what mints build, the milestone
/// count grows by exactly the difference between the milestone index of the
/// new total and that of the old one, and the history stays consistent.
pub proof fn lemma_mint_advances_history(ctx: MintTokens, amount: u64, now: i64)
    requires
        ctx.rejection(amount) is None,
    ensures
        ({
            let before = ctx.stats_before(now);
            let after = ctx.minted(amount, now).recipient_stats->0;
            &&& ctx.minted(amount, now).recipient_stats is Some
            &&& ctx.recipient_stats is None ==> before.is_consistent() && before.total_minted == 0
            &&& after.total_minted == before.total_minted + amount
            &&& after.total_minted >= before.total_minted
            &&& after.last_milestone >= before.last_milestone
            &&& after.milestones_achieved >= before.milestones_achieved
            &&& before.is_consistent() ==> after.is_consistent()
            &&& before.is_consistent() ==> after.milestones_achieved - before.milestones_achieved
                == milestone_index(after.total_minted) - milestone_index(before.total_minted)
        }),
{
    lemma_credit_is_monotone(ctx.stats_before(now), amount, now);
}

/// Whether every mint history that `records` holds is consistent.
pub open spec fn histories_are_consistent(records: Records) -> bool {
    forall|key: Seq<u8>| #[trigger]
        records.user_stats.contains_key(key) ==> records.user_stats[key].is_consistent()
}

/// Setting the token up stores a consistent mint history for the owner and
/// touches no other history: if all stored histories were consistent, they
/// still are.
pub proof fn lemma_initialize_keeps_histories_consistent(
    records: Records,
    owner: Identity,
    mint: Identity,
    decimals: u8,
    initial_supply: u64,
    max_supply: u64,
    name: String,
    symbol: String,
    now: i64,
)
    requires
        histories_are_consistent(records),
        records.initialize_context(owner, mint).rejection(
            decimals,
            initial_supply,
            max_supply,
            name@,
            symbol@,
        ) is None,
    ensures
        histories_are_consistent(
            records.with_initialize(
                owner,
                records.initialize_context(owner, mint).initialized(
                    decimals,
                    initial_supply,
                    max_supply,
                    name,
                    symbol,
                    now,
                ),
            ),
        ),
{
    lemma_blank_accepts_any_mint(owner, initial_supply, now);
}

/// An accepted mint leaves every stored mint history consistent, if they all
/// were: it stores the recipient's history with the mint counted and touches
/// no other history.
pub proof fn lemma_mint_keeps_histories_consistent(
    records: Records,
    minter: Identity,
    recipient: Identity,
    supply: u64,
    amount: u64,
    now: i64,
)
    requires
        records.token_config is Some,
        histories_are_consistent(records),
        records.mint_tokens_context(minter, recipient, supply).rejection(amount) is None,
    ensures
        histories_are_consistent(
            records.with_mint(
                minter,
                recipient,
                records.mint_tokens_context(minter, recipient, supply).minted(amount, now),
            ),
        ),
{
    let ctx = records.mint_tokens_context(minter, recipient, supply);
    lemma_mint_advances_history(ctx, amount, now);
}

/// A mint that would lift the circulating supply above the cap is refused,
/// whoever asks for it. Asked by a minter for an amount that is not zero, it
/// is refused because of the cap, unless the sum does not even fit in 64 bits.
pub proof fn lemma_mint_over_cap_is_rejected(ctx: MintTokens, amount: u64)
    requires
        ctx.supply + amount > ctx.token_config.max_supply,
    ensures
        ctx.rejection(amount) is Some,
        ctx.is_authorized() && amount > 0 && ctx.supply + amount <= u64::MAX ==> ctx.rejection(
            amount,
        ) == Some(BurnMintError::MaxSupplyExceeded),
        ctx.is_authorized() && amount > 0 && ctx.supply + amount > u64::MAX ==> ctx.rejection(
            amount,
        ) == Some(BurnMintError::ArithmeticOverflow),
{
}

/// A burn of more than the balance holds is refused, whoever asks for it.
/// Asked by a burner for an amount that is not zero, it is refused for want
/// of balance.
pub proof fn lemma_burn_over_balance_is_rejected(ctx: BurnTokens, amount: u64)
    requires
        amount > ctx.balance,
    ensures
        ctx.rejection(amount) is Some,
        ctx.is_authorized() ==> ctx.rejection(amount) == Some(BurnMintError::InsufficientBalance),
{
}

/// Once the minter role of `minter` has been revoked, the owner can grant it
/// again, and the role then stored has both counters at zero, whatever the
/// revoked role had counted. This holds of every identity but the all-zero
/// one, to which no role can be granted.
pub proof fn lemma_regranted_minter_starts_from_zero(
    records: Records,
    owner: Identity,
    minter: Identity,
    now: i64,
)
    requires
        records.token_config is Some,
        records.revoke_mint_role_context(owner, minter).rejection(minter) is None,
        minter@ != Identity::spec_default(),
    ensures
        ({
            let revoked = records.with_minter_role(
                minter,
                records.revoke_mint_role_context(owner, minter).revoked().minter_role,
            );
            let regrant = revoked.grant_mint_role_context(owner, minter);
            let granted = revoked.with_minter_role(
                minter,
                regrant.granted(minter, now).minter_role,
            );
            &&& !revoked.minter_roles.contains_key(minter@)
            &&& regrant.rejection(minter) is None
            &&& granted.minter_roles.contains_key(minter@)
            &&& granted.minter_roles[minter@].mint_count == 0
            &&& granted.minter_roles[minter@].total_minted == 0
        }),
{
}

/// Once the burner role of `burner` has been revoked, the owner can grant it
/// again, and the role then stored has both counters at zero, whatever the
/// revoked role had counted. This holds of every identity but the all-zero
/// one, to which no role can be granted.
pub proof fn lemma_regranted_burner_starts_from_zero(
    records: Records,
    owner: Identity,
    burner: Identity,
    now: i64,
)
    requires
        records.token_config is Some,
        records.revoke_burn_role_context(owner, burner).rejection(burner) is None,
        burner@ != Identity::spec_default(),
    ensures
        ({
            let revoked = records.with_burner_role(
                burner,
                records.revoke_burn_role_context(owner, burner).revoked().burner_role,
            );
            let regrant = revoked.grant_burn_role_context(owner, burner);
            let granted = revoked.with_burner_role(
                burner,
                regrant.granted(burner, now).burner_role,
            );
            &&& !revoked.burner_roles.contains_key(burner@)
            &&& regrant.rejection(burner) is None
            &&& granted.burner_roles.contains_key(burner@)
            &&& granted.burner_roles[burner@].burn_count == 0
            &&& granted.burner_roles[burner@].total_burned == 0
        }),
{
}

/// A role that is already stored cannot be granted again.
pub proof fn lemma_granted_role_cannot_be_granted_again(
    records: Records,
    owner: Identity,
    minter: Identity,
)
    requires
        records.token_config is Some,
        records.token_config->0@.owner == owner@,
        minter@ != Identity::spec_default(),
        records.minter_roles.contains_key(minter@),
    ensures
        records.grant_mint_role_context(owner, minter).rejection(minter) == Some(
            BurnMintError::RoleAlreadyExists,
        ),
{
}

} // verus!
