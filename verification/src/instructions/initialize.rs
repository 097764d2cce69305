//! Setting the token up.

use vstd::prelude::*;
use crate::constants::{DECIMALS, MAX_NAME_LENGTH, MAX_SYMBOL_LENGTH};
use crate::error::BurnMintError;
use crate::events::{MintMilestone, TokenInitialized, TokensMinted};
use crate::identity::Identity;
use crate::ledger::LedgerCall;
use crate::state::role_config::{BurnerRole, MinterRole};
use crate::state::token_config::TokenConfig;
use crate::state::user_stats::UserStats;
use crate::text::{byte_len, byte_length};

verus! {

/// The records that setting the token up works on. All four slots are empty
/// beforehand and filled afterwards.
#[derive(Clone, Debug, PartialEq, Eq)]
pub struct Initialize {
    /// The slot of the token configuration.
    pub token_config: Option<TokenConfig>,
    /// Where the token configuration is stored.
    pub token_config_key: Identity,
    /// The token to govern.
    pub mint: Identity,
    /// The slot of the owner's mint history.
    pub owner_stats: Option<UserStats>,
    /// The slot of the owner's minter role.
    pub owner_minter_role: Option<MinterRole>,
    /// The slot of the owner's burner role.
    pub owner_burner_role: Option<BurnerRole>,
    /// The caller, who becomes the owner.
    pub owner: Identity,
}

/// What an accepted set-up hands back: the call for the ledger, if anything is
/// minted, and the events in the order in which they are raised.
#[derive(Clone, Debug, PartialEq, Eq)]
pub struct InitializeReceipt {
    /// Present when the initial supply is not zero.
    pub ledger: Option<LedgerCall>,
    pub initialized: TokenInitialized,
    /// Present when the initial supply is not zero.
    pub minted: Option<TokensMinted>,
    /// Present when the initial supply reaches a milestone threshold.
    pub milestone: Option<MintMilestone>,
}

impl Initialize {
    /// Whether one of the four slots is already filled.
    pub open spec fn is_occupied(self) -> bool {
        self.token_config is Some || self.owner_stats is Some || self.owner_minter_role is Some
            || self.owner_burner_role is Some
    }

    /// Why a set-up is refused, if it is. In this order: `decimals` must be
    /// `DECIMALS`; the initial supply must not exceed the cap; name and symbol
    /// must be at most `MAX_NAME_LENGTH` and `MAX_SYMBOL_LENGTH` bytes long;
    /// all four slots must be empty. The first failure is reported.
    pub open spec fn rejection(
        self,
        decimals: u8,
        initial_supply: u64,
        max_supply: u64,
        name: Seq<char>,
        symbol: Seq<char>,
    ) -> Option<BurnMintError> {
        if decimals != DECIMALS {
            Some(BurnMintError::InvalidAmount)
        } else if initial_supply > max_supply {
            Some(BurnMintError::MaxSupplyExceeded)
        } else if byte_len(name) > MAX_NAME_LENGTH {
            Some(BurnMintError::NameTooLong)
        } else if byte_len(symbol) > MAX_SYMBOL_LENGTH {
            Some(BurnMintError::SymbolTooLong)
        } else if self.is_occupied() {
            Some(BurnMintError::AccountAlreadyInitialized)
        } else {
            None
        }
    }

    /// The records after an accepted set-up at time `now`. The configuration
    /// counts the initial mint if there is one. The owner's history is that
    /// of a first mint of the initial supply; the owner's minter role has
    /// counted that mint, and its burner role has counted nothing.
    pub open spec fn initialized(
        self,
        decimals: u8,
        initial_supply: u64,
        max_supply: u64,
        name: String,
        symbol: String,
        now: i64,
    ) -> Initialize {
        Initialize {
            token_config: Some(
                TokenConfig {
                    owner: self.owner,
                    mint: self.mint,
                    name,
                    symbol,
                    decimals,
                    max_supply,
                    total_mint_events: if initial_supply > 0 {
                        1
                    } else {
                        0
                    },
                    initialized_at: now,
                },
            ),
            owner_stats: Some(
                UserStats::blank(self.owner, now).credited(
                    initial_supply,
                    now,
                ),
            ),
            owner_minter_role: Some(
                MinterRole::spec_fresh(
                    self.token_config_key,
                    self.owner,
                    self.owner,
                    now,
                ).recorded(initial_supply),
            ),
            owner_burner_role: Some(
                BurnerRole::spec_fresh(
                    self.token_config_key,
                    self.owner,
                    self.owner,
                    now,
                ),
            ),
            ..self
        }
    }

    /// What an accepted set-up at time `now` hands back.
    pub open spec fn receipt(
        self,
        initial_supply: u64,
        max_supply: u64,
        name: String,
        symbol: String,
        now: i64,
    ) -> InitializeReceipt {
        InitializeReceipt {
            ledger: if initial_supply > 0 {
                Some(LedgerCall::MintTo { recipient: self.owner, amount: initial_supply })
            } else {
                None
            },
            initialized: TokenInitialized {
                mint: self.mint,
                owner: self.owner,
                initial_supply,
                max_supply,
                name,
                symbol,
                timestamp: now,
            },
            minted: if initial_supply > 0 {
                Some(
                    TokensMinted {
                        minter: self.owner,
                        recipient: self.owner,
                        amount: initial_supply,
                        total_supply: initial_supply,
                        timestamp: now,
                    },
                )
            } else {
                None
            },
            milestone: UserStats::blank(self.owner, now).milestone_event(
                initial_supply,
            ),
        }
    }
}

/// Sets the token up at time `now` with the caller as owner: stores the
/// configuration, opens the owner's mint history with the initial supply,
/// gives the owner both roles, and hands back the ledger call for the initial
/// supply and the events. A refused set-up changes nothing.
pub fn handler(
    ctx: &mut Initialize,
    decimals: u8,
    initial_supply: u64,
    max_supply: u64,
    name: String,
    symbol: String,
    now: i64,
) -> (result: Result<InitializeReceipt, BurnMintError>)
    ensures
        match old(ctx).rejection(decimals, initial_supply, max_supply, name@, symbol@) {
            Some(e) => result == Err::<InitializeReceipt, BurnMintError>(e) && *final(ctx) == *old(
                ctx,
            ),
            None => result == Ok::<InitializeReceipt, BurnMintError>(
                old(ctx).receipt(initial_supply, max_supply, name, symbol, now),
            ) && *final(ctx) == old(ctx).initialized(
                decimals,
                initial_supply,
                max_supply,
                name,
                symbol,
                now,
            ),
        },
{
    if decimals != DECIMALS {
        return Err(BurnMintError::InvalidAmount);
    }
    if initial_supply > max_supply {
        return Err(BurnMintError::MaxSupplyExceeded);
    }
    if byte_length(&name) > MAX_NAME_LENGTH {
        return Err(BurnMintError::NameTooLong);
    }
    if byte_length(&symbol) > MAX_SYMBOL_LENGTH {
        return Err(BurnMintError::SymbolTooLong);
    }
    if ctx.token_config.is_some() || ctx.owner_stats.is_some() || ctx.owner_minter_role.is_some()
        || ctx.owner_burner_role.is_some() {
        return Err(BurnMintError::AccountAlreadyInitialized);
    }
    let owner = ctx.owner;
    let (stats, milestone) = UserStats::first_mint(owner, initial_supply, now);
    let initialized = TokenInitialized {
        mint: ctx.mint,
        owner,
        initial_supply,
        max_supply,
        name: name.clone(),
        symbol: symbol.clone(),
        timestamp: now,
    };
    let mut ledger: Option<LedgerCall> = None;
    let mut minted: Option<TokensMinted> = None;
    let mut mint_events: u64 = 0;
    if initial_supply > 0 {
        ledger = Some(LedgerCall::MintTo { recipient: owner, amount: initial_supply });
        minted = Some(
            TokensMinted {
                minter: owner,
                recipient: owner,
                amount: initial_supply,
                total_supply: initial_supply,
                timestamp: now,
            },
        );
        mint_events = 1;
    }
    ctx.token_config = Some(
        TokenConfig {
            owner,
            mint: ctx.mint,
            name,
            symbol,
            decimals,
            max_supply,
            total_mint_events: mint_events,
            initialized_at: now,
        },
    );
    ctx.owner_stats = Some(stats);
    ctx.owner_minter_role = Some(
        MinterRole {
            token_config: ctx.token_config_key,
            minter: owner,
            granted_at: now,
            granted_by: owner,
            mint_count: 1,
            total_minted: initial_supply,
        },
    );
    ctx.owner_burner_role = Some(
        BurnerRole::fresh(ctx.token_config_key, owner, owner, now),
    );
    Ok(InitializeReceipt { ledger, initialized, minted, milestone })
}

} // verus!
