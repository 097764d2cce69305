//! The instructions as run against the stored records of one deployment:
//! each one looks up the records it works on, applies the instruction to
//! them, and stores what it changed.
//!
//! The functions of this module store the records of an accepted instruction
//! at once, before the caller has carried out the ledger call they hand
//! back. A caller whose ledger may refuse the call takes the three steps
//! itself: it fetches the records with one of the `*_context` methods, runs
//! the instruction on them, and stores them with the matching method only
//! once the ledger has accepted the call.

use vstd::prelude::*;
use crate::error::BurnMintError;
use crate::events::{
    BurnerRoleGranted,
    BurnerRoleRevoked,
    MaxSupplyUpdated,
    MinterRoleGranted,
    MinterRoleRevoked,
};
use crate::identity::Identity;
use crate::instructions::burn_tokens::{BurnReceipt, BurnTokens};
use crate::instructions::grant_burn_role::GrantBurnRole;
use crate::instructions::grant_mint_role::GrantMintRole;
use crate::instructions::initialize::{Initialize, InitializeReceipt};
use crate::instructions::mint_tokens::{MintReceipt, MintTokens};
use crate::instructions::mint_tokens_with_ccip::{
    receipt as ccip_receipt,
    rejection as ccip_rejection,
    CrossChainMintReceipt,
};
use crate::instructions::revoke_burn_role::RevokeBurnRole;
use crate::instructions::revoke_mint_role::RevokeMintRole;
use crate::instructions::set_max_supply::SetMaxSupply;
use crate::instructions::transfer_and_call::{
    outcome as transfer_outcome,
    TransferAndCall,
    TransferReceipt,
};
use crate::state::role_config::{BurnerRole, MinterRole};
use crate::state::token_config::TokenConfig;
use crate::state::user_stats::UserStats;
use crate::store::{slot_at, with_slot, KeyedTable};

verus! {

/// All records of one deployment: the token configuration once the token is
/// set up, and the roles and mint histories, each stored under the identity
/// it belongs to.
pub struct RecordStore {
    /// Where the token configuration is stored.
    pub token_config_key: Identity,
    pub token_config: Option<TokenConfig>,
    pub minter_roles: KeyedTable<MinterRole>,
    pub burner_roles: KeyedTable<BurnerRole>,
    pub user_stats: KeyedTable<UserStats>,
}

/// Mathematical content of a [`RecordStore`].
pub struct Records {
    pub token_config_key: Identity,
    pub token_config: Option<TokenConfig>,
    pub minter_roles: Map<Seq<u8>, MinterRole>,
    pub burner_roles: Map<Seq<u8>, BurnerRole>,
    pub user_stats: Map<Seq<u8>, UserStats>,
}

impl View for RecordStore {
    type V = Records;

    open spec fn view(&self) -> Records {
        Records {
            token_config_key: self.token_config_key,
            token_config: self.token_config,
            minter_roles: self.minter_roles@,
            burner_roles: self.burner_roles@,
            user_stats: self.user_stats@,
        }
    }
}

impl Records {
    /// The records a grant of the minter role to `minter` by `owner` works on.
    pub open spec fn grant_mint_role_context(
        self,
        owner: Identity,
        minter: Identity,
    ) -> GrantMintRole
        recommends
            self.token_config is Some,
    {
        GrantMintRole {
            token_config: self.token_config->0,
            token_config_key: self.token_config_key,
            minter_role: slot_at(self.minter_roles, minter@),
            owner,
        }
    }

    /// The records a grant of the burner role to `burner` by `owner` works on.
    pub open spec fn grant_burn_role_context(
        self,
        owner: Identity,
        burner: Identity,
    ) -> GrantBurnRole
        recommends
            self.token_config is Some,
    {
        GrantBurnRole {
            token_config: self.token_config->0,
            token_config_key: self.token_config_key,
            burner_role: slot_at(self.burner_roles, burner@),
            owner,
        }
    }

    /// The records a revocation of the minter role of `minter` by `owner` works on.
    pub open spec fn revoke_mint_role_context(
        self,
        owner: Identity,
        minter: Identity,
    ) -> RevokeMintRole
        recommends
            self.token_config is Some,
    {
        RevokeMintRole {
            token_config: self.token_config->0,
            minter_role: slot_at(self.minter_roles, minter@),
            owner,
        }
    }

    /// The records a revocation of the burner role of `burner` by `owner` works on.
    pub open spec fn revoke_burn_role_context(
        self,
        owner: Identity,
        burner: Identity,
    ) -> RevokeBurnRole
        recommends
            self.token_config is Some,
    {
        RevokeBurnRole {
            token_config: self.token_config->0,
            burner_role: slot_at(self.burner_roles, burner@),
            owner,
        }
    }

    /// The records a change of the supply cap by `owner` works on.
    pub open spec fn set_max_supply_context(self, owner: Identity) -> SetMaxSupply
        recommends
            self.token_config is Some,
    {
        SetMaxSupply { token_config: self.token_config->0, owner }
    }

    /// The records a burn by `burner` from a balance of `balance` works on.
    pub open spec fn burn_tokens_context(self, burner: Identity, balance: u64) -> BurnTokens {
        BurnTokens { balance, burner_role: slot_at(self.burner_roles, burner@), burner }
    }

    /// The records a mint by `minter` to `recipient` works on, with `supply` in circulation.
    pub open spec fn mint_tokens_context(
        self,
        minter: Identity,
        recipient: Identity,
        supply: u64,
    ) -> MintTokens
        recommends
            self.token_config is Some,
    {
        MintTokens {
            token_config: self.token_config->0,
            supply,
            recipient,
            recipient_stats: slot_at(self.user_stats, recipient@),
            minter_role: slot_at(self.minter_roles, minter@),
            minter,
        }
    }

    /// The records that setting the token up for `owner` and `mint` works on.
    pub open spec fn initialize_context(self, owner: Identity, mint: Identity) -> Initialize {
        Initialize {
            token_config: self.token_config,
            token_config_key: self.token_config_key,
            mint,
            owner_stats: slot_at(self.user_stats, owner@),
            owner_minter_role: slot_at(self.minter_roles, owner@),
            owner_burner_role: slot_at(self.burner_roles, owner@),
            owner,
        }
    }

    /// These records with the slot of the minter role of `minter` holding `slot`.
    pub open spec fn with_minter_role(
        self,
        minter: Identity,
        slot: Option<MinterRole>,
    ) -> Records {
        Records { minter_roles: with_slot(self.minter_roles, minter@, slot), ..self }
    }

    /// These records with the slot of the burner role of `burner` holding `slot`.
    pub open spec fn with_burner_role(
        self,
        burner: Identity,
        slot: Option<BurnerRole>,
    ) -> Records {
        Records { burner_roles: with_slot(self.burner_roles, burner@, slot), ..self }
    }

    /// These records with `config` as token configuration.
    pub open spec fn with_token_config(self, config: TokenConfig) -> Records {
        Records { token_config: Some(config), ..self }
    }

    /// These records once a mint by `minter` to `recipient` has left the
    /// records it works on as `after`.
    pub open spec fn with_mint(
        self,
        minter: Identity,
        recipient: Identity,
        after: MintTokens,
    ) -> Records {
        Records {
            token_config: Some(after.token_config),
            minter_roles: with_slot(self.minter_roles, minter@, after.minter_role),
            user_stats: with_slot(self.user_stats, recipient@, after.recipient_stats),
            ..self
        }
    }

    /// These records once setting the token up for `owner` has left the
    /// records it works on as `after`.
    pub open spec fn with_initialize(self, owner: Identity, after: Initialize) -> Records {
        Records {
            token_config: after.token_config,
            minter_roles: with_slot(self.minter_roles, owner@, after.owner_minter_role),
            burner_roles: with_slot(self.burner_roles, owner@, after.owner_burner_role),
            user_stats: with_slot(self.user_stats, owner@, after.owner_stats),
            ..self
        }
    }
}

impl RecordStore {
    /// The records of a deployment that has not been set up yet.
    pub fn new(token_config_key: Identity) -> (store: RecordStore)
        ensures
            store@ == (Records {
                token_config_key,
                token_config: None,
                minter_roles: Map::empty(),
                burner_roles: Map::empty(),
                user_stats: Map::empty(),
            }),
    {
        RecordStore {
            token_config_key,
            token_config: None,
            minter_roles: KeyedTable::new(),
            burner_roles: KeyedTable::new(),
            user_stats: KeyedTable::new(),
        }
    }

    /// The records a mint by `minter` to `recipient` works on, with `supply`
    /// in circulation; none before the token is set up.
    pub fn mint_tokens_context(
    &self,
    minter: Identity,
    recipient: Identity,
    supply: u64,
) -> (ctx: Option<MintTokens>)
        ensures
            ctx == (if self@.token_config is Some {
                Some(self@.mint_tokens_context(minter, recipient, supply))
            } else {
                None
            }),
    {
        match &self.token_config {
            Some(config) => Some(
                MintTokens {
                    token_config: config.duplicate(),
                    supply,
                    recipient,
                    recipient_stats: self.user_stats.get(&recipient),
                    minter_role: self.minter_roles.get(&minter),
                    minter,
                },
            ),
            None => None,
        }
    }

    /// Stores what a mint by `minter` to `recipient` has made of the records
    /// it works on.
    pub fn store_mint(&mut self, minter: Identity, recipient: Identity, after: MintTokens)
        ensures
            final(self)@ == old(self)@.with_mint(minter, recipient, after),
    {
        self.minter_roles.set_slot(minter, after.minter_role);
        self.user_stats.set_slot(recipient, after.recipient_stats);
        self.token_config = Some(after.token_config);
    }

    /// The records a burn by `burner` from a balance of `balance` works on;
    /// none before the token is set up.
    pub fn burn_tokens_context(&self, burner: Identity, balance: u64) -> (ctx: Option<BurnTokens>)
        ensures
            ctx == (if self@.token_config is Some {
                Some(self@.burn_tokens_context(burner, balance))
            } else {
                None
            }),
    {
        if self.token_config.is_none() {
            return None;
        }
        Some(BurnTokens { balance, burner_role: self.burner_roles.get(&burner), burner })
    }

    /// Stores what a burn by `burner` has made of the records it works on.
    pub fn store_burn(&mut self, burner: Identity, after: BurnTokens)
        ensures
            final(self)@ == old(self)@.with_burner_role(burner, after.burner_role),
    {
        self.burner_roles.set_slot(burner, after.burner_role);
    }

    /// The records that setting the token up for `owner` and `mint` works on.
    pub fn initialize_context(&self, owner: Identity, mint: Identity) -> (ctx: Initialize)
        ensures
            ctx == self@.initialize_context(owner, mint),
    {
        let token_config = match &self.token_config {
            Some(config) => Some(config.duplicate()),
            None => None,
        };
        Initialize {
            token_config,
            token_config_key: self.token_config_key,
            mint,
            owner_stats: self.user_stats.get(&owner),
            owner_minter_role: self.minter_roles.get(&owner),
            owner_burner_role: self.burner_roles.get(&owner),
            owner,
        }
    }

    /// Stores what setting the token up for `owner` has made of the records
    /// it works on.
    pub fn store_initialize(&mut self, owner: Identity, after: Initialize)
        ensures
            final(self)@ == old(self)@.with_initialize(owner, after),
    {
        self.minter_roles.set_slot(owner, after.owner_minter_role);
        self.burner_roles.set_slot(owner, after.owner_burner_role);
        self.user_stats.set_slot(owner, after.owner_stats);
        self.token_config = after.token_config;
    }
}

/// Sets the token up at time `now` with `owner` as owner of the token
/// `mint`. The set-up is accepted or refused as the instruction decides on
/// the stored records; in particular it is refused once the token is set up.
/// An accepted set-up stores the configuration and, under `owner`, the
/// owner's mint history and both roles. A refused set-up changes nothing.
pub fn initialize(
    store: &mut RecordStore,
    owner: Identity,
    mint: Identity,
    decimals: u8,
    initial_supply: u64,
    max_supply: u64,
    name: String,
    symbol: String,
    now: i64,
) -> (result: Result<InitializeReceipt, BurnMintError>)
    ensures
        match old(store)@.initialize_context(owner, mint).rejection(
            decimals,
            initial_supply,
            max_supply,
            name@,
            symbol@,
        ) {
            Some(e) => result == Err::<InitializeReceipt, BurnMintError>(e) && final(store)@ == old(
                store,
            )@,
            None => result == Ok::<InitializeReceipt, BurnMintError>(
                old(store)@.initialize_context(owner, mint).receipt(
                    initial_supply,
                    max_supply,
                    name,
                    symbol,
                    now,
                ),
            ) && final(store)@ == old(store)@.with_initialize(
                owner,
                old(store)@.initialize_context(owner, mint).initialized(
                    decimals,
                    initial_supply,
                    max_supply,
                    name,
                    symbol,
                    now,
                ),
            ),
        },
{
    let mut ctx = store.initialize_context(owner, mint);
    let result = crate::instructions::initialize::handler(
        &mut ctx,
        decimals,
        initial_supply,
        max_supply,
        name,
        symbol,
        now,
    );
    if result.is_ok() {
        store.store_initialize(owner, ctx);
    }
    result
}

/// Mints `amount` to `recipient` on behalf of `minter` at time `now`, with
/// `supply` in circulation. The token must be set up; beyond that, the mint
/// is accepted or refused as the instruction decides on the stored records,
/// and an accepted mint stores the configuration, the history of `recipient`
/// and the role of `minter` with the mint counted. A refused mint changes
/// nothing.
pub fn mint_tokens(
    store: &mut RecordStore,
    minter: Identity,
    recipient: Identity,
    supply: u64,
    amount: u64,
    now: i64,
) -> (result: Result<MintReceipt, BurnMintError>)
    ensures
        old(store)@.token_config is None ==> result == Err::<MintReceipt, BurnMintError>(
            BurnMintError::AccountNotInitialized,
        ) && final(store)@ == old(store)@,
        old(store)@.token_config is Some ==> match old(store)@.mint_tokens_context(
            minter,
            recipient,
            supply,
        ).rejection(amount) {
            Some(e) => result == Err::<MintReceipt, BurnMintError>(e) && final(store)@ == old(
                store,
            )@,
            None => result == Ok::<MintReceipt, BurnMintError>(
                old(store)@.mint_tokens_context(minter, recipient, supply).receipt(amount, now),
            ) && final(store)@ == old(store)@.with_mint(
                minter,
                recipient,
                old(store)@.mint_tokens_context(minter, recipient, supply).minted(amount, now),
            ) && supply + amount <= old(store)@.token_config->0.max_supply,
        },
{
    let mut ctx = match store.mint_tokens_context(minter, recipient, supply) {
        Some(ctx) => ctx,
        None => { return Err(BurnMintError::AccountNotInitialized); },
    };
    let result = crate::instructions::mint_tokens::handler(&mut ctx, amount, now);
    if result.is_ok() {
        store.store_mint(minter, recipient, ctx);
    }
    result
}

/// Mints `amount` to `recipient` on behalf of `minter` at time `now`, as
/// [`mint_tokens`] does, and reports that the tokens come from
/// `source_chain` with the cross-chain message `ccip_message_id`.
pub fn mint_tokens_with_ccip(
    store: &mut RecordStore,
    minter: Identity,
    recipient: Identity,
    supply: u64,
    amount: u64,
    source_chain: String,
    ccip_message_id: [u8; 32],
    now: i64,
) -> (result: Result<CrossChainMintReceipt, BurnMintError>)
    ensures
        old(store)@.token_config is None ==> result == Err::<CrossChainMintReceipt, BurnMintError>(
            BurnMintError::AccountNotInitialized,
        ) && final(store)@ == old(store)@,
        old(store)@.token_config is Some ==> match ccip_rejection(
            old(store)@.mint_tokens_context(minter, recipient, supply),
            amount,
            source_chain@,
        ) {
            Some(e) => result == Err::<CrossChainMintReceipt, BurnMintError>(e) && final(store)@
                == old(store)@,
            None => result == Ok::<CrossChainMintReceipt, BurnMintError>(
                ccip_receipt(
                    old(store)@.mint_tokens_context(minter, recipient, supply),
                    amount,
                    source_chain,
                    ccip_message_id,
                    now,
                ),
            ) && final(store)@ == old(store)@.with_mint(
                minter,
                recipient,
                old(store)@.mint_tokens_context(minter, recipient, supply).minted(amount, now),
            ) && supply + amount <= old(store)@.token_config->0.max_supply,
        },
{
    let mut ctx = match store.mint_tokens_context(minter, recipient, supply) {
        Some(ctx) => ctx,
        None => { return Err(BurnMintError::AccountNotInitialized); },
    };
    let result = crate::instructions::mint_tokens_with_ccip::handler(
        &mut ctx,
        amount,
        source_chain,
        ccip_message_id,
        now,
    );
    if result.is_ok() {
        store.store_mint(minter, recipient, ctx);
    }
    result
}

/// Burns `amount` from the balance of `burner`, which holds `balance`, at
/// time `now`. The token must be set up; beyond that, the burn is accepted or
/// refused as the instruction decides on the stored role of `burner`, and an
/// accepted burn stores the role with the burn counted. A refused burn
/// changes nothing and hands back no ledger call.
pub fn burn_tokens(
    store: &mut RecordStore,
    burner: Identity,
    balance: u64,
    amount: u64,
    now: i64,
) -> (result: Result<BurnReceipt, BurnMintError>)
    ensures
        old(store)@.token_config is None ==> result == Err::<BurnReceipt, BurnMintError>(
            BurnMintError::AccountNotInitialized,
        ) && final(store)@ == old(store)@,
        old(store)@.token_config is Some ==> match old(store)@.burn_tokens_context(
            burner,
            balance,
        ).rejection(amount) {
            Some(e) => result == Err::<BurnReceipt, BurnMintError>(e) && final(store)@ == old(
                store,
            )@,
            None => result == Ok::<BurnReceipt, BurnMintError>(
                old(store)@.burn_tokens_context(burner, balance).receipt(amount, now),
            ) && final(store)@ == old(store)@.with_burner_role(
                burner,
                old(store)@.burn_tokens_context(burner, balance).burned(amount).burner_role,
            ),
        },
{
    let mut ctx = match store.burn_tokens_context(burner, balance) {
        Some(ctx) => ctx,
        None => { return Err(BurnMintError::AccountNotInitialized); },
    };
    let result = crate::instructions::burn_tokens::handler(&mut ctx, amount, now);
    if result.is_ok() {
        store.store_burn(burner, ctx);
    }
    result
}

/// Grants `minter` the minter role on behalf of `owner`, at time `now`. The
/// token must be set up; beyond that, the grant is accepted or refused as the
/// instruction decides on the stored records, and an accepted grant stores
/// the new role under `minter`. A refused grant changes nothing.
pub fn grant_mint_role(
    store: &mut RecordStore,
    owner: Identity,
    minter: Identity,
    now: i64,
) -> (result: Result<MinterRoleGranted, BurnMintError>)
    ensures
        old(store)@.token_config is None ==> result == Err::<MinterRoleGranted, BurnMintError>(
            BurnMintError::AccountNotInitialized,
        ) && final(store)@ == old(store)@,
        old(store)@.token_config is Some ==> match old(store)@.grant_mint_role_context(
            owner,
            minter,
        ).rejection(minter) {
            Some(e) => result == Err::<MinterRoleGranted, BurnMintError>(e) && final(store)@ == old(
                store,
            )@,
            None => result == Ok::<MinterRoleGranted, BurnMintError>(
                MinterRoleGranted { minter, granted_by: owner, timestamp: now },
            ) && final(store)@ == old(store)@.with_minter_role(
                minter,
                old(store)@.grant_mint_role_context(owner, minter).granted(minter, now).minter_role,
            ),
        },
{
    let token_config = match &store.token_config {
        Some(config) => config.duplicate(),
        None => { return Err(BurnMintError::AccountNotInitialized); },
    };
    let mut ctx = GrantMintRole {
        token_config,
        token_config_key: store.token_config_key,
        minter_role: store.minter_roles.get(&minter),
        owner,
    };
    let result = crate::instructions::grant_mint_role::handler(&mut ctx, minter, now);
    if result.is_ok() {
        store.minter_roles.set_slot(minter, ctx.minter_role);
    }
    result
}

/// Revokes the minter role of `minter` on behalf of `owner`, at time `now`.
/// The token must be set up; beyond that, the revocation is accepted or
/// refused as the instruction decides on the stored records, and an accepted
/// revocation removes the role stored under `minter`. A refused revocation
/// changes nothing.
pub fn revoke_mint_role(
    store: &mut RecordStore,
    owner: Identity,
    minter: Identity,
    now: i64,
) -> (result: Result<MinterRoleRevoked, BurnMintError>)
    ensures
        old(store)@.token_config is None ==> result == Err::<MinterRoleRevoked, BurnMintError>(
            BurnMintError::AccountNotInitialized,
        ) && final(store)@ == old(store)@,
        old(store)@.token_config is Some ==> match old(store)@.revoke_mint_role_context(
            owner,
            minter,
        ).rejection(minter) {
            Some(e) => result == Err::<MinterRoleRevoked, BurnMintError>(e) && final(store)@ == old(
                store,
            )@,
            None => result == Ok::<MinterRoleRevoked, BurnMintError>(
                MinterRoleRevoked { minter, revoked_by: owner, timestamp: now },
            ) && final(store)@ == old(store)@.with_minter_role(
                minter,
                old(store)@.revoke_mint_role_context(owner, minter).revoked().minter_role,
            ),
        },
{
    let token_config = match &store.token_config {
        Some(config) => config.duplicate(),
        None => { return Err(BurnMintError::AccountNotInitialized); },
    };
    let mut ctx = RevokeMintRole {
        token_config,
        minter_role: store.minter_roles.get(&minter),
        owner,
    };
    let result = crate::instructions::revoke_mint_role::handler(&mut ctx, minter, now);
    if result.is_ok() {
        store.minter_roles.set_slot(minter, ctx.minter_role);
    }
    result
}

/// Grants `burner` the burner role on behalf of `owner`, at time `now`. The
/// token must be set up; beyond that, the grant is accepted or refused as the
/// instruction decides on the stored records, and an accepted grant stores
/// the new role under `burner`. A refused grant changes nothing.
pub fn grant_burn_role(
    store: &mut RecordStore,
    owner: Identity,
    burner: Identity,
    now: i64,
) -> (result: Result<BurnerRoleGranted, BurnMintError>)
    ensures
        old(store)@.token_config is None ==> result == Err::<BurnerRoleGranted, BurnMintError>(
            BurnMintError::AccountNotInitialized,
        ) && final(store)@ == old(store)@,
        old(store)@.token_config is Some ==> match old(store)@.grant_burn_role_context(
            owner,
            burner,
        ).rejection(burner) {
            Some(e) => result == Err::<BurnerRoleGranted, BurnMintError>(e) && final(store)@ == old(
                store,
            )@,
            None => result == Ok::<BurnerRoleGranted, BurnMintError>(
                BurnerRoleGranted { burner, granted_by: owner, timestamp: now },
            ) && final(store)@ == old(store)@.with_burner_role(
                burner,
                old(store)@.grant_burn_role_context(owner, burner).granted(burner, now).burner_role,
            ),
        },
{
    let token_config = match &store.token_config {
        Some(config) => config.duplicate(),
        None => { return Err(BurnMintError::AccountNotInitialized); },
    };
    let mut ctx = GrantBurnRole {
        token_config,
        token_config_key: store.token_config_key,
        burner_role: store.burner_roles.get(&burner),
        owner,
    };
    let result = crate::instructions::grant_burn_role::handler(&mut ctx, burner, now);
    if result.is_ok() {
        store.burner_roles.set_slot(burner, ctx.burner_role);
    }
    result
}

/// Revokes the burner role of `burner` on behalf of `owner`, at time `now`.
/// The token must be set up; beyond that, the revocation is accepted or
/// refused as the instruction decides on the stored records, and an accepted
/// revocation removes the role stored under `burner`. A refused revocation
/// changes nothing.
pub fn revoke_burn_role(
    store: &mut RecordStore,
    owner: Identity,
    burner: Identity,
    now: i64,
) -> (result: Result<BurnerRoleRevoked, BurnMintError>)
    ensures
        old(store)@.token_config is None ==> result == Err::<BurnerRoleRevoked, BurnMintError>(
            BurnMintError::AccountNotInitialized,
        ) && final(store)@ == old(store)@,
        old(store)@.token_config is Some ==> match old(store)@.revoke_burn_role_context(
            owner,
            burner,
        ).rejection(burner) {
            Some(e) => result == Err::<BurnerRoleRevoked, BurnMintError>(e) && final(store)@ == old(
                store,
            )@,
            None => result == Ok::<BurnerRoleRevoked, BurnMintError>(
                BurnerRoleRevoked { burner, revoked_by: owner, timestamp: now },
            ) && final(store)@ == old(store)@.with_burner_role(
                burner,
                old(store)@.revoke_burn_role_context(owner, burner).revoked().burner_role,
            ),
        },
{
    let token_config = match &store.token_config {
        Some(config) => config.duplicate(),
        None => { return Err(BurnMintError::AccountNotInitialized); },
    };
    let mut ctx = RevokeBurnRole {
        token_config,
        burner_role: store.burner_roles.get(&burner),
        owner,
    };
    let result = crate::instructions::revoke_burn_role::handler(&mut ctx, burner, now);
    if result.is_ok() {
        store.burner_roles.set_slot(burner, ctx.burner_role);
    }
    result
}

/// Replaces the supply cap by `new_max_supply` on behalf of `owner`, at time
/// `now`. The token must be set up; beyond that, the change is accepted or
/// refused as the instruction decides on the stored configuration. A refused
/// change changes nothing.
pub fn set_max_supply(
    store: &mut RecordStore,
    owner: Identity,
    new_max_supply: u64,
    now: i64,
) -> (result: Result<MaxSupplyUpdated, BurnMintError>)
    ensures
        old(store)@.token_config is None ==> result == Err::<MaxSupplyUpdated, BurnMintError>(
            BurnMintError::AccountNotInitialized,
        ) && final(store)@ == old(store)@,
        old(store)@.token_config is Some ==> match old(store)@.set_max_supply_context(
            owner,
        ).rejection(new_max_supply) {
            Some(e) => result == Err::<MaxSupplyUpdated, BurnMintError>(e) && final(store)@ == old(
                store,
            )@,
            None => result == Ok::<MaxSupplyUpdated, BurnMintError>(
                MaxSupplyUpdated {
                    old_max_supply: old(store)@.token_config->0.max_supply,
                    new_max_supply,
                    updated_by: owner,
                    timestamp: now,
                },
            ) && final(store)@ == old(store)@.with_token_config(
                old(store)@.set_max_supply_context(owner).updated(new_max_supply).token_config,
            ),
        },
{
    let token_config = match &store.token_config {
        Some(config) => config.duplicate(),
        None => { return Err(BurnMintError::AccountNotInitialized); },
    };
    let mut ctx = SetMaxSupply { token_config, owner };
    let result = crate::instructions::set_max_supply::handler(&mut ctx, new_max_supply, now);
    if result.is_ok() {
        store.token_config = Some(ctx.token_config);
    }
    result
}

/// Transfers `amount` from `sender`, which holds `balance`, to `recipient`
/// at time `now`, with `data` as payload for `receiver_program`. The token
/// must be set up; beyond that, the transfer is accepted or refused as the
/// instruction decides. No record changes either way.
pub fn transfer_and_call(
    store: &RecordStore,
    sender: Identity,
    recipient: Identity,
    receiver_program: Identity,
    balance: u64,
    amount: u64,
    data: Vec<u8>,
    now: i64,
) -> (result: Result<TransferReceipt, BurnMintError>)
    ensures
        store@.token_config is None ==> result == Err::<TransferReceipt, BurnMintError>(
            BurnMintError::AccountNotInitialized,
        ),
        store@.token_config is Some ==> result == transfer_outcome(
            TransferAndCall { balance, sender, recipient, receiver_program },
            amount,
            data,
            now,
        ),
{
    if store.token_config.is_none() {
        return Err(BurnMintError::AccountNotInitialized);
    }
    let ctx = TransferAndCall { balance, sender, recipient, receiver_program };
    crate::instructions::transfer_and_call::handler(&ctx, amount, data, now)
}

} // verus!
