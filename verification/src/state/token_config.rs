//! Global settings of the token.

use vstd::prelude::*;
use crate::identity::Identity;

verus! {

/// Global settings of the token. There is one per deployment; it is created by
/// initialization and never removed.
#[derive(Clone, Debug, PartialEq, Eq)]
pub struct TokenConfig {
    /// Who may manage roles and settings.
    pub owner: Identity,
    /// The token this configuration governs.
    pub mint: Identity,
    pub name: String,
    pub symbol: String,
    pub decimals: u8,
    /// Circulating supply may never be minted above this.
    pub max_supply: u64,
    /// Number of mints accepted so far.
    pub total_mint_events: u64,
    pub initialized_at: i64,
}

/// Mathematical content of a [`TokenConfig`].
pub struct TokenConfigView {
    pub owner: Seq<u8>,
    pub mint: Seq<u8>,
    pub name: Seq<char>,
    pub symbol: Seq<char>,
    pub decimals: u8,
    pub max_supply: u64,
    pub total_mint_events: u64,
    pub initialized_at: i64,
}

impl View for TokenConfig {
    type V = TokenConfigView;

    open spec fn view(&self) -> TokenConfigView {
        TokenConfigView {
            owner: self.owner@,
            mint: self.mint@,
            name: self.name@,
            symbol: self.symbol@,
            decimals: self.decimals,
            max_supply: self.max_supply,
            total_mint_events: self.total_mint_events,
            initialized_at: self.initialized_at,
        }
    }
}

impl TokenConfig {
    /// A copy of this configuration.
    pub fn duplicate(&self) -> (copy: TokenConfig)
        ensures
            copy == *self,
    {
        TokenConfig {
            owner: self.owner,
            mint: self.mint,
            name: self.name.clone(),
            symbol: self.symbol.clone(),
            decimals: self.decimals,
            max_supply: self.max_supply,
            total_mint_events: self.total_mint_events,
            initialized_at: self.initialized_at,
        }
    }

    /// Whether `caller` is the owner of the token.
    pub fn is_owner(&self, caller: &Identity) -> (r: bool)
        ensures
            r == (self@.owner == caller@),
    {
        self.owner.same(caller)
    }
}

} // verus!
