//! Events that accepted instructions report to observers.

use vstd::prelude::*;
use crate::identity::Identity;

verus! {

/// A token was set up.
#[derive(Clone, Debug, PartialEq, Eq)]
pub struct TokenInitialized {
    pub mint: Identity,
    pub owner: Identity,
    pub initial_supply: u64,
    pub max_supply: u64,
    pub name: String,
    pub symbol: String,
    pub timestamp: i64,
}

/// Mathematical content of a [`TokenInitialized`] event.
pub struct TokenInitializedView {
    pub mint: Seq<u8>,
    pub owner: Seq<u8>,
    pub initial_supply: u64,
    pub max_supply: u64,
    pub name: Seq<char>,
    pub symbol: Seq<char>,
    pub timestamp: i64,
}

impl View for TokenInitialized {
    type V = TokenInitializedView;

    open spec fn view(&self) -> TokenInitializedView {
        TokenInitializedView {
            mint: self.mint@,
            owner: self.owner@,
            initial_supply: self.initial_supply,
            max_supply: self.max_supply,
            name: self.name@,
            symbol: self.symbol@,
            timestamp: self.timestamp,
        }
    }
}

/// Tokens were minted; `total_supply` is the circulating supply after the mint.
#[derive(Clone, Copy, Debug, PartialEq, Eq)]
pub struct TokensMinted {
    pub minter: Identity,
    pub recipient: Identity,
    pub amount: u64,
    pub total_supply: u64,
    pub timestamp: i64,
}

/// A mint arrived from another chain.
#[derive(Clone, Debug, PartialEq, Eq)]
pub struct CrossChainMint {
    pub recipient: Identity,
    pub amount: u64,
    pub source_chain: String,
    pub ccip_message_id: [u8; 32],
    pub minter: Identity,
    pub timestamp: i64,
}

/// Mathematical content of a [`CrossChainMint`] event.
pub struct CrossChainMintView {
    pub recipient: Seq<u8>,
    pub amount: u64,
    pub source_chain: Seq<char>,
    pub ccip_message_id: Seq<u8>,
    pub minter: Seq<u8>,
    pub timestamp: i64,
}

impl View for CrossChainMint {
    type V = CrossChainMintView;

    open spec fn view(&self) -> CrossChainMintView {
        CrossChainMintView {
            recipient: self.recipient@,
            amount: self.amount,
            source_chain: self.source_chain@,
            ccip_message_id: self.ccip_message_id@,
            minter: self.minter@,
            timestamp: self.timestamp,
        }
    }
}

/// A recipient's lifetime mints crossed one or more milestone thresholds;
/// `milestone_reached` is the highest threshold crossed.
#[derive(Clone, Copy, Debug, PartialEq, Eq)]
pub struct MintMilestone {
    pub recipient: Identity,
    pub total_minted: u64,
    pub milestone_reached: u64,
}

/// Tokens were burned.
#[derive(Clone, Copy, Debug, PartialEq, Eq)]
pub struct TokensBurned {
    pub burner: Identity,
    pub amount: u64,
    pub timestamp: i64,
}

/// An identity became a minter.
#[derive(Clone, Copy, Debug, PartialEq, Eq)]
pub struct MinterRoleGranted {
    pub minter: Identity,
    pub granted_by: Identity,
    pub timestamp: i64,
}

/// An identity stopped being a minter.
#[derive(Clone, Copy, Debug, PartialEq, Eq)]
pub struct MinterRoleRevoked {
    pub minter: Identity,
    pub revoked_by: Identity,
    pub timestamp: i64,
}

/// An identity became a burner.
#[derive(Clone, Copy, Debug, PartialEq, Eq)]
pub struct BurnerRoleGranted {
    pub burner: Identity,
    pub granted_by: Identity,
    pub timestamp: i64,
}

/// An identity stopped being a burner.
#[derive(Clone, Copy, Debug, PartialEq, Eq)]
pub struct BurnerRoleRevoked {
    pub burner: Identity,
    pub revoked_by: Identity,
    pub timestamp: i64,
}

/// The supply cap was replaced.
#[derive(Clone, Copy, Debug, PartialEq, Eq)]
pub struct MaxSupplyUpdated {
    pub old_max_supply: u64,
    pub new_max_supply: u64,
    pub updated_by: Identity,
    pub timestamp: i64,
}

/// Tokens were transferred together with a payload meant for a receiver program.
#[derive(Clone, Debug, PartialEq, Eq)]
pub struct TransferAndCallEvent {
    pub sender: Identity,
    pub recipient: Identity,
    pub amount: u64,
    pub data: Vec<u8>,
    pub receiver_program: Identity,
    pub timestamp: i64,
}

/// Mathematical content of a [`TransferAndCallEvent`].
pub struct TransferAndCallEventView {
    pub sender: Seq<u8>,
    pub recipient: Seq<u8>,
    pub amount: u64,
    pub data: Seq<u8>,
    pub receiver_program: Seq<u8>,
    pub timestamp: i64,
}

impl View for TransferAndCallEvent {
    type V = TransferAndCallEventView;

    open spec fn view(&self) -> TransferAndCallEventView {
        TransferAndCallEventView {
            sender: self.sender@,
            recipient: self.recipient@,
            amount: self.amount,
            data: self.data@,
            receiver_program: self.receiver_program@,
            timestamp: self.timestamp,
        }
    }
}

} // verus!
