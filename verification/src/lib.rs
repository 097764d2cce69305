//! Role-gated mint and burn control for a capped fungible token.
//!
//! The token's owner names minters and burners; minters mint under a hard
//! supply cap, and every mint is counted for its recipient, who reaches a
//! milestone with each further `MILESTONE_THRESHOLD` tokens. Balances are
//! kept by a token ledger outside this library: an accepted instruction
//! hands back the call for that ledger together with the events it raises.

pub mod constants;
pub mod error;
pub mod events;
pub mod identity;
pub mod instructions;
pub mod laws;
pub mod ledger;
pub mod program;
pub mod state;
pub mod store;
pub mod text;

pub use program::{
    burn_tokens, grant_burn_role, grant_mint_role, initialize, mint_tokens, mint_tokens_with_ccip,
    revoke_burn_role, revoke_mint_role, set_max_supply, transfer_and_call, RecordStore,
};
