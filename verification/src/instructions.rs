//! The instructions. Each one works on exactly the records its context
//! holds, and either applies all of its effects or none.

pub mod burn_tokens;
pub mod grant_burn_role;
pub mod grant_mint_role;
pub mod initialize;
pub mod mint_tokens;
pub mod mint_tokens_with_ccip;
pub mod revoke_burn_role;
pub mod revoke_mint_role;
pub mod set_max_supply;
pub mod transfer_and_call;
