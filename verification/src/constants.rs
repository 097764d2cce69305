//! Deployment parameters of the token.

use vstd::prelude::*;

verus! {

/// Number of decimal places of the token.
pub const DECIMALS: u8 = 9;

/// Default initial supply: 4 billion tokens, in base units.
pub const INITIAL_SUPPLY: u64 = 4_000_000_000_000_000_000;

/// Default supply cap: 5 billion tokens, in base units.
pub const MAX_SUPPLY: u64 = 5_000_000_000_000_000_000;

/// Amount minted to one recipient per milestone: 100 million tokens, in base units.
pub const MILESTONE_THRESHOLD: u64 = 100_000_000_000_000_000;

/// Upper bound on the number of role records a deployment plans space for.
pub const MAX_ROLES: usize = 100;

/// Longest token name, in bytes.
pub const MAX_NAME_LENGTH: usize = 64;

/// Longest token symbol, in bytes.
pub const MAX_SYMBOL_LENGTH: usize = 16;

/// Longest source-chain label, in bytes.
pub const MAX_SOURCE_CHAIN_LENGTH: usize = 32;

} // verus!
