//! The ways an instruction can be rejected.

use vstd::prelude::*;

verus! {

/// Why an instruction was rejected. A rejected instruction changes nothing.
#[derive(Clone, Copy, Debug, PartialEq, Eq, Structural)]
pub enum BurnMintError {
    InvalidRecipient,
    InvalidMinter,
    InvalidBurner,
    MaxSupplyExceeded,
    UnauthorizedMinter,
    UnauthorizedBurner,
    UnauthorizedOwner,
    InsufficientBalance,
    InvalidAmount,
    NameTooLong,
    SymbolTooLong,
    SourceChainTooLong,
    RoleAlreadyExists,
    RoleDoesNotExist,
    MaxRolesReached,
    InvalidNewMaxSupply,
    AccountAlreadyInitialized,
    AccountNotInitialized,
    ArithmeticOverflow,
    ArithmeticUnderflow,
}

impl BurnMintError {
    /// The text shown to a user for each error.
    pub open spec fn spec_message(self) -> Seq<char> {
        match self {
            BurnMintError::InvalidRecipient => "Invalid recipient address"@,
            BurnMintError::InvalidMinter => "Invalid minter address"@,
            BurnMintError::InvalidBurner => "Invalid burner address"@,
            BurnMintError::MaxSupplyExceeded => "Maximum supply exceeded"@,
            BurnMintError::UnauthorizedMinter => "Unauthorized: caller is not a minter"@,
            BurnMintError::UnauthorizedBurner => "Unauthorized: caller is not a burner"@,
            BurnMintError::UnauthorizedOwner => "Unauthorized: caller is not the owner"@,
            BurnMintError::InsufficientBalance => "Insufficient balance"@,
            BurnMintError::InvalidAmount => "Invalid amount"@,
            BurnMintError::NameTooLong => "Token name too long"@,
            BurnMintError::SymbolTooLong => "Token symbol too long"@,
            BurnMintError::SourceChainTooLong => "Source chain name too long"@,
            BurnMintError::RoleAlreadyExists => "Role already exists"@,
            BurnMintError::RoleDoesNotExist => "Role does not exist"@,
            BurnMintError::MaxRolesReached => "Max roles limit reached"@,
            BurnMintError::InvalidNewMaxSupply => "Invalid new max supply"@,
            BurnMintError::AccountAlreadyInitialized => "Account already initialized"@,
            BurnMintError::AccountNotInitialized => "Account not initialized"@,
            BurnMintError::ArithmeticOverflow => "Arithmetic overflow"@,
            BurnMintError::ArithmeticUnderflow => "Arithmetic underflow"@,
        }
    }

    /// The text shown to a user for this error.
    pub fn message(&self) -> (text: &'static str)
        ensures
            text@ == self.spec_message(),
    {
        match self {
            BurnMintError::InvalidRecipient => "Invalid recipient address",
            BurnMintError::InvalidMinter => "Invalid minter address",
            BurnMintError::InvalidBurner => "Invalid burner address",
            BurnMintError::MaxSupplyExceeded => "Maximum supply exceeded",
            BurnMintError::UnauthorizedMinter => "Unauthorized: caller is not a minter",
            BurnMintError::UnauthorizedBurner => "Unauthorized: caller is not a burner",
            BurnMintError::UnauthorizedOwner => "Unauthorized: caller is not the owner",
            BurnMintError::InsufficientBalance => "Insufficient balance",
            BurnMintError::InvalidAmount => "Invalid amount",
            BurnMintError::NameTooLong => "Token name too long",
            BurnMintError::SymbolTooLong => "Token symbol too long",
            BurnMintError::SourceChainTooLong => "Source chain name too long",
            BurnMintError::RoleAlreadyExists => "Role already exists",
            BurnMintError::RoleDoesNotExist => "Role does not exist",
            BurnMintError::MaxRolesReached => "Max roles limit reached",
            BurnMintError::InvalidNewMaxSupply => "Invalid new max supply",
            BurnMintError::AccountAlreadyInitialized => "Account already initialized",
            BurnMintError::AccountNotInitialized => "Account not initialized",
            BurnMintError::ArithmeticOverflow => "Arithmetic overflow",
            BurnMintError::ArithmeticUnderflow => "Arithmetic underflow",
        }
    }
}

} // verus!
