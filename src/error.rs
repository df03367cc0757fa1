//! Reasons an instruction is rejected.
use vstd::prelude::*;

verus! {

/// The named failures of this program's own checks.
#[derive(Clone, Copy, Debug, PartialEq, Eq, Structural)]
pub enum ErrorCode {
    InsufficientFunds,
    InsufficientStakeAmount,
    TokenAccountMismatch,
    InvalidTokenAccountOwner,
    XtokenOwnerMismatch,
    XtokenMintMismatch,
    PosOwnerMismatch,
    PosMintMismatch,
}

/// The message shown to users for `e`.
pub open spec fn message_of(e: ErrorCode) -> Seq<char> {
    match e {
        ErrorCode::InsufficientFunds => "Insufficient funds"@,
        ErrorCode::InsufficientStakeAmount => "Insufficient stake amount"@,
        ErrorCode::TokenAccountMismatch => "Token Account doesn't match"@,
        ErrorCode::InvalidTokenAccountOwner => "Invalid token account owner"@,
        ErrorCode::XtokenOwnerMismatch => "XToken Owner mismatch"@,
        ErrorCode::XtokenMintMismatch => "XToken Mint mismatch"@,
        ErrorCode::PosOwnerMismatch => "Pos Owner mismatch"@,
        ErrorCode::PosMintMismatch => "Pos Mint mismatch"@,
    }
}

impl ErrorCode {
    /// The message shown to users.
    pub fn msg(&self) -> (r: &'static str)
        ensures
            r@ == message_of(*self),
    {
        match self {
            ErrorCode::InsufficientFunds => "Insufficient funds",
            ErrorCode::InsufficientStakeAmount => "Insufficient stake amount",
            ErrorCode::TokenAccountMismatch => "Token Account doesn't match",
            ErrorCode::InvalidTokenAccountOwner => "Invalid token account owner",
            ErrorCode::XtokenOwnerMismatch => "XToken Owner mismatch",
            ErrorCode::XtokenMintMismatch => "XToken Mint mismatch",
            ErrorCode::PosOwnerMismatch => "Pos Owner mismatch",
            ErrorCode::PosMintMismatch => "Pos Mint mismatch",
        }
    }
}

/// Why an instruction was rejected: one of the program's own errors, a
/// supplied address that is not the one derived from its seeds, or an
/// account to be created that already exists.
#[derive(Clone, Copy, Debug, PartialEq, Eq, Structural)]
pub enum StakerError {
    Program(ErrorCode),
    ConstraintSeeds,
    AccountInUse,
}

} // verus!
