use vstd::prelude::*;
use crate::keys::Pubkey;

verus! {

/// The treasury program's own error codes.
#[derive(Debug, Clone, Copy, PartialEq, Eq, Structural)]
pub enum TreasuryError {
    Unauthorized,
    InvalidAmount,
    AlreadyClaimed,
    SnapshotNotFound,
    Paused,
}

/// The token program's own error codes.
#[derive(Debug, Clone, Copy, PartialEq, Eq, Structural)]
pub enum TokenError {
    InvalidFeeBps,
}

/// Why an instruction of the treasury program was refused.
#[derive(Debug, Clone, Copy)]
pub enum InstructionError {
    /// One of the program's own error codes.
    Treasury(TreasuryError),
    /// The signer's key (`left`) differs from the key the account requires (`right`).
    RequireKeysEqViolated { left: Pubkey, right: Pubkey },
}

impl TreasuryError {
    /// The message the program attaches to each error code.
    pub fn message(&self) -> (r: &'static str)
        ensures
            r@ == treasury_error_message(*self),
            *self == TreasuryError::Unauthorized ==> r@ == "The signer is not authorized to perform this action"@,
            *self == TreasuryError::InvalidAmount ==> r@ == "The amount must be greater than zero"@,
            *self == TreasuryError::AlreadyClaimed ==> r@ == "The requested distribution epoch has already been claimed"@,
            *self == TreasuryError::SnapshotNotFound ==> r@ == "The requested snapshot does not exist"@,
            *self == TreasuryError::Paused ==> r@ == "The treasury is paused"@,
    {
        match self {
            TreasuryError::Unauthorized => "The signer is not authorized to perform this action",
            TreasuryError::InvalidAmount => "The amount must be greater than zero",
            TreasuryError::AlreadyClaimed => "The requested distribution epoch has already been claimed",
            TreasuryError::SnapshotNotFound => "The requested snapshot does not exist",
            TreasuryError::Paused => "The treasury is paused",
        }
    }
}

/// The message of each treasury error code.
pub open spec fn treasury_error_message(e: TreasuryError) -> Seq<char> {
    match e {
        TreasuryError::Unauthorized => "The signer is not authorized to perform this action"@,
        TreasuryError::InvalidAmount => "The amount must be greater than zero"@,
        TreasuryError::AlreadyClaimed => "The requested distribution epoch has already been claimed"@,
        TreasuryError::SnapshotNotFound => "The requested snapshot does not exist"@,
        TreasuryError::Paused => "The treasury is paused"@,
    }
}

impl TokenError {
    /// The message the token program attaches to each error code.
    pub fn message(&self) -> (r: &'static str)
        ensures
            r@ == "Transfer fee basis points must be between 0 and 10000"@,
    {
        match self {
            TokenError::InvalidFeeBps => "Transfer fee basis points must be between 0 and 10000",
        }
    }
}

} // verus!
