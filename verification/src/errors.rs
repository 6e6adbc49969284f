//! What an operation can fail with.

use vstd::prelude::*;

verus! {

/// The first code of the escrow's own failures.
pub const ERROR_CODE_OFFSET: u32 = 6000;

/// The escrow's own failures: a rule of the service was broken.
#[derive(Clone, Copy, Debug, PartialEq, Eq, Structural)]
pub enum DropSomeError {
    InsufficientDropAmount,
    ReceiverBalanceNotEmpty,
    UnauthorizedClaim,
    AppStateAlreadyInitialized,
    FeeBasisPointsTooHigh,
    AppNotActive,
}

impl DropSomeError {
    /// The place of the failure in the list of the escrow's own failures.
    pub open spec fn ordinal(self) -> nat {
        match self {
            DropSomeError::InsufficientDropAmount => 0,
            DropSomeError::ReceiverBalanceNotEmpty => 1,
            DropSomeError::UnauthorizedClaim => 2,
            DropSomeError::AppStateAlreadyInitialized => 3,
            DropSomeError::FeeBasisPointsTooHigh => 4,
            DropSomeError::AppNotActive => 5,
        }
    }

    /// The sentence shown to the caller.
    pub open spec fn spec_message(self) -> Seq<char> {
        match self {
            DropSomeError::InsufficientDropAmount => "The drop amount is below the minimum allowed amount."@,
            DropSomeError::ReceiverBalanceNotEmpty => "The receiver account has a non-zero balance."@,
            DropSomeError::UnauthorizedClaim => "Only the designated receiver can claim these funds."@,
            DropSomeError::AppStateAlreadyInitialized => "The app state is already initialized."@,
            DropSomeError::FeeBasisPointsTooHigh => "The fee basis points value is too high (max 10,000 = 100%)."@,
            DropSomeError::AppNotActive => "The app is not active."@,
        }
    }

    /// The code under which the ledger reports the failure.
    pub fn code(&self) -> (code: u32)
        ensures
            code == ERROR_CODE_OFFSET + self.ordinal(),
    {
        match self {
            DropSomeError::InsufficientDropAmount => ERROR_CODE_OFFSET,
            DropSomeError::ReceiverBalanceNotEmpty => ERROR_CODE_OFFSET + 1,
            DropSomeError::UnauthorizedClaim => ERROR_CODE_OFFSET + 2,
            DropSomeError::AppStateAlreadyInitialized => ERROR_CODE_OFFSET + 3,
            DropSomeError::FeeBasisPointsTooHigh => ERROR_CODE_OFFSET + 4,
            DropSomeError::AppNotActive => ERROR_CODE_OFFSET + 5,
        }
    }

    /// The sentence shown to the caller.
    pub fn message(&self) -> (text: &'static str)
        ensures
            text@ == self.spec_message(),
    {
        match self {
            DropSomeError::InsufficientDropAmount => "The drop amount is below the minimum allowed amount.",
            DropSomeError::ReceiverBalanceNotEmpty => "The receiver account has a non-zero balance.",
            DropSomeError::UnauthorizedClaim => "Only the designated receiver can claim these funds.",
            DropSomeError::AppStateAlreadyInitialized => "The app state is already initialized.",
            DropSomeError::FeeBasisPointsTooHigh => "The fee basis points value is too high (max 10,000 = 100%).",
            DropSomeError::AppNotActive => "The app is not active.",
        }
    }
}

/// Every way in which an operation of the escrow can fail.
#[derive(Clone, Copy, Debug, PartialEq, Eq, Structural)]
pub enum EscrowError {
    /// A rule of the service was broken.
    Policy(DropSomeError),
    /// The configuration or the record that the operation names does not exist.
    AccountNotInitialized,
    /// A record is already open at the address where one was to be created.
    AccountAlreadyInUse,
    /// An address stored in a record or in the configuration is not the one presented.
    ConstraintHasOne,
    /// A presented address is not the one derived from its seeds.
    ConstraintSeeds,
    /// The caller is not the deployment authority.
    ConstraintRaw,
    /// A transfer names a source that neither signed nor is proved by seeds.
    MissingRequiredSignature,
    /// The source of a transfer holds less than the transfer moves.
    InsufficientFunds,
}

} // verus!
