use vstd::prelude::*;

verus! {

/// Every way an operation of the ledger can fail.
///
/// Each check of the state machine fails fast with exactly one of these,
/// and a failed operation persists nothing.
#[derive(Clone, Copy, Debug, PartialEq, Eq, Structural)]
pub enum StakeError {
    /// The instruction buffer is empty, carries an unknown tag, or its
    /// payload length does not match the tag.
    InvalidInstructionData,
    /// The persisted record is not owned by this program.
    IncorrectOwner,
    /// The operation needs a populated record but the record is unused.
    UninitializedAccount,
    /// The record is already populated and must not be rebound.
    AlreadyInitialized,
    /// A zero stake amount, or a duration selector outside the schedule.
    InvalidArgument,
    /// The requested amount exceeds what the record holds.
    InsufficientFunds,
    /// The user's signature is missing from a fund-moving request.
    MissingRequiredSignature,
    /// The record's backing storage is not funded for permanent allocation.
    StorageNotExempt,
    /// A reward or total would not fit in 64 bits, or the clock ran
    /// backwards past the stake's start.
    ArithmeticOverflow,
    /// Withdrawal was requested before the lock period ended.
    LockNotMatured,
    /// The external token transfer was rejected by its ledger.
    TransferFailed,
    /// A record buffer does not have the record's fixed size.
    DecodeError,
}

} // verus!
