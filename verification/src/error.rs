use vstd::prelude::*;

verus! {

/// Errors surfaced by the bridge core. Every failure of a handler or codec is
/// reported through one of these discriminants; none is ever downgraded or
/// swallowed.
#[derive(Clone, Copy, Debug, PartialEq, Eq, Structural)]
pub enum BridgeError {
    /// The instruction tag byte is unknown, or the buffer is empty.
    InvalidInstruction,
    /// A fixed-size field could not be read in full from the instruction buffer.
    InstructionUnpackError,
    /// A persisted boolean slot held a byte other than 0 or 1.
    InvalidBoolValue,
    /// Persisted account data has the wrong length or malformed contents.
    InvalidAccountData,
    /// A persisted record that must be initialized is not.
    UninitializedAccount,
    /// The replay-counter record could not be decoded.
    BorshIoError,
    /// The presented authority account did not sign the operation.
    InvalidAuthorityAccount,
    /// A required signer is missing.
    MissingRequiredSignature,
    /// An account is owned by, or derived for, the wrong program.
    IncorrectProgramId,
    /// The account list ended before all required accounts were taken.
    NotEnoughAccountKeys,
    /// The quorum configuration record is not initialized.
    BeaconsUnInitialized,
    /// A withdrawal carried an empty amounts list.
    EmptyWithdrawList,
    /// The signature count is at or below the quorum threshold.
    InvalidNumberOfSignature,
    /// A signature failed recovery or did not match its positional beacon key.
    InvalidBeaconSignature,
    /// A bootstrap target record already exists or its address does not match.
    PDAAccountCreated,
    /// The replay-counter account address or writability is wrong.
    InvalidPDAAccount,
    /// Native-asset cleanup would transfer an account to itself.
    InvalidTransferTokenData,
    /// No valid program address could be derived from the given seeds.
    InvalidSeeds,
    /// The replay counter cannot be advanced past its maximum value.
    CounterOverflow,
    /// The underlying token transfer primitive failed.
    TokenTransferFailed,
    /// The underlying token account-closing primitive failed.
    CloseTokenAccountFailed,
}

} // verus!
