//! The error type shared by the whole crate.

use pinocchio::program_error::ProgramError;
use vstd::prelude::*;
use vstd::std_specs::convert::FromSpecImpl;

verus! {

/// Code carried by [`PinoError::Custom`] when a `StackVec` is full.
pub const STACK_VEC_FULL: u32 = 0x1001;

/// Code carried by [`PinoError::Custom`] when a `StackMap` is full.
pub const STACK_MAP_FULL: u32 = 0x1002;

/// Code carried by [`PinoError::Custom`] when a `StackString` cannot hold
/// the text being appended.
pub const STACK_STRING_FULL: u32 = 0x1003;

/// Code carried by [`PinoError::Custom`] when all bump seed slots are taken.
pub const BUMP_SEEDS_FULL: u32 = 0x1001;

/// Code carried by [`PinoError::Custom`] when no clock is available.
pub const CLOCK_UNAVAILABLE: u32 = 0x2001;

/// Code carried by [`PinoError::Custom`] when a number lies outside its range.
pub const OUT_OF_RANGE: u32 = 0x2002;

/// Code carried by [`PinoError::Custom`] when a slice is empty.
pub const EMPTY_SLICE: u32 = 0x2003;

/// Code carried by [`PinoError::Custom`] when a byte is not ASCII.
pub const NOT_ASCII: u32 = 0x2004;

/// Main error type.
#[derive(Debug, Clone, Copy, PartialEq, Eq, Structural)]
pub enum PinoError {
    /// Account data is too small for the expected type
    AccountDataTooSmall,
    /// Account is not mutable when mutation is required
    AccountNotMutable,
    /// Account is not a signer when signature is required
    AccountNotSigner,
    /// Account is not executable when program account is expected
    AccountNotExecutable,
    /// Invalid program ID
    InvalidProgramId,
    /// Account borrow failed (already borrowed)
    AccountBorrowFailed,
    /// Instruction data is invalid or malformed
    InvalidInstructionData,
    /// Insufficient funds for operation
    InsufficientFunds,
    /// Account already initialized
    AccountAlreadyInitialized,
    /// Account not initialized
    AccountNotInitialized,
    /// Invalid account owner
    InvalidAccountOwner,
    /// Arithmetic overflow
    ArithmeticOverflow,
    /// Custom error with code
    Custom(u32),
}

/// Turns a condition into a `Result`: `Ok(())` when it holds, the given
/// error when it does not.
pub fn require_check(condition: bool, error: PinoError) -> (r: Result<(), PinoError>)
    ensures
        condition ==> r == Ok::<(), PinoError>(()),
        !condition ==> r == Err::<(), PinoError>(error),
{
    if condition {
        Ok(())
    } else {
        Err(error)
    }
}

/// Declares [`pinocchio::program_error::ProgramError`], the host's error
/// type, with the variants it has.
#[verifier::external_type_specification]
pub struct ExProgramError(ProgramError);

/// The host's error for each error of this crate.
pub open spec fn host_error(error: PinoError) -> ProgramError {
    match error {
        PinoError::AccountDataTooSmall => ProgramError::AccountDataTooSmall,
        PinoError::AccountNotMutable => ProgramError::InvalidAccountData,
        PinoError::AccountNotSigner => ProgramError::MissingRequiredSignature,
        PinoError::AccountNotExecutable => ProgramError::InvalidAccountData,
        PinoError::InvalidProgramId => ProgramError::IncorrectProgramId,
        PinoError::AccountBorrowFailed => ProgramError::AccountBorrowFailed,
        PinoError::InvalidInstructionData => ProgramError::InvalidInstructionData,
        PinoError::InsufficientFunds => ProgramError::InsufficientFunds,
        PinoError::AccountAlreadyInitialized => ProgramError::AccountAlreadyInitialized,
        PinoError::AccountNotInitialized => ProgramError::UninitializedAccount,
        PinoError::InvalidAccountOwner => ProgramError::InvalidAccountOwner,
        PinoError::ArithmeticOverflow => ProgramError::ArithmeticOverflow,
        PinoError::Custom(code) => ProgramError::Custom(code),
    }
}

impl From<PinoError> for ProgramError {
    fn from(error: PinoError) -> (r: Self) {
        match error {
            PinoError::AccountDataTooSmall => ProgramError::AccountDataTooSmall,
            PinoError::AccountNotMutable => ProgramError::InvalidAccountData,
            PinoError::AccountNotSigner => ProgramError::MissingRequiredSignature,
            PinoError::AccountNotExecutable => ProgramError::InvalidAccountData,
            PinoError::InvalidProgramId => ProgramError::IncorrectProgramId,
            PinoError::AccountBorrowFailed => ProgramError::AccountBorrowFailed,
            PinoError::InvalidInstructionData => ProgramError::InvalidInstructionData,
            PinoError::InsufficientFunds => ProgramError::InsufficientFunds,
            PinoError::AccountAlreadyInitialized => ProgramError::AccountAlreadyInitialized,
            PinoError::AccountNotInitialized => ProgramError::UninitializedAccount,
            PinoError::InvalidAccountOwner => ProgramError::InvalidAccountOwner,
            PinoError::ArithmeticOverflow => ProgramError::ArithmeticOverflow,
            PinoError::Custom(code) => ProgramError::Custom(code),
        }
    }
}

impl FromSpecImpl<PinoError> for ProgramError {
    open spec fn obeys_from_spec() -> bool {
        true
    }

    open spec fn from_spec(error: PinoError) -> Self {
        host_error(error)
    }
}

/// Calls pinocchio's `u64::from(ProgramError)`, which gives the number that
/// the host knows the error by; for a custom error with a code other than
/// zero that is the code.
#[verifier::external_body]
fn host_code(error: ProgramError) -> (code: u64)
    ensures
        error matches ProgramError::Custom(custom) ==> (custom != 0 ==> code == custom),
{
    u64::from(error)
}

/// The number that the host knows an error by: that of its
/// [`host_error`].
pub fn error_code(error: PinoError) -> (code: u64)
    ensures
        error matches PinoError::Custom(custom) ==> (custom != 0 ==> code == custom),
{
    host_code(ProgramError::from(error))
}

impl From<PinoError> for u64 {
    /// The number that the host knows the error by, as [`error_code`]
    /// gives it.
    fn from(error: PinoError) -> (code: Self)
        ensures
            error matches PinoError::Custom(custom) ==> (custom != 0 ==> code == custom),
    {
        error_code(error)
    }
}

/// Of the numbers that the host gives, this crate states only those of
/// custom errors; the conversion as a whole is left open.
impl FromSpecImpl<PinoError> for u64 {
    open spec fn obeys_from_spec() -> bool {
        false
    }

    open spec fn from_spec(error: PinoError) -> Self {
        0
    }
}

} // verus!
