//! Checks that programs make of the accounts they are handed.

use crate::account::{keys_equal, Account, AccountInfo, Pubkey, Signer};
use crate::error::{require_check, PinoError};
use vstd::prelude::*;

verus! {

/// Trait for program types that have an associated program ID.
pub trait Program {
    /// Returns the program ID.
    fn id() -> Pubkey;
}

/// Validates that a given address is the one derived for some seeds, and
/// returns the bump seed that was derived with it; any other address is
/// refused with `InvalidProgramId`.
pub fn validate_pda(address: &Pubkey, derived: &Pubkey, bump: u8) -> (r: Result<u8, PinoError>)
    ensures
        address@ == derived@ ==> r == Ok::<u8, PinoError>(bump),
        address@ != derived@ ==> r == Err::<u8, PinoError>(PinoError::InvalidProgramId),
{
    if !keys_equal(address, derived) {
        return Err(PinoError::InvalidProgramId);
    }
    Ok(bump)
}

/// Validates that an account is owned by the current program; any other
/// owner is refused with `InvalidAccountOwner`.
pub fn validate_program_ownership<T>(account: &Account<T>, program_id: &Pubkey) -> (r: Result<
    (),
    PinoError,
>)
    ensures
        account.spec_info().owner@ == program_id@ ==> r == Ok::<(), PinoError>(()),
        account.spec_info().owner@ != program_id@ ==> r == Err::<(), PinoError>(
            PinoError::InvalidAccountOwner,
        ),
{
    require_check(keys_equal(account.owner(), program_id), PinoError::InvalidAccountOwner)
}

/// Validates that a signer matches the expected pubkey; any other key is
/// refused with `AccountNotSigner`.
pub fn validate_signer_key(signer: &Signer, expected_key: &Pubkey) -> (r: Result<(), PinoError>)
    ensures
        signer.spec_info().key@ == expected_key@ ==> r == Ok::<(), PinoError>(()),
        signer.spec_info().key@ != expected_key@ ==> r == Err::<(), PinoError>(
            PinoError::AccountNotSigner,
        ),
{
    require_check(keys_equal(signer.key(), expected_key), PinoError::AccountNotSigner)
}

/// Validates that an account has sufficient lamports; a smaller balance is
/// refused with `InsufficientFunds`.
pub fn validate_sufficient_lamports(account: &AccountInfo, required_lamports: u64) -> (r: Result<
    (),
    PinoError,
>)
    ensures
        account.lamports >= required_lamports ==> r == Ok::<(), PinoError>(()),
        account.lamports < required_lamports ==> r == Err::<(), PinoError>(
            PinoError::InsufficientFunds,
        ),
{
    require_check(account.lamports >= required_lamports, PinoError::InsufficientFunds)
}

/// What stands in the way of moving `amount` lamports from one account to
/// another: an account that is not writable, else a balance that is too
/// small, else nothing.
pub open spec fn transfer_obstacle(from: AccountInfo, to: AccountInfo, amount: u64) -> Option<
    PinoError,
> {
    if !from.is_writable || !to.is_writable {
        Some(PinoError::AccountNotMutable)
    } else if from.lamports < amount {
        Some(PinoError::InsufficientFunds)
    } else {
        None
    }
}

/// Decides whether lamports can be moved from one account to another,
/// as [`transfer_obstacle`] says.
pub fn check_transfer(from: &AccountInfo, to: &AccountInfo, amount: u64) -> (r: Result<
    (),
    PinoError,
>)
    ensures
        r == match transfer_obstacle(*from, *to, amount) {
            Some(error) => Err::<(), PinoError>(error),
            None => Ok::<(), PinoError>(()),
        },
{
    if !from.is_writable {
        return Err(PinoError::AccountNotMutable);
    }
    if !to.is_writable {
        return Err(PinoError::AccountNotMutable);
    }
    validate_sufficient_lamports(from, amount)
}

/// Transfers lamports between two accounts: the amount leaves the one
/// balance and joins the other, and nothing else changes. What
/// [`transfer_obstacle`] names is refused, and then both accounts stay as
/// they are.
pub fn transfer_lamports(from: &mut AccountInfo, to: &mut AccountInfo, amount: u64) -> (r: Result<
    (),
    PinoError,
>)
    requires
        transfer_obstacle(*old(from), *old(to), amount) is None ==> old(to).lamports + amount
            <= u64::MAX,
    ensures
        match transfer_obstacle(*old(from), *old(to), amount) {
            Some(error) => r == Err::<(), PinoError>(error) && *final(from) == *old(from) && *final(to) == *old(to),
            None => r == Ok::<(), PinoError>(()) && *final(from) == (AccountInfo {
                lamports: (old(from).lamports - amount) as u64,
                ..*old(from)
            }) && *final(to) == (AccountInfo {
                lamports: (old(to).lamports + amount) as u64,
                ..*old(to)
            }),
        },
{
    match check_transfer(from, to, amount) {
        Ok(()) => {},
        Err(error) => { return Err(error); },
    }
    from.lamports = from.lamports - amount;
    to.lamports = to.lamports + amount;
    Ok(())
}

} // verus!
