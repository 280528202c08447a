//! Typed views of accounts, each checked when it is made.
//!
//! An account is seen here as an [`AccountInfo`]: the plain facts about it
//! that the checks read. Its data stay with the host.

use crate::error::{require_check, PinoError};
use crate::memory::compare_bytes;
use core::marker::PhantomData;
use vstd::layout::size_of;
use vstd::prelude::*;

verus! {

/// A public key: thirty-two bytes.
pub type Pubkey = [u8; 32];

/// What the checks need to know of an account.
#[derive(Debug, Clone, Copy)]
pub struct AccountInfo {
    /// The account's public key.
    pub key: Pubkey,
    /// The program that owns the account.
    pub owner: Pubkey,
    /// The account's balance.
    pub lamports: u64,
    /// The length of the account's data in bytes.
    pub data_len: usize,
    /// Whether the account signed the transaction.
    pub is_signer: bool,
    /// Whether the account may be written to.
    pub is_writable: bool,
    /// Whether the account holds a program.
    pub executable: bool,
}

/// Tells whether two keys are the same.
pub fn keys_equal(a: &Pubkey, b: &Pubkey) -> (r: bool)
    ensures
        r == (a@ == b@),
{
    compare_bytes(a.as_slice(), b.as_slice())
}

/// A zero-copy account wrapper that provides type-safe access to account
/// data: an account whose data are long enough for a `T`.
pub struct Account<T> {
    info: AccountInfo,
    _phantom: PhantomData<T>,
}

impl<T> Account<T> {
    /// The account underneath.
    pub closed spec fn spec_info(&self) -> AccountInfo {
        self.info
    }

    /// Creates a new Account wrapper around an AccountInfo without any
    /// check.
    pub fn new_unchecked(info: AccountInfo) -> (r: Self)
        ensures
            r.spec_info() == info,
    {
        Account { info, _phantom: PhantomData }
    }

    /// Creates a new Account wrapper with validation: data shorter than a
    /// `T` are refused with `AccountDataTooSmall`.
    pub fn new(info: AccountInfo) -> (r: Result<Self, PinoError>)
        ensures
            info.data_len >= size_of::<T>() ==> r is Ok && r->Ok_0.spec_info() == info,
            info.data_len < size_of::<T>() ==> r matches Err(PinoError::AccountDataTooSmall),
    {
        match require_check(
            info.data_len >= core::mem::size_of::<T>(),
            PinoError::AccountDataTooSmall,
        ) {
            Ok(()) => Ok(Account { info, _phantom: PhantomData }),
            Err(error) => Err(error),
        }
    }

    /// Returns the underlying AccountInfo.
    pub fn info(&self) -> (r: &AccountInfo)
        ensures
            *r == self.spec_info(),
    {
        &self.info
    }

    /// Returns the account's public key.
    pub fn key(&self) -> (r: &Pubkey)
        ensures
            *r == self.spec_info().key,
    {
        &self.info.key
    }

    /// Returns the account's owner.
    pub fn owner(&self) -> (r: &Pubkey)
        ensures
            *r == self.spec_info().owner,
    {
        &self.info.owner
    }

    /// Returns the account's lamport balance.
    pub fn lamports(&self) -> (r: u64)
        ensures
            r == self.spec_info().lamports,
    {
        self.info.lamports
    }

    /// Checks if the account is writable.
    pub fn is_writable(&self) -> (r: bool)
        ensures
            r == self.spec_info().is_writable,
    {
        self.info.is_writable
    }

    /// Checks if the account is a signer.
    pub fn is_signer(&self) -> (r: bool)
        ensures
            r == self.spec_info().is_signer,
    {
        self.info.is_signer
    }

    /// Checks if the account is executable.
    pub fn executable(&self) -> (r: bool)
        ensures
            r == self.spec_info().executable,
    {
        self.info.executable
    }

    /// Decides whether data of `data_len` bytes can be loaded as a `T`:
    /// shorter data are refused with `AccountDataTooSmall`.
    pub fn load(&self, data_len: usize) -> (r: Result<(), PinoError>)
        ensures
            data_len >= size_of::<T>() ==> r == Ok::<(), PinoError>(()),
            data_len < size_of::<T>() ==> r == Err::<(), PinoError>(PinoError::AccountDataTooSmall),
    {
        require_check(data_len >= core::mem::size_of::<T>(), PinoError::AccountDataTooSmall)
    }

    /// Decides whether data of `data_len` bytes can be loaded as a `T` to
    /// write to: an account that is not writable is refused with
    /// `AccountNotMutable`, and then shorter data with `AccountDataTooSmall`.
    pub fn load_mut(&self, data_len: usize) -> (r: Result<(), PinoError>)
        ensures
            !self.spec_info().is_writable ==> r == Err::<(), PinoError>(
                PinoError::AccountNotMutable,
            ),
            self.spec_info().is_writable && data_len < size_of::<T>() ==> r == Err::<
                (),
                PinoError,
            >(PinoError::AccountDataTooSmall),
            self.spec_info().is_writable && data_len >= size_of::<T>() ==> r == Ok::<(), PinoError>(
                (),
            ),
    {
        match require_check(self.is_writable(), PinoError::AccountNotMutable) {
            Ok(()) => self.load(data_len),
            Err(error) => Err(error),
        }
    }

    /// Decides whether data of `data_len` bytes can be initialized with a
    /// `T`, under the rule of [`Account::load_mut`].
    pub fn init(&self, data_len: usize) -> (r: Result<(), PinoError>)
        ensures
            !self.spec_info().is_writable ==> r == Err::<(), PinoError>(
                PinoError::AccountNotMutable,
            ),
            self.spec_info().is_writable && data_len < size_of::<T>() ==> r == Err::<
                (),
                PinoError,
            >(PinoError::AccountDataTooSmall),
            self.spec_info().is_writable && data_len >= size_of::<T>() ==> r == Ok::<(), PinoError>(
                (),
            ),
    {
        self.load_mut(data_len)
    }
}

/// A signer account wrapper: an account that signed.
pub struct Signer {
    info: AccountInfo,
}

impl Signer {
    /// The account underneath.
    pub closed spec fn spec_info(&self) -> AccountInfo {
        self.info
    }

    /// Creates a new Signer wrapper: an account that did not sign is
    /// refused with `AccountNotSigner`.
    pub fn new(info: AccountInfo) -> (r: Result<Self, PinoError>)
        ensures
            info.is_signer ==> r is Ok && r->Ok_0.spec_info() == info,
            !info.is_signer ==> r matches Err(PinoError::AccountNotSigner),
    {
        match require_check(info.is_signer, PinoError::AccountNotSigner) {
            Ok(()) => Ok(Signer { info }),
            Err(error) => Err(error),
        }
    }

    /// Returns the underlying AccountInfo.
    pub fn info(&self) -> (r: &AccountInfo)
        ensures
            *r == self.spec_info(),
    {
        &self.info
    }

    /// Returns the signer's public key.
    pub fn key(&self) -> (r: &Pubkey)
        ensures
            *r == self.spec_info().key,
    {
        &self.info.key
    }
}

/// A program account wrapper for CPI calls: an executable account with
/// the expected key.
pub struct Program<T> {
    info: AccountInfo,
    _phantom: PhantomData<T>,
}

impl<T> Program<T> {
    /// The account underneath.
    pub closed spec fn spec_info(&self) -> AccountInfo {
        self.info
    }

    /// Creates a new Program wrapper: an account that is not executable is
    /// refused with `AccountNotExecutable`, and then one whose key is not
    /// the expected one with `InvalidProgramId`.
    pub fn new(info: AccountInfo, expected_id: &Pubkey) -> (r: Result<Self, PinoError>)
        ensures
            !info.executable ==> r matches Err(PinoError::AccountNotExecutable),
            info.executable && info.key@ != expected_id@ ==> r matches Err(
                PinoError::InvalidProgramId,
            ),
            info.executable && info.key@ == expected_id@ ==> r is Ok && r->Ok_0.spec_info() == info,
    {
        match require_check(info.executable, PinoError::AccountNotExecutable) {
            Ok(()) => {},
            Err(error) => { return Err(error); },
        }
        match require_check(keys_equal(&info.key, expected_id), PinoError::InvalidProgramId) {
            Ok(()) => Ok(Program { info, _phantom: PhantomData }),
            Err(error) => Err(error),
        }
    }

    /// Returns the underlying AccountInfo.
    pub fn info(&self) -> (r: &AccountInfo)
        ensures
            *r == self.spec_info(),
    {
        &self.info
    }

    /// Returns the program's public key.
    pub fn key(&self) -> (r: &Pubkey)
        ensures
            *r == self.spec_info().key,
    {
        &self.info.key
    }
}

/// An unchecked account wrapper for maximum flexibility: any account.
pub struct UncheckedAccount {
    info: AccountInfo,
}

impl UncheckedAccount {
    /// The account underneath.
    pub closed spec fn spec_info(&self) -> AccountInfo {
        self.info
    }

    /// Creates a new UncheckedAccount wrapper.
    pub fn new(info: AccountInfo) -> (r: Self)
        ensures
            r.spec_info() == info,
    {
        UncheckedAccount { info }
    }

    /// Returns the underlying AccountInfo.
    pub fn info(&self) -> (r: &AccountInfo)
        ensures
            *r == self.spec_info(),
    {
        &self.info
    }

    /// Converts to a typed Account with the validation of [`Account::new`].
    pub fn to_account<T>(&self) -> (r: Result<Account<T>, PinoError>)
        ensures
            self.spec_info().data_len >= size_of::<T>() ==> r is Ok && r->Ok_0.spec_info()
                == self.spec_info(),
            self.spec_info().data_len < size_of::<T>() ==> r matches Err(
                PinoError::AccountDataTooSmall,
            ),
    {
        Account::new(self.info)
    }

    /// Converts to a Signer with the validation of [`Signer::new`].
    pub fn to_signer(&self) -> (r: Result<Signer, PinoError>)
        ensures
            self.spec_info().is_signer ==> r is Ok && r->Ok_0.spec_info() == self.spec_info(),
            !self.spec_info().is_signer ==> r matches Err(PinoError::AccountNotSigner),
    {
        Signer::new(self.info)
    }

    /// Converts to a Program with the validation of [`Program::new`].
    pub fn to_program<T>(&self, expected_id: &Pubkey) -> (r: Result<Program<T>, PinoError>)
        ensures
            !self.spec_info().executable ==> r matches Err(PinoError::AccountNotExecutable),
            self.spec_info().executable && self.spec_info().key@ != expected_id@ ==> r matches Err(
                PinoError::InvalidProgramId,
            ),
            self.spec_info().executable && self.spec_info().key@ == expected_id@ ==> r is Ok
                && r->Ok_0.spec_info() == self.spec_info(),
    {
        Program::new(self.info, expected_id)
    }
}

/// An account loader for zero-copy large data access: an account whose
/// data are long enough for a `T`, borrowed only when they are read.
pub struct AccountLoader<T> {
    info: AccountInfo,
    _phantom: PhantomData<T>,
}

impl<T> AccountLoader<T> {
    /// The account underneath.
    pub closed spec fn spec_info(&self) -> AccountInfo {
        self.info
    }

    /// Creates a new AccountLoader: data shorter than a `T` are refused
    /// with `AccountDataTooSmall`.
    pub fn new(info: AccountInfo) -> (r: Result<Self, PinoError>)
        ensures
            info.data_len >= size_of::<T>() ==> r is Ok && r->Ok_0.spec_info() == info,
            info.data_len < size_of::<T>() ==> r matches Err(PinoError::AccountDataTooSmall),
    {
        match require_check(
            info.data_len >= core::mem::size_of::<T>(),
            PinoError::AccountDataTooSmall,
        ) {
            Ok(()) => Ok(AccountLoader { info, _phantom: PhantomData }),
            Err(error) => Err(error),
        }
    }

    /// Decides whether the data can be borrowed to write: an account that
    /// is not writable is refused with `AccountNotMutable`.
    pub fn load_mut(&self) -> (r: Result<(), PinoError>)
        ensures
            self.spec_info().is_writable ==> r == Ok::<(), PinoError>(()),
            !self.spec_info().is_writable ==> r == Err::<(), PinoError>(
                PinoError::AccountNotMutable,
            ),
    {
        require_check(self.info.is_writable, PinoError::AccountNotMutable)
    }

    /// Returns the underlying AccountInfo.
    pub fn info(&self) -> (r: &AccountInfo)
        ensures
            *r == self.spec_info(),
    {
        &self.info
    }
}

/// System program marker type.
pub struct System;

/// Token program marker type.
pub struct Token;

/// Associated token program marker type.
pub struct AssociatedToken;

/// System program ID: 11111111111111111111111111111111
pub const SYSTEM_PROGRAM_ID: [u8; 32] = [
    0, 0, 0, 0, 0, 0, 0, 0, 0, 0, 0, 0, 0, 0, 0, 0, 0, 0, 0, 0, 0, 0, 0, 0, 0, 0, 0, 0, 0, 0, 0, 1,
];

/// SPL Token program ID: TokenkegQfeZyiNwAJbNbGKPFXCWuBvf9Ss623VQ5DA
pub const TOKEN_PROGRAM_ID: [u8; 32] = [
    6, 155, 136, 87, 254, 171, 129, 132, 251, 104, 127, 99, 70, 24, 192, 53, 218, 196, 57, 220, 26,
    235, 59, 85, 152, 160, 240, 0, 0, 0, 0, 1,
];

/// Associated Token program ID: ATokenGPvbdGVxr1b2hvZbsiqW5xWH25efTNsLJA8knL
pub const ASSOCIATED_TOKEN_PROGRAM_ID: [u8; 32] = [
    140, 151, 37, 143, 78, 36, 137, 241, 187, 61, 16, 41, 20, 142, 13, 131, 11, 90, 19, 153, 218,
    255, 16, 132, 4, 142, 123, 216, 219, 233, 248, 89,
];

} // verus!
