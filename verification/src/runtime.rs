//! Start-up of the runtime and its error type.

use crate::account::Pubkey;
use crate::allocator::{init_default, set_global, Allocator};
use vstd::prelude::*;

verus! {

/// Runtime result type
pub type RuntimeResult<T = ()> = core::result::Result<T, RuntimeError>;

/// Runtime errors
#[derive(Debug, Clone, Copy, PartialEq, Eq, Structural)]
pub enum RuntimeError {
    /// Out of memory
    OutOfMemory,
    /// Invalid allocation size
    InvalidSize,
    /// Invalid program context
    InvalidContext,
    /// Profiling error
    ProfilingError,
}

impl RuntimeError {
    /// The error in words.
    pub fn message(&self) -> (r: &'static str)
        ensures
            r@ == match *self {
                RuntimeError::OutOfMemory => "Out of memory"@,
                RuntimeError::InvalidSize => "Invalid allocation size"@,
                RuntimeError::InvalidContext => "Invalid program context"@,
                RuntimeError::ProfilingError => "Profiling error"@,
            },
    {
        match self {
            RuntimeError::OutOfMemory => "Out of memory",
            RuntimeError::InvalidSize => "Invalid allocation size",
            RuntimeError::InvalidContext => "Invalid program context",
            RuntimeError::ProfilingError => "Profiling error",
        }
    }
}

/// Program execution context, over the host's type `A` for an account.
pub struct ProgramContext<'a, A> {
    /// Program ID
    pub program_id: &'a Pubkey,
    /// Accounts passed to the program
    pub accounts: &'a [A],
    /// Instruction data
    pub instruction_data: &'a [u8],
}

impl<'a, A> ProgramContext<'a, A> {
    /// Create a new program context
    pub fn new(program_id: &'a Pubkey, accounts: &'a [A], instruction_data: &'a [u8]) -> (r: Self)
        ensures
            r.program_id == program_id,
            r.accounts == accounts,
            r.instruction_data == instruction_data,
    {
        ProgramContext { program_id, accounts, instruction_data }
    }

    /// Get the program ID
    pub fn program_id(&self) -> (r: &Pubkey)
        ensures
            r == self.program_id,
    {
        self.program_id
    }

    /// Get the accounts
    pub fn accounts(&self) -> (r: &[A])
        ensures
            r == self.accounts,
    {
        self.accounts
    }

    /// Get the instruction data
    pub fn instruction_data(&self) -> (r: &[u8])
        ensures
            r == self.instruction_data,
    {
        self.instruction_data
    }

    /// Get an account by index; an index behind the last account fails
    /// with `InvalidContext`.
    pub fn get_account(&self, index: usize) -> (r: Result<&A, RuntimeError>)
        ensures
            index < self.accounts@.len() ==> r is Ok && *r->Ok_0 == self.accounts@[index as int],
            index >= self.accounts@.len() ==> r matches Err(RuntimeError::InvalidContext),
    {
        if index < self.accounts.len() {
            Ok(&self.accounts[index])
        } else {
            Err(RuntimeError::InvalidContext)
        }
    }

    /// Get the number of accounts
    pub fn account_count(&self) -> (r: usize)
        ensures
            r == self.accounts@.len(),
    {
        self.accounts.len()
    }

    /// Check if the context is valid: it is where it has an account.
    pub fn is_valid(&self) -> (r: bool)
        ensures
            r == (self.accounts@.len() > 0),
    {
        self.accounts.len() != 0
    }

    /// Validate the context: one without accounts fails with
    /// `InvalidContext`.
    pub fn validate(&self) -> (r: Result<(), RuntimeError>)
        ensures
            self.accounts@.len() > 0 ==> r == Ok::<(), RuntimeError>(()),
            self.accounts@.len() == 0 ==> r == Err::<(), RuntimeError>(RuntimeError::InvalidContext),
    {
        if !self.is_valid() {
            return Err(RuntimeError::InvalidContext);
        }
        Ok(())
    }
}

/// Initialize the runtime with default settings. The default allocator
/// can always be made, so this succeeds.
pub fn init() -> (r: Result<(), RuntimeError>)
    ensures
        r == Ok::<(), RuntimeError>(()),
{
    init_default()
}

/// Initialize the runtime with custom allocator. Any allocator is
/// accepted.
pub fn init_with_allocator<A: Allocator>(allocator: A) -> (r: Result<(), RuntimeError>)
    ensures
        r == Ok::<(), RuntimeError>(()),
{
    set_global(allocator)
}

} // verus!
