//! What an instruction handler is handed: the program, its accounts, the
//! instruction data and the bump seeds found on the way.

use crate::account::Pubkey;
use crate::error::{PinoError, BUMP_SEEDS_FULL};
use crate::instruction::AccountMeta;
use pinocchio::program_error::ProgramError;
use vstd::prelude::*;

verus! {

/// The number of bump seeds that one instruction can record.
pub const MAX_BUMP_SEEDS: usize = 16;

/// Storage for PDA bump seeds, at most [`MAX_BUMP_SEEDS`] of them.
///
/// Its view is the sequence of the seeds recorded, oldest first.
pub struct BumpSeeds {
    seeds: [Option<u8>; 16],
    count: usize,
}

impl View for BumpSeeds {
    type V = Seq<u8>;

    closed spec fn view(&self) -> Seq<u8> {
        Seq::new(self.count as nat, |i: int| self.seeds@[i]->0)
    }
}

impl BumpSeeds {
    /// Holds of every storage that this module hands out: the count stays
    /// within the slots, and each slot below it holds a seed. Every
    /// operation keeps it.
    pub closed spec fn wf(&self) -> bool {
        &&& self.count <= MAX_BUMP_SEEDS
        &&& forall|i: int| 0 <= i < self.count ==> self.seeds@[i] is Some
    }

    /// Creates a new BumpSeeds storage.
    pub fn new() -> (r: Self)
        ensures
            r.wf(),
            r@ == Seq::<u8>::empty(),
    {
        let r = BumpSeeds { seeds: [None; 16], count: 0 };
        assert(r@ =~= Seq::<u8>::empty());
        r
    }

    /// Adds a bump seed and returns its index, or fails with
    /// `Custom(BUMP_SEEDS_FULL)` and records nothing when all slots are
    /// taken.
    pub fn add(&mut self, bump: u8) -> (r: Result<usize, PinoError>)
        requires
            old(self).wf(),
        ensures
            final(self).wf(),
            old(self)@.len() < MAX_BUMP_SEEDS ==> r == Ok::<usize, PinoError>(
                old(self)@.len() as usize,
            ) && final(self)@ == old(self)@.push(bump),
            old(self)@.len() >= MAX_BUMP_SEEDS ==> r == Err::<usize, PinoError>(
                PinoError::Custom(BUMP_SEEDS_FULL),
            ) && final(self)@ == old(self)@,
    {
        if self.count >= MAX_BUMP_SEEDS {
            return Err(PinoError::Custom(BUMP_SEEDS_FULL));
        }
        let index = self.count;
        self.seeds[index] = Some(bump);
        self.count += 1;
        assert(self@ =~= old(self)@.push(bump));
        Ok(index)
    }

    /// Gets a bump seed by index.
    pub fn get(&self, index: usize) -> (r: Option<u8>)
        requires
            self.wf(),
        ensures
            index < self@.len() ==> r == Some(self@[index as int]),
            index >= self@.len() ==> r is None,
    {
        if index < self.count {
            self.seeds[index]
        } else {
            None
        }
    }

    /// Returns the number of stored bump seeds.
    pub fn len(&self) -> (r: usize)
        requires
            self.wf(),
        ensures
            r == self@.len(),
            r <= MAX_BUMP_SEEDS,
    {
        self.count
    }

    /// Returns true if no bump seeds are stored.
    pub fn is_empty(&self) -> (r: bool)
        requires
            self.wf(),
        ensures
            r == (self@.len() == 0),
    {
        self.count == 0
    }
}

impl Default for BumpSeeds {
    fn default() -> (r: Self)
        ensures
            r.wf(),
            r@ == Seq::<u8>::empty(),
    {
        Self::new()
    }
}

/// Context provides structured access to accounts and instruction data.
///
/// `T` is the structure that the instruction's accounts were parsed into,
/// `A` the host's type for an account.
pub struct Context<'info, T, A> {
    /// The program ID that owns this instruction
    pub program_id: &'info Pubkey,
    /// The structured accounts
    pub accounts: T,
    /// The remaining accounts not captured in the accounts struct
    pub remaining_accounts: &'info [A],
    /// The instruction data
    pub instruction_data: &'info [u8],
    /// Bump seeds for PDAs (if any)
    pub bumps: BumpSeeds,
}

impl<'info, T, A> Context<'info, T, A> {
    /// Creates a new Context, with no bump seeds.
    pub fn new(
        program_id: &'info Pubkey,
        accounts: T,
        remaining_accounts: &'info [A],
        instruction_data: &'info [u8],
    ) -> (r: Self)
        ensures
            r.program_id == program_id,
            r.accounts == accounts,
            r.remaining_accounts == remaining_accounts,
            r.instruction_data == instruction_data,
            r.bumps.wf(),
            r.bumps@ == Seq::<u8>::empty(),
    {
        Context { program_id, accounts, remaining_accounts, instruction_data, bumps: BumpSeeds::new() }
    }

    /// Returns the program ID.
    pub fn program_id(&self) -> (r: &Pubkey)
        ensures
            r == self.program_id,
    {
        self.program_id
    }

    /// Returns the instruction data.
    pub fn instruction_data(&self) -> (r: &[u8])
        ensures
            r == self.instruction_data,
    {
        self.instruction_data
    }

    /// Returns the remaining accounts.
    pub fn remaining_accounts(&self) -> (r: &[A])
        ensures
            r == self.remaining_accounts,
    {
        self.remaining_accounts
    }
}

/// Context for Cross-Program Invocations (CPI).
pub struct CpiContext<'info, T, A> {
    /// The structured accounts for the CPI
    pub accounts: T,
    /// The remaining accounts for the CPI
    pub remaining_accounts: &'info [A],
    /// Signer seeds for PDA signing
    pub signer_seeds: &'info [&'info [&'info [u8]]],
}

impl<'info, T, A> CpiContext<'info, T, A> {
    /// Creates a new CpiContext, with no signer seeds.
    pub fn new(accounts: T, remaining_accounts: &'info [A]) -> (r: Self)
        ensures
            r.accounts == accounts,
            r.remaining_accounts == remaining_accounts,
            r.signer_seeds@.len() == 0,
    {
        CpiContext { accounts, remaining_accounts, signer_seeds: &[] }
    }

    /// Creates a new CpiContext with signer seeds.
    pub fn new_with_signer(
        accounts: T,
        remaining_accounts: &'info [A],
        signer_seeds: &'info [&'info [&'info [u8]]],
    ) -> (r: Self)
        ensures
            r.accounts == accounts,
            r.remaining_accounts == remaining_accounts,
            r.signer_seeds == signer_seeds,
    {
        CpiContext { accounts, remaining_accounts, signer_seeds }
    }

    /// Returns the signer seeds.
    pub fn signer_seeds(&self) -> (r: &[&[&[u8]]])
        ensures
            r == self.signer_seeds,
    {
        self.signer_seeds
    }
}

/// Trait for types that can be used as account contexts, over the host's
/// type `A` for an account.
pub trait Accounts<'info, A>: Sized {
    /// Tries to deserialize accounts from the given account infos.
    fn try_accounts(
        program_id: &Pubkey,
        accounts: &mut &'info [A],
        instruction_data: &[u8],
        bumps: &mut BumpSeeds,
    ) -> (r: Result<Self, PinoError>)
        requires
            old(bumps).wf(),
        ensures
            final(bumps).wf(),
    ;

    /// Performs any necessary cleanup or validation after instruction execution.
    fn exit(&self, program_id: &Pubkey) -> Result<(), ProgramError>;
}

/// Trait for types that can be used as CPI account contexts, over the
/// host's type `A` for an account.
pub trait CpiAccounts<'info, A> {
    /// Converts to account metas for CPI.
    fn to_account_metas(&self, is_signer: Option<bool>) -> Vec<AccountMeta<'_>>;

    /// Returns the account infos for CPI.
    fn to_account_infos(&self) -> Vec<A>;
}

/// Helper trait for instruction data deserialization.
pub trait InstructionData: Sized {
    /// Deserializes instruction data.
    fn try_from_slice(data: &[u8]) -> Result<Self, PinoError>;
}

/// Calls `BorshDeserialize::try_from_slice` of [`borsh`], which reads one
/// value in the Borsh format from the whole of the data or reports what
/// stood in the way.
#[verifier::external_body]
fn borsh_value<T: borsh::BorshDeserialize>(data: &[u8]) -> (r: Result<T, borsh::io::Error>) {
    <T as borsh::BorshDeserialize>::try_from_slice(data)
}

/// The value that instruction data hold in the Borsh format, or
/// `InvalidInstructionData` where they hold none.
pub fn from_borsh_data<T: borsh::BorshDeserialize>(data: &[u8]) -> (r: Result<T, PinoError>)
    ensures
        r matches Err(error) ==> error == PinoError::InvalidInstructionData,
{
    match borsh_value::<T>(data) {
        Ok(value) => Ok(value),
        Err(_) => Err(PinoError::InvalidInstructionData),
    }
}

} // verus!
