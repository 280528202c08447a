//! Instructions for other programs: what they name, and their data.

pub mod account_meta;
pub mod system;

use crate::account::Pubkey;
use crate::error::PinoError;
use vstd::prelude::*;

verus! {

/// Trait for types that can be converted to instruction data.
pub trait ToInstructionData {
    /// Serializes the type to instruction data.
    fn to_instruction_data(&self) -> Result<Vec<u8>, PinoError>;
}

/// Declares [`borsh::io::Error`], which is only told apart from success.
#[verifier::external_type_specification]
#[verifier::external_body]
pub struct ExBorshIoError(borsh::io::Error);

/// Calls [`borsh::to_vec`], which writes the value in the Borsh format or
/// reports what the value's own serializer reported.
#[verifier::external_body]
fn borsh_bytes<T: borsh::BorshSerialize>(value: &T) -> (r: Result<Vec<u8>, borsh::io::Error>) {
    borsh::to_vec(value)
}

/// The instruction data of a value that Borsh can serialize: its Borsh
/// form, or `InvalidInstructionData` where serializing fails.
pub fn to_borsh_data<T: borsh::BorshSerialize>(value: &T) -> (r: Result<Vec<u8>, PinoError>)
    ensures
        r matches Err(error) ==> error == PinoError::InvalidInstructionData,
{
    match borsh_bytes(value) {
        Ok(bytes) => Ok(bytes),
        Err(_) => Err(PinoError::InvalidInstructionData),
    }
}

/// An account that an instruction names, and how it uses it.
#[derive(Debug, Clone)]
pub struct AccountMeta<'a> {
    /// Public key of the account.
    pub pubkey: &'a Pubkey,
    /// Indicates whether the account is writable or not.
    pub is_writable: bool,
    /// Indicates whether the account signed the instruction or not.
    pub is_signer: bool,
}

/// An instruction for another program.
#[derive(Debug, Clone)]
pub struct Instruction<'a> {
    /// Public key of the program.
    pub program_id: &'a Pubkey,
    /// Metadata describing accounts that should be passed to the program.
    pub accounts: &'a [AccountMeta<'a>],
    /// Data expected by the program instruction.
    pub data: &'a [u8],
}

/// Helper function to create an instruction from its three parts.
pub fn create_instruction<'a>(
    program_id: &'a Pubkey,
    accounts: &'a [AccountMeta<'a>],
    data: &'a [u8],
) -> (r: Instruction<'a>)
    ensures
        r.program_id == program_id,
        r.accounts == accounts,
        r.data == data,
{
    Instruction { program_id, accounts, data }
}

/// Builder for creating instructions with a fluent API.
pub struct InstructionBuilder<'a> {
    program_id: &'a Pubkey,
    accounts: Vec<AccountMeta<'a>>,
    data: Vec<u8>,
}

impl<'a> InstructionBuilder<'a> {
    /// The program that the instruction is for.
    pub closed spec fn spec_program_id(&self) -> &'a Pubkey {
        self.program_id
    }

    /// The accounts named so far, in the order they were added.
    pub closed spec fn spec_accounts(&self) -> Seq<AccountMeta<'a>> {
        self.accounts@
    }

    /// The data set last.
    pub closed spec fn spec_data(&self) -> Seq<u8> {
        self.data@
    }

    /// Creates a new instruction builder, with no accounts and no data.
    pub fn new(program_id: &'a Pubkey) -> (r: Self)
        ensures
            r.spec_program_id() == program_id,
            r.spec_accounts() == Seq::<AccountMeta<'a>>::empty(),
            r.spec_data() == Seq::<u8>::empty(),
    {
        InstructionBuilder { program_id, accounts: Vec::new(), data: Vec::new() }
    }

    /// Adds an account to the instruction.
    pub fn account(self, account: AccountMeta<'a>) -> (r: Self)
        ensures
            r.spec_program_id() == self.spec_program_id(),
            r.spec_accounts() == self.spec_accounts().push(account),
            r.spec_data() == self.spec_data(),
    {
        let mut builder = self;
        builder.accounts.push(account);
        builder
    }

    /// Adds multiple accounts to the instruction, in their order.
    pub fn accounts(self, accounts: Vec<AccountMeta<'a>>) -> (r: Self)
        ensures
            r.spec_program_id() == self.spec_program_id(),
            r.spec_accounts() == self.spec_accounts() + accounts@,
            r.spec_data() == self.spec_data(),
    {
        let mut builder = self;
        let mut more = accounts;
        builder.accounts.append(&mut more);
        builder
    }

    /// Sets the instruction data to the serialized form of `data`. Where
    /// serializing fails, so does this, with the serializer's error.
    pub fn data<T: ToInstructionData>(self, data: T) -> (r: Result<Self, PinoError>)
        ensures
            r matches Ok(builder) ==> builder.spec_program_id() == self.spec_program_id()
                && builder.spec_accounts() == self.spec_accounts(),
    {
        let mut builder = self;
        match data.to_instruction_data() {
            Ok(bytes) => {
                builder.data = bytes;
                Ok(builder)
            },
            Err(error) => Err(error),
        }
    }

    /// Sets the instruction data from raw bytes.
    pub fn data_raw(self, data: Vec<u8>) -> (r: Self)
        ensures
            r.spec_program_id() == self.spec_program_id(),
            r.spec_accounts() == self.spec_accounts(),
            r.spec_data() == data@,
    {
        let mut builder = self;
        builder.data = data;
        builder
    }

    /// Builds the instruction.
    pub fn build(&'a self) -> (r: Instruction<'a>)
        ensures
            r.program_id == self.spec_program_id(),
            r.accounts@ == self.spec_accounts(),
            r.data@ == self.spec_data(),
    {
        Instruction {
            program_id: self.program_id,
            accounts: self.accounts.as_slice(),
            data: self.data.as_slice(),
        }
    }
}

} // verus!
