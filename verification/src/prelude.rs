//! The names that most programs need, in one import.

pub use crate::account::{
    Account, AccountInfo, AccountLoader, AssociatedToken, Program, Pubkey, Signer, System, Token,
    UncheckedAccount,
};
pub use crate::collections::{StackMap, StackSet, StackString, StackVec};
pub use crate::context::{Accounts, BumpSeeds, Context, CpiAccounts, CpiContext, InstructionData};
pub use crate::entrypoint::{parse_accounts, process_instruction, ProgramInstruction};
pub use crate::error::{require_check, PinoError};
pub use crate::instruction::{
    create_instruction, AccountMeta, Instruction, InstructionBuilder, ToInstructionData,
};
pub use crate::memory::{compare_bytes, copy_bytes, set_bytes, MemoryError, ZeroCopy};
pub use crate::Result;
pub use bytemuck::{Pod, Zeroable};
pub use core::mem::{align_of, size_of};
pub use pinocchio::program_error::ProgramError;
