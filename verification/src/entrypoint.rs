//! From the raw input of a program to a call of its instruction handler.

use crate::account::Pubkey;
use crate::context::{Accounts, BumpSeeds, Context, InstructionData};
use crate::error::{host_error, PinoError};
use pinocchio::program_error::ProgramError;
use vstd::prelude::*;

verus! {

/// The most accounts that one instruction can be handed.
pub const MAX_ACCOUNTS: usize = 64;

/// Code of the custom error for an instruction with more than
/// [`MAX_ACCOUNTS`] accounts.
pub const TOO_MANY_ACCOUNTS: u32 = 0x1002;

/// Code of the custom error for an account that repeats one which has not
/// been seen.
pub const INVALID_DUPLICATE: u32 = 0x1003;

/// Trait for program instruction processors, over the host's type `A` for
/// an account.
///
/// This trait should be implemented by your program's instruction enum.
pub trait ProgramInstruction<A>: InstructionData {
    /// Processes the instruction with the given accounts and context.
    fn process(&self, program_id: &Pubkey, accounts: &[A], instruction_data: &[u8]) -> Result<
        (),
        ProgramError,
    >;
}

/// How the input names an account: by its contents, or as a repetition
/// of the account at an earlier position.
#[derive(Debug, Clone, Copy, PartialEq, Eq, Structural)]
pub enum AccountEntry {
    /// An account that the input holds in full
    Account,
    /// The same account as the one at the given position
    Duplicated(u8),
}

/// Declares [`heapless::Vec`], the list that the accounts are collected
/// in.
#[verifier::external_type_specification]
#[verifier::external_body]
#[verifier::reject_recursive_types(T)]
pub struct ExHeaplessVec<T, const N: usize>(heapless::Vec<T, N>);

/// What a list of account positions holds, first to last.
pub uninterp spec fn positions(list: heapless::Vec<usize, 64>) -> Seq<usize>;

/// Calls [`heapless::Vec::new`], which makes an empty list.
#[verifier::external_body]
fn new_list() -> (list: heapless::Vec<usize, 64>)
    ensures
        positions(list) == Seq::<usize>::empty(),
{
    heapless::Vec::new()
}

/// Calls [`heapless::Vec::push`], which puts the item at the end of a list
/// that holds fewer than its capacity of 64, and else leaves the list as
/// it is and hands the item back.
#[verifier::external_body]
fn list_push(list: &mut heapless::Vec<usize, 64>, item: usize) -> (r: Result<(), usize>)
    ensures
        positions(*old(list)).len() < 64 ==> r is Ok && positions(*final(list)) == positions(
            *old(list),
        ).push(item),
        positions(*old(list)).len() >= 64 ==> r is Err && positions(*final(list)) == positions(
            *old(list),
        ),
{
    list.push(item)
}

/// Calls [`heapless::Vec::as_slice`], which shows what the list holds; that
/// is never more than its capacity of 64.
#[verifier::external_body]
fn list_items(list: &heapless::Vec<usize, 64>) -> (items: &[usize])
    ensures
        items@ == positions(*list),
        items@.len() <= 64,
{
    list.as_slice()
}

/// What one more entry makes of the accounts resolved so far.
///
/// `resolved` holds, for each entry seen, the position of the entry that
/// holds the account in full. An account held in full resolves to its own
/// position, the number of entries seen before it; a repetition resolves
/// to what the position it names resolved to. The first fails with
/// [`TOO_MANY_ACCOUNTS`] where [`MAX_ACCOUNTS`] were seen already; the
/// second with [`INVALID_DUPLICATE`] where it names a position not yet
/// seen, and else with [`TOO_MANY_ACCOUNTS`] in the same case.
pub open spec fn admitted(resolved: Seq<usize>, entry: AccountEntry) -> Result<Seq<usize>, u32> {
    match entry {
        AccountEntry::Account => if resolved.len() < MAX_ACCOUNTS {
            Ok(resolved.push(resolved.len() as usize))
        } else {
            Err(TOO_MANY_ACCOUNTS)
        },
        AccountEntry::Duplicated(index) => if index as int >= resolved.len() {
            Err(INVALID_DUPLICATE)
        } else if resolved.len() < MAX_ACCOUNTS {
            Ok(resolved.push(resolved[index as int]))
        } else {
            Err(TOO_MANY_ACCOUNTS)
        },
    }
}

/// What the entries make of the accounts resolved so far, taken in turn
/// until one fails.
pub open spec fn admitted_all(resolved: Seq<usize>, entries: Seq<AccountEntry>) -> Result<
    Seq<usize>,
    u32,
>
    decreases entries.len(),
{
    if entries.len() == 0 {
        Ok(resolved)
    } else {
        match admitted_all(resolved, entries.drop_last()) {
            Ok(so_far) => admitted(so_far, entries.last()),
            Err(code) => Err(code),
        }
    }
}

/// Takes one more entry into the list of resolved accounts, as
/// [`admitted`] says; a failure leaves the list as it is.
pub fn admit_account(list: &mut heapless::Vec<usize, 64>, entry: AccountEntry) -> (r: Result<
    (),
    ProgramError,
>)
    ensures
        match admitted(positions(*old(list)), entry) {
            Ok(resolved) => r is Ok && positions(*final(list)) == resolved,
            Err(code) => r == Err::<(), ProgramError>(ProgramError::Custom(code)) && positions(
                *final(list),
            ) == positions(*old(list)),
        },
{
    let seen = list_items(list).len();
    let position = match entry {
        AccountEntry::Account => seen,
        AccountEntry::Duplicated(index) => {
            let items = list_items(list);
            if (index as usize) < items.len() {
                items[index as usize]
            } else {
                return Err(ProgramError::Custom(INVALID_DUPLICATE));
            }
        },
    };
    match list_push(list, position) {
        Ok(()) => Ok(()),
        Err(_) => Err(ProgramError::Custom(TOO_MANY_ACCOUNTS)),
    }
}

/// Resolves the accounts of an instruction: for each entry, the position
/// of the entry that holds its account in full, as [`admitted_all`] says.
pub fn resolve_accounts(entries: &[AccountEntry]) -> (r: Result<
    heapless::Vec<usize, 64>,
    ProgramError,
>)
    ensures
        match admitted_all(Seq::<usize>::empty(), entries@) {
            Ok(resolved) => r is Ok && positions(r->Ok_0) == resolved,
            Err(code) => r is Err && r->Err_0 == ProgramError::Custom(code),
        },
{
    let mut list = new_list();
    let mut i: usize = 0;
    while i < entries.len()
        invariant
            i <= entries@.len(),
            admitted_all(Seq::<usize>::empty(), entries@.take(i as int)) == Ok::<Seq<usize>, u32>(
                positions(list),
            ),
        decreases entries@.len() - i,
    {
        proof {
            assert(entries@.take(i + 1).drop_last() =~= entries@.take(i as int));
            if admitted_all(Seq::<usize>::empty(), entries@.take(i + 1)) is Err {
                lemma_failure_stays(Seq::<usize>::empty(), entries@, i + 1);
            }
        }
        match admit_account(&mut list, entries[i]) {
            Ok(()) => {},
            Err(error) => { return Err(error); },
        }
        i += 1;
    }
    assert(entries@.take(i as int) =~= entries@);
    Ok(list)
}

/// Once some front part of the entries fails, so does every longer one,
/// and with the same code.
pub proof fn lemma_failure_stays(resolved: Seq<usize>, entries: Seq<AccountEntry>, n: int)
    requires
        0 <= n <= entries.len(),
        admitted_all(resolved, entries.take(n)) is Err,
    ensures
        admitted_all(resolved, entries) == admitted_all(resolved, entries.take(n)),
    decreases entries.len() - n,
{
    if n < entries.len() {
        assert(entries.take(n + 1).drop_last() =~= entries.take(n));
        lemma_failure_stays(resolved, entries, n + 1);
    } else {
        assert(entries.take(n) =~= entries);
    }
}

/// Processes a program instruction: the instruction is read from the
/// data and then processes the accounts. Data that hold no instruction
/// fail with the host's form of the reader's error.
///
/// The result is what `T::process` gives for the instruction that
/// `T::try_from_slice` read from the data, handed the same program, accounts
/// and data; or, where the reader failed, its error as [`host_error`] maps
/// it.
pub fn process_instruction<A, T: ProgramInstruction<A>>(
    program_id: &Pubkey,
    accounts: &[A],
    instruction_data: &[u8],
) -> (r: Result<(), ProgramError>)
    ensures
        exists|read: Result<T, PinoError>| #[trigger]
            call_ensures(T::try_from_slice, (instruction_data,), read) && match read {
                Ok(instruction) => call_ensures(
                    <T as ProgramInstruction<A>>::process,
                    (&instruction, program_id, accounts, instruction_data),
                    r,
                ),
                Err(error) => r == Err::<(), ProgramError>(host_error(error)),
            },
{
    match T::try_from_slice(instruction_data) {
        Ok(instruction) => instruction.process(program_id, accounts, instruction_data),
        Err(error) => Err(ProgramError::from(error)),
    }
}

/// Helper function to parse accounts into a structured context: the
/// accounts that the parser leaves over are the context's remaining ones.
pub fn parse_accounts<'info, A, T: Accounts<'info, A>>(
    program_id: &'info Pubkey,
    accounts: &mut &'info [A],
    instruction_data: &'info [u8],
) -> (r: Result<Context<'info, T, A>, PinoError>)
    ensures
        r matches Ok(context) ==> (context.program_id == program_id && context.instruction_data
            == instruction_data && context.remaining_accounts == *final(accounts)
            && context.bumps.wf()),
{
    let mut bumps = BumpSeeds::new();
    match T::try_accounts(program_id, accounts, instruction_data, &mut bumps) {
        Ok(parsed) => Ok(
            Context {
                program_id,
                accounts: parsed,
                remaining_accounts: *accounts,
                instruction_data,
                bumps,
            },
        ),
        Err(error) => Err(error),
    }
}

} // verus!
