//! Instructions of the system program.

use super::{account_meta, AccountMeta, Instruction};
use crate::account::{Pubkey, SYSTEM_PROGRAM_ID};
use crate::utils::convert::{u32_le, u32_to_bytes, u64_le, u64_to_bytes};
use vstd::prelude::*;

verus! {

/// The number by which the system program knows the instruction that
/// creates an account.
pub const CREATE_ACCOUNT: u32 = 0;

/// The number by which the system program knows the instruction that
/// transfers lamports.
pub const TRANSFER: u32 = 2;

/// The data of a transfer: the instruction's number in four bytes, then
/// the lamports in eight, both least significant byte first.
pub open spec fn transfer_data(lamports: u64) -> Seq<u8> {
    u32_le(TRANSFER) + u64_le(lamports)
}

/// The data of an account creation: the instruction's number in four
/// bytes, the lamports and the space in eight each, all least significant
/// byte first, then the owner's key.
pub open spec fn create_account_data(lamports: u64, space: u64, owner: Seq<u8>) -> Seq<u8> {
    u32_le(CREATE_ACCOUNT) + u64_le(lamports) + u64_le(space) + owner
}

/// Creates the accounts and the data of a system program transfer: the
/// sender signs and is written to, the receiver is written to.
pub fn transfer<'a>(from: &'a Pubkey, to: &'a Pubkey, lamports: u64) -> (r: (
    Vec<AccountMeta<'a>>,
    Vec<u8>,
))
    ensures
        r.0@.len() == 2,
        r.0@[0].pubkey == from && r.0@[0].is_writable && r.0@[0].is_signer,
        r.0@[1].pubkey == to && r.0@[1].is_writable && !r.0@[1].is_signer,
        r.1@ == transfer_data(lamports),
{
    let mut accounts = Vec::with_capacity(2);
    accounts.push(account_meta::writable_signer(from));
    accounts.push(account_meta::writable(to));
    let mut data = Vec::with_capacity(12);
    let number = u32_to_bytes(TRANSFER);
    let amount = u64_to_bytes(lamports);
    data.extend_from_slice(number.as_slice());
    data.extend_from_slice(amount.as_slice());
    (accounts, data)
}

/// Creates the accounts and the data of a system program account
/// creation: the payer and the new account both sign and are written to.
pub fn create_account<'a>(
    from: &'a Pubkey,
    to: &'a Pubkey,
    lamports: u64,
    space: u64,
    owner: &'a Pubkey,
) -> (r: (Vec<AccountMeta<'a>>, Vec<u8>))
    ensures
        r.0@.len() == 2,
        r.0@[0].pubkey == from && r.0@[0].is_writable && r.0@[0].is_signer,
        r.0@[1].pubkey == to && r.0@[1].is_writable && r.0@[1].is_signer,
        r.1@ == create_account_data(lamports, space, owner@),
{
    let mut accounts = Vec::with_capacity(2);
    accounts.push(account_meta::writable_signer(from));
    accounts.push(account_meta::writable_signer(to));
    let mut data = Vec::with_capacity(52);
    let number = u32_to_bytes(CREATE_ACCOUNT);
    let amount = u64_to_bytes(lamports);
    let size = u64_to_bytes(space);
    data.extend_from_slice(number.as_slice());
    data.extend_from_slice(amount.as_slice());
    data.extend_from_slice(size.as_slice());
    data.extend_from_slice(owner.as_slice());
    (accounts, data)
}

/// Creates a system program transfer instruction from accounts and data
/// made by [`transfer`].
pub fn transfer_ix<'a>(
    from: &'a Pubkey,
    to: &'a Pubkey,
    lamports: u64,
    accounts: &'a [AccountMeta<'a>],
    data: &'a [u8],
) -> (r: Instruction<'a>)
    ensures
        *r.program_id == SYSTEM_PROGRAM_ID,
        r.accounts == accounts,
        r.data == data,
{
    Instruction { program_id: &SYSTEM_PROGRAM_ID, accounts, data }
}

/// Creates a system program create account instruction from accounts and
/// data made by [`create_account`].
pub fn create_account_ix<'a>(
    from: &'a Pubkey,
    to: &'a Pubkey,
    lamports: u64,
    space: u64,
    owner: &'a Pubkey,
    accounts: &'a [AccountMeta<'a>],
    data: &'a [u8],
) -> (r: Instruction<'a>)
    ensures
        *r.program_id == SYSTEM_PROGRAM_ID,
        r.accounts == accounts,
        r.data == data,
{
    Instruction { program_id: &SYSTEM_PROGRAM_ID, accounts, data }
}

} // verus!
