//! The four ways in which an instruction can use an account.

use super::AccountMeta;
use crate::account::Pubkey;
use vstd::prelude::*;

verus! {

/// Creates a writable, signer account meta.
pub fn writable_signer(pubkey: &Pubkey) -> (r: AccountMeta<'_>)
    ensures
        r.pubkey == pubkey,
        r.is_writable,
        r.is_signer,
{
    AccountMeta { pubkey, is_writable: true, is_signer: true }
}

/// Creates a read-only, signer account meta.
pub fn readonly_signer(pubkey: &Pubkey) -> (r: AccountMeta<'_>)
    ensures
        r.pubkey == pubkey,
        !r.is_writable,
        r.is_signer,
{
    AccountMeta { pubkey, is_writable: false, is_signer: true }
}

/// Creates a writable, non-signer account meta.
pub fn writable(pubkey: &Pubkey) -> (r: AccountMeta<'_>)
    ensures
        r.pubkey == pubkey,
        r.is_writable,
        !r.is_signer,
{
    AccountMeta { pubkey, is_writable: true, is_signer: false }
}

/// Creates a read-only, non-signer account meta.
pub fn readonly(pubkey: &Pubkey) -> (r: AccountMeta<'_>)
    ensures
        r.pubkey == pubkey,
        !r.is_writable,
        !r.is_signer,
{
    AccountMeta { pubkey, is_writable: false, is_signer: false }
}

} // verus!
