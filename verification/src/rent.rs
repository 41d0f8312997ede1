//! Rent-exemption bookkeeping: the balance an account must hold to persist
//! indefinitely on the underlying ledger.

use vstd::prelude::*;

verus! {

/// The minimum balance, in the ledger's smallest unit, that an account with
/// `data_len` bytes of data must hold to be exempt from rent collection.
/// A function of `data_len` alone (the ledger's default rent parameters).
pub uninterp spec fn rent_exempt_minimum(data_len: usize) -> u64;

/// Relies on anchor_lang::prelude::Rent: `Rent::default().minimum_balance(data_len)`
/// computes the rent-exempt minimum from the default rent parameters, a
/// deterministic function of `data_len` alone.
#[verifier::external_body]
pub(crate) fn rent_exempt_min(data_len: usize) -> (r: u64)
    requires
        data_len <= 1000000,
    ensures
        r == rent_exempt_minimum(data_len),
{
    anchor_lang::prelude::Rent::default().minimum_balance(data_len)
}

} // verus!
