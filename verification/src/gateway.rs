//! The transfer gateway: the abstraction over the ledger's native
//! value-transfer primitive.

use vstd::prelude::*;
use crate::address::{Address, bytes_eq};
use crate::derivation::{derivation_found, derived_bump, derived_key, find_derived};
use crate::error::TransferError;

verus! {

/// The right to move funds out of an account: either a direct signature of
/// the account's own key, or a program-derived authorization proving that the
/// account's address was derived from the given namespace, seed and bump.
pub enum Authority {
    Signer { key: Address },
    Derived { namespace: Vec<u8>, seed: Vec<u8>, bump: u8 },
}

/// When an authority may move funds out of the account at `from` under
/// `program`: a direct signature must present the account's own key; a
/// derived authorization must re-derive exactly the account's address and
/// the presented bump.
pub open spec fn authorizes(authority: Authority, from: Seq<u8>, program: Seq<u8>) -> bool {
    match authority {
        Authority::Signer { key } => key@ == from,
        Authority::Derived { namespace, seed, bump } => derivation_found(
            namespace@,
            seed@,
            program,
        ) && derived_key(namespace@, seed@, program) == from && derived_bump(
            namespace@,
            seed@,
            program,
        ) == bump,
    }
}

/// Atomically move `amount` of the base unit from the account at
/// `from_address` to another account.
///
/// The authority is checked first: a proof that does not match the source
/// account fails with `Unauthorized`. Then the balance: a source below
/// `amount` fails with `InsufficientFunds`. On any failure neither balance
/// changes; on success exactly `amount` moves — no value is created or
/// destroyed, and no partial transfer is ever observable.
pub fn transfer(
    from_address: &Address,
    from_balance: &mut u64,
    to_balance: &mut u64,
    amount: u64,
    authority: &Authority,
    program_id: &Address,
) -> (r: Result<(), TransferError>)
    requires
        program_id.wf(),
        *old(from_balance) + *old(to_balance) <= u64::MAX,
    ensures
        !authorizes(*authority, from_address@, program_id@) ==> r == Err::<(), TransferError>(
            TransferError::Unauthorized,
        ),
        authorizes(*authority, from_address@, program_id@) && amount > *old(from_balance) ==> r
            == Err::<(), TransferError>(TransferError::InsufficientFunds),
        authorizes(*authority, from_address@, program_id@) && amount <= *old(from_balance) ==> r
            == Ok::<(), TransferError>(()),
        r is Ok ==> *final(from_balance) == *old(from_balance) - amount && *final(to_balance)
            == *old(to_balance) + amount,
        r is Err ==> *final(from_balance) == *old(from_balance) && *final(to_balance) == *old(
            to_balance,
        ),
{
    let ok = match authority {
        Authority::Signer { key } => bytes_eq(&key.bytes, &from_address.bytes),
        Authority::Derived { namespace, seed, bump } => {
            match find_derived(namespace, seed, &program_id.bytes) {
                Some((key, found_bump)) => bytes_eq(&key, &from_address.bytes) && found_bump
                    == *bump,
                None => false,
            }
        },
    };
    if !ok {
        return Err(TransferError::Unauthorized);
    }
    if amount > *from_balance {
        return Err(TransferError::InsufficientFunds);
    }
    *from_balance = *from_balance - amount;
    *to_balance = *to_balance + amount;
    Ok(())
}

} // verus!
