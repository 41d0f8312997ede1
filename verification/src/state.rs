//! The persisted record describing one owner's vault.

use vstd::prelude::*;

verus! {

/// Bookkeeping stored in the vault's state account: the bump seeds found when
/// the two program-derived addresses were created. The persisted layout is
/// three consecutive unsigned 8-bit fields after a fixed-size header.
///
/// `vault_bump` and `state_bump` are exactly the values produced at
/// initialization and never change afterwards. `auth_bump` is retained for
/// layout compatibility with the derivation scheme; no third derivation
/// exists, so it carries no bump of its own and stays zero.
#[derive(Clone, Copy, Debug, PartialEq, Eq, Structural)]
pub struct VaultState {
    pub auth_bump: u8,
    pub vault_bump: u8,
    pub state_bump: u8,
}

} // verus!
