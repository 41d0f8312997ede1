//! The vault ledger: the four operations that move value between an owner
//! and the escrow account, under strict pre/post conditions.
//!
//! The escrow address is derived from a fixed namespace and the state
//! account's address; the state address is derived from a fixed namespace and
//! the owner's address. Every operation re-derives both addresses and checks
//! them against the stored record before touching a balance; a mismatch is a
//! terminal `Unexpected` error with no state change.
//!
//! Policy: a withdrawal must leave the escrow at or above its rent-exempt
//! floor; the full balance (floor included) comes back to the owner only at
//! close, when the accounts are destroyed.

use vstd::prelude::*;
use crate::address::{Address, bytes_eq, clone_bytes};
use crate::derivation::{derivation_found, derived_bump, derived_key, derive_address};
use crate::error::ErrorCode;
use crate::gateway::{Authority, transfer};
use crate::rent::{rent_exempt_min, rent_exempt_minimum};
use crate::state::VaultState;

verus! {

/// The namespace tag under which an owner's state account is derived: the
/// bytes of "state".
pub open spec fn state_namespace() -> Seq<u8> {
    seq![115u8, 116u8, 97u8, 116u8, 101u8]
}

/// The namespace tag under which a vault's escrow account is derived: the
/// bytes of "vault".
pub open spec fn vault_namespace() -> Seq<u8> {
    seq![118u8, 97u8, 117u8, 108u8, 116u8]
}

/// The state-account namespace as a byte vector.
pub fn state_seed() -> (r: Vec<u8>)
    ensures
        r@ == state_namespace(),
{
    let mut v: Vec<u8> = Vec::new();
    v.push(115u8);
    v.push(116u8);
    v.push(97u8);
    v.push(116u8);
    v.push(101u8);
    proof {
        assert(v@ =~= state_namespace());
    }
    v
}

/// The escrow-account namespace as a byte vector.
pub fn vault_seed() -> (r: Vec<u8>)
    ensures
        r@ == vault_namespace(),
{
    let mut v: Vec<u8> = Vec::new();
    v.push(118u8);
    v.push(97u8);
    v.push(117u8);
    v.push(108u8);
    v.push(116u8);
    proof {
        assert(v@ =~= vault_namespace());
    }
    v
}

/// One owner's vault while it exists: the persisted state record, the two
/// derived addresses, the rent deposit held by the state account, and the
/// escrow account's floor and balance.
pub struct VaultEntry {
    pub state: VaultState,
    pub state_address: Address,
    pub state_rent: u64,
    pub escrow_address: Address,
    pub escrow_min: u64,
    pub escrow_balance: u64,
}

/// The mathematical image of a `VaultEntry`.
#[verifier::ext_equal]
pub struct EntryModel {
    pub auth_bump: u8,
    pub vault_bump: u8,
    pub state_bump: u8,
    pub state_address: Seq<u8>,
    pub state_rent: u64,
    pub escrow_address: Seq<u8>,
    pub escrow_min: u64,
    pub escrow_balance: u64,
}

impl View for VaultEntry {
    type V = EntryModel;

    open spec fn view(&self) -> EntryModel {
        EntryModel {
            auth_bump: self.state.auth_bump,
            vault_bump: self.state.vault_bump,
            state_bump: self.state.state_bump,
            state_address: self.state_address@,
            state_rent: self.state_rent,
            escrow_address: self.escrow_address@,
            escrow_min: self.escrow_min,
            escrow_balance: self.escrow_balance,
        }
    }
}

/// Everything one owner's operations can see and mutate: the program id, the
/// owner's account, and the vault (absent until initialize, absent again
/// after close).
pub struct VaultWorld {
    pub program_id: Address,
    pub owner_address: Address,
    pub owner_balance: u64,
    pub vault: Option<VaultEntry>,
}

/// The mathematical image of a `VaultWorld`.
#[verifier::ext_equal]
pub struct WorldModel {
    pub program: Seq<u8>,
    pub owner_address: Seq<u8>,
    pub owner_balance: u64,
    pub vault: Option<EntryModel>,
}

impl View for VaultWorld {
    type V = WorldModel;

    open spec fn view(&self) -> WorldModel {
        WorldModel {
            program: self.program_id@,
            owner_address: self.owner_address@,
            owner_balance: self.owner_balance,
            vault: match self.vault {
                Some(entry) => Some(entry@),
                None => None,
            },
        }
    }
}

/// All value the world holds: the owner's balance, the escrow balance and the
/// state account's rent deposit. The operations conserve it.
pub open spec fn total_units(w: WorldModel) -> int {
    w.owner_balance + match w.vault {
        Some(v) => v.state_rent + v.escrow_balance,
        None => 0int,
    }
}

/// The machine-level sanity every operation needs: a 32-byte program id and a
/// total that fits the balance type.
pub open spec fn world_sane(w: WorldModel) -> bool {
    &&& w.program.len() == 32
    &&& total_units(w) <= u64::MAX
}

/// The stored record matches what re-derivation yields: the state address and
/// bump re-derive from the owner's address, and the escrow address and bump
/// re-derive from the state address.
pub open spec fn entry_consistent(program: Seq<u8>, owner: Seq<u8>, v: EntryModel) -> bool {
    &&& derivation_found(state_namespace(), owner, program)
    &&& v.state_address == derived_key(state_namespace(), owner, program)
    &&& v.state_bump == derived_bump(state_namespace(), owner, program)
    &&& derivation_found(vault_namespace(), v.state_address, program)
    &&& v.escrow_address == derived_key(vault_namespace(), v.state_address, program)
    &&& v.vault_bump == derived_bump(vault_namespace(), v.state_address, program)
}

/// The invariant of a world between operations: sane, and while the vault
/// exists its record matches re-derivation, its stored floor is the
/// rent-exempt minimum of a zero-data account, and the escrow balance never
/// drops below that floor.
pub open spec fn world_wf(w: WorldModel) -> bool {
    &&& world_sane(w)
    &&& w.owner_address.len() == 32
    &&& match w.vault {
        Some(v) => entry_consistent(w.program, w.owner_address, v) && v.escrow_min
            <= v.escrow_balance && v.escrow_min == rent_exempt_minimum(0),
        None => true,
    }
}

/// What initialize returns: `Unexpected` when the vault already exists or a
/// derivation fails, `InsufficientFunds` when the owner cannot cover the
/// escrow's rent-exempt minimum plus the state account's rent deposit, `Ok`
/// otherwise.
pub open spec fn initialize_outcome(w: WorldModel, state_rent: u64) -> Result<(), ErrorCode> {
    if w.vault is Some {
        Err(ErrorCode::Unexpected)
    } else if !derivation_found(state_namespace(), w.owner_address, w.program) {
        Err(ErrorCode::Unexpected)
    } else if !derivation_found(
        vault_namespace(),
        derived_key(state_namespace(), w.owner_address, w.program),
        w.program,
    ) {
        Err(ErrorCode::Unexpected)
    } else if w.owner_balance < rent_exempt_minimum(0) + state_rent {
        Err(ErrorCode::InsufficientFunds)
    } else {
        Ok(())
    }
}

/// The world after initialize: on failure unchanged; on success the owner has
/// paid the escrow's rent-exempt minimum and the state account's rent
/// deposit, and the vault exists with the freshly derived addresses and
/// bumps. `auth_bump` carries no derivation of its own and is zero.
pub open spec fn initialize_next(w: WorldModel, state_rent: u64) -> WorldModel {
    if initialize_outcome(w, state_rent) is Err {
        w
    } else {
        let state_address = derived_key(state_namespace(), w.owner_address, w.program);
        let floor = rent_exempt_minimum(0);
        WorldModel {
            owner_balance: (w.owner_balance - floor - state_rent) as u64,
            vault: Some(
                EntryModel {
                    auth_bump: 0u8,
                    vault_bump: derived_bump(vault_namespace(), state_address, w.program),
                    state_bump: derived_bump(state_namespace(), w.owner_address, w.program),
                    state_address: state_address,
                    state_rent: state_rent,
                    escrow_address: derived_key(vault_namespace(), state_address, w.program),
                    escrow_min: floor,
                    escrow_balance: floor,
                },
            ),
            ..w
        }
    }
}

/// What deposit returns: `Unexpected` when the vault is missing or its record
/// does not match re-derivation, `InsufficientFunds` when the owner's balance
/// is below the amount, `Ok` otherwise.
pub open spec fn deposit_outcome(w: WorldModel, amount: u64) -> Result<(), ErrorCode> {
    match w.vault {
        None => Err(ErrorCode::Unexpected),
        Some(v) => if !entry_consistent(w.program, w.owner_address, v) {
            Err(ErrorCode::Unexpected)
        } else if w.owner_balance < amount {
            Err(ErrorCode::InsufficientFunds)
        } else {
            Ok(())
        },
    }
}

/// The world after deposit: on failure unchanged; on success exactly `amount`
/// has moved from the owner to the escrow.
pub open spec fn deposit_next(w: WorldModel, amount: u64) -> WorldModel {
    if deposit_outcome(w, amount) is Err {
        w
    } else {
        let v = w.vault->Some_0;
        WorldModel {
            owner_balance: (w.owner_balance - amount) as u64,
            vault: Some(
                EntryModel { escrow_balance: (v.escrow_balance + amount) as u64, ..v },
            ),
            ..w
        }
    }
}

/// What withdraw returns: `Unexpected` when the vault is missing or its
/// record does not match re-derivation, `InsufficientFunds` when the amount
/// exceeds what the escrow can release while staying at or above its
/// rent-exempt floor, `Ok` otherwise.
pub open spec fn withdraw_outcome(w: WorldModel, amount: u64) -> Result<(), ErrorCode> {
    match w.vault {
        None => Err(ErrorCode::Unexpected),
        Some(v) => if !entry_consistent(w.program, w.owner_address, v) {
            Err(ErrorCode::Unexpected)
        } else if v.escrow_balance < amount + v.escrow_min {
            Err(ErrorCode::InsufficientFunds)
        } else {
            Ok(())
        },
    }
}

/// The world after withdraw: on failure unchanged; on success exactly
/// `amount` has moved from the escrow back to the owner.
pub open spec fn withdraw_next(w: WorldModel, amount: u64) -> WorldModel {
    if withdraw_outcome(w, amount) is Err {
        w
    } else {
        let v = w.vault->Some_0;
        WorldModel {
            owner_balance: (w.owner_balance + amount) as u64,
            vault: Some(
                EntryModel { escrow_balance: (v.escrow_balance - amount) as u64, ..v },
            ),
            ..w
        }
    }
}

/// What close returns: `Unexpected` when the vault is missing or its record
/// does not match re-derivation, `Ok` otherwise.
pub open spec fn close_outcome(w: WorldModel) -> Result<(), ErrorCode> {
    match w.vault {
        None => Err(ErrorCode::Unexpected),
        Some(v) => if !entry_consistent(w.program, w.owner_address, v) {
            Err(ErrorCode::Unexpected)
        } else {
            Ok(())
        },
    }
}

/// The world after close: on failure unchanged; on success the vault is gone
/// and the owner holds the entire prior escrow balance plus the reclaimed
/// state-account rent.
pub open spec fn close_next(w: WorldModel) -> WorldModel {
    if close_outcome(w) is Err {
        w
    } else {
        let v = w.vault->Some_0;
        WorldModel {
            owner_balance: (w.owner_balance + v.escrow_balance + v.state_rent) as u64,
            vault: None,
            ..w
        }
    }
}

/// Re-derive both addresses and compare them, bumps included, against the
/// stored record.
fn entry_matches(program_id: &Address, owner_address: &Address, entry: &VaultEntry) -> (r: bool)
    requires
        program_id.wf(),
    ensures
        r == entry_consistent(program_id@, owner_address@, entry@),
{
    let ns_state = state_seed();
    let (state_addr, state_bump) = match derive_address(
        &ns_state,
        &owner_address.bytes,
        program_id,
    ) {
        Ok(p) => p,
        Err(_) => {
            return false;
        },
    };
    if !(bytes_eq(&state_addr.bytes, &entry.state_address.bytes) && state_bump
        == entry.state.state_bump) {
        return false;
    }
    let ns_vault = vault_seed();
    let (escrow_addr, vault_bump) = match derive_address(
        &ns_vault,
        &entry.state_address.bytes,
        program_id,
    ) {
        Ok(p) => p,
        Err(_) => {
            return false;
        },
    };
    bytes_eq(&escrow_addr.bytes, &entry.escrow_address.bytes) && vault_bump
        == entry.state.vault_bump
}

impl VaultWorld {
    /// A fresh world: the owner's account exists with the given balance and
    /// no vault has been initialized yet.
    pub fn new(program_id: Address, owner_address: Address, owner_balance: u64) -> (r: VaultWorld)
        requires
            program_id.wf(),
            owner_address.wf(),
        ensures
            r@ == (WorldModel {
                program: program_id@,
                owner_address: owner_address@,
                owner_balance: owner_balance,
                vault: None,
            }),
            world_wf(r@),
    {
        VaultWorld { program_id, owner_address, owner_balance, vault: None }
    }

    /// Create the vault: derive both addresses, check the owner can fund the
    /// escrow's rent-exempt minimum plus the state account's rent deposit,
    /// move the minimum into the escrow through the gateway, and store the
    /// bumps. A vault that already exists fails and is never overwritten.
    pub fn initialize(&mut self, state_rent: u64) -> (r: Result<(), ErrorCode>)
        requires
            world_sane(old(self)@),
        ensures
            r == initialize_outcome(old(self)@, state_rent),
            final(self)@ == initialize_next(old(self)@, state_rent),
    {
        if self.vault.is_some() {
            return Err(ErrorCode::Unexpected);
        }
        let ns_state = state_seed();
        let (state_addr, state_bump) = match derive_address(
            &ns_state,
            &self.owner_address.bytes,
            &self.program_id,
        ) {
            Ok(p) => p,
            Err(_) => {
                return Err(ErrorCode::Unexpected);
            },
        };
        let ns_vault = vault_seed();
        let (escrow_addr, vault_bump) = match derive_address(
            &ns_vault,
            &state_addr.bytes,
            &self.program_id,
        ) {
            Ok(p) => p,
            Err(_) => {
                return Err(ErrorCode::Unexpected);
            },
        };
        let floor = rent_exempt_min(0);
        let needed = match floor.checked_add(state_rent) {
            Some(n) => n,
            None => {
                return Err(ErrorCode::InsufficientFunds);
            },
        };
        if self.owner_balance < needed {
            return Err(ErrorCode::InsufficientFunds);
        }
        let mut escrow_balance: u64 = 0;
        let authority = Authority::Signer { key: self.owner_address.clone_address() };
        let moved = transfer(
            &self.owner_address,
            &mut self.owner_balance,
            &mut escrow_balance,
            floor,
            &authority,
            &self.program_id,
        );
        if moved.is_err() {
            proof {
                assert(false);
            }
            return Err(ErrorCode::Unexpected);
        }
        self.owner_balance = self.owner_balance - state_rent;
        self.vault = Some(
            VaultEntry {
                state: VaultState { auth_bump: 0, vault_bump, state_bump },
                state_address: state_addr,
                state_rent,
                escrow_address: escrow_addr,
                escrow_min: floor,
                escrow_balance,
            },
        );
        proof {
            assert(self@ =~~= initialize_next(old(self)@, state_rent));
        }
        Ok(())
    }

    /// Move `amount` from the owner into the escrow, after re-verifying both
    /// derivations. All-or-nothing: on any failure no balance changes.
    pub fn deposit(&mut self, amount: u64) -> (r: Result<(), ErrorCode>)
        requires
            world_sane(old(self)@),
            amount >= 1,
        ensures
            r == deposit_outcome(old(self)@, amount),
            final(self)@ == deposit_next(old(self)@, amount),
    {
        let mut entry = match self.vault.take() {
            Some(e) => e,
            None => {
                return Err(ErrorCode::Unexpected);
            },
        };
        if !entry_matches(&self.program_id, &self.owner_address, &entry) {
            self.vault = Some(entry);
            proof {
                assert(self@ =~~= old(self)@);
            }
            return Err(ErrorCode::Unexpected);
        }
        if self.owner_balance < amount {
            self.vault = Some(entry);
            proof {
                assert(self@ =~~= old(self)@);
            }
            return Err(ErrorCode::InsufficientFunds);
        }
        let authority = Authority::Signer { key: self.owner_address.clone_address() };
        let moved = transfer(
            &self.owner_address,
            &mut self.owner_balance,
            &mut entry.escrow_balance,
            amount,
            &authority,
            &self.program_id,
        );
        if moved.is_err() {
            proof {
                assert(false);
            }
            self.vault = Some(entry);
            return Err(ErrorCode::Unexpected);
        }
        self.vault = Some(entry);
        proof {
            assert(self@ =~~= deposit_next(old(self)@, amount));
        }
        Ok(())
    }

    /// Move `amount` from the escrow back to the owner, authorized by the
    /// stored derivation rather than a signature. The escrow must stay at or
    /// above its rent-exempt floor. All-or-nothing.
    pub fn withdraw(&mut self, amount: u64) -> (r: Result<(), ErrorCode>)
        requires
            world_sane(old(self)@),
            amount >= 1,
        ensures
            r == withdraw_outcome(old(self)@, amount),
            final(self)@ == withdraw_next(old(self)@, amount),
    {
        let mut entry = match self.vault.take() {
            Some(e) => e,
            None => {
                return Err(ErrorCode::Unexpected);
            },
        };
        if !entry_matches(&self.program_id, &self.owner_address, &entry) {
            self.vault = Some(entry);
            proof {
                assert(self@ =~~= old(self)@);
            }
            return Err(ErrorCode::Unexpected);
        }
        let releasable = match amount.checked_add(entry.escrow_min) {
            Some(n) => n,
            None => {
                self.vault = Some(entry);
                proof {
                    assert(self@ =~~= old(self)@);
                }
                return Err(ErrorCode::InsufficientFunds);
            },
        };
        if entry.escrow_balance < releasable {
            self.vault = Some(entry);
            proof {
                assert(self@ =~~= old(self)@);
            }
            return Err(ErrorCode::InsufficientFunds);
        }
        let authority = Authority::Derived {
            namespace: vault_seed(),
            seed: clone_bytes(&entry.state_address.bytes),
            bump: entry.state.vault_bump,
        };
        let moved = transfer(
            &entry.escrow_address,
            &mut entry.escrow_balance,
            &mut self.owner_balance,
            amount,
            &authority,
            &self.program_id,
        );
        if moved.is_err() {
            proof {
                assert(false);
            }
            self.vault = Some(entry);
            return Err(ErrorCode::Unexpected);
        }
        self.vault = Some(entry);
        proof {
            assert(self@ =~~= withdraw_next(old(self)@, amount));
        }
        Ok(())
    }

    /// Return the entire escrow balance and the state account's rent deposit
    /// to the owner, then destroy the vault.
    pub fn close(&mut self) -> (r: Result<(), ErrorCode>)
        requires
            world_sane(old(self)@),
        ensures
            r == close_outcome(old(self)@),
            final(self)@ == close_next(old(self)@),
    {
        let mut entry = match self.vault.take() {
            Some(e) => e,
            None => {
                return Err(ErrorCode::Unexpected);
            },
        };
        if !entry_matches(&self.program_id, &self.owner_address, &entry) {
            self.vault = Some(entry);
            proof {
                assert(self@ =~~= old(self)@);
            }
            return Err(ErrorCode::Unexpected);
        }
        let amount = entry.escrow_balance;
        let authority = Authority::Derived {
            namespace: vault_seed(),
            seed: clone_bytes(&entry.state_address.bytes),
            bump: entry.state.vault_bump,
        };
        let moved = transfer(
            &entry.escrow_address,
            &mut entry.escrow_balance,
            &mut self.owner_balance,
            amount,
            &authority,
            &self.program_id,
        );
        if moved.is_err() {
            proof {
                assert(false);
            }
            self.vault = Some(entry);
            return Err(ErrorCode::Unexpected);
        }
        self.owner_balance = self.owner_balance + entry.state_rent;
        proof {
            assert(self@ =~~= close_next(old(self)@));
        }
        Ok(())
    }
}

/// Conservation across the lifecycle: a successful initialize followed by
/// close leaves the owner's total balance unchanged, and the vault gone.
pub proof fn lemma_initialize_then_close_conserves(w: WorldModel, state_rent: u64)
    requires
        initialize_outcome(w, state_rent) is Ok,
    ensures
        close_outcome(initialize_next(w, state_rent)) is Ok,
        close_next(initialize_next(w, state_rent)).owner_balance == w.owner_balance,
        close_next(initialize_next(w, state_rent)).vault is None,
{
}

/// A deposit followed by a withdrawal of the same amount returns the escrow
/// balance — and the owner's balance — to their pre-deposit values.
pub proof fn lemma_deposit_then_withdraw_restores(w: WorldModel, amount: u64)
    requires
        world_wf(w),
        amount >= 1,
        deposit_outcome(w, amount) is Ok,
    ensures
        withdraw_outcome(deposit_next(w, amount), amount) is Ok,
        withdraw_next(deposit_next(w, amount), amount).vault->Some_0.escrow_balance
            == w.vault->Some_0.escrow_balance,
        withdraw_next(deposit_next(w, amount), amount).owner_balance == w.owner_balance,
{
}

/// A withdrawal of more than the escrow holds always fails with
/// `InsufficientFunds`.
pub proof fn lemma_withdraw_over_balance_fails(w: WorldModel, amount: u64)
    requires
        w.vault is Some,
        entry_consistent(w.program, w.owner_address, w.vault->Some_0),
        amount > w.vault->Some_0.escrow_balance,
    ensures
        withdraw_outcome(w, amount) == Err::<(), ErrorCode>(ErrorCode::InsufficientFunds),
{
}

/// Every operation preserves the world invariant; in particular the escrow
/// balance never drops below its rent-exempt floor while the vault exists.
pub proof fn lemma_operations_preserve_wf(w: WorldModel, state_rent: u64, amount: u64)
    requires
        world_wf(w),
    ensures
        world_wf(initialize_next(w, state_rent)),
        world_wf(deposit_next(w, amount)),
        world_wf(withdraw_next(w, amount)),
        world_wf(close_next(w)),
{
}

/// Initialize is idempotent-guarded: after a successful initialize, a second
/// initialize fails and changes nothing — the stored bumps are never
/// silently overwritten.
pub proof fn lemma_initialize_guarded(w: WorldModel, first_rent: u64, second_rent: u64)
    requires
        initialize_outcome(w, first_rent) is Ok,
    ensures
        initialize_outcome(initialize_next(w, first_rent), second_rent) == Err::<(), ErrorCode>(
            ErrorCode::Unexpected,
        ),
        initialize_next(initialize_next(w, first_rent), second_rent) == initialize_next(
            w,
            first_rent,
        ),
{
}

} // verus!
