//! A single-asset, single-owner custodial vault.
//!
//! Each owner gets a state account and an escrow account, both at
//! program-derived addresses. The ledger operations — initialize, deposit,
//! withdraw, close — move the base unit of value between the owner and the
//! escrow under exact balance-accounting contracts: value is conserved, the
//! escrow never drops below its rent-exempt floor, and every operation
//! re-verifies the stored derivations before it touches a balance.

pub mod address;
pub mod derivation;
pub mod error;
pub mod gateway;
pub mod ledger;
pub mod rent;
pub mod state;
