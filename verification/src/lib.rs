//! Provisioning of rent-exempt ledger accounts.
//!
//! A new account is created by one call to the ledger's system program, which
//! moves the rent-exempt minimum from a funding account to the target, gives
//! the target its storage and assigns it to an owning program. This crate
//! holds the rules around that call: who must have signed, what the target may
//! look like beforehand, how much is moved, and what both accounts look like
//! afterwards.

pub mod account;
pub mod error;
pub mod guarantees;
pub mod instructions;
pub mod provision;
pub mod rent;

pub use account::{Account, Address};
pub use error::{HostError, ProvisionError};
pub use instructions::{create_system_account, CreateSystemAccount};
pub use provision::{AccountProvisioner, CreateAccountRequest, MAX_DATA_SIZE};
pub use rent::RentSchedule;
