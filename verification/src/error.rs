//! Why a provisioning did not happen.

use vstd::prelude::*;

verus! {

/// A failure that the ledger reported for the account-creation call. The code
/// is the ledger's own and is handed on as it came.
#[derive(Clone, Copy, Debug, PartialEq, Eq, Structural)]
pub struct HostError {
    pub code: u64,
}

/// Every way in which `provision` fails. None is retried; on each, both
/// accounts are as they were.
#[derive(Clone, Copy, Debug, PartialEq, Eq, Structural)]
pub enum ProvisionError {
    /// The funding account holds less than the rent-exempt minimum.
    InsufficientFunds,
    /// The target already holds lamports or has an owner.
    AccountAlreadyInitialized,
    /// The funding account or the target did not sign.
    MissingAuthorization,
    /// The size is beyond what an account may hold or what the rent schedule
    /// can price.
    InvalidDataSize,
    /// The ledger refused the account-creation call.
    Host(HostError),
}

} // verus!
