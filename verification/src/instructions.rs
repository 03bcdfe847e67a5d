//! The program's one instruction that does work: it creates a system account
//! without storage, owned by the program itself.

use vstd::prelude::*;
use crate::account::{Account, Address};
use crate::error::ProvisionError;
use crate::provision::{provision_spec, AccountProvisioner};
use crate::rent::RentSchedule;

verus! {

/// The accounts that `create_system_account` works on.
#[derive(Clone, Debug, PartialEq, Eq)]
pub struct CreateSystemAccount {
    /// Pays the rent-exempt minimum. Must have signed.
    pub payer: Account,
    /// The account to create. Must have signed, and must not exist yet.
    pub new_account: Account,
}

/// Creates `new_account` with no storage, funded by `payer` with the
/// rent-exempt minimum for an empty account and owned by `program_id`.
pub fn create_system_account(
    program_id: Address,
    accounts: &mut CreateSystemAccount,
    rent: &RentSchedule,
) -> (result: Result<(), ProvisionError>)
    ensures
        result == provision_spec(
            program_id,
            old(accounts).payer@,
            old(accounts).new_account@,
            0,
            None,
            *rent,
        ).result,
        final(accounts).payer@ == provision_spec(
            program_id,
            old(accounts).payer@,
            old(accounts).new_account@,
            0,
            None,
            *rent,
        ).funding,
        final(accounts).new_account@ == provision_spec(
            program_id,
            old(accounts).payer@,
            old(accounts).new_account@,
            0,
            None,
            *rent,
        ).target,
{
    let provisioner = AccountProvisioner::new(program_id);
    provisioner.provision(&mut accounts.payer, &mut accounts.new_account, 0, None, rent)
}

} // verus!
