//! What holds of every provisioning, stated over [`provision_spec`], the
//! function that `provision` is proved to compute.

use vstd::prelude::*;
use crate::account::{AccountView, Address};
use crate::error::ProvisionError;
use crate::provision::{provision_spec, rejection, MAX_DATA_SIZE};
use crate::rent::RentSchedule;

verus! {

/// After a provisioning that succeeded, the target holds exactly the
/// rent-exempt minimum for its size, has that many zeroed bytes and the owner
/// that was asked for, and the funding account has paid that minimum.
pub proof fn lemma_success_funds_target_exactly(
    program_id: Address,
    funding: AccountView,
    target: AccountView,
    data_size: u64,
    owner: Option<Address>,
    rent: RentSchedule,
)
    requires
        provision_spec(program_id, funding, target, data_size, owner, rent).result is Ok,
    ensures
        ({
            let after = provision_spec(program_id, funding, target, data_size, owner, rent);
            let minimum = rent.spec_minimum_balance(data_size);
            &&& after.target.balance == minimum
            &&& after.target.data.len() == data_size
            &&& forall|i: int| 0 <= i < data_size ==> after.target.data[i] == 0
            &&& after.target.owner == Some(
                match owner {
                    Some(named) => named,
                    None => program_id,
                },
            )
            &&& after.funding.balance + minimum == funding.balance
            &&& after.target.is_initialized()
        }),
{
}

/// A provisioning that fails changes neither account.
pub proof fn lemma_failure_changes_nothing(
    program_id: Address,
    funding: AccountView,
    target: AccountView,
    data_size: u64,
    owner: Option<Address>,
    rent: RentSchedule,
)
    requires
        provision_spec(program_id, funding, target, data_size, owner, rent).result is Err,
    ensures
        provision_spec(program_id, funding, target, data_size, owner, rent).funding == funding,
        provision_spec(program_id, funding, target, data_size, owner, rent).target == target,
{
}

/// Without the target's signature, or without the funding account's, a
/// provisioning fails with `MissingAuthorization`, whatever else is wrong.
pub proof fn lemma_unsigned_is_rejected(
    program_id: Address,
    funding: AccountView,
    target: AccountView,
    data_size: u64,
    owner: Option<Address>,
    rent: RentSchedule,
)
    requires
        !target.authorized || !funding.authorized,
    ensures
        provision_spec(program_id, funding, target, data_size, owner, rent).result == Err::<
            (),
            ProvisionError,
        >(ProvisionError::MissingAuthorization),
        provision_spec(program_id, funding, target, data_size, owner, rent).funding == funding,
        provision_spec(program_id, funding, target, data_size, owner, rent).target == target,
{
}

/// With both signatures, a target that already holds lamports or has an owner
/// makes the provisioning fail with `AccountAlreadyInitialized`, and both
/// accounts stay as they are.
pub proof fn lemma_initialized_target_is_rejected(
    program_id: Address,
    funding: AccountView,
    target: AccountView,
    data_size: u64,
    owner: Option<Address>,
    rent: RentSchedule,
)
    requires
        funding.authorized,
        target.authorized,
        target.balance != 0 || target.owner is Some,
    ensures
        provision_spec(program_id, funding, target, data_size, owner, rent).result == Err::<
            (),
            ProvisionError,
        >(ProvisionError::AccountAlreadyInitialized),
        provision_spec(program_id, funding, target, data_size, owner, rent).funding == funding,
        provision_spec(program_id, funding, target, data_size, owner, rent).target == target,
{
}

/// With both signatures, a target that does not exist yet and a size that the
/// ledger and the rent schedule accept, a funding account that holds less
/// than the rent-exempt minimum makes the provisioning fail with
/// `InsufficientFunds`, and both accounts stay as they are.
pub proof fn lemma_short_funding_is_rejected(
    program_id: Address,
    funding: AccountView,
    target: AccountView,
    data_size: u64,
    owner: Option<Address>,
    rent: RentSchedule,
)
    requires
        funding.authorized,
        target.authorized,
        !target.is_initialized(),
        data_size <= MAX_DATA_SIZE,
        rent.covers(data_size),
        funding.balance < rent.spec_minimum_balance(data_size),
    ensures
        provision_spec(program_id, funding, target, data_size, owner, rent).result == Err::<
            (),
            ProvisionError,
        >(ProvisionError::InsufficientFunds),
        provision_spec(program_id, funding, target, data_size, owner, rent).funding == funding,
        provision_spec(program_id, funding, target, data_size, owner, rent).target == target,
{
}

/// A size beyond the ledger's limit, or one that the rent schedule cannot
/// price, is turned down with `InvalidDataSize` once the signatures and the
/// target have passed.
pub proof fn lemma_unpriced_size_is_rejected(
    program_id: Address,
    funding: AccountView,
    target: AccountView,
    data_size: u64,
    owner: Option<Address>,
    rent: RentSchedule,
)
    requires
        funding.authorized,
        target.authorized,
        !target.is_initialized(),
        data_size > MAX_DATA_SIZE || !rent.covers(data_size),
    ensures
        provision_spec(program_id, funding, target, data_size, owner, rent).result == Err::<
            (),
            ProvisionError,
        >(ProvisionError::InvalidDataSize),
{
}

/// A provisioning succeeds exactly when nothing speaks against it: both have
/// signed, the target does not exist, the size is accepted and priced, and
/// the funding account holds the minimum.
pub proof fn lemma_success_exactly_when_admissible(
    program_id: Address,
    funding: AccountView,
    target: AccountView,
    data_size: u64,
    owner: Option<Address>,
    rent: RentSchedule,
)
    ensures
        provision_spec(program_id, funding, target, data_size, owner, rent).result is Ok <==> {
            &&& funding.authorized
            &&& target.authorized
            &&& target.balance == 0
            &&& target.owner is None
            &&& data_size <= MAX_DATA_SIZE
            &&& rent.covers(data_size)
            &&& funding.balance >= rent.spec_minimum_balance(data_size)
        },
        provision_spec(program_id, funding, target, data_size, owner, rent).result is Ok
            <==> rejection(funding, target, data_size, rent) is None,
{
}

/// Provisioning is not idempotent. Once a target has been provisioned, every
/// further provisioning of it that both parties have signed fails with
/// `AccountAlreadyInitialized`: whoever funds it, and whatever size, owner
/// and rent schedule the second call names.
pub proof fn lemma_second_provision_is_rejected(
    program_id: Address,
    funding: AccountView,
    target: AccountView,
    data_size: u64,
    owner: Option<Address>,
    rent: RentSchedule,
    next_program_id: Address,
    next_funding: AccountView,
    next_data_size: u64,
    next_owner: Option<Address>,
    next_rent: RentSchedule,
)
    requires
        provision_spec(program_id, funding, target, data_size, owner, rent).result is Ok,
        next_funding.authorized,
    ensures
        ({
            let first = provision_spec(program_id, funding, target, data_size, owner, rent);
            let second = provision_spec(
                next_program_id,
                next_funding,
                first.target,
                next_data_size,
                next_owner,
                next_rent,
            );
            &&& second.result == Err::<(), ProvisionError>(
                ProvisionError::AccountAlreadyInitialized,
            )
            &&& second.funding == next_funding
            &&& second.target == first.target
        }),
{
}

/// The same, for the call repeated as it was on the accounts that the first
/// call left behind.
pub proof fn lemma_provision_is_not_idempotent(
    program_id: Address,
    funding: AccountView,
    target: AccountView,
    data_size: u64,
    owner: Option<Address>,
    rent: RentSchedule,
)
    requires
        provision_spec(program_id, funding, target, data_size, owner, rent).result is Ok,
    ensures
        ({
            let first = provision_spec(program_id, funding, target, data_size, owner, rent);
            provision_spec(
                program_id,
                first.funding,
                first.target,
                data_size,
                owner,
                rent,
            ).result == Err::<(), ProvisionError>(ProvisionError::AccountAlreadyInitialized)
        }),
{
}

} // verus!
