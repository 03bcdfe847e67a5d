//! The provisioning rules: the checks before the ledger is asked to create an
//! account, the request it is sent, and what the two accounts look like once
//! it has answered.

use vstd::prelude::*;
use crate::account::{zeroed, Account, AccountView, Address};
use crate::error::{HostError, ProvisionError};
use crate::rent::RentSchedule;

verus! {

/// The most storage that the ledger gives one account: 10 MiB.
pub const MAX_DATA_SIZE: u64 = 10_485_760;

/// What the ledger's system program is asked to do: move `lamports` from
/// `from` to `to`, give `to` `space` zeroed bytes and assign it to `owner`.
#[derive(Clone, Copy, Debug, PartialEq, Eq)]
pub struct CreateAccountRequest {
    pub from: Address,
    pub to: Address,
    pub lamports: u64,
    pub space: u64,
    pub owner: Address,
}

/// How one provisioning ends: the verdict, and both accounts afterwards.
pub ghost struct Outcome {
    pub result: Result<(), ProvisionError>,
    pub funding: AccountView,
    pub target: AccountView,
}

/// Why a provisioning is turned down before the ledger is asked, if it is.
/// The checks run in this order, and the first that fails decides.
pub open spec fn rejection(
    funding: AccountView,
    target: AccountView,
    data_size: u64,
    rent: RentSchedule,
) -> Option<ProvisionError> {
    if !funding.authorized || !target.authorized {
        Some(ProvisionError::MissingAuthorization)
    } else if target.is_initialized() {
        Some(ProvisionError::AccountAlreadyInitialized)
    } else if data_size > MAX_DATA_SIZE || !rent.covers(data_size) {
        Some(ProvisionError::InvalidDataSize)
    } else if funding.balance < rent.spec_minimum_balance(data_size) {
        Some(ProvisionError::InsufficientFunds)
    } else {
        None
    }
}

/// The funding account after `lamports` have left it.
pub open spec fn debited(funding: AccountView, lamports: u64) -> AccountView {
    AccountView { balance: (funding.balance - lamports) as u64, ..funding }
}

/// The target after the ledger has created it.
pub open spec fn created(target: AccountView, lamports: u64, space: u64, owner: Address) -> AccountView {
    AccountView {
        balance: (target.balance + lamports) as u64,
        owner: Some(owner),
        data: zeroed(space as nat),
        ..target
    }
}

/// The owner that a provisioning assigns: the one named, or else the program
/// that provisions.
pub open spec fn resolved_owner(program_id: Address, owner: Option<Address>) -> Address {
    match owner {
        Some(named) => named,
        None => program_id,
    }
}

/// The request that a provisioning sends once nothing speaks against it.
pub open spec fn planned_request(
    program_id: Address,
    funding: AccountView,
    target: AccountView,
    data_size: u64,
    owner: Option<Address>,
    rent: RentSchedule,
) -> CreateAccountRequest {
    CreateAccountRequest {
        from: funding.address,
        to: target.address,
        lamports: rent.spec_minimum_balance(data_size),
        space: data_size,
        owner: resolved_owner(program_id, owner),
    }
}

/// What `provision` does, as a function of what it is given.
pub open spec fn provision_spec(
    program_id: Address,
    funding: AccountView,
    target: AccountView,
    data_size: u64,
    owner: Option<Address>,
    rent: RentSchedule,
) -> Outcome {
    match rejection(funding, target, data_size, rent) {
        Some(error) => Outcome { result: Err(error), funding, target },
        None => {
            let request = planned_request(program_id, funding, target, data_size, owner, rent);
            Outcome {
                result: Ok(()),
                funding: debited(funding, request.lamports),
                target: created(target, request.lamports, request.space, request.owner),
            }
        },
    }
}

impl CreateAccountRequest {
    /// Whether the two accounts can take the request's effects: the funding
    /// account holds the lamports, the target has room for them, and the
    /// storage is within the ledger's limit.
    pub open spec fn applies_to(&self, funding: AccountView, target: AccountView) -> bool {
        &&& self.lamports <= funding.balance
        &&& target.balance + self.lamports <= u64::MAX
        &&& self.space <= MAX_DATA_SIZE
    }

    /// Tests [`Self::applies_to`].
    pub fn can_apply_to(&self, funding: &Account, target: &Account) -> (fits: bool)
        ensures
            fits == self.applies_to(funding@, target@),
    {
        self.lamports <= funding.balance && self.lamports <= u64::MAX - target.balance
            && self.space <= MAX_DATA_SIZE
    }
}

/// Provisions accounts on behalf of one program.
#[derive(Clone, Copy, Debug)]
pub struct AccountProvisioner {
    /// The identity of the program that provisions.
    pub program_id: Address,
}

impl AccountProvisioner {
    /// A provisioner that acts for the program `program_id`.
    pub fn new(program_id: Address) -> (provisioner: Self)
        ensures
            provisioner.program_id == program_id,
    {
        AccountProvisioner { program_id }
    }

    /// The identity of the program that provisions.
    pub fn program_id(&self) -> (id: Address)
        ensures
            id == self.program_id,
    {
        self.program_id
    }

    /// Runs the checks and, where all pass, says what to ask of the ledger.
    /// Neither account is touched.
    pub fn plan(
        &self,
        funding: &Account,
        target: &Account,
        data_size: u64,
        owner: Option<Address>,
        rent: &RentSchedule,
    ) -> (result: Result<CreateAccountRequest, ProvisionError>)
        ensures
            match rejection(funding@, target@, data_size, *rent) {
                Some(error) => result == Err::<CreateAccountRequest, ProvisionError>(error),
                None => result == Ok::<CreateAccountRequest, ProvisionError>(
                    planned_request(self.program_id, funding@, target@, data_size, owner, *rent),
                ),
            },
            result is Ok ==> result->Ok_0.applies_to(funding@, target@),
    {
        if !funding.authorized || !target.authorized {
            return Err(ProvisionError::MissingAuthorization);
        }
        if target.is_initialized() {
            return Err(ProvisionError::AccountAlreadyInitialized);
        }
        if data_size > MAX_DATA_SIZE {
            return Err(ProvisionError::InvalidDataSize);
        }
        let lamports: u64 = match rent.minimum_balance(data_size) {
            Some(minimum) => minimum,
            None => {
                return Err(ProvisionError::InvalidDataSize);
            },
        };
        if funding.balance < lamports {
            return Err(ProvisionError::InsufficientFunds);
        }
        let owner: Address = match owner {
            Some(named) => named,
            None => self.program_id,
        };
        Ok(CreateAccountRequest {
            from: funding.address,
            to: target.address,
            lamports,
            space: data_size,
            owner,
        })
    }

    /// Brings the two accounts in line with the ledger's answer to `request`.
    /// Where the ledger created the account, the lamports move, the target
    /// gets its storage and its owner; where it refused, nothing changes and
    /// its error is handed on.
    pub fn settle(
        funding: &mut Account,
        target: &mut Account,
        request: &CreateAccountRequest,
        answer: Result<(), HostError>,
    ) -> (result: Result<(), ProvisionError>)
        requires
            request.applies_to(old(funding)@, old(target)@),
        ensures
            match answer {
                Ok(_) => {
                    &&& result == Ok::<(), ProvisionError>(())
                    &&& final(funding)@ == debited(old(funding)@, request.lamports)
                    &&& final(target)@ == created(
                        old(target)@,
                        request.lamports,
                        request.space,
                        request.owner,
                    )
                },
                Err(refusal) => {
                    &&& result == Err::<(), ProvisionError>(ProvisionError::Host(refusal))
                    &&& final(funding)@ == old(funding)@
                    &&& final(target)@ == old(target)@
                },
            },
    {
        match answer {
            Ok(_) => {
                let storage: Vec<u8> = vec![0u8; request.space as usize];
                assert(storage@ =~= zeroed(request.space as nat));
                funding.balance = funding.balance - request.lamports;
                target.balance = target.balance + request.lamports;
                target.owner = Some(request.owner);
                target.data = storage;
                Ok(())
            },
            Err(refusal) => Err(ProvisionError::Host(refusal)),
        }
    }

    /// Creates `target` as an account of `data_size` zeroed bytes that holds
    /// exactly the rent-exempt minimum for that size, taken from `funding`,
    /// and belongs to `owner`, or to this program where none is named.
    ///
    /// Either all of this happens or, with an error, nothing does.
    pub fn provision(
        &self,
        funding: &mut Account,
        target: &mut Account,
        data_size: u64,
        owner: Option<Address>,
        rent: &RentSchedule,
    ) -> (result: Result<(), ProvisionError>)
        ensures
            result == provision_spec(
                self.program_id,
                old(funding)@,
                old(target)@,
                data_size,
                owner,
                *rent,
            ).result,
            final(funding)@ == provision_spec(
                self.program_id,
                old(funding)@,
                old(target)@,
                data_size,
                owner,
                *rent,
            ).funding,
            final(target)@ == provision_spec(
                self.program_id,
                old(funding)@,
                old(target)@,
                data_size,
                owner,
                *rent,
            ).target,
            result is Ok ==> final(target)@.balance == rent.spec_minimum_balance(data_size),
            result is Err ==> final(funding)@ == old(funding)@ && final(target)@ == old(target)@,
    {
        match self.plan(funding, target, data_size, owner, rent) {
            Ok(request) => Self::settle(funding, target, &request, Ok(())),
            Err(error) => Err(error),
        }
    }
}

} // verus!
