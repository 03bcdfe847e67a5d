//! Ledger accounts as plain values.

use vstd::prelude::*;

verus! {

/// A 32-byte ledger identity: of an account, or of a program.
#[derive(Clone, Copy, Debug, PartialEq, Eq, Hash)]
pub struct Address {
    pub bytes: [u8; 32],
}

/// What the ledger holds of one account, and whether its key holder has
/// approved the running transaction.
#[derive(Clone, Debug, PartialEq, Eq)]
pub struct Account {
    /// The account's identity.
    pub address: Address,
    /// The balance, in lamports.
    pub balance: u64,
    /// The program that controls the account, once one has been assigned.
    pub owner: Option<Address>,
    /// The account's storage.
    pub data: Vec<u8>,
    /// Whether the holder of the account's key signed the transaction.
    pub authorized: bool,
}

/// The mathematical value of an [`Account`].
pub ghost struct AccountView {
    pub address: Address,
    pub balance: u64,
    pub owner: Option<Address>,
    pub data: Seq<u8>,
    pub authorized: bool,
}

impl View for Account {
    type V = AccountView;

    open spec fn view(&self) -> AccountView {
        AccountView {
            address: self.address,
            balance: self.balance,
            owner: self.owner,
            data: self.data@,
            authorized: self.authorized,
        }
    }
}

impl AccountView {
    /// An account exists on the ledger once it holds lamports or has an owner.
    pub open spec fn is_initialized(&self) -> bool {
        self.balance != 0 || self.owner is Some
    }
}

/// `len` zero bytes: the storage of a newly created account.
pub open spec fn zeroed(len: nat) -> Seq<u8> {
    Seq::new(len, |i: int| 0u8)
}

impl Account {
    /// An account that the ledger has not seen yet: no lamports, no owner, no
    /// storage.
    pub fn new(address: Address, authorized: bool) -> (account: Self)
        ensures
            account@ == (AccountView {
                address,
                balance: 0,
                owner: None,
                data: Seq::empty(),
                authorized,
            }),
            !account@.is_initialized(),
    {
        Account { address, balance: 0, owner: None, data: Vec::new(), authorized }
    }

    /// A system-owned account that holds `balance` lamports and no storage.
    pub fn funded(address: Address, balance: u64, authorized: bool) -> (account: Self)
        ensures
            account@ == (AccountView {
                address,
                balance,
                owner: None,
                data: Seq::empty(),
                authorized,
            }),
    {
        Account { address, balance, owner: None, data: Vec::new(), authorized }
    }

    /// Whether the account already exists on the ledger.
    pub fn is_initialized(&self) -> (initialized: bool)
        ensures
            initialized == self@.is_initialized(),
    {
        self.balance != 0 || self.owner.is_some()
    }
}

} // verus!
