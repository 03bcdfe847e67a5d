//! The rent schedule: how many lamports an account of a given size must hold
//! to be exempt from rent collection.
//!
//! The schedule's parameters belong to the host ledger. They are carried here
//! as the host's own `Rent` value, and the balance is computed by the host's
//! own function: the threshold in it is a fractional number of years, which
//! this library never touches.

use vstd::prelude::*;
use anchor_lang::prelude::Rent;

verus! {

/// Bytes that the ledger charges for on top of an account's data.
pub const ACCOUNT_STORAGE_OVERHEAD: u64 = 128;

/// The host's rent parameters. Nothing inside is visible to the verifier.
#[verifier::external_type_specification]
#[verifier::external_body]
pub struct ExRent(Rent);

/// The field `lamports_per_byte_year` of the host's `Rent`: the rental rate.
pub uninterp spec fn rent_rate(rent: Rent) -> u64;

/// What `Rent::minimum_balance` returns for these parameters and an account
/// with `data_len` bytes of data.
pub uninterp spec fn rent_exempt_minimum(rent: Rent, data_len: usize) -> u64;

/// Reads the public field `lamports_per_byte_year` of `Rent`.
#[verifier::external_body]
fn host_rate(rent: &Rent) -> (rate: u64)
    ensures
        rate == rent_rate(*rent),
{
    rent.lamports_per_byte_year
}

/// Calls `Rent::minimum_balance`. That function adds the storage overhead to
/// the data length and multiplies the sum by the rate, both in `u64`, before
/// it scales by the threshold: the sum and the product have to fit. Its result
/// depends on the parameters and the length alone; nothing more is claimed of
/// it.
#[verifier::external_body]
fn host_minimum_balance(rent: &Rent, data_len: usize) -> (lamports: u64)
    requires
        ACCOUNT_STORAGE_OVERHEAD + data_len <= u64::MAX,
        (ACCOUNT_STORAGE_OVERHEAD + data_len) * rent_rate(*rent) <= u64::MAX,
    ensures
        lamports == rent_exempt_minimum(*rent, data_len),
{
    rent.minimum_balance(data_len)
}

/// The rent parameters in force for one transaction.
pub struct RentSchedule {
    pub rent: Rent,
}

impl RentSchedule {
    /// Whether the minimum balance can be computed for `data_size`: the size
    /// is addressable, and the charged bytes and their cost for one year fit
    /// in 64 bits.
    pub open spec fn covers(&self, data_size: u64) -> bool {
        &&& data_size <= usize::MAX
        &&& ACCOUNT_STORAGE_OVERHEAD + data_size <= u64::MAX
        &&& (ACCOUNT_STORAGE_OVERHEAD + data_size) * rent_rate(self.rent) <= u64::MAX
    }

    /// The rent-exempt minimum for an account of `data_size` bytes.
    pub open spec fn spec_minimum_balance(&self, data_size: u64) -> u64 {
        rent_exempt_minimum(self.rent, data_size as usize)
    }

    /// Wraps the parameters that the host supplied.
    pub fn new(rent: Rent) -> (schedule: Self)
        ensures
            schedule.rent == rent,
    {
        RentSchedule { rent }
    }

    /// The rental rate, in lamports per byte and year.
    pub fn lamports_per_byte_year(&self) -> (rate: u64)
        ensures
            rate == rent_rate(self.rent),
    {
        host_rate(&self.rent)
    }

    /// The rent-exempt minimum for an account of `data_size` bytes, or `None`
    /// where the schedule does not cover that size.
    pub fn minimum_balance(&self, data_size: u64) -> (minimum: Option<u64>)
        ensures
            minimum == if self.covers(data_size) {
                Some(self.spec_minimum_balance(data_size))
            } else {
                None::<u64>
            },
    {
        if data_size > usize::MAX as u64 {
            return None;
        }
        let rate: u64 = host_rate(&self.rent);
        let charged: u64 = match data_size.checked_add(ACCOUNT_STORAGE_OVERHEAD) {
            Some(bytes) => bytes,
            None => {
                return None;
            },
        };
        match charged.checked_mul(rate) {
            Some(_) => Some(host_minimum_balance(&self.rent, data_size as usize)),
            None => None,
        }
    }
}

} // verus!
