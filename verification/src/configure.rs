//! The configuration engine: creating, updating and deleting a product
//! record, and reconciling its backing storage balance with the exact
//! minimum the host demands for the new serialized size.

use vstd::prelude::*;
use crate::codec::{product_encodable, spec_encode_product};
use crate::errors::FosterStudioError;
use crate::state::{MerchProduct, MerchProductConfig, Pubkey};

verus! {

/// The host's storage-funding rule, reduced to the plain values the core
/// computes with: a record of `len` bytes must keep a backing balance of
/// `base + per_byte * len`.
#[derive(Clone, Copy, Debug, PartialEq, Eq, Structural)]
pub struct RentSchedule {
    pub base: u64,
    pub per_byte: u64,
}

impl RentSchedule {
    /// The minimum backing balance for a record of `len` bytes.
    pub open spec fn spec_min_balance(self, len: nat) -> int {
        self.base + self.per_byte * len
    }

    /// Computes the minimum backing balance for a record of `len` bytes.
    pub fn min_balance(&self, len: usize) -> (r: u64)
        requires
            self.spec_min_balance(len as nat) <= u64::MAX,
        ensures
            r == self.spec_min_balance(len as nat),
    {
        self.base + self.per_byte * (len as u64)
    }
}

/// How the difference between the current backing balance and the required
/// one is settled: charged from the payer, refunded to the payer, or left
/// untouched when they already agree.
#[derive(Clone, Copy, Debug, PartialEq, Eq, Structural)]
pub enum Settlement {
    NoChange,
    ChargePayer { amount: u64 },
    RefundPayer { amount: u64 },
}

/// The settlement that moves a backing balance of `current` to exactly
/// `required`.
pub open spec fn spec_settlement(current: u64, required: u64) -> Settlement {
    if required > current {
        Settlement::ChargePayer { amount: (required - current) as u64 }
    } else if current > required {
        Settlement::RefundPayer { amount: (current - required) as u64 }
    } else {
        Settlement::NoChange
    }
}

/// The backing balance after a settlement is applied to `current`.
pub open spec fn spec_settled_balance(current: u64, s: Settlement) -> int {
    match s {
        Settlement::NoChange => current as int,
        Settlement::ChargePayer { amount } => current + amount,
        Settlement::RefundPayer { amount } => current - amount,
    }
}

/// The payer's balance change under a settlement: negative when charged,
/// positive when refunded.
pub open spec fn spec_payer_delta(s: Settlement) -> int {
    match s {
        Settlement::NoChange => 0,
        Settlement::ChargePayer { amount } => -(amount as int),
        Settlement::RefundPayer { amount } => amount as int,
    }
}

/// Computes the settlement between the current backing balance and the
/// required minimum: the shortfall is charged from the payer, the surplus
/// refunded to the payer, and nothing moves when the two agree.
pub fn settle_backing_balance(current: u64, required: u64) -> (s: Settlement)
    ensures
        s == spec_settlement(current, required),
{
    if required > current {
        Settlement::ChargePayer { amount: required - current }
    } else if current > required {
        Settlement::RefundPayer { amount: current - required }
    } else {
        Settlement::NoChange
    }
}

/// Everything a successful configuration call asks the host to persist: the
/// new record value, its serialized form (the storage must be resized to its
/// exact length and overwritten with it), whether the record was newly
/// created, and the balance settlement with the payer.
#[derive(Clone, Debug, PartialEq, Eq)]
pub struct ConfigureOutcome {
    pub record: MerchProduct,
    pub serialized: Vec<u8>,
    pub created: bool,
    pub settlement: Settlement,
}

/// The record a configuration call produces, or the error it fails with:
/// creation demands every required patch field, and an update demands that
/// the caller's authority equal the stored one.
pub open spec fn spec_new_record(
    existing: Option<MerchProduct>,
    patch: MerchProductConfig,
    payer: Pubkey,
    product_key: Pubkey,
) -> Result<MerchProduct, FosterStudioError> {
    match existing {
        None => if patch.spec_creation_complete() {
            Ok(patch.spec_created(product_key))
        } else {
            Err(FosterStudioError::MissingData)
        },
        Some(prev) => if prev.authority != payer {
            Err(FosterStudioError::IncorrectAuthority)
        } else {
            Ok(patch.spec_updated(prev))
        },
    }
}

/// Creates or updates a product record from a partial patch.
///
/// With no existing record, every required field must be present in the
/// patch or the call fails with `MissingData` and nothing is allocated.
/// With an existing record, the payer must equal the stored authority or
/// the call fails with `IncorrectAuthority` and the record is untouched;
/// present patch fields overwrite, absent ones are kept, and the supply
/// counter is never changed by this path.  On success the outcome holds the
/// serialized record and the exact balance settlement for its new size.
pub fn configure_product(
    existing: Option<MerchProduct>,
    patch: MerchProductConfig,
    payer: Pubkey,
    product_key: Pubkey,
    current_balance: u64,
    rent: &RentSchedule,
) -> (r: Result<ConfigureOutcome, FosterStudioError>)
    requires
        (spec_new_record(existing, patch, payer, product_key) matches Ok(p) ==> product_encodable(
            p@,
        ) && rent.spec_min_balance(spec_encode_product(p@).len()) <= u64::MAX),
    ensures
        (spec_new_record(existing, patch, payer, product_key) matches Err(e) ==> r == Err::<
            ConfigureOutcome,
            FosterStudioError,
        >(e)),
        (spec_new_record(existing, patch, payer, product_key) matches Ok(p) ==> r matches Ok(out)
            && out.record == p && out.serialized@ == spec_encode_product(p@) && out.created == (
        existing is None) && out.settlement == spec_settlement(
            current_balance,
            rent.spec_min_balance(spec_encode_product(p@).len()) as u64,
        )),
{
    let created = existing.is_none();
    let record = match existing {
        None => match patch.to_product(product_key) {
            Ok(p) => p,
            Err(e) => {
                return Err(e);
            },
        },
        Some(prev) => {
            if !(prev.authority == payer) {
                return Err(FosterStudioError::IncorrectAuthority);
            }
            patch.update_product(prev)
        },
    };
    let serialized = record.serialize();
    let required = rent.min_balance(serialized.len());
    let settlement = settle_backing_balance(current_balance, required);
    Ok(ConfigureOutcome { record, serialized, created, settlement })
}

/// Removes a record: the caller must be the stored authority, and the whole
/// backing balance is returned to it.  A non-authority caller fails with
/// `IncorrectAuthority` and the record is untouched.
pub fn delete_product(product: &MerchProduct, authority: Pubkey, backing_balance: u64) -> (r:
    Result<u64, FosterStudioError>)
    ensures
        product.authority == authority ==> r == Ok::<u64, FosterStudioError>(backing_balance),
        product.authority != authority ==> r == Err::<u64, FosterStudioError>(
            FosterStudioError::IncorrectAuthority,
        ),
{
    if product.authority == authority {
        Ok(backing_balance)
    } else {
        Err(FosterStudioError::IncorrectAuthority)
    }
}

} // verus!
