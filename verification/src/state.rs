//! The persisted product record, its configuration patch, and the plain-value
//! projections of the external edition records that the core reads.

use vstd::prelude::*;
use crate::errors::FosterStudioError;

verus! {

/// An identity on the host ledger (a participant, a record, or a currency),
/// reduced to the plain key value the core compares.  The zero key is
/// reserved: in a payment leg it marks the native currency.
#[derive(Clone, Copy, Debug, PartialEq, Eq, Structural, Hash)]
pub struct Pubkey {
    pub value: u64,
}

impl Pubkey {
    /// Whether this key is the reserved marker for the native currency.
    pub open spec fn spec_is_native(&self) -> bool {
        self.value == 0
    }

    #[verifier::when_used_as_spec(spec_is_native)]
    pub fn is_native(&self) -> (r: bool)
        ensures
            r == self.spec_is_native(),
    {
        self.value == 0
    }
}

impl Default for Pubkey {
    /// The zero key, the reserved native-currency marker.
    fn default() -> (r: Self)
        ensures
            r.value == 0,
    {
        Pubkey { value: 0 }
    }
}

/// The supply cap of a product: unbounded, a fixed count, or mirrored live
/// from the linked external master edition.
#[derive(Clone, Copy, Debug, PartialEq, Eq, Structural)]
pub enum MaxSupply {
    Unbounded,
    Fixed(u64),
    MirrorExternalEdition,
}

/// One payment leg: a currency (native when `mint` is the zero key), an
/// amount, and the declared recipient.  The order of legs in a product is
/// semantically significant.
#[derive(Clone, Debug, PartialEq, Eq)]
pub struct PaymentConfig {
    pub tag: String,
    pub mint: Pubkey,
    pub amount: u64,
    pub recipient: Pubkey,
}

/// The persisted record describing one merchandise sale.
#[derive(Clone, Debug, PartialEq, Eq)]
pub struct MerchProduct {
    pub id: Pubkey,
    pub authority: Pubkey,

    pub name: String,
    pub uri: String,

    pub category: String,
    pub current_supply: u64,
    pub max_supply: MaxSupply,

    pub sale_start_at: Option<i64>,
    pub sale_end_at: Option<i64>,

    pub linked_master_nft: Option<Pubkey>,
    pub claims_per_edition: u32,

    pub payments: Vec<PaymentConfig>,
    pub affiliate_commission_bps: u16,
}

/// The plain values the core reads from an external master-edition record:
/// its address, its live supply, and its optional supply cap.
#[derive(Clone, Copy, Debug, PartialEq, Eq, Structural)]
pub struct MasterEdition {
    pub address: Pubkey,
    pub supply: u64,
    pub max_supply: Option<u64>,
}

/// The plain values the core reads from an external edition-instance record:
/// its own address and the master edition it declares as parent.
#[derive(Clone, Copy, Debug, PartialEq, Eq, Structural)]
pub struct EditionAccount {
    pub address: Pubkey,
    pub parent: Pubkey,
}

/// The state of the claim-marker record supplied for an edition instance:
/// either not yet created (it is created lazily, backed by the buyer's
/// funds, with its counter starting at zero) or created with a stored
/// counter.
#[derive(Clone, Copy, Debug, PartialEq, Eq, Structural)]
pub enum ClaimMarker {
    Uncreated,
    Created { count: u32 },
}

/// The write a purchase performs on the claim marker: whether the marker is
/// newly created, and the counter value persisted in the same atomic
/// transaction as the payments and the supply increment.
#[derive(Clone, Copy, Debug, PartialEq, Eq, Structural)]
pub struct MarkerWrite {
    pub created: bool,
    pub new_count: u32,
}

/// The value behind an optional reference, for contracts over optional
/// borrowed inputs.
pub open spec fn opt_value<T>(o: Option<&T>) -> Option<T> {
    match o {
        Some(t) => Some(*t),
        None => None,
    }
}

impl MerchProduct {
    /// The record with its supply counter replaced.
    pub open spec fn with_supply(self, n: u64) -> MerchProduct {
        MerchProduct { current_supply: n, ..self }
    }

    /// The time-window gate: the sale is live at `now` unless a start bound
    /// exists and lies after `now`, or an end bound exists and lies before.
    /// Bounds are inclusive.
    pub open spec fn spec_is_live(self, now: i64) -> Result<(), FosterStudioError> {
        if self.sale_start_at matches Some(start) && now < start {
            Err(FosterStudioError::SaleNotStarted)
        } else if self.sale_end_at matches Some(end) && end < now {
            Err(FosterStudioError::SaleEnded)
        } else {
            Ok(())
        }
    }

    /// Checks the sale window against the wall-clock time `now` supplied by
    /// the host.  No side effects.
    pub fn assert_is_live(&self, now: i64) -> (r: Result<(), FosterStudioError>)
        ensures
            r == self.spec_is_live(now),
    {
        if let Some(start) = self.sale_start_at {
            if now < start {
                return Err(FosterStudioError::SaleNotStarted);
            }
        }
        if let Some(end) = self.sale_end_at {
            if end < now {
                return Err(FosterStudioError::SaleEnded);
            }
        }
        Ok(())
    }

    /// The supply gate.  An edition-linked product demands the master
    /// edition; `Unbounded` always passes; `Fixed(n)` demands
    /// `current_supply < n`; `MirrorExternalEdition` compares the master
    /// edition's live supply against its cap, passing when it has none.
    pub open spec fn spec_supply_check(
        self,
        master_edition: Option<MasterEdition>,
    ) -> Result<(), FosterStudioError> {
        if self.linked_master_nft is Some && master_edition is None {
            Err(FosterStudioError::MissingMasterEdition)
        } else {
            match self.max_supply {
                MaxSupply::Unbounded => Ok(()),
                MaxSupply::Fixed(count) => if self.current_supply < count {
                    Ok(())
                } else {
                    Err(FosterStudioError::NoMoreSupply)
                },
                MaxSupply::MirrorExternalEdition => match master_edition {
                    None => Err(FosterStudioError::MissingMasterEdition),
                    Some(master) => match master.max_supply {
                        None => Ok(()),
                        Some(cap) => if master.supply < cap {
                            Ok(())
                        } else {
                            Err(FosterStudioError::NoMoreSupply)
                        },
                    },
                },
            }
        }
    }

    /// Checks the effective supply cap before a purchase may commit.
    pub fn assert_supply(&self, master_edition: Option<&MasterEdition>) -> (r: Result<
        (),
        FosterStudioError,
    >)
        ensures
            r == self.spec_supply_check(opt_value(master_edition)),
    {
        if self.linked_master_nft.is_some() && master_edition.is_none() {
            return Err(FosterStudioError::MissingMasterEdition);
        }
        match self.max_supply {
            MaxSupply::Unbounded => Ok(()),
            MaxSupply::Fixed(count) => if self.current_supply < count {
                Ok(())
            } else {
                Err(FosterStudioError::NoMoreSupply)
            },
            MaxSupply::MirrorExternalEdition => match master_edition {
                None => Err(FosterStudioError::MissingMasterEdition),
                Some(master) => match master.max_supply {
                    None => Ok(()),
                    Some(cap) => if master.supply < cap {
                        Ok(())
                    } else {
                        Err(FosterStudioError::NoMoreSupply)
                    },
                },
            },
        }
    }

    /// Commits one successful purchase: the supply counter rises by exactly
    /// one and every other field is unchanged.
    pub fn process_claim(&mut self)
        requires
            old(self).current_supply < u64::MAX,
        ensures
            *final(self) == old(self).with_supply((old(self).current_supply + 1) as u64),
    {
        self.current_supply = self.current_supply + 1;
    }

    /// The per-edition claim rule: the counter would become `count + 1`;
    /// when a positive cap exists and that new count would pass it, the
    /// claim is rejected.  A cap of zero means unlimited claims.
    pub open spec fn spec_user_claim(self, claim_count: u32) -> Result<u32, FosterStudioError> {
        let new_count = (claim_count + 1) as u32;
        if self.claims_per_edition > 0 && new_count > self.claims_per_edition {
            Err(FosterStudioError::NoMoreClaims)
        } else {
            Ok(new_count)
        }
    }

    /// Computes the next claim count for one edition instance, enforcing the
    /// per-edition cap.
    pub fn process_user_claim(&self, claim_count: u32) -> (r: Result<u32, FosterStudioError>)
        requires
            claim_count < u32::MAX,
        ensures
            r == self.spec_user_claim(claim_count),
    {
        let new_count = claim_count + 1;
        if self.claims_per_edition > 0 && new_count > self.claims_per_edition {
            return Err(FosterStudioError::NoMoreClaims);
        }
        Ok(new_count)
    }
}

/// A fully optional projection of every product field, used only as an
/// input value.  A present field overwrites; an absent field keeps the
/// existing value on update, and on creation either defaults or makes the
/// call fail when the field is required.
#[derive(Clone, Debug, PartialEq, Eq)]
pub struct MerchProductConfig {
    pub authority: Option<Pubkey>,

    pub name: Option<String>,
    pub uri: Option<String>,

    pub category: Option<String>,
    pub max_supply: Option<MaxSupply>,

    pub sale_start_at: Option<Option<i64>>,
    pub sale_end_at: Option<Option<i64>>,

    pub linked_master_nft: Option<Option<Pubkey>>,
    pub claims_per_edition: Option<u32>,

    pub payments: Option<Vec<PaymentConfig>>,
    pub affiliate_commission_bps: Option<u16>,
}

impl MerchProductConfig {
    /// Whether the patch carries every field required to create a record.
    pub open spec fn spec_creation_complete(self) -> bool {
        &&& self.authority is Some
        &&& self.name is Some
        &&& self.uri is Some
        &&& self.category is Some
        &&& self.payments is Some
    }

    /// The record a complete patch creates: supply starts at zero and every
    /// absent optional field takes its documented default.
    pub open spec fn spec_created(self, id: Pubkey) -> MerchProduct
        recommends
            self.spec_creation_complete(),
    {
        MerchProduct {
            id,
            authority: self.authority->0,
            name: self.name->0,
            uri: self.uri->0,
            category: self.category->0,
            current_supply: 0,
            max_supply: match self.max_supply {
                Some(m) => m,
                None => MaxSupply::Unbounded,
            },
            sale_start_at: match self.sale_start_at {
                Some(v) => v,
                None => None,
            },
            sale_end_at: match self.sale_end_at {
                Some(v) => v,
                None => None,
            },
            linked_master_nft: match self.linked_master_nft {
                Some(v) => v,
                None => None,
            },
            claims_per_edition: match self.claims_per_edition {
                Some(c) => c,
                None => 0,
            },
            payments: self.payments->0,
            affiliate_commission_bps: match self.affiliate_commission_bps {
                Some(b) => b,
                None => 0,
            },
        }
    }

    /// Creates a record from this patch under the key `id`, failing with
    /// `MissingData` when any required field is absent.
    pub fn to_product(self, id: Pubkey) -> (r: Result<MerchProduct, FosterStudioError>)
        ensures
            self.spec_creation_complete() ==> r == Ok::<MerchProduct, FosterStudioError>(
                self.spec_created(id),
            ),
            !self.spec_creation_complete() ==> r == Err::<MerchProduct, FosterStudioError>(
                FosterStudioError::MissingData,
            ),
    {
        let MerchProductConfig {
            authority,
            name,
            uri,
            category,
            max_supply,
            sale_start_at,
            sale_end_at,
            linked_master_nft,
            claims_per_edition,
            payments,
            affiliate_commission_bps,
        } = self;
        let authority = match authority {
            Some(a) => a,
            None => {
                return Err(FosterStudioError::MissingData);
            },
        };
        let name = match name {
            Some(n) => n,
            None => {
                return Err(FosterStudioError::MissingData);
            },
        };
        let uri = match uri {
            Some(u) => u,
            None => {
                return Err(FosterStudioError::MissingData);
            },
        };
        let category = match category {
            Some(c) => c,
            None => {
                return Err(FosterStudioError::MissingData);
            },
        };
        let payments = match payments {
            Some(p) => p,
            None => {
                return Err(FosterStudioError::MissingData);
            },
        };
        Ok(
            MerchProduct {
                id,
                authority,
                name,
                uri,
                category,
                current_supply: 0,
                max_supply: match max_supply {
                    Some(m) => m,
                    None => MaxSupply::Unbounded,
                },
                sale_start_at: match sale_start_at {
                    Some(v) => v,
                    None => None,
                },
                sale_end_at: match sale_end_at {
                    Some(v) => v,
                    None => None,
                },
                linked_master_nft: match linked_master_nft {
                    Some(v) => v,
                    None => None,
                },
                claims_per_edition: match claims_per_edition {
                    Some(c) => c,
                    None => 0,
                },
                payments,
                affiliate_commission_bps: match affiliate_commission_bps {
                    Some(b) => b,
                    None => 0,
                },
            },
        )
    }

    /// The record an update produces: each field present in the patch
    /// replaces the stored one, each absent field is kept, and the supply
    /// counter and key are never touched.
    pub open spec fn spec_updated(self, product: MerchProduct) -> MerchProduct {
        MerchProduct {
            id: product.id,
            authority: match self.authority {
                Some(a) => a,
                None => product.authority,
            },
            name: match self.name {
                Some(n) => n,
                None => product.name,
            },
            uri: match self.uri {
                Some(u) => u,
                None => product.uri,
            },
            category: match self.category {
                Some(c) => c,
                None => product.category,
            },
            current_supply: product.current_supply,
            max_supply: match self.max_supply {
                Some(m) => m,
                None => product.max_supply,
            },
            sale_start_at: match self.sale_start_at {
                Some(v) => v,
                None => product.sale_start_at,
            },
            sale_end_at: match self.sale_end_at {
                Some(v) => v,
                None => product.sale_end_at,
            },
            linked_master_nft: match self.linked_master_nft {
                Some(v) => v,
                None => product.linked_master_nft,
            },
            claims_per_edition: match self.claims_per_edition {
                Some(c) => c,
                None => product.claims_per_edition,
            },
            payments: match self.payments {
                Some(p) => p,
                None => product.payments,
            },
            affiliate_commission_bps: match self.affiliate_commission_bps {
                Some(b) => b,
                None => product.affiliate_commission_bps,
            },
        }
    }

    /// Overwrites the stored record with every field the patch supplies.
    pub fn update_product(self, product: MerchProduct) -> (r: MerchProduct)
        ensures
            r == self.spec_updated(product),
    {
        let MerchProductConfig {
            authority,
            name,
            uri,
            category,
            max_supply,
            sale_start_at,
            sale_end_at,
            linked_master_nft,
            claims_per_edition,
            payments,
            affiliate_commission_bps,
        } = self;
        MerchProduct {
            id: product.id,
            authority: match authority {
                Some(a) => a,
                None => product.authority,
            },
            name: match name {
                Some(n) => n,
                None => product.name,
            },
            uri: match uri {
                Some(u) => u,
                None => product.uri,
            },
            category: match category {
                Some(c) => c,
                None => product.category,
            },
            current_supply: product.current_supply,
            max_supply: match max_supply {
                Some(m) => m,
                None => product.max_supply,
            },
            sale_start_at: match sale_start_at {
                Some(v) => v,
                None => product.sale_start_at,
            },
            sale_end_at: match sale_end_at {
                Some(v) => v,
                None => product.sale_end_at,
            },
            linked_master_nft: match linked_master_nft {
                Some(v) => v,
                None => product.linked_master_nft,
            },
            claims_per_edition: match claims_per_edition {
                Some(c) => c,
                None => product.claims_per_edition,
            },
            payments: match payments {
                Some(p) => p,
                None => product.payments,
            },
            affiliate_commission_bps: match affiliate_commission_bps {
                Some(b) => b,
                None => product.affiliate_commission_bps,
            },
        }
    }
}

} // verus!
