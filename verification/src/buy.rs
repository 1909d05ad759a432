//! The purchase path: the sale-validity gate, the per-edition claim step,
//! the supply check, and the payment distribution plan, composed into one
//! all-or-nothing purchase transition.
//!
//! The host executes a purchase atomically, so the transition is a function
//! from the record and the supplied accounts to either a complete set of
//! effects (fund transfers, a claim-marker write, the supply increment) or
//! a terminal error with no effect at all.

use vstd::prelude::*;
use vstd::arithmetic::div_mod::lemma_div_is_ordered;
use vstd::arithmetic::mul::lemma_mul_inequality;
use crate::codec::PaymentView;
use crate::errors::FosterStudioError;
use crate::state::{
    opt_value, ClaimMarker, EditionAccount, MarkerWrite, MasterEdition, MerchProduct,
    PaymentConfig, Pubkey,
};

verus! {

/// Denominator of a basis-point fraction.
pub const BASIS_POINT_DENOMINATOR: u64 = 10000;

/// The currency of one fund movement: the native asset, or a fungible token
/// identified by its mint.  A fungible transfer moves between holding
/// accounts under the buyer's authorization.
#[derive(Clone, Copy, Debug, PartialEq, Eq, Structural)]
pub enum TransferKind {
    Native,
    Fungible { mint: Pubkey },
}

/// One fund movement the host is asked to execute.
#[derive(Clone, Copy, Debug, PartialEq, Eq, Structural)]
pub struct Transfer {
    pub kind: TransferKind,
    pub from: Pubkey,
    pub to: Pubkey,
    pub amount: u64,
}

/// A purchase failure: a domain error of the sale rules, or too few
/// auxiliary payment accounts supplied by the caller (a boundary error, not
/// a domain one).
#[derive(Clone, Copy, Debug, PartialEq, Eq, Structural)]
pub enum BuyError {
    Product(FosterStudioError),
    NotEnoughPaymentAccounts,
}

/// Everything a successful purchase asks the host to persist besides the
/// supply increment: the claim-marker write, if the product is
/// edition-linked, and the ordered fund transfers.
#[derive(Clone, Debug, PartialEq, Eq)]
pub struct BuyEffects {
    pub marker_write: Option<MarkerWrite>,
    pub transfers: Vec<Transfer>,
}

/// The referral commission of one leg: the floor of `amount` basis points,
/// computed per leg rather than on the total order value.
pub open spec fn spec_commission(amount: u64, bps: u16) -> int {
    (amount * bps) / (BASIS_POINT_DENOMINATOR as int)
}

/// Computes one leg's referral commission.
pub fn leg_commission(amount: u64, bps: u16) -> (c: u64)
    requires
        bps <= BASIS_POINT_DENOMINATOR,
    ensures
        c == spec_commission(amount, bps),
{
    proof {
        lemma_mul_inequality(bps as int, BASIS_POINT_DENOMINATOR as int, amount as int);
        lemma_div_is_ordered(
            (amount as int) * (bps as int),
            (amount as int) * (BASIS_POINT_DENOMINATOR as int),
            BASIS_POINT_DENOMINATOR as int,
        );
        assert((amount as int) * (BASIS_POINT_DENOMINATOR as int) / (
        BASIS_POINT_DENOMINATOR as int) == amount as int) by (nonlinear_arith);
    }
    let prod: u128 = (amount as u128) * (bps as u128);
    (prod / (BASIS_POINT_DENOMINATOR as u128)) as u64
}

/// The payment plan from leg `i` on, with auxiliary accounts consumed from
/// index `j` on.  Legs execute in declared order.  A native leg consumes one
/// account, which must equal the leg's declared recipient, and moves the
/// amount from the buyer; a fungible leg consumes a source and a destination
/// holding account, plus the referrer's holding account when a referrer is
/// present.  With a referrer, every leg additionally moves its commission.
pub open spec fn spec_plan_from(
    legs: Seq<PaymentView>,
    i: int,
    accounts: Seq<Pubkey>,
    j: int,
    bps: u16,
    buyer: Pubkey,
    referrer: Option<Pubkey>,
) -> Result<Seq<Transfer>, BuyError>
    decreases legs.len() - i,
    when 0 <= i <= legs.len()
{
    if i == legs.len() {
        Ok(Seq::empty())
    } else {
        let leg = legs[i];
        let fee = spec_commission(leg.amount, bps) as u64;
        if leg.mint.spec_is_native() {
            if accounts.len() - j < 1 {
                Err(BuyError::NotEnoughPaymentAccounts)
            } else if accounts[j] != leg.recipient {
                Err(BuyError::Product(FosterStudioError::AccountMismatch))
            } else {
                let own = match referrer {
                    None => seq![
                        Transfer {
                            kind: TransferKind::Native,
                            from: buyer,
                            to: leg.recipient,
                            amount: leg.amount,
                        },
                    ],
                    Some(rf) => seq![
                        Transfer {
                            kind: TransferKind::Native,
                            from: buyer,
                            to: leg.recipient,
                            amount: leg.amount,
                        },
                        Transfer { kind: TransferKind::Native, from: buyer, to: rf, amount: fee },
                    ],
                };
                match spec_plan_from(legs, i + 1, accounts, j + 1, bps, buyer, referrer) {
                    Ok(rest) => Ok(own + rest),
                    Err(e) => Err(e),
                }
            }
        } else {
            let need: int = if referrer is Some {
                3
            } else {
                2
            };
            if accounts.len() - j < need {
                Err(BuyError::NotEnoughPaymentAccounts)
            } else {
                let own = match referrer {
                    None => seq![
                        Transfer {
                            kind: TransferKind::Fungible { mint: leg.mint },
                            from: accounts[j],
                            to: accounts[j + 1],
                            amount: leg.amount,
                        },
                    ],
                    Some(rf) => seq![
                        Transfer {
                            kind: TransferKind::Fungible { mint: leg.mint },
                            from: accounts[j],
                            to: accounts[j + 1],
                            amount: leg.amount,
                        },
                        Transfer {
                            kind: TransferKind::Fungible { mint: leg.mint },
                            from: accounts[j],
                            to: accounts[j + 2],
                            amount: fee,
                        },
                    ],
                };
                match spec_plan_from(legs, i + 1, accounts, j + need, bps, buyer, referrer) {
                    Ok(rest) => Ok(own + rest),
                    Err(e) => Err(e),
                }
            }
        }
    }
}

/// The whole payment plan of a product's legs against the caller-supplied
/// auxiliary accounts.
pub open spec fn spec_plan(
    legs: Seq<PaymentView>,
    accounts: Seq<Pubkey>,
    bps: u16,
    buyer: Pubkey,
    referrer: Option<Pubkey>,
) -> Result<Seq<Transfer>, BuyError> {
    spec_plan_from(legs, 0, accounts, 0, bps, buyer, referrer)
}

/// Computes the ordered fund transfers for the product's payment legs,
/// consuming the auxiliary accounts strictly in leg order.  No transfer is
/// performed here; a failed leg aborts the whole plan.
pub fn plan_payments(
    legs: &Vec<PaymentConfig>,
    affiliate_commission_bps: u16,
    buyer: Pubkey,
    referrer: Option<Pubkey>,
    accounts: &Vec<Pubkey>,
) -> (r: Result<Vec<Transfer>, BuyError>)
    requires
        affiliate_commission_bps <= BASIS_POINT_DENOMINATOR,
    ensures
        (match r {
            Ok(v) => spec_plan(
                legs@.map_values(|p: PaymentConfig| p@),
                accounts@,
                affiliate_commission_bps,
                buyer,
                referrer,
            ) == Ok::<Seq<Transfer>, BuyError>(v@),
            Err(e) => spec_plan(
                legs@.map_values(|p: PaymentConfig| p@),
                accounts@,
                affiliate_commission_bps,
                buyer,
                referrer,
            ) == Err::<Seq<Transfer>, BuyError>(e),
        }),
{
    let ghost lv = legs@.map_values(|p: PaymentConfig| p@);
    let mut out: Vec<Transfer> = Vec::new();
    let mut j: usize = 0;
    let mut i: usize = 0;
    let n = legs.len();
    while i < n
        invariant
            n == legs@.len(),
            lv == legs@.map_values(|p: PaymentConfig| p@),
            lv.len() == n,
            affiliate_commission_bps <= BASIS_POINT_DENOMINATOR,
            i <= n,
            j <= accounts@.len(),
            spec_plan_from(lv, 0, accounts@, 0, affiliate_commission_bps, buyer, referrer) == (
            match spec_plan_from(
                lv,
                i as int,
                accounts@,
                j as int,
                affiliate_commission_bps,
                buyer,
                referrer,
            ) {
                Ok(rest) => Ok::<Seq<Transfer>, BuyError>(out@ + rest),
                Err(e) => Err::<Seq<Transfer>, BuyError>(e),
            }),
        decreases n - i,
    {
        let ghost out0 = out@;
        proof {
            assert(lv[i as int] == legs@[i as int]@);
        }
        let leg = &legs[i];
        let fee = leg_commission(leg.amount, affiliate_commission_bps);
        if leg.mint.is_native() {
            if accounts.len() - j < 1 {
                return Err(BuyError::NotEnoughPaymentAccounts);
            }
            let to = accounts[j];
            if !(to == leg.recipient) {
                return Err(BuyError::Product(FosterStudioError::AccountMismatch));
            }
            out.push(
                Transfer { kind: TransferKind::Native, from: buyer, to, amount: leg.amount },
            );
            if let Some(rf) = referrer {
                out.push(Transfer { kind: TransferKind::Native, from: buyer, to: rf, amount: fee });
            }
            j = j + 1;
            proof {
                let own = (match referrer {
                    None => seq![
                        Transfer {
                            kind: TransferKind::Native,
                            from: buyer,
                            to: lv[i as int].recipient,
                            amount: lv[i as int].amount,
                        },
                    ],
                    Some(rf) => seq![
                        Transfer {
                            kind: TransferKind::Native,
                            from: buyer,
                            to: lv[i as int].recipient,
                            amount: lv[i as int].amount,
                        },
                        Transfer { kind: TransferKind::Native, from: buyer, to: rf, amount: fee },
                    ],
                });
                assert(out@ =~= out0 + own);
                assert forall|rest: Seq<Transfer>| out0 + (own + rest) =~= out@ + rest by {}
            }
        } else {
            let need: usize = if referrer.is_some() {
                3
            } else {
                2
            };
            if accounts.len() - j < need {
                return Err(BuyError::NotEnoughPaymentAccounts);
            }
            let from_acct = accounts[j];
            let to_acct = accounts[j + 1];
            out.push(
                Transfer {
                    kind: TransferKind::Fungible { mint: leg.mint },
                    from: from_acct,
                    to: to_acct,
                    amount: leg.amount,
                },
            );
            if referrer.is_some() {
                let rf_acct = accounts[j + 2];
                out.push(
                    Transfer {
                        kind: TransferKind::Fungible { mint: leg.mint },
                        from: from_acct,
                        to: rf_acct,
                        amount: fee,
                    },
                );
            }
            j = j + need;
            proof {
                let mint = lv[i as int].mint;
                let own = (match referrer {
                    None => seq![
                        Transfer {
                            kind: TransferKind::Fungible { mint },
                            from: from_acct,
                            to: to_acct,
                            amount: lv[i as int].amount,
                        },
                    ],
                    Some(_) => seq![
                        Transfer {
                            kind: TransferKind::Fungible { mint },
                            from: from_acct,
                            to: to_acct,
                            amount: lv[i as int].amount,
                        },
                        Transfer {
                            kind: TransferKind::Fungible { mint },
                            from: from_acct,
                            to: accounts@[j - 1],
                            amount: fee,
                        },
                    ],
                });
                assert(out@ =~= out0 + own);
                assert forall|rest: Seq<Transfer>| out0 + (own + rest) =~= out@ + rest by {}
            }
        }
        i = i + 1;
    }
    proof {
        assert(out@ + Seq::<Transfer>::empty() =~= out@);
    }
    Ok(out)
}

/// The claim step of a purchase.  It applies only to an edition-linked
/// product: the master edition and the edition instance must be supplied,
/// the instance's declared parent must equal the master edition, the claim
/// marker must be supplied, and the marker's counter (zero when just
/// created) moves to `count + 1` under the per-edition cap.
pub open spec fn spec_claim_step(
    product: MerchProduct,
    master_edition: Option<MasterEdition>,
    edition: Option<EditionAccount>,
    claim_marker: Option<ClaimMarker>,
) -> Result<Option<MarkerWrite>, FosterStudioError> {
    if product.linked_master_nft is Some {
        match master_edition {
            None => Err(FosterStudioError::MissingMasterEdition),
            Some(master) => match edition {
                None => Err(FosterStudioError::MissingEdition),
                Some(ed) => if ed.parent != master.address {
                    Err(FosterStudioError::AccountMismatch)
                } else {
                    match claim_marker {
                        None => Err(FosterStudioError::MissingClaimMarker),
                        Some(m) => {
                            let count = (match m {
                                ClaimMarker::Uncreated => 0u32,
                                ClaimMarker::Created { count } => count,
                            });
                            match product.spec_user_claim(count) {
                                Err(e) => Err(e),
                                Ok(new_count) => Ok(
                                    Some(MarkerWrite { created: m is Uncreated, new_count }),
                                ),
                            }
                        },
                    }
                },
            },
        }
    } else {
        Ok(None)
    }
}

/// The purchase transition, terminal on the first failure: the sale window
/// gate, then the claim step for an edition-linked product, then the supply
/// gate, then the payment plan; on success the supply counter rises by
/// exactly one.  The host applies all of it atomically or none of it.
pub open spec fn spec_buy(
    product: MerchProduct,
    now: i64,
    master_edition: Option<MasterEdition>,
    edition: Option<EditionAccount>,
    claim_marker: Option<ClaimMarker>,
    referrer: Option<Pubkey>,
    buyer: Pubkey,
    accounts: Seq<Pubkey>,
) -> Result<(MerchProduct, Option<MarkerWrite>, Seq<Transfer>), BuyError> {
    match product.spec_is_live(now) {
        Err(e) => Err(BuyError::Product(e)),
        Ok(u) => match spec_claim_step(product, master_edition, edition, claim_marker) {
            Err(e) => Err(BuyError::Product(e)),
            Ok(marker_write) => match product.spec_supply_check(master_edition) {
                Err(e) => Err(BuyError::Product(e)),
                Ok(v) => match spec_plan(
                    product.payments@.map_values(|p: PaymentConfig| p@),
                    accounts,
                    product.affiliate_commission_bps,
                    buyer,
                    referrer,
                ) {
                    Err(e) => Err(e),
                    Ok(transfers) => Ok(
                        (
                            product.with_supply((product.current_supply + 1) as u64),
                            marker_write,
                            transfers,
                        ),
                    ),
                },
            },
        },
    }
}

/// Executes one purchase against the record.
///
/// On success the record's supply counter rises by exactly one, every other
/// field is unchanged, and the returned effects hold the claim-marker write
/// and the ordered fund transfers the host must apply in the same atomic
/// transaction.  On any error the record is unchanged and there are no
/// effects.
pub fn buy_product(
    product: &mut MerchProduct,
    now: i64,
    master_edition: Option<&MasterEdition>,
    edition: Option<&EditionAccount>,
    claim_marker: Option<ClaimMarker>,
    referrer: Option<Pubkey>,
    buyer: Pubkey,
    payment_accounts: &Vec<Pubkey>,
) -> (r: Result<BuyEffects, BuyError>)
    requires
        old(product).current_supply < u64::MAX,
        old(product).affiliate_commission_bps <= BASIS_POINT_DENOMINATOR,
        (claim_marker matches Some(ClaimMarker::Created { count }) ==> count < u32::MAX),
    ensures
        (match r {
            Ok(effects) => spec_buy(
                *old(product),
                now,
                opt_value(master_edition),
                opt_value(edition),
                claim_marker,
                referrer,
                buyer,
                payment_accounts@,
            ) == Ok::<(MerchProduct, Option<MarkerWrite>, Seq<Transfer>), BuyError>(
                (*final(product), effects.marker_write, effects.transfers@),
            ),
            Err(e) => spec_buy(
                *old(product),
                now,
                opt_value(master_edition),
                opt_value(edition),
                claim_marker,
                referrer,
                buyer,
                payment_accounts@,
            ) == Err::<(MerchProduct, Option<MarkerWrite>, Seq<Transfer>), BuyError>(e),
        }),
        r is Ok ==> final(product).current_supply == old(product).current_supply + 1
            && *final(product) == old(product).with_supply(
            (old(product).current_supply + 1) as u64,
        ),
        r is Err ==> *final(product) == *old(product),
        (old(product).spec_is_live(now) matches Err(e) ==> r == Err::<BuyEffects, BuyError>(
            BuyError::Product(e),
        )),
{
    match product.assert_is_live(now) {
        Err(e) => {
            return Err(BuyError::Product(e));
        },
        Ok(u) => {},
    }
    let marker_write: Option<MarkerWrite> = if product.linked_master_nft.is_some() {
        let master = match master_edition {
            Some(m) => m,
            None => {
                return Err(BuyError::Product(FosterStudioError::MissingMasterEdition));
            },
        };
        let ed = match edition {
            Some(e) => e,
            None => {
                return Err(BuyError::Product(FosterStudioError::MissingEdition));
            },
        };
        if !(ed.parent == master.address) {
            return Err(BuyError::Product(FosterStudioError::AccountMismatch));
        }
        let marker = match claim_marker {
            Some(m) => m,
            None => {
                return Err(BuyError::Product(FosterStudioError::MissingClaimMarker));
            },
        };
        let count: u32 = match marker {
            ClaimMarker::Uncreated => 0,
            ClaimMarker::Created { count } => count,
        };
        let created: bool = match marker {
            ClaimMarker::Uncreated => true,
            ClaimMarker::Created { .. } => false,
        };
        let new_count = match product.process_user_claim(count) {
            Ok(c) => c,
            Err(e) => {
                return Err(BuyError::Product(e));
            },
        };
        Some(MarkerWrite { created, new_count })
    } else {
        None
    };
    match product.assert_supply(master_edition) {
        Err(e) => {
            return Err(BuyError::Product(e));
        },
        Ok(u) => {},
    }
    let transfers = match plan_payments(
        &product.payments,
        product.affiliate_commission_bps,
        buyer,
        referrer,
        payment_accounts,
    ) {
        Ok(t) => t,
        Err(e) => {
            return Err(e);
        },
    };
    product.process_claim();
    Ok(BuyEffects { marker_write, transfers })
}

} // verus!
