//! The core's cross-cutting guarantees, stated and proved over the spec
//! functions that the executable functions' contracts are written against.

use vstd::prelude::*;
use crate::buy::{
    spec_buy, spec_claim_step, spec_plan, BuyError, Transfer,
};
use crate::codec::{
    lemma_encode_decode_product, product_encodable, spec_decode_product, spec_encode_product,
};
use crate::configure::{
    spec_new_record, spec_payer_delta, spec_settled_balance, spec_settlement, RentSchedule,
    Settlement,
};
use crate::errors::FosterStudioError;
use crate::state::{
    ClaimMarker, EditionAccount, MarkerWrite, MasterEdition, MaxSupply, MerchProduct,
    MerchProductConfig, PaymentConfig, Pubkey,
};

verus! {

/// A valid creation round-trips: the record a complete patch creates starts
/// with supply zero, carries the patch's fields and the documented defaults,
/// and decoding its serialized form restores it exactly.
pub proof fn lemma_creation_round_trip(
    patch: MerchProductConfig,
    payer: Pubkey,
    product_key: Pubkey,
)
    requires
        patch.spec_creation_complete(),
        product_encodable(patch.spec_created(product_key)@),
    ensures
        spec_new_record(None, patch, payer, product_key) == Ok::<MerchProduct, FosterStudioError>(
            patch.spec_created(product_key),
        ),
        spec_decode_product(spec_encode_product(patch.spec_created(product_key)@)) == Some(
            patch.spec_created(product_key)@,
        ),
        patch.spec_created(product_key).current_supply == 0,
        patch.spec_created(product_key).id == product_key,
        patch.spec_created(product_key).authority == patch.authority->0,
        patch.spec_created(product_key).name == patch.name->0,
        patch.spec_created(product_key).uri == patch.uri->0,
        patch.spec_created(product_key).category == patch.category->0,
        patch.spec_created(product_key).payments == patch.payments->0,
        patch.max_supply is None ==> patch.spec_created(product_key).max_supply
            == MaxSupply::Unbounded,
        patch.sale_start_at is None ==> patch.spec_created(product_key).sale_start_at is None,
        patch.sale_end_at is None ==> patch.spec_created(product_key).sale_end_at is None,
        patch.linked_master_nft is None ==> patch.spec_created(product_key).linked_master_nft
            is None,
        patch.claims_per_edition is None ==> patch.spec_created(product_key).claims_per_edition
            == 0,
        patch.affiliate_commission_bps is None ==> patch.spec_created(
            product_key,
        ).affiliate_commission_bps == 0,
{
    lemma_encode_decode_product(patch.spec_created(product_key)@);
}

/// A patch missing any required creation field is rejected with
/// `MissingData`, so nothing is ever allocated for it.
pub proof fn lemma_incomplete_creation_rejected(
    patch: MerchProductConfig,
    payer: Pubkey,
    product_key: Pubkey,
)
    requires
        !patch.spec_creation_complete(),
    ensures
        spec_new_record(None, patch, payer, product_key) == Err::<MerchProduct, FosterStudioError>(
            FosterStudioError::MissingData,
        ),
{
}

/// An update by a caller that is not the stored authority is rejected with
/// `IncorrectAuthority`, whatever the patch holds, so the record is never
/// touched by such a call.
pub proof fn lemma_foreign_update_rejected(
    prev: MerchProduct,
    patch: MerchProductConfig,
    payer: Pubkey,
    product_key: Pubkey,
)
    requires
        prev.authority != payer,
    ensures
        spec_new_record(Some(prev), patch, payer, product_key) == Err::<
            MerchProduct,
            FosterStudioError,
        >(FosterStudioError::IncorrectAuthority),
{
}

/// A settlement is exact: applying it to the current backing balance yields
/// precisely the required one, the payer moves by exactly the difference,
/// and nothing moves precisely when the two already agree.
pub proof fn lemma_settlement_exact(current: u64, required: u64)
    ensures
        spec_settled_balance(current, spec_settlement(current, required)) == required,
        spec_payer_delta(spec_settlement(current, required)) == current - required,
        spec_settlement(current, required) == Settlement::NoChange <==> current == required,
{
}

/// Resizing a record's storage settles exactly the funding-rule delta for
/// the size change: shrinking by `d` bytes refunds the payer exactly the
/// per-byte rate times `d`, growing charges exactly that, and an unchanged
/// size moves nothing.
pub proof fn lemma_resize_settlement(rent: RentSchedule, old_len: nat, new_len: nat)
    requires
        rent.per_byte > 0,
        rent.spec_min_balance(old_len) <= u64::MAX,
        rent.spec_min_balance(new_len) <= u64::MAX,
    ensures
        new_len < old_len ==> spec_settlement(
            rent.spec_min_balance(old_len) as u64,
            rent.spec_min_balance(new_len) as u64,
        ) == (Settlement::RefundPayer {
            amount: (rent.per_byte * ((old_len - new_len) as nat)) as u64,
        }),
        new_len > old_len ==> spec_settlement(
            rent.spec_min_balance(old_len) as u64,
            rent.spec_min_balance(new_len) as u64,
        ) == (Settlement::ChargePayer {
            amount: (rent.per_byte * ((new_len - old_len) as nat)) as u64,
        }),
        new_len == old_len ==> spec_settlement(
            rent.spec_min_balance(old_len) as u64,
            rent.spec_min_balance(new_len) as u64,
        ) == Settlement::NoChange,
{
    let b = rent.per_byte as int;
    let o = old_len as int;
    let w = new_len as int;
    vstd::arithmetic::mul::lemma_mul_nonnegative(b, o);
    vstd::arithmetic::mul::lemma_mul_nonnegative(b, w);
    assert(b * (o - w) == b * o - b * w) by (nonlinear_arith);
    assert(b * (w - o) == b * w - b * o) by (nonlinear_arith);
    if w < o {
        vstd::arithmetic::mul::lemma_mul_strictly_positive(b, o - w);
    }
    if o < w {
        vstd::arithmetic::mul::lemma_mul_strictly_positive(b, w - o);
    }
}

/// A fixed supply cap is exhausted after exactly its count of successful
/// purchases: while the counter is below the cap a purchase that passes the
/// other gates succeeds and raises the counter by one, and once the counter
/// has reached the cap the purchase fails with `NoMoreSupply` and the
/// record is unchanged.
pub proof fn lemma_fixed_supply_exhaustion(
    product: MerchProduct,
    now: i64,
    master_edition: Option<MasterEdition>,
    edition: Option<EditionAccount>,
    claim_marker: Option<ClaimMarker>,
    referrer: Option<Pubkey>,
    buyer: Pubkey,
    accounts: Seq<Pubkey>,
    n: u64,
)
    requires
        product.max_supply == MaxSupply::Fixed(n),
    ensures
        (product.spec_is_live(now) is Ok && spec_claim_step(
            product,
            master_edition,
            edition,
            claim_marker,
        ) is Ok && product.current_supply < n && spec_plan(
            product.payments@.map_values(|p: PaymentConfig| p@),
            accounts,
            product.affiliate_commission_bps,
            buyer,
            referrer,
        ) is Ok) ==> (spec_buy(
            product,
            now,
            master_edition,
            edition,
            claim_marker,
            referrer,
            buyer,
            accounts,
        ) matches Ok(t) && t.0 == product.with_supply((product.current_supply + 1) as u64)
            && t.0.current_supply <= n),
        (product.spec_is_live(now) is Ok && spec_claim_step(
            product,
            master_edition,
            edition,
            claim_marker,
        ) is Ok && product.current_supply >= n) ==> spec_buy(
            product,
            now,
            master_edition,
            edition,
            claim_marker,
            referrer,
            buyer,
            accounts,
        ) == Err::<(MerchProduct, Option<MarkerWrite>, Seq<Transfer>), BuyError>(
            BuyError::Product(FosterStudioError::NoMoreSupply),
        ),
{
}

/// The per-edition claim counter is exact: a fresh marker is created with
/// its first claim counted as one, an existing marker moves up by exactly
/// one while the cap allows it, and once the next count would pass a
/// positive cap the claim fails with `NoMoreClaims` and no write happens.
pub proof fn lemma_claim_counter(
    product: MerchProduct,
    master_edition: MasterEdition,
    edition: EditionAccount,
    count: u32,
)
    requires
        product.linked_master_nft is Some,
        edition.parent == master_edition.address,
        count < u32::MAX,
    ensures
        (product.claims_per_edition == 0 || 1 <= product.claims_per_edition) ==> spec_claim_step(
            product,
            Some(master_edition),
            Some(edition),
            Some(ClaimMarker::Uncreated),
        ) == (if product.claims_per_edition == 0 || 1 <= product.claims_per_edition as int {
            Ok::<Option<MarkerWrite>, FosterStudioError>(
                Some(MarkerWrite { created: true, new_count: 1 }),
            )
        } else {
            Err(FosterStudioError::NoMoreClaims)
        }),
        (product.claims_per_edition == 0 || count + 1 <= product.claims_per_edition)
            ==> spec_claim_step(
            product,
            Some(master_edition),
            Some(edition),
            Some(ClaimMarker::Created { count }),
        ) == Ok::<Option<MarkerWrite>, FosterStudioError>(
            Some(MarkerWrite { created: false, new_count: (count + 1) as u32 }),
        ),
        (product.claims_per_edition > 0 && count + 1 > product.claims_per_edition)
            ==> spec_claim_step(
            product,
            Some(master_edition),
            Some(edition),
            Some(ClaimMarker::Created { count }),
        ) == Err::<Option<MarkerWrite>, FosterStudioError>(FosterStudioError::NoMoreClaims),
{
}

/// Two duplicate purchase attempts racing for the last claim slot are
/// serialized by the host: the one that observes the pre-increment counter
/// succeeds and fills the cap, and the one that observes the written
/// counter fails with `NoMoreClaims`, so the counter is never doubled past
/// the cap.
pub proof fn lemma_duplicate_last_claim(
    product: MerchProduct,
    master_edition: MasterEdition,
    edition: EditionAccount,
    count: u32,
)
    requires
        product.linked_master_nft is Some,
        edition.parent == master_edition.address,
        product.claims_per_edition > 0,
        product.claims_per_edition < u32::MAX,
        count + 1 == product.claims_per_edition,
    ensures
        spec_claim_step(
            product,
            Some(master_edition),
            Some(edition),
            Some(ClaimMarker::Created { count }),
        ) == Ok::<Option<MarkerWrite>, FosterStudioError>(
            Some(MarkerWrite { created: false, new_count: product.claims_per_edition }),
        ),
        spec_claim_step(
            product,
            Some(master_edition),
            Some(edition),
            Some(ClaimMarker::Created { count: product.claims_per_edition }),
        ) == Err::<Option<MarkerWrite>, FosterStudioError>(FosterStudioError::NoMoreClaims),
{
}

/// The record after `k` further purchases, all with the same inputs; the
/// first failure ends the run.
pub open spec fn spec_buy_repeat(
    product: MerchProduct,
    k: u64,
    now: i64,
    referrer: Option<Pubkey>,
    buyer: Pubkey,
    accounts: Seq<Pubkey>,
) -> Result<MerchProduct, BuyError>
    decreases k,
{
    if k == 0 {
        Ok(product)
    } else {
        match spec_buy(product, now, None, None, None, referrer, buyer, accounts) {
            Err(e) => Err(e),
            Ok(t) => spec_buy_repeat(t.0, (k - 1) as u64, now, referrer, buyer, accounts),
        }
    }
}

/// For a product with a fixed cap of `n`, exactly `n` successful purchases
/// are possible: any run of `k` purchases within the cap succeeds and leaves
/// the supply counter at exactly its start plus `k`, and the purchase after
/// the cap is filled fails with `NoMoreSupply` with the counter still at
/// the cap.
pub proof fn lemma_fixed_supply_exact_count(
    product: MerchProduct,
    now: i64,
    referrer: Option<Pubkey>,
    buyer: Pubkey,
    accounts: Seq<Pubkey>,
    n: u64,
    k: u64,
)
    requires
        product.linked_master_nft is None,
        product.max_supply == MaxSupply::Fixed(n),
        product.spec_is_live(now) is Ok,
        spec_plan(
            product.payments@.map_values(|p: PaymentConfig| p@),
            accounts,
            product.affiliate_commission_bps,
            buyer,
            referrer,
        ) is Ok,
        product.current_supply + k <= n,
    ensures
        spec_buy_repeat(product, k, now, referrer, buyer, accounts) == Ok::<MerchProduct, BuyError>(
            product.with_supply((product.current_supply + k) as u64),
        ),
        product.current_supply + k == n ==> spec_buy(
            product.with_supply(n),
            now,
            None,
            None,
            None,
            referrer,
            buyer,
            accounts,
        ) == Err::<(MerchProduct, Option<MarkerWrite>, Seq<Transfer>), BuyError>(
            BuyError::Product(FosterStudioError::NoMoreSupply),
        ),
    decreases k,
{
    if k == 0 {
        assert(product.with_supply(product.current_supply) == product);
    } else {
        let next = product.with_supply((product.current_supply + 1) as u64);
        assert(spec_buy(product, now, None, None, None, referrer, buyer, accounts) == Ok::<
            (MerchProduct, Option<MarkerWrite>, Seq<Transfer>),
            BuyError,
        >((next, None, spec_plan(
            product.payments@.map_values(|p: PaymentConfig| p@),
            accounts,
            product.affiliate_commission_bps,
            buyer,
            referrer,
        )->Ok_0)));
        lemma_fixed_supply_exact_count(next, now, referrer, buyer, accounts, n, (k - 1) as u64);
    }
}

} // verus!
