use foster_studio::configure::{
    configure_product, delete_product, settle_backing_balance, RentSchedule, Settlement,
};
use foster_studio::errors::FosterStudioError;
use foster_studio::state::{MaxSupply, MerchProduct, MerchProductConfig, PaymentConfig, Pubkey};

fn key(value: u64) -> Pubkey {
    Pubkey { value }
}

fn full_patch() -> MerchProductConfig {
    MerchProductConfig {
        authority: Some(key(11)),
        name: Some(String::from("tour shirt")),
        uri: Some(String::from("https://merch.example/shirt.json")),
        category: Some(String::from("apparel")),
        max_supply: Some(MaxSupply::Fixed(10)),
        sale_start_at: Some(Some(1_000)),
        sale_end_at: Some(Some(2_000)),
        linked_master_nft: Some(Some(key(77))),
        claims_per_edition: Some(3),
        payments: Some(vec![PaymentConfig {
            tag: String::from("base"),
            mint: key(0),
            amount: 100,
            recipient: key(21),
        }]),
        affiliate_commission_bps: Some(500),
    }
}

fn empty_patch() -> MerchProductConfig {
    MerchProductConfig {
        authority: None,
        name: None,
        uri: None,
        category: None,
        max_supply: None,
        sale_start_at: None,
        sale_end_at: None,
        linked_master_nft: None,
        claims_per_edition: None,
        payments: None,
        affiliate_commission_bps: None,
    }
}

fn rent() -> RentSchedule {
    RentSchedule { base: 890_880, per_byte: 6_960 }
}

#[test]
fn creation_missing_authority_fails() {
    let mut patch = full_patch();
    patch.authority = None;
    let r = configure_product(None, patch, key(11), key(1), 0, &rent());
    assert_eq!(r, Err(FosterStudioError::MissingData));
}

#[test]
fn creation_missing_name_fails() {
    let mut patch = full_patch();
    patch.name = None;
    let r = configure_product(None, patch, key(11), key(1), 0, &rent());
    assert_eq!(r, Err(FosterStudioError::MissingData));
}

#[test]
fn creation_missing_uri_fails() {
    let mut patch = full_patch();
    patch.uri = None;
    let r = configure_product(None, patch, key(11), key(1), 0, &rent());
    assert_eq!(r, Err(FosterStudioError::MissingData));
}

#[test]
fn creation_missing_category_fails() {
    let mut patch = full_patch();
    patch.category = None;
    let r = configure_product(None, patch, key(11), key(1), 0, &rent());
    assert_eq!(r, Err(FosterStudioError::MissingData));
}

#[test]
fn creation_missing_payments_fails() {
    let mut patch = full_patch();
    patch.payments = None;
    let r = configure_product(None, patch, key(11), key(1), 0, &rent());
    assert_eq!(r, Err(FosterStudioError::MissingData));
}

#[test]
fn creation_roundtrips_field_for_field() {
    let out = configure_product(None, full_patch(), key(11), key(1), 0, &rent()).unwrap();
    assert!(out.created);
    let p = &out.record;
    assert_eq!(p.id, key(1));
    assert_eq!(p.authority, key(11));
    assert_eq!(p.name, "tour shirt");
    assert_eq!(p.uri, "https://merch.example/shirt.json");
    assert_eq!(p.category, "apparel");
    assert_eq!(p.current_supply, 0);
    assert_eq!(p.max_supply, MaxSupply::Fixed(10));
    assert_eq!(p.sale_start_at, Some(1_000));
    assert_eq!(p.sale_end_at, Some(2_000));
    assert_eq!(p.linked_master_nft, Some(key(77)));
    assert_eq!(p.claims_per_edition, 3);
    assert_eq!(p.payments.len(), 1);
    assert_eq!(p.affiliate_commission_bps, 500);

    let reread = foster_studio::codec::decode_product(&out.serialized).unwrap();
    assert_eq!(&reread, p);
}

#[test]
fn creation_defaults_for_absent_optional_fields() {
    let mut patch = full_patch();
    patch.max_supply = None;
    patch.sale_start_at = None;
    patch.sale_end_at = None;
    patch.linked_master_nft = None;
    patch.claims_per_edition = None;
    patch.affiliate_commission_bps = None;
    let out = configure_product(None, patch, key(11), key(1), 0, &rent()).unwrap();
    let p = out.record;
    assert_eq!(p.max_supply, MaxSupply::Unbounded);
    assert_eq!(p.sale_start_at, None);
    assert_eq!(p.sale_end_at, None);
    assert_eq!(p.linked_master_nft, None);
    assert_eq!(p.claims_per_edition, 0);
    assert_eq!(p.affiliate_commission_bps, 0);
    assert_eq!(p.current_supply, 0);
}

#[test]
fn update_by_non_authority_fails() {
    let out = configure_product(None, full_patch(), key(11), key(1), 0, &rent()).unwrap();
    let record = out.record.clone();
    let mut patch = empty_patch();
    patch.name = Some(String::from("renamed"));
    let r = configure_product(Some(record.clone()), patch, key(999), key(1), 0, &rent());
    assert_eq!(r, Err(FosterStudioError::IncorrectAuthority));
    // The engine returned no outcome, so the stored record stays as created.
    assert_eq!(record, out.record);
}

#[test]
fn update_overwrites_present_fields_and_keeps_absent_ones() {
    let mut created = configure_product(None, full_patch(), key(11), key(1), 0, &rent()).unwrap();
    created.record.current_supply = 4;
    let mut patch = empty_patch();
    patch.name = Some(String::from("renamed"));
    patch.claims_per_edition = Some(9);
    let out =
        configure_product(Some(created.record), patch, key(11), key(1), 0, &rent()).unwrap();
    let p = out.record;
    assert!(!out.created);
    assert_eq!(p.name, "renamed");
    assert_eq!(p.claims_per_edition, 9);
    // untouched fields survive, and the supply counter is never touched
    assert_eq!(p.uri, "https://merch.example/shirt.json");
    assert_eq!(p.current_supply, 4);
    assert_eq!(p.authority, key(11));
}

#[test]
fn settlement_is_exact_in_both_directions() {
    assert_eq!(settle_backing_balance(100, 130), Settlement::ChargePayer { amount: 30 });
    assert_eq!(settle_backing_balance(130, 100), Settlement::RefundPayer { amount: 30 });
    assert_eq!(settle_backing_balance(100, 100), Settlement::NoChange);
}

#[test]
fn resize_settles_exactly_the_rent_delta() {
    let rent = rent();
    let created = configure_product(None, full_patch(), key(11), key(1), 0, &rent).unwrap();
    let old_len = created.serialized.len() as u64;
    let funded = rent.base + rent.per_byte * old_len;
    assert_eq!(
        created.settlement,
        Settlement::ChargePayer { amount: funded },
        "creation charges the full minimum for the initial size"
    );

    // Shrink the record by renaming it to something shorter.
    let mut patch = empty_patch();
    patch.name = Some(String::from("t"));
    let shrunk =
        configure_product(Some(created.record.clone()), patch, key(11), key(1), funded, &rent)
            .unwrap();
    let new_len = shrunk.serialized.len() as u64;
    assert!(new_len < old_len);
    let d = old_len - new_len;
    assert_eq!(
        shrunk.settlement,
        Settlement::RefundPayer { amount: rent.per_byte * d },
        "shrinking refunds exactly the per-byte delta"
    );

    // Grow it back past the original size.
    let mut patch = empty_patch();
    patch.name = Some(String::from("tour shirt, extended edition"));
    let grown =
        configure_product(Some(created.record.clone()), patch, key(11), key(1), funded, &rent)
            .unwrap();
    let grown_len = grown.serialized.len() as u64;
    assert!(grown_len > old_len);
    let d = grown_len - old_len;
    assert_eq!(grown.settlement, Settlement::ChargePayer { amount: rent.per_byte * d });

    // An update that keeps the size moves nothing.
    let same = configure_product(Some(created.record), empty_patch(), key(11), key(1), funded, &rent)
        .unwrap();
    assert_eq!(same.serialized.len() as u64, old_len);
    assert_eq!(same.settlement, Settlement::NoChange);
}

#[test]
fn delete_requires_the_stored_authority() {
    let out = configure_product(None, full_patch(), key(11), key(1), 0, &rent()).unwrap();
    assert_eq!(delete_product(&out.record, key(999), 5_000), Err(FosterStudioError::IncorrectAuthority));
    assert_eq!(delete_product(&out.record, key(11), 5_000), Ok(5_000));
}

fn product_for_codec() -> MerchProduct {
    configure_product(None, full_patch(), key(11), key(1), 0, &rent()).unwrap().record
}

#[test]
fn serialize_method_matches_decoder() {
    let p = product_for_codec();
    let bytes = p.serialize();
    assert_eq!(foster_studio::codec::decode_product(&bytes), Some(p));
}
