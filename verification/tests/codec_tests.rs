use foster_studio::codec::decode_product;
use foster_studio::state::{MaxSupply, MerchProduct, PaymentConfig, Pubkey};

fn key(value: u64) -> Pubkey {
    Pubkey { value }
}

fn full_product() -> MerchProduct {
    MerchProduct {
        id: key(u64::MAX),
        authority: key(11),
        name: String::from("gira mundial \u{2014} camiseta \u{1F3B8}"),
        uri: String::from("https://merch.example/shirt.json"),
        category: String::from(""),
        current_supply: 3,
        max_supply: MaxSupply::Fixed(10),
        sale_start_at: Some(-62_135_596_800),
        sale_end_at: Some(253_402_300_799),
        linked_master_nft: Some(key(77)),
        claims_per_edition: 3,
        payments: vec![
            PaymentConfig { tag: String::from("base"), mint: key(0), amount: 100, recipient: key(21) },
            PaymentConfig { tag: String::from("tokens"), mint: key(40), amount: u64::MAX, recipient: key(22) },
        ],
        affiliate_commission_bps: 500,
    }
}

fn minimal_product() -> MerchProduct {
    MerchProduct {
        id: key(0),
        authority: key(0),
        name: String::new(),
        uri: String::new(),
        category: String::new(),
        current_supply: 0,
        max_supply: MaxSupply::Unbounded,
        sale_start_at: None,
        sale_end_at: None,
        linked_master_nft: None,
        claims_per_edition: 0,
        payments: vec![],
        affiliate_commission_bps: 0,
    }
}

#[test]
fn full_record_round_trips() {
    let p = full_product();
    let bytes = p.serialize();
    assert_eq!(decode_product(&bytes), Some(p));
}

#[test]
fn minimal_record_round_trips() {
    let p = minimal_product();
    let bytes = p.serialize();
    assert_eq!(decode_product(&bytes), Some(p));
}

#[test]
fn mirror_supply_variant_round_trips() {
    let mut p = minimal_product();
    p.max_supply = MaxSupply::MirrorExternalEdition;
    let bytes = p.serialize();
    assert_eq!(decode_product(&bytes), Some(p));
}

#[test]
fn trailing_bytes_are_rejected() {
    let mut bytes = full_product().serialize();
    bytes.push(0);
    assert_eq!(decode_product(&bytes), None);
}

#[test]
fn truncated_bytes_are_rejected() {
    let bytes = full_product().serialize();
    for cut in [0, 1, 8, bytes.len() / 2, bytes.len() - 1] {
        assert_eq!(decode_product(&bytes[..cut]), None, "cut at {cut}");
    }
}

#[test]
fn an_unknown_variant_tag_is_rejected() {
    let p = minimal_product();
    let mut bytes = p.serialize();
    // The supply-cap tag byte sits after two keys, three empty strings and
    // the supply counter.
    let tag_at = 8 + 8 + 4 + 4 + 4 + 8;
    assert_eq!(bytes[tag_at], 0);
    bytes[tag_at] = 9;
    assert_eq!(decode_product(&bytes), None);
}

#[test]
fn invalid_utf8_in_a_text_field_is_rejected() {
    let p = minimal_product();
    let mut bytes = p.serialize();
    // Grow the name's length prefix to one byte and splice in an invalid one.
    let name_len_at = 8 + 8;
    bytes[name_len_at] = 1;
    bytes.insert(name_len_at + 4, 0xFF);
    assert_eq!(decode_product(&bytes), None);
}

#[test]
fn serialization_is_injective_on_differing_records() {
    let a = full_product().serialize();
    let mut other = full_product();
    other.current_supply += 1;
    let b = other.serialize();
    assert_ne!(a, b);
}
