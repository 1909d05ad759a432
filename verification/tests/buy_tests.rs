use foster_studio::buy::{
    buy_product, leg_commission, plan_payments, BuyError, Transfer, TransferKind,
};
use foster_studio::errors::FosterStudioError;
use foster_studio::state::{
    ClaimMarker, EditionAccount, MarkerWrite, MasterEdition, MaxSupply, MerchProduct,
    PaymentConfig, Pubkey,
};

fn key(value: u64) -> Pubkey {
    Pubkey { value }
}

fn native() -> Pubkey {
    Pubkey { value: 0 }
}

fn native_leg(amount: u64, recipient: Pubkey) -> PaymentConfig {
    PaymentConfig { tag: String::from("base"), mint: native(), amount, recipient }
}

fn token_leg(mint: Pubkey, amount: u64, recipient: Pubkey) -> PaymentConfig {
    PaymentConfig { tag: String::from("tokens"), mint, amount, recipient }
}

fn product(payments: Vec<PaymentConfig>) -> MerchProduct {
    MerchProduct {
        id: key(1),
        authority: key(11),
        name: String::from("tour shirt"),
        uri: String::from("https://merch.example/shirt.json"),
        category: String::from("apparel"),
        current_supply: 0,
        max_supply: MaxSupply::Unbounded,
        sale_start_at: None,
        sale_end_at: None,
        linked_master_nft: None,
        claims_per_edition: 0,
        payments,
        affiliate_commission_bps: 500,
    }
}

fn buyer() -> Pubkey {
    key(500)
}

fn recipient() -> Pubkey {
    key(21)
}

fn referrer() -> Pubkey {
    key(600)
}

#[test]
fn sale_not_started_leaves_supply_unchanged() {
    let mut p = product(vec![]);
    p.sale_start_at = Some(1_000);
    let r = buy_product(&mut p, 999, None, None, None, None, buyer(), &vec![]);
    assert_eq!(r, Err(BuyError::Product(FosterStudioError::SaleNotStarted)));
    assert_eq!(p.current_supply, 0);
    // The bound is inclusive: at the start instant the sale is live.
    let r = buy_product(&mut p, 1_000, None, None, None, None, buyer(), &vec![]);
    assert!(r.is_ok());
    assert_eq!(p.current_supply, 1);
}

#[test]
fn sale_ended_leaves_supply_unchanged() {
    let mut p = product(vec![]);
    p.sale_end_at = Some(2_000);
    let r = buy_product(&mut p, 2_001, None, None, None, None, buyer(), &vec![]);
    assert_eq!(r, Err(BuyError::Product(FosterStudioError::SaleEnded)));
    assert_eq!(p.current_supply, 0);
    // The bound is inclusive: at the end instant the sale is still live.
    let r = buy_product(&mut p, 2_000, None, None, None, None, buyer(), &vec![]);
    assert!(r.is_ok());
    assert_eq!(p.current_supply, 1);
}

#[test]
fn fixed_supply_allows_exactly_n_purchases() {
    let mut p = product(vec![]);
    p.max_supply = MaxSupply::Fixed(2);
    for expected in 1..=2u64 {
        let r = buy_product(&mut p, 0, None, None, None, None, buyer(), &vec![]);
        assert!(r.is_ok());
        assert_eq!(p.current_supply, expected);
    }
    let r = buy_product(&mut p, 0, None, None, None, None, buyer(), &vec![]);
    assert_eq!(r, Err(BuyError::Product(FosterStudioError::NoMoreSupply)));
    assert_eq!(p.current_supply, 2);
}

#[test]
fn mirrored_supply_reads_the_master_edition() {
    let mut p = product(vec![]);
    p.max_supply = MaxSupply::MirrorExternalEdition;
    let master = MasterEdition { address: key(70), supply: 5, max_supply: Some(5) };
    let r = buy_product(&mut p, 0, Some(&master), None, None, None, buyer(), &vec![]);
    assert_eq!(r, Err(BuyError::Product(FosterStudioError::NoMoreSupply)));
    let open_master = MasterEdition { address: key(70), supply: 5, max_supply: None };
    let r = buy_product(&mut p, 0, Some(&open_master), None, None, None, buyer(), &vec![]);
    assert!(r.is_ok());
}

#[test]
fn mirrored_supply_without_master_fails() {
    let mut p = product(vec![]);
    p.max_supply = MaxSupply::MirrorExternalEdition;
    let r = buy_product(&mut p, 0, None, None, None, None, buyer(), &vec![]);
    assert_eq!(r, Err(BuyError::Product(FosterStudioError::MissingMasterEdition)));
}

fn linked_product() -> (MerchProduct, MasterEdition, EditionAccount) {
    let mut p = product(vec![]);
    p.linked_master_nft = Some(key(77));
    p.claims_per_edition = 2;
    let master = MasterEdition { address: key(70), supply: 0, max_supply: None };
    let edition = EditionAccount { address: key(71), parent: key(70) };
    (p, master, edition)
}

#[test]
fn linked_product_demands_all_edition_accounts() {
    let (mut p, master, edition) = linked_product();
    let r = buy_product(&mut p, 0, None, Some(&edition), Some(ClaimMarker::Uncreated), None, buyer(), &vec![]);
    assert_eq!(r, Err(BuyError::Product(FosterStudioError::MissingMasterEdition)));
    let r = buy_product(&mut p, 0, Some(&master), None, Some(ClaimMarker::Uncreated), None, buyer(), &vec![]);
    assert_eq!(r, Err(BuyError::Product(FosterStudioError::MissingEdition)));
    let r = buy_product(&mut p, 0, Some(&master), Some(&edition), None, None, buyer(), &vec![]);
    assert_eq!(r, Err(BuyError::Product(FosterStudioError::MissingClaimMarker)));
    assert_eq!(p.current_supply, 0);
}

#[test]
fn edition_with_foreign_parent_is_rejected() {
    let (mut p, master, _) = linked_product();
    let foreign = EditionAccount { address: key(71), parent: key(999) };
    let r = buy_product(&mut p, 0, Some(&master), Some(&foreign), Some(ClaimMarker::Uncreated), None, buyer(), &vec![]);
    assert_eq!(r, Err(BuyError::Product(FosterStudioError::AccountMismatch)));
}

#[test]
fn claims_per_edition_caps_the_marker_counter() {
    let (mut p, master, edition) = linked_product();

    // First purchase creates the marker and counts one claim.
    let r = buy_product(&mut p, 0, Some(&master), Some(&edition), Some(ClaimMarker::Uncreated), None, buyer(), &vec![]).unwrap();
    assert_eq!(r.marker_write, Some(MarkerWrite { created: true, new_count: 1 }));
    assert_eq!(p.current_supply, 1);

    // Second purchase against the same edition instance reads the counter back.
    let r = buy_product(&mut p, 0, Some(&master), Some(&edition), Some(ClaimMarker::Created { count: 1 }), None, buyer(), &vec![]).unwrap();
    assert_eq!(r.marker_write, Some(MarkerWrite { created: false, new_count: 2 }));
    assert_eq!(p.current_supply, 2);

    // The third would pass the cap of two: it fails and writes nothing.
    let r = buy_product(&mut p, 0, Some(&master), Some(&edition), Some(ClaimMarker::Created { count: 2 }), None, buyer(), &vec![]);
    assert_eq!(r, Err(BuyError::Product(FosterStudioError::NoMoreClaims)));
    assert_eq!(p.current_supply, 2);
}

#[test]
fn duplicate_attempts_on_the_last_claim_slot_commit_once() {
    let (p, master, edition) = linked_product();
    // Both duplicates observe the marker at one claim below the cap; the host
    // serializes them.  Whichever commits first writes the cap value.
    let mut first = p.clone();
    let r = buy_product(&mut first, 0, Some(&master), Some(&edition), Some(ClaimMarker::Created { count: 1 }), None, buyer(), &vec![]).unwrap();
    assert_eq!(r.marker_write, Some(MarkerWrite { created: false, new_count: 2 }));
    // The loser then observes the written counter and is rejected outright.
    let mut second = first.clone();
    let r = buy_product(&mut second, 0, Some(&master), Some(&edition), Some(ClaimMarker::Created { count: 2 }), None, buyer(), &vec![]);
    assert_eq!(r, Err(BuyError::Product(FosterStudioError::NoMoreClaims)));
    assert_eq!(second.current_supply, first.current_supply);
}

#[test]
fn unlimited_claims_when_cap_is_zero() {
    let (mut p, master, edition) = linked_product();
    p.claims_per_edition = 0;
    let r = buy_product(&mut p, 0, Some(&master), Some(&edition), Some(ClaimMarker::Created { count: 41 }), None, buyer(), &vec![]).unwrap();
    assert_eq!(r.marker_write, Some(MarkerWrite { created: false, new_count: 42 }));
}

#[test]
fn native_leg_with_referrer_moves_amount_and_commission() {
    let mut p = product(vec![native_leg(100, recipient())]);
    let accounts = vec![recipient()];
    let r = buy_product(&mut p, 0, None, None, None, Some(referrer()), buyer(), &accounts).unwrap();
    assert_eq!(
        r.transfers,
        vec![
            Transfer { kind: TransferKind::Native, from: buyer(), to: recipient(), amount: 100 },
            Transfer { kind: TransferKind::Native, from: buyer(), to: referrer(), amount: 5 },
        ]
    );
}

#[test]
fn native_leg_without_referrer_moves_only_the_amount() {
    let mut p = product(vec![native_leg(100, recipient())]);
    let accounts = vec![recipient()];
    let r = buy_product(&mut p, 0, None, None, None, None, buyer(), &accounts).unwrap();
    assert_eq!(
        r.transfers,
        vec![Transfer { kind: TransferKind::Native, from: buyer(), to: recipient(), amount: 100 }]
    );
}

#[test]
fn native_leg_rejects_a_recipient_mismatch() {
    let mut p = product(vec![native_leg(100, recipient())]);
    let accounts = vec![key(999)];
    let r = buy_product(&mut p, 0, None, None, None, None, buyer(), &accounts);
    assert_eq!(r, Err(BuyError::Product(FosterStudioError::AccountMismatch)));
    assert_eq!(p.current_supply, 0);
}

#[test]
fn token_leg_consumes_source_destination_and_referrer_holding() {
    let mint = key(40);
    let from_holding = key(51);
    let to_holding = key(52);
    let referrer_holding = key(53);
    let mut p = product(vec![token_leg(mint, 80, recipient())]);
    let accounts = vec![from_holding, to_holding, referrer_holding];
    let r = buy_product(&mut p, 0, None, None, None, Some(referrer()), buyer(), &accounts).unwrap();
    assert_eq!(
        r.transfers,
        vec![
            Transfer { kind: TransferKind::Fungible { mint }, from: from_holding, to: to_holding, amount: 80 },
            Transfer { kind: TransferKind::Fungible { mint }, from: from_holding, to: referrer_holding, amount: 4 },
        ]
    );
}

#[test]
fn missing_auxiliary_accounts_are_a_boundary_error() {
    let mint = key(40);
    let mut p = product(vec![token_leg(mint, 80, recipient())]);
    // A fungible leg with a referrer needs three accounts; two are supplied.
    let accounts = vec![key(51), key(52)];
    let r = buy_product(&mut p, 0, None, None, None, Some(referrer()), buyer(), &accounts);
    assert_eq!(r, Err(BuyError::NotEnoughPaymentAccounts));
    let r = buy_product(&mut p, 0, None, None, None, None, buyer(), &vec![key(51)]);
    assert_eq!(r, Err(BuyError::NotEnoughPaymentAccounts));
}

#[test]
fn legs_execute_in_declared_order() {
    let mint = key(40);
    let mut p = product(vec![native_leg(100, recipient()), token_leg(mint, 80, recipient())]);
    let accounts = vec![recipient(), key(51), key(52)];
    let r = buy_product(&mut p, 0, None, None, None, None, buyer(), &accounts).unwrap();
    assert_eq!(r.transfers.len(), 2);
    assert_eq!(r.transfers[0].kind, TransferKind::Native);
    assert_eq!(r.transfers[1].kind, TransferKind::Fungible { mint });
}

#[test]
fn commission_is_the_floor_of_basis_points_per_leg() {
    assert_eq!(leg_commission(100, 500), 5);
    assert_eq!(leg_commission(99, 500), 4);
    assert_eq!(leg_commission(1, 9_999), 0);
    assert_eq!(leg_commission(0, 10_000), 0);
    assert_eq!(leg_commission(u64::MAX, 10_000), u64::MAX);
}

#[test]
fn plan_payments_alone_reports_the_same_plan() {
    let legs = vec![native_leg(100, recipient())];
    let accounts = vec![recipient()];
    let r = plan_payments(&legs, 500, buyer(), Some(referrer()), &accounts).unwrap();
    assert_eq!(r.len(), 2);
    assert_eq!(r[1].amount, 5);
}
