use carbon_pay::{
    initialize_carbon_credits, initialize_project, purchase_carbon_credits, request_offset,
    Address, Authority, ContractError, InitializeCarbonCreditsAccountConstraints,
    InitializeProjectAccountConstraints, Intent, Mint, Platform, PurchaseCarbonCredits, Quote,
    RequestOffset, RequestStatus, TokenAccount,
};

fn addr(n: u8) -> Address {
    Address::new([n; 32])
}

fn admin() -> Address {
    addr(1)
}

fn usd() -> Mint {
    Mint { key: addr(2), decimals: 6 }
}

fn fee_vault() -> Address {
    addr(3)
}

fn ledger_key() -> Address {
    addr(4)
}

fn owner() -> Address {
    addr(5)
}

fn project_key() -> Address {
    addr(6)
}

fn buyer() -> Address {
    addr(8)
}

fn purchase_key() -> Address {
    addr(9)
}

fn ledger_accounts() -> InitializeCarbonCreditsAccountConstraints {
    InitializeCarbonCreditsAccountConstraints {
        admin: admin(),
        usdc_mint: usd(),
        usdc_vault: fee_vault(),
        carbon_credits: ledger_key(),
    }
}

fn project_accounts() -> InitializeProjectAccountConstraints {
    InitializeProjectAccountConstraints {
        project_owner: owner(),
        project: project_key(),
        mint: addr(7),
        vault: addr(20),
        metadata: addr(21),
        master_edition: addr(22),
    }
}

fn purchase_accounts() -> PurchaseCarbonCredits {
    PurchaseCarbonCredits {
        buyer: buyer(),
        project: project_key(),
        project_owner: owner(),
        project_token_account: addr(20),
        purchase_nft_mint: addr(10),
        buyer_nft_account: addr(30),
        buyer_token_account: addr(31),
        purchase: purchase_key(),
        usdc_mint: usd(),
        buyer_usdc_account: addr(32),
        project_owner_usdc_account: addr(33),
        platform_usdc_vault: fee_vault(),
        purchase_metadata: addr(34),
    }
}

fn offset_accounts(original: u8, new: u8) -> RequestOffset {
    RequestOffset {
        offset_requester: buyer(),
        purchase: purchase_key(),
        project: project_key(),
        original_nft_mint: addr(original),
        original_nft_account: TokenAccount {
            key: addr(40),
            mint: addr(original),
            owner: buyer(),
            amount: 1,
        },
        new_nft_mint: addr(new),
        new_nft_account: addr(41),
        new_nft_metadata: addr(42),
    }
}

fn with_ledger() -> Platform {
    let mut platform = Platform::new();
    initialize_carbon_credits(&mut platform, &ledger_accounts(), 254).unwrap();
    platform
}

fn with_project() -> Platform {
    let mut platform = with_ledger();
    initialize_project(
        &mut platform,
        &project_accounts(),
        1000,
        5,
        250,
        "https://example.org/p.json".to_string(),
        "Forest".to_string(),
        "FRST".to_string(),
    )
    .unwrap();
    platform
}

fn with_purchase() -> Platform {
    let mut platform = with_project();
    purchase_carbon_credits(&mut platform, &purchase_accounts(), 200, 1_700_000_000).unwrap();
    platform
}

fn with_first_offset() -> Platform {
    let mut platform = with_purchase();
    request_offset(&mut platform, &offset_accounts(10, 11), 50, "r1".to_string(), 1_700_000_100)
        .unwrap();
    platform
}

fn with_second_offset() -> Platform {
    let mut platform = with_first_offset();
    request_offset(&mut platform, &offset_accounts(11, 12), 150, "r2".to_string(), 1_700_000_200)
        .unwrap();
    platform
}

#[test]
fn initialized_ledger_has_issued_and_retired_nothing() {
    let platform = with_ledger();
    let ledger = platform.ledger().unwrap();
    assert_eq!(ledger.total_credits_issued, 0);
    assert_eq!(ledger.total_credits_offset, 0);
    assert_eq!(ledger.admin, admin());
    assert_eq!(ledger.payment_mint, usd().key);
    assert_eq!(ledger.fee_vault, fee_vault());
    assert_eq!(ledger.key(), ledger_key());
}

#[test]
fn created_project_registers_its_supply() {
    let platform = with_project();
    let project = platform.project(&project_key()).unwrap();
    assert_eq!(project.remaining_supply, 1000);
    assert_eq!(project.total_supply, 1000);
    assert_eq!(project.price_per_unit, 5);
    assert_eq!(project.fee_rate_bps, 250);
    assert!(project.is_active);
    assert_eq!(project.owner, owner());
    assert_eq!(project.issuing_authority, ledger_key());
    assert_eq!(platform.ledger().unwrap().total_credits_issued, 1000);
}

#[test]
fn purchase_splits_the_payment_and_draws_on_the_supply() {
    let mut platform = with_project();
    let done =
        purchase_carbon_credits(&mut platform, &purchase_accounts(), 200, 1_700_000_000).unwrap();
    assert_eq!(done.quote, Quote { total: 1000, fee: 25, to_owner: 975 });
    assert_eq!(platform.project(&project_key()).unwrap().remaining_supply, 800);
    let purchase = platform.purchase(&purchase_key()).unwrap();
    assert_eq!(purchase, done.purchase);
    assert_eq!(purchase.amount, 200);
    assert_eq!(purchase.remaining_amount, 200);
    assert_eq!(purchase.buyer, buyer());
    assert_eq!(purchase.project, project_key());
    assert_eq!(purchase.nft_mint, addr(10));
    assert_eq!(purchase.purchase_date, 1_700_000_000);
    assert_eq!(platform.ledger().unwrap().total_credits_issued, 1000);
}

#[test]
fn partial_offset_rebinds_the_receipt() {
    let mut platform = with_purchase();
    let done = request_offset(
        &mut platform,
        &offset_accounts(10, 11),
        50,
        "r1".to_string(),
        1_700_000_100,
    )
    .unwrap();
    let purchase = platform.purchase(&purchase_key()).unwrap();
    assert_eq!(purchase.remaining_amount, 150);
    assert_eq!(purchase.amount, 200);
    assert_eq!(purchase.nft_mint, addr(11));
    assert_eq!(platform.ledger().unwrap().total_credits_offset, 50);
    assert_eq!(
        done.intents,
        vec![
            Intent::Burn {
                mint: addr(10),
                from: addr(40),
                authority: Authority::Caller(buyer()),
                amount: 1,
            },
            Intent::MintTo {
                mint: addr(11),
                to: addr(41),
                authority: Authority::Caller(buyer()),
                amount: 1,
            },
            Intent::CreateMetadata {
                metadata: addr(42),
                mint: addr(11),
                mint_authority: Authority::Caller(buyer()),
                payer: buyer(),
                update_authority: Authority::Caller(buyer()),
            },
        ]
    );
    let descriptor = done.descriptor.unwrap();
    assert_eq!(descriptor.name, "CRBN-150");
    assert_eq!(descriptor.symbol, "CRBN");
    assert_eq!(
        descriptor.uri,
        "https://carbonpay.com/id/k7FaK87WHGVXzkaoHb7CdVPgkKDQhZ29VLDeBVbDfYn"
    );
    assert_eq!(descriptor.seller_fee_basis_points, 0);
    assert_eq!(descriptor.creator, buyer());
    assert!(descriptor.creator_verified);
    assert_eq!(done.request.amount, 50);
    assert_eq!(done.request.request_id, "r1");
    assert_eq!(done.request.status, RequestStatus::Pending);
    assert_eq!(done.request.offset_requester, buyer());
    assert_eq!(done.request.purchase, purchase_key());
    assert_eq!(done.request.project, project_key());
    assert_eq!(done.request.request_date, 1_700_000_100);
    assert_eq!(done.request.processed_date, 0);
    assert_eq!(done.request.processor, None);
    assert_eq!(
        platform.offset_request(&buyer(), &purchase_key(), &"r1".to_string()),
        Some(done.request)
    );
}

#[test]
fn full_offset_mints_no_new_receipt() {
    let mut platform = with_first_offset();
    let done = request_offset(
        &mut platform,
        &offset_accounts(11, 12),
        150,
        "r2".to_string(),
        1_700_000_200,
    )
    .unwrap();
    let purchase = platform.purchase(&purchase_key()).unwrap();
    assert_eq!(purchase.remaining_amount, 0);
    assert_eq!(purchase.nft_mint, addr(11));
    assert_eq!(platform.ledger().unwrap().total_credits_offset, 200);
    assert_eq!(
        done.intents,
        vec![Intent::Burn {
            mint: addr(11),
            from: addr(40),
            authority: Authority::Caller(buyer()),
            amount: 1,
        }]
    );
    assert_eq!(done.descriptor, None);
    assert_eq!(platform.offset_request_count(), 2);
}

#[test]
fn repeated_request_id_collides_and_changes_nothing() {
    let mut platform = with_second_offset();
    let before = platform.clone();
    let again = request_offset(
        &mut platform,
        &offset_accounts(10, 11),
        50,
        "r1".to_string(),
        1_700_000_100,
    );
    assert_eq!(again, Err(ContractError::OffsetRequestExists));
    assert_eq!(platform, before);
    let first = platform.offset_request(&buyer(), &purchase_key(), &"r1".to_string()).unwrap();
    assert_eq!(first.amount, 50);
    assert_eq!(first.request_date, 1_700_000_100);
}

#[test]
fn repeated_request_id_collides_right_after_the_first_request() {
    let mut platform = with_first_offset();
    let before = platform.clone();
    let again = request_offset(
        &mut platform,
        &offset_accounts(11, 12),
        10,
        "r1".to_string(),
        1_700_000_300,
    );
    assert_eq!(again, Err(ContractError::OffsetRequestExists));
    assert_eq!(platform, before);
}

#[test]
fn totals_are_conserved_through_the_scenario() {
    let platform = with_second_offset();
    let ledger = platform.ledger().unwrap();
    let project = platform.project(&project_key()).unwrap();
    let purchase = platform.purchase(&purchase_key()).unwrap();
    let r1 = platform.offset_request(&buyer(), &purchase_key(), &"r1".to_string()).unwrap();
    let r2 = platform.offset_request(&buyer(), &purchase_key(), &"r2".to_string()).unwrap();
    assert_eq!(platform.project_count(), 1);
    assert_eq!(platform.purchase_count(), 1);
    assert_eq!(platform.offset_request_count(), 2);
    assert_eq!(ledger.total_credits_issued, project.total_supply);
    assert_eq!(project.total_supply - project.remaining_supply, purchase.amount);
    assert_eq!(purchase.amount - purchase.remaining_amount, r1.amount + r2.amount);
    assert_eq!(ledger.total_credits_offset, r1.amount + r2.amount);
}

#[test]
fn offset_request_stays_pending() {
    let platform = with_second_offset();
    let r1 = platform.offset_request(&buyer(), &purchase_key(), &"r1".to_string()).unwrap();
    let r2 = platform.offset_request(&buyer(), &purchase_key(), &"r2".to_string()).unwrap();
    assert_eq!(r1.status, RequestStatus::Pending);
    assert_eq!(r2.status, RequestStatus::Pending);
    assert_eq!(r1.processor, None);
    assert_eq!(r2.processed_date, 0);
}
