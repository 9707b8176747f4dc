use carbon_pay::{Address, Capability, CarbonCredits, ContractError, ErrorClass, ErrorCode};

fn addr(n: u8) -> Address {
    Address::new([n; 32])
}

fn ledger() -> CarbonCredits {
    CarbonCredits::initialize(addr(1), addr(2), addr(3), Capability::new(addr(4), 253))
}

#[test]
fn addresses_compare_by_their_bytes() {
    assert_eq!(addr(1), addr(1));
    assert_ne!(addr(1), addr(2));
    let mut bytes = [1u8; 32];
    bytes[31] = 2;
    assert_ne!(Address::new(bytes), addr(1));
    assert_eq!(Address::new(bytes).to_bytes(), bytes);
}

#[test]
fn new_ledger_starts_at_zero() {
    let ledger = ledger();
    assert_eq!(ledger.total_credits_issued, 0);
    assert_eq!(ledger.total_credits_offset, 0);
    assert_eq!(ledger.key(), addr(4));
    assert_eq!(ledger.capability.address(), addr(4));
}

#[test]
fn capability_signs_with_namespace_and_seed() {
    assert_eq!(
        ledger().capability.signer_seeds(),
        vec![b"carbon_credits".to_vec(), vec![253u8]]
    );
}

#[test]
fn add_project_credits_adds() {
    let mut ledger = ledger();
    assert_eq!(ledger.add_project_credits(1000), Ok(()));
    assert_eq!(ledger.add_project_credits(234), Ok(()));
    assert_eq!(ledger.total_credits_issued, 1234);
    assert_eq!(ledger.total_credits_offset, 0);
}

#[test]
fn add_project_credits_overflow_changes_nothing() {
    let mut ledger = ledger();
    assert_eq!(ledger.add_project_credits(u64::MAX), Ok(()));
    let before = ledger;
    assert_eq!(ledger.add_project_credits(1), Err(ErrorCode::MathOverflow));
    assert_eq!(ledger, before);
    assert_eq!(ledger.add_project_credits(0), Ok(()));
    assert_eq!(ledger.total_credits_issued, u64::MAX);
}

#[test]
fn record_offset_adds() {
    let mut ledger = ledger();
    assert_eq!(ledger.record_offset(50), Ok(()));
    assert_eq!(ledger.record_offset(150), Ok(()));
    assert_eq!(ledger.total_credits_offset, 200);
    assert_eq!(ledger.total_credits_issued, 0);
}

#[test]
fn record_offset_overflow_changes_nothing() {
    let mut ledger = ledger();
    assert_eq!(ledger.record_offset(u64::MAX - 1), Ok(()));
    let before = ledger;
    assert_eq!(ledger.record_offset(2), Err(ErrorCode::MathOverflow));
    assert_eq!(ledger, before);
    assert_eq!(ledger.record_offset(1), Ok(()));
    assert_eq!(ledger.total_credits_offset, u64::MAX);
}

#[test]
fn ledger_codes_lift_to_operation_codes() {
    assert_eq!(
        ContractError::from_ledger(ErrorCode::UnauthorizedAdmin),
        ContractError::UnauthorizedAdmin
    );
    assert_eq!(ContractError::from_ledger(ErrorCode::InvalidAmount), ContractError::InvalidAmount);
    assert_eq!(ContractError::from_ledger(ErrorCode::MathOverflow), ContractError::MathOverflow);
}

#[test]
fn every_code_has_its_class() {
    let authorization = [
        ContractError::UnauthorizedAdmin,
        ContractError::InvalidProjectOwner,
        ContractError::InvalidPlatformAuthority,
        ContractError::NotPurchaseOwner,
    ];
    let validation = [
        ContractError::InvalidAmount,
        ContractError::ProjectInactive,
        ContractError::InsufficientTokens,
        ContractError::InsufficientRemainingTokens,
        ContractError::InvalidProject,
        ContractError::InvalidPurchase,
        ContractError::InvalidNFTAccount,
        ContractError::InvalidNFTMint,
        ContractError::InvalidPaymentAssetDescriptor,
        ContractError::RequestIdTooLong,
    ];
    let conflict = [
        ContractError::AlreadyInitialized,
        ContractError::ProjectExists,
        ContractError::PurchaseExists,
        ContractError::OffsetRequestExists,
    ];
    for code in authorization {
        assert_eq!(code.class(), ErrorClass::Authorization);
    }
    for code in validation {
        assert_eq!(code.class(), ErrorClass::Validation);
    }
    assert_eq!(ContractError::MathOverflow.class(), ErrorClass::Arithmetic);
    for code in conflict {
        assert_eq!(code.class(), ErrorClass::StateConflict);
    }
}
