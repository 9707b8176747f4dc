use carbon_pay::{quote, ContractError, Quote};

#[test]
fn quote_splits_by_basis_points() {
    assert_eq!(quote(200, 5, 250), Ok(Quote { total: 1000, fee: 25, to_owner: 975 }));
}

#[test]
fn quote_rounds_the_fee_down() {
    assert_eq!(quote(3, 33, 250), Ok(Quote { total: 99, fee: 2, to_owner: 97 }));
    assert_eq!(quote(1, 39, 250), Ok(Quote { total: 39, fee: 0, to_owner: 39 }));
}

#[test]
fn quote_with_no_fee_pays_the_owner_everything() {
    assert_eq!(quote(7, 11, 0), Ok(Quote { total: 77, fee: 0, to_owner: 77 }));
}

#[test]
fn quote_with_the_whole_as_fee_pays_the_owner_nothing() {
    assert_eq!(quote(7, 11, 10_000), Ok(Quote { total: 77, fee: 77, to_owner: 0 }));
}

#[test]
fn quote_of_a_free_credit_is_zero() {
    assert_eq!(quote(500, 0, 250), Ok(Quote { total: 0, fee: 0, to_owner: 0 }));
}

#[test]
fn quote_overflows_on_the_total() {
    assert_eq!(quote(u64::MAX, 2, 0), Err(ContractError::MathOverflow));
    assert_eq!(quote(1 << 32, 1 << 32, 250), Err(ContractError::MathOverflow));
}

#[test]
fn quote_overflows_on_the_scaled_total() {
    assert_eq!(quote(u64::MAX / 100, 1, 250), Err(ContractError::MathOverflow));
    assert_eq!(
        quote(u64::MAX / 250, 1, 250),
        Ok(Quote {
            total: 73786976294838206,
            fee: 1844674407370955,
            to_owner: 71942301887467251,
        })
    );
}

#[test]
fn quote_underflows_when_the_fee_exceeds_the_total() {
    assert_eq!(quote(10_000, 1, 10_001), Err(ContractError::MathOverflow));
    assert_eq!(quote(10, 10, 10_001), Ok(Quote { total: 100, fee: 100, to_owner: 0 }));
    assert_eq!(quote(1, 1, 20_000), Err(ContractError::MathOverflow));
    assert_eq!(quote(1, 1, u16::MAX), Err(ContractError::MathOverflow));
}
