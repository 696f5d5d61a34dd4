use trusttrove::errors::{InvoiceError, PoolError};

#[test]
fn invoice_error_codes() {
    assert_eq!(InvoiceError::AlreadyInitialized.code(), 1);
    assert_eq!(InvoiceError::NotFound.code(), 2);
    assert_eq!(InvoiceError::NotAuthorized.code(), 3);
    assert_eq!(InvoiceError::IssuerNotVerified.code(), 4);
    assert_eq!(InvoiceError::BuyerNotVerified.code(), 5);
    assert_eq!(InvoiceError::InvalidFaceValue.code(), 6);
    assert_eq!(InvoiceError::InvalidDueDate.code(), 7);
    assert_eq!(InvoiceError::InvalidStatusTransition.code(), 8);
    assert_eq!(InvoiceError::DiscountTooHigh.code(), 9);
    assert_eq!(InvoiceError::AlreadyConfirmed.code(), 10);
    assert_eq!(InvoiceError::DueDateNotPassed.code(), 11);
    assert_eq!(InvoiceError::InsufficientRepayment.code(), 12);
    assert_eq!(InvoiceError::UnsupportedAsset.code(), 13);
}

#[test]
fn pool_error_codes() {
    assert_eq!(PoolError::AlreadyInitialized.code(), 1);
    assert_eq!(PoolError::NotFound.code(), 2);
    assert_eq!(PoolError::NotAuthorized.code(), 3);
    assert_eq!(PoolError::InvalidAmount.code(), 4);
    assert_eq!(PoolError::InsufficientLiquidity.code(), 5);
    assert_eq!(PoolError::NoShares.code(), 6);
    assert_eq!(PoolError::InsufficientShares.code(), 7);
    assert_eq!(PoolError::InvoiceNotListed.code(), 8);
    assert_eq!(PoolError::AlreadyFunded.code(), 9);
    assert_eq!(PoolError::InvoiceNotFound.code(), 10);
    assert_eq!(PoolError::AssetMismatch.code(), 11);
}

#[test]
fn pool_errors_reported_by_the_pool_tests() {
    assert_eq!(PoolError::from_code(4), Some(PoolError::InvalidAmount));
    assert_eq!(PoolError::from_code(5), Some(PoolError::InsufficientLiquidity));
    assert_eq!(PoolError::from_code(7), Some(PoolError::InsufficientShares));
    assert_eq!(PoolError::from_code(11), Some(PoolError::AssetMismatch));
}

#[test]
fn codes_round_trip() {
    for code in 1u32..=13 {
        let e = InvoiceError::from_code(code).unwrap();
        assert_eq!(e.code(), code);
    }
    for code in 1u32..=11 {
        let e = PoolError::from_code(code).unwrap();
        assert_eq!(e.code(), code);
    }
}

#[test]
fn codes_outside_the_range_are_no_error() {
    assert_eq!(InvoiceError::from_code(0), None);
    assert_eq!(InvoiceError::from_code(14), None);
    assert_eq!(PoolError::from_code(0), None);
    assert_eq!(PoolError::from_code(12), None);
    assert_eq!(PoolError::from_code(u32::MAX), None);
}
