use vstd::prelude::*;

verus! {

/// Errors of the invoice contract, each reported with its contract code.
#[derive(Clone, Copy, Debug, PartialEq, Eq, Structural)]
pub enum InvoiceError {
    AlreadyInitialized,
    NotFound,
    NotAuthorized,
    IssuerNotVerified,
    BuyerNotVerified,
    InvalidFaceValue,
    InvalidDueDate,
    InvalidStatusTransition,
    DiscountTooHigh,
    AlreadyConfirmed,
    DueDateNotPassed,
    InsufficientRepayment,
    UnsupportedAsset,
}

/// The contract error code of each variant, as the host reports it (`Error(Contract, #code)`).
pub open spec fn invoice_error_code(e: InvoiceError) -> u32 {
    match e {
        InvoiceError::AlreadyInitialized => 1,
        InvoiceError::NotFound => 2,
        InvoiceError::NotAuthorized => 3,
        InvoiceError::IssuerNotVerified => 4,
        InvoiceError::BuyerNotVerified => 5,
        InvoiceError::InvalidFaceValue => 6,
        InvoiceError::InvalidDueDate => 7,
        InvoiceError::InvalidStatusTransition => 8,
        InvoiceError::DiscountTooHigh => 9,
        InvoiceError::AlreadyConfirmed => 10,
        InvoiceError::DueDateNotPassed => 11,
        InvoiceError::InsufficientRepayment => 12,
        InvoiceError::UnsupportedAsset => 13,
    }
}

/// The error that carries contract code `code`, if any does.
pub open spec fn invoice_error_from_code(code: u32) -> Option<InvoiceError> {
    match code {
        1 => Some(InvoiceError::AlreadyInitialized),
        2 => Some(InvoiceError::NotFound),
        3 => Some(InvoiceError::NotAuthorized),
        4 => Some(InvoiceError::IssuerNotVerified),
        5 => Some(InvoiceError::BuyerNotVerified),
        6 => Some(InvoiceError::InvalidFaceValue),
        7 => Some(InvoiceError::InvalidDueDate),
        8 => Some(InvoiceError::InvalidStatusTransition),
        9 => Some(InvoiceError::DiscountTooHigh),
        10 => Some(InvoiceError::AlreadyConfirmed),
        11 => Some(InvoiceError::DueDateNotPassed),
        12 => Some(InvoiceError::InsufficientRepayment),
        13 => Some(InvoiceError::UnsupportedAsset),
        _ => None,
    }
}

impl InvoiceError {
    /// The contract error code of this error.
    pub fn code(&self) -> (c: u32)
        ensures
            c == invoice_error_code(*self),
    {
        match self {
            InvoiceError::AlreadyInitialized => 1,
            InvoiceError::NotFound => 2,
            InvoiceError::NotAuthorized => 3,
            InvoiceError::IssuerNotVerified => 4,
            InvoiceError::BuyerNotVerified => 5,
            InvoiceError::InvalidFaceValue => 6,
            InvoiceError::InvalidDueDate => 7,
            InvoiceError::InvalidStatusTransition => 8,
            InvoiceError::DiscountTooHigh => 9,
            InvoiceError::AlreadyConfirmed => 10,
            InvoiceError::DueDateNotPassed => 11,
            InvoiceError::InsufficientRepayment => 12,
            InvoiceError::UnsupportedAsset => 13,
        }
    }

    /// The error with contract code `code`; `None` outside 1..=13.
    pub fn from_code(code: u32) -> (r: Option<InvoiceError>)
        ensures
            r == invoice_error_from_code(code),
    {
        match code {
            1 => Some(InvoiceError::AlreadyInitialized),
            2 => Some(InvoiceError::NotFound),
            3 => Some(InvoiceError::NotAuthorized),
            4 => Some(InvoiceError::IssuerNotVerified),
            5 => Some(InvoiceError::BuyerNotVerified),
            6 => Some(InvoiceError::InvalidFaceValue),
            7 => Some(InvoiceError::InvalidDueDate),
            8 => Some(InvoiceError::InvalidStatusTransition),
            9 => Some(InvoiceError::DiscountTooHigh),
            10 => Some(InvoiceError::AlreadyConfirmed),
            11 => Some(InvoiceError::DueDateNotPassed),
            12 => Some(InvoiceError::InsufficientRepayment),
            13 => Some(InvoiceError::UnsupportedAsset),
            _ => None,
        }
    }
}

/// Codes and errors correspond one to one: every error's code lies in 1..=13
/// and leads back to that error, and every code in 1..=13 belongs to the error
/// it leads to; no other code belongs to an error.
pub proof fn lemma_invoice_error_code_round_trip(e: InvoiceError, code: u32)
    ensures
        1 <= invoice_error_code(e) <= 13,
        invoice_error_from_code(invoice_error_code(e)) == Some(e),
        invoice_error_from_code(code) is Some <==> 1 <= code <= 13,
        invoice_error_from_code(code) matches Some(f) ==> invoice_error_code(f) == code,
{
}

/// Errors of the liquidity pool contract, each reported with its contract code.
#[derive(Clone, Copy, Debug, PartialEq, Eq, Structural)]
pub enum PoolError {
    AlreadyInitialized,
    NotFound,
    NotAuthorized,
    InvalidAmount,
    InsufficientLiquidity,
    NoShares,
    InsufficientShares,
    InvoiceNotListed,
    AlreadyFunded,
    InvoiceNotFound,
    AssetMismatch,
}

/// The contract error code of each variant, as the host reports it (`Error(Contract, #code)`).
pub open spec fn pool_error_code(e: PoolError) -> u32 {
    match e {
        PoolError::AlreadyInitialized => 1,
        PoolError::NotFound => 2,
        PoolError::NotAuthorized => 3,
        PoolError::InvalidAmount => 4,
        PoolError::InsufficientLiquidity => 5,
        PoolError::NoShares => 6,
        PoolError::InsufficientShares => 7,
        PoolError::InvoiceNotListed => 8,
        PoolError::AlreadyFunded => 9,
        PoolError::InvoiceNotFound => 10,
        PoolError::AssetMismatch => 11,
    }
}

/// The error that carries contract code `code`, if any does.
pub open spec fn pool_error_from_code(code: u32) -> Option<PoolError> {
    match code {
        1 => Some(PoolError::AlreadyInitialized),
        2 => Some(PoolError::NotFound),
        3 => Some(PoolError::NotAuthorized),
        4 => Some(PoolError::InvalidAmount),
        5 => Some(PoolError::InsufficientLiquidity),
        6 => Some(PoolError::NoShares),
        7 => Some(PoolError::InsufficientShares),
        8 => Some(PoolError::InvoiceNotListed),
        9 => Some(PoolError::AlreadyFunded),
        10 => Some(PoolError::InvoiceNotFound),
        11 => Some(PoolError::AssetMismatch),
        _ => None,
    }
}

impl PoolError {
    /// The contract error code of this error.
    pub fn code(&self) -> (c: u32)
        ensures
            c == pool_error_code(*self),
    {
        match self {
            PoolError::AlreadyInitialized => 1,
            PoolError::NotFound => 2,
            PoolError::NotAuthorized => 3,
            PoolError::InvalidAmount => 4,
            PoolError::InsufficientLiquidity => 5,
            PoolError::NoShares => 6,
            PoolError::InsufficientShares => 7,
            PoolError::InvoiceNotListed => 8,
            PoolError::AlreadyFunded => 9,
            PoolError::InvoiceNotFound => 10,
            PoolError::AssetMismatch => 11,
        }
    }

    /// The error with contract code `code`; `None` outside 1..=11.
    pub fn from_code(code: u32) -> (r: Option<PoolError>)
        ensures
            r == pool_error_from_code(code),
    {
        match code {
            1 => Some(PoolError::AlreadyInitialized),
            2 => Some(PoolError::NotFound),
            3 => Some(PoolError::NotAuthorized),
            4 => Some(PoolError::InvalidAmount),
            5 => Some(PoolError::InsufficientLiquidity),
            6 => Some(PoolError::NoShares),
            7 => Some(PoolError::InsufficientShares),
            8 => Some(PoolError::InvoiceNotListed),
            9 => Some(PoolError::AlreadyFunded),
            10 => Some(PoolError::InvoiceNotFound),
            11 => Some(PoolError::AssetMismatch),
            _ => None,
        }
    }
}

/// Codes and errors correspond one to one: every error's code lies in 1..=11
/// and leads back to that error, and every code in 1..=11 belongs to the error
/// it leads to; no other code belongs to an error.
pub proof fn lemma_pool_error_code_round_trip(e: PoolError, code: u32)
    ensures
        1 <= pool_error_code(e) <= 11,
        pool_error_from_code(pool_error_code(e)) == Some(e),
        pool_error_from_code(code) is Some <==> 1 <= code <= 11,
        pool_error_from_code(code) matches Some(f) ==> pool_error_code(f) == code,
{
}

/// The code of every InvoiceError, in declaration order starting at 1, and the
/// error each of those codes reads back as.
pub proof fn lemma_invoice_error_code_table()
    ensures
        invoice_error_code(InvoiceError::AlreadyInitialized) == 1,
        invoice_error_from_code(1) == Some(InvoiceError::AlreadyInitialized),
        invoice_error_code(InvoiceError::NotFound) == 2,
        invoice_error_from_code(2) == Some(InvoiceError::NotFound),
        invoice_error_code(InvoiceError::NotAuthorized) == 3,
        invoice_error_from_code(3) == Some(InvoiceError::NotAuthorized),
        invoice_error_code(InvoiceError::IssuerNotVerified) == 4,
        invoice_error_from_code(4) == Some(InvoiceError::IssuerNotVerified),
        invoice_error_code(InvoiceError::BuyerNotVerified) == 5,
        invoice_error_from_code(5) == Some(InvoiceError::BuyerNotVerified),
        invoice_error_code(InvoiceError::InvalidFaceValue) == 6,
        invoice_error_from_code(6) == Some(InvoiceError::InvalidFaceValue),
        invoice_error_code(InvoiceError::InvalidDueDate) == 7,
        invoice_error_from_code(7) == Some(InvoiceError::InvalidDueDate),
        invoice_error_code(InvoiceError::InvalidStatusTransition) == 8,
        invoice_error_from_code(8) == Some(InvoiceError::InvalidStatusTransition),
        invoice_error_code(InvoiceError::DiscountTooHigh) == 9,
        invoice_error_from_code(9) == Some(InvoiceError::DiscountTooHigh),
        invoice_error_code(InvoiceError::AlreadyConfirmed) == 10,
        invoice_error_from_code(10) == Some(InvoiceError::AlreadyConfirmed),
        invoice_error_code(InvoiceError::DueDateNotPassed) == 11,
        invoice_error_from_code(11) == Some(InvoiceError::DueDateNotPassed),
        invoice_error_code(InvoiceError::InsufficientRepayment) == 12,
        invoice_error_from_code(12) == Some(InvoiceError::InsufficientRepayment),
        invoice_error_code(InvoiceError::UnsupportedAsset) == 13,
        invoice_error_from_code(13) == Some(InvoiceError::UnsupportedAsset),
        invoice_error_from_code(0) is None,
{
}

/// The code of every PoolError, in declaration order starting at 1, and the
/// error each of those codes reads back as.
pub proof fn lemma_pool_error_code_table()
    ensures
        pool_error_code(PoolError::AlreadyInitialized) == 1,
        pool_error_from_code(1) == Some(PoolError::AlreadyInitialized),
        pool_error_code(PoolError::NotFound) == 2,
        pool_error_from_code(2) == Some(PoolError::NotFound),
        pool_error_code(PoolError::NotAuthorized) == 3,
        pool_error_from_code(3) == Some(PoolError::NotAuthorized),
        pool_error_code(PoolError::InvalidAmount) == 4,
        pool_error_from_code(4) == Some(PoolError::InvalidAmount),
        pool_error_code(PoolError::InsufficientLiquidity) == 5,
        pool_error_from_code(5) == Some(PoolError::InsufficientLiquidity),
        pool_error_code(PoolError::NoShares) == 6,
        pool_error_from_code(6) == Some(PoolError::NoShares),
        pool_error_code(PoolError::InsufficientShares) == 7,
        pool_error_from_code(7) == Some(PoolError::InsufficientShares),
        pool_error_code(PoolError::InvoiceNotListed) == 8,
        pool_error_from_code(8) == Some(PoolError::InvoiceNotListed),
        pool_error_code(PoolError::AlreadyFunded) == 9,
        pool_error_from_code(9) == Some(PoolError::AlreadyFunded),
        pool_error_code(PoolError::InvoiceNotFound) == 10,
        pool_error_from_code(10) == Some(PoolError::InvoiceNotFound),
        pool_error_code(PoolError::AssetMismatch) == 11,
        pool_error_from_code(11) == Some(PoolError::AssetMismatch),
        pool_error_from_code(0) is None,
{
}

} // verus!
