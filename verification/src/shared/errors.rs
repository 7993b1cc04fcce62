use vstd::prelude::*;

verus! {

/// Why a contract refuses a request.
#[derive(Clone, Copy, Debug, PartialEq, Eq, PartialOrd, Ord, Structural)]
pub enum KoraError {
    // Auth and access
    Unauthorized,
    NotAdmin,
    NotVerifier,
    ProtocolPaused,
    AlreadyPaused,
    NotPaused,
    RoleNotAssigned,
    // Invoice
    InvoiceNotFound,
    InvoiceAlreadyExists,
    InvalidInvoiceStatus,
    InvoiceExpired,
    InvalidAmount,
    InvalidDueDate,
    InvalidRiskScore,
    // Marketplace
    ListingNotFound,
    ListingAlreadyCancelled,
    ListingExpired,
    FundingDeadlinePassed,
    InsufficientFunds,
    ExceedsFundingTarget,
    AlreadyFullyFunded,
    // Pool
    PoolNotFound,
    PoolAlreadyClosed,
    RepaymentAlreadyMade,
    InsufficientPoolBalance,
    // Treasury
    InvalidFeeRate,
    WithdrawalFailed,
    TokenNotWhitelisted,
    // Risk
    SMENotRegistered,
    DebtorNotRegistered,
    RiskScoreOutOfRange,
    // General
    ArithmeticOverflow,
    InvalidAddress,
    EmptyString,
    AlreadyInitialized,
    NotInitialized,
    EmptyBytes,
    ArithmeticUnderflow,
    Reentrancy,
}

impl KoraError {
    /// The number under which the error crosses a contract boundary.
    pub open spec fn spec_code(self) -> u32 {
        match self {
            KoraError::Unauthorized => 1,
            KoraError::NotAdmin => 2,
            KoraError::NotVerifier => 3,
            KoraError::ProtocolPaused => 4,
            KoraError::AlreadyPaused => 5,
            KoraError::NotPaused => 6,
            KoraError::RoleNotAssigned => 7,
            KoraError::InvoiceNotFound => 10,
            KoraError::InvoiceAlreadyExists => 11,
            KoraError::InvalidInvoiceStatus => 12,
            KoraError::InvoiceExpired => 13,
            KoraError::InvalidAmount => 14,
            KoraError::InvalidDueDate => 15,
            KoraError::InvalidRiskScore => 16,
            KoraError::ListingNotFound => 20,
            KoraError::ListingAlreadyCancelled => 21,
            KoraError::ListingExpired => 22,
            KoraError::FundingDeadlinePassed => 23,
            KoraError::InsufficientFunds => 24,
            KoraError::ExceedsFundingTarget => 25,
            KoraError::AlreadyFullyFunded => 26,
            KoraError::PoolNotFound => 30,
            KoraError::PoolAlreadyClosed => 31,
            KoraError::RepaymentAlreadyMade => 32,
            KoraError::InsufficientPoolBalance => 33,
            KoraError::InvalidFeeRate => 40,
            KoraError::WithdrawalFailed => 41,
            KoraError::TokenNotWhitelisted => 42,
            KoraError::SMENotRegistered => 50,
            KoraError::DebtorNotRegistered => 51,
            KoraError::RiskScoreOutOfRange => 52,
            KoraError::ArithmeticOverflow => 90,
            KoraError::InvalidAddress => 91,
            KoraError::EmptyString => 92,
            KoraError::AlreadyInitialized => 93,
            KoraError::NotInitialized => 94,
            KoraError::EmptyBytes => 95,
            KoraError::ArithmeticUnderflow => 96,
            KoraError::Reentrancy => 97,
        }
    }

    pub fn code(self) -> (r: u32)
        ensures
            r == self.spec_code(),
    {
        match self {
            KoraError::Unauthorized => 1,
            KoraError::NotAdmin => 2,
            KoraError::NotVerifier => 3,
            KoraError::ProtocolPaused => 4,
            KoraError::AlreadyPaused => 5,
            KoraError::NotPaused => 6,
            KoraError::RoleNotAssigned => 7,
            KoraError::InvoiceNotFound => 10,
            KoraError::InvoiceAlreadyExists => 11,
            KoraError::InvalidInvoiceStatus => 12,
            KoraError::InvoiceExpired => 13,
            KoraError::InvalidAmount => 14,
            KoraError::InvalidDueDate => 15,
            KoraError::InvalidRiskScore => 16,
            KoraError::ListingNotFound => 20,
            KoraError::ListingAlreadyCancelled => 21,
            KoraError::ListingExpired => 22,
            KoraError::FundingDeadlinePassed => 23,
            KoraError::InsufficientFunds => 24,
            KoraError::ExceedsFundingTarget => 25,
            KoraError::AlreadyFullyFunded => 26,
            KoraError::PoolNotFound => 30,
            KoraError::PoolAlreadyClosed => 31,
            KoraError::RepaymentAlreadyMade => 32,
            KoraError::InsufficientPoolBalance => 33,
            KoraError::InvalidFeeRate => 40,
            KoraError::WithdrawalFailed => 41,
            KoraError::TokenNotWhitelisted => 42,
            KoraError::SMENotRegistered => 50,
            KoraError::DebtorNotRegistered => 51,
            KoraError::RiskScoreOutOfRange => 52,
            KoraError::ArithmeticOverflow => 90,
            KoraError::InvalidAddress => 91,
            KoraError::EmptyString => 92,
            KoraError::AlreadyInitialized => 93,
            KoraError::NotInitialized => 94,
            KoraError::EmptyBytes => 95,
            KoraError::ArithmeticUnderflow => 96,
            KoraError::Reentrancy => 97,
        }
    }
}

/// Different errors have different numbers, so the number tells the error.
pub proof fn codes_are_distinct(a: KoraError, b: KoraError)
    requires
        a.spec_code() == b.spec_code(),
    ensures
        a == b,
{
}

} // verus!
