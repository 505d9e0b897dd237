use vstd::prelude::*;

verus! {

/// Every way an operation of the engine can fail. Each failure aborts the
/// operation with no change to any record.
#[derive(Clone, Copy, Debug, PartialEq, Eq, Structural)]
pub enum ErrorCode {
    PlanInactive,
    PlanFull,
    PaymentNotDue,
    SubscriptionInactive,
    InvalidPrice,
    IntervalTooShort,
    InvalidMaxSubscribers,
    MetadataUriTooLong,
    Overflow,
    Underflow,
    InvalidTokenAccountOwner,
    MintMismatch,
    PlanPaused,
    PaymentTooLate,
    SubscriptionStillActive,
    MaxSubscribersTooLow,
    InvalidCreator,
    InvalidSubscriber,
    InvalidPlanId,
    PlanAlreadyPaused,
    PlanNotPaused,
    PlanAlreadyInactive,
    AddressMismatch,
}

/// The first code of the engine's errors.
pub const ERROR_CODE_OFFSET: u32 = 6000;

impl ErrorCode {
    /// The position of the error in the list of errors.
    pub open spec fn index(self) -> u32 {
        match self {
            ErrorCode::PlanInactive => 0,
            ErrorCode::PlanFull => 1,
            ErrorCode::PaymentNotDue => 2,
            ErrorCode::SubscriptionInactive => 3,
            ErrorCode::InvalidPrice => 4,
            ErrorCode::IntervalTooShort => 5,
            ErrorCode::InvalidMaxSubscribers => 6,
            ErrorCode::MetadataUriTooLong => 7,
            ErrorCode::Overflow => 8,
            ErrorCode::Underflow => 9,
            ErrorCode::InvalidTokenAccountOwner => 10,
            ErrorCode::MintMismatch => 11,
            ErrorCode::PlanPaused => 12,
            ErrorCode::PaymentTooLate => 13,
            ErrorCode::SubscriptionStillActive => 14,
            ErrorCode::MaxSubscribersTooLow => 15,
            ErrorCode::InvalidCreator => 16,
            ErrorCode::InvalidSubscriber => 17,
            ErrorCode::InvalidPlanId => 18,
            ErrorCode::PlanAlreadyPaused => 19,
            ErrorCode::PlanNotPaused => 20,
            ErrorCode::PlanAlreadyInactive => 21,
            ErrorCode::AddressMismatch => 22,
        }
    }

    /// The error's stable numeric code: one per error, from 6000 up.
    pub fn code(&self) -> (r: u32)
        ensures
            r == ERROR_CODE_OFFSET + self.index(),
    {
        match self {
            ErrorCode::PlanInactive => 6000,
            ErrorCode::PlanFull => 6001,
            ErrorCode::PaymentNotDue => 6002,
            ErrorCode::SubscriptionInactive => 6003,
            ErrorCode::InvalidPrice => 6004,
            ErrorCode::IntervalTooShort => 6005,
            ErrorCode::InvalidMaxSubscribers => 6006,
            ErrorCode::MetadataUriTooLong => 6007,
            ErrorCode::Overflow => 6008,
            ErrorCode::Underflow => 6009,
            ErrorCode::InvalidTokenAccountOwner => 6010,
            ErrorCode::MintMismatch => 6011,
            ErrorCode::PlanPaused => 6012,
            ErrorCode::PaymentTooLate => 6013,
            ErrorCode::SubscriptionStillActive => 6014,
            ErrorCode::MaxSubscribersTooLow => 6015,
            ErrorCode::InvalidCreator => 6016,
            ErrorCode::InvalidSubscriber => 6017,
            ErrorCode::InvalidPlanId => 6018,
            ErrorCode::PlanAlreadyPaused => 6019,
            ErrorCode::PlanNotPaused => 6020,
            ErrorCode::PlanAlreadyInactive => 6021,
            ErrorCode::AddressMismatch => 6022,
        }
    }

    /// A human-readable description of the error.
    pub fn message(&self) -> &'static str {
        match self {
            ErrorCode::PlanInactive => "Subscription plan is inactive",
            ErrorCode::PlanFull => "Subscription plan is full",
            ErrorCode::PaymentNotDue => "Payment is not due yet",
            ErrorCode::SubscriptionInactive => "Subscription is inactive",
            ErrorCode::InvalidPrice => "Price must be greater than 0",
            ErrorCode::IntervalTooShort => "Interval must be at least 60 seconds",
            ErrorCode::InvalidMaxSubscribers => "Max subscribers must be greater than 0",
            ErrorCode::MetadataUriTooLong => "Metadata URI exceeds 200 character limit",
            ErrorCode::Overflow => "Mathematical overflow occurred",
            ErrorCode::Underflow => "Mathematical underflow occurred",
            ErrorCode::InvalidTokenAccountOwner => "Invalid token account owner",
            ErrorCode::MintMismatch => "Token account mint mismatch",
            ErrorCode::PlanPaused => "Subscription plan is paused",
            ErrorCode::PaymentTooLate => "Payment is too late (beyond grace period)",
            ErrorCode::SubscriptionStillActive => "Subscription is still active, cannot close",
            ErrorCode::MaxSubscribersTooLow => "New max subscribers cannot be less than current subscribers",
            ErrorCode::InvalidCreator => "Invalid creator",
            ErrorCode::InvalidSubscriber => "Invalid subscriber",
            ErrorCode::InvalidPlanId => "Invalid plan ID",
            ErrorCode::PlanAlreadyPaused => "Plan is already paused",
            ErrorCode::PlanNotPaused => "Plan is not paused",
            ErrorCode::PlanAlreadyInactive => "Plan is already inactive",
            ErrorCode::AddressMismatch => "Account address does not match its derivation",
        }
    }
}

/// Distinct errors have distinct codes.
pub proof fn lemma_codes_distinct(a: ErrorCode, b: ErrorCode)
    requires
        a != b,
    ensures
        a.index() != b.index(),
{
}

/// `r` succeeds exactly where the check `c` passes, and fails with the
/// error of `c` where it does not.
pub open spec fn outcome_matches<T>(r: Result<T, ErrorCode>, c: Result<(), ErrorCode>) -> bool {
    match c {
        Ok(()) => r is Ok,
        Err(e) => r == Err::<T, ErrorCode>(e),
    }
}

} // verus!
