use vstd::prelude::*;

verus! {

/// Every way an operation on a goal or its verification can be refused.
#[derive(Clone, Copy, Debug, PartialEq, Eq, Structural)]
pub enum ErrorCode {
    TitleTooLong,
    DescriptionTooLong,
    AmountTooLow,
    AmountTooHigh,
    DeadlineInPast,
    InvalidGoalStatus,
    Unauthorized,
    NotAVerifier,
    AlreadyVoted,
    AlreadyFinalized,
    VerificationNotComplete,
    VerificationNotFinalized,
    NoVerificationResult,
    ActiveGoalExists,
}

} // verus!
