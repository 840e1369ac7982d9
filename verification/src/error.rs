use vstd::prelude::*;

verus! {

/// Why an instruction fails.
///
/// The first variants are the program errors the program returns; `Runtime`
/// carries the numeric code of an error that the runtime reported while the
/// program read an account, a sysvar or made a cross-program call. The
/// remaining variants are the checks that abort the program outright instead
/// of returning an error.
#[derive(Clone, Copy, Debug, PartialEq, Eq)]
pub enum FundraiserError {
    NotEnoughAccountKeys,
    InvalidInstructionData,
    InvalidAccountData,
    InvalidAccountOwner,
    MissingRequiredSignature,
    IllegalOwner,
    Runtime(u64),
    /// The program was called under another id (an equality assertion).
    ProgramIdMismatch,
    AmountBelowMinimum,
    /// The fundraiser account is not at the address derived from its seeds,
    /// which this variant carries (an equality assertion).
    FundraiserAddressMismatch([u8; 32]),
    ContributionTooSmall,
    ContributionTooBig,
    MaximumContributionReached,
    FundraisingEnded,
    TargetNotMet,
    TargetMet,
    ArithmeticOverflow,
}

impl FundraiserError {
    /// Whether the failure aborts the program rather than returning an error.
    pub open spec fn aborts(self) -> bool {
        match self {
            FundraiserError::NotEnoughAccountKeys
            | FundraiserError::InvalidInstructionData
            | FundraiserError::InvalidAccountData
            | FundraiserError::InvalidAccountOwner
            | FundraiserError::MissingRequiredSignature
            | FundraiserError::IllegalOwner
            | FundraiserError::Runtime(_) => false,
            _ => true,
        }
    }

    /// Whether the failure aborts the program rather than returning an error.
    pub fn is_abort(&self) -> (abort: bool)
        ensures
            abort == self.aborts(),
    {
        match self {
            FundraiserError::NotEnoughAccountKeys
            | FundraiserError::InvalidInstructionData
            | FundraiserError::InvalidAccountData
            | FundraiserError::InvalidAccountOwner
            | FundraiserError::MissingRequiredSignature
            | FundraiserError::IllegalOwner
            | FundraiserError::Runtime(_) => false,
            _ => true,
        }
    }

    /// The message the program aborts with, for the failures that abort; the
    /// empty string for the others.
    pub open spec fn spec_abort_message(self) -> Seq<char> {
        match self {
            FundraiserError::ProgramIdMismatch => "assertion `left == right` failed"@,
            FundraiserError::AmountBelowMinimum => "amount to be raised is less than minimum amount"@,
            FundraiserError::FundraiserAddressMismatch(_) => "assertion `left == right` failed"@,
            FundraiserError::ContributionTooSmall => "contribution too small"@,
            FundraiserError::ContributionTooBig => "contribution too big"@,
            FundraiserError::MaximumContributionReached => "maximum contribution reached"@,
            FundraiserError::FundraisingEnded => "fundraising ended"@,
            FundraiserError::TargetNotMet => "target not met"@,
            FundraiserError::TargetMet => "target met"@,
            FundraiserError::ArithmeticOverflow => "arithmetic overflow"@,
            _ => ""@,
        }
    }

    /// The message the program aborts with, for the failures that abort; the
    /// empty string for the others.
    pub fn abort_message(&self) -> (message: &'static str)
        ensures
            message@ == self.spec_abort_message(),
    {
        match self {
            FundraiserError::ProgramIdMismatch => "assertion `left == right` failed",
            FundraiserError::AmountBelowMinimum => "amount to be raised is less than minimum amount",
            FundraiserError::FundraiserAddressMismatch(_) => "assertion `left == right` failed",
            FundraiserError::ContributionTooSmall => "contribution too small",
            FundraiserError::ContributionTooBig => "contribution too big",
            FundraiserError::MaximumContributionReached => "maximum contribution reached",
            FundraiserError::FundraisingEnded => "fundraising ended",
            FundraiserError::TargetNotMet => "target not met",
            FundraiserError::TargetMet => "target met",
            FundraiserError::ArithmeticOverflow => "arithmetic overflow",
            _ => "",
        }
    }
}

/// `res` failed as `expected` did, or both succeeded.
pub open spec fn outcome_matches<T>(res: Result<T, FundraiserError>, expected: Result<(), FundraiserError>) -> bool {
    match expected {
        Ok(_) => res is Ok,
        Err(e) => res == Err::<T, FundraiserError>(e),
    }
}

} // verus!
