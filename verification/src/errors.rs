//! Errors that the launchpad's instructions report.

use vstd::prelude::*;

verus! {

/// The launchpad's own error codes.
#[derive(Clone, Copy, Debug, PartialEq, Eq, Structural)]
pub enum ErrorCode {
    InvalidLaunchSuccessFeeBps,
    StatusNotOngoing,
    UnsoldTokenInsufficient,
    SaleClosed,
    CalculationError,
    CannotClaimWhenLaunchSuccess,
    OnlyCreatePoolWhenLaunchSuccess,
    WrongWSOLMint,
    InvalidFundingRaiseTier,
    CannotClaimWhenNotEnd,
    ClaimAmountTooSmall,
    OnlyWrapSolWhenLaunchSuccess,
}

/// Why an instruction was refused: one of the launchpad's own errors, or an
/// account check that the instruction's accounts declare.
#[derive(Clone, Copy, Debug, PartialEq, Eq, Structural)]
pub enum InstructionError {
    /// An error of the launchpad itself.
    Custom(ErrorCode),
    /// The signer is not the account that the configuration names as admin.
    ConstraintHasOne,
    /// An account is not at the address that the configuration names.
    ConstraintAddress,
    /// An account is not at the address derived from its seeds.
    ConstraintSeeds,
    /// An account that the instruction creates exists already.
    AccountAlreadyInUse,
    /// Moving lamports would take a balance below zero or past `u64::MAX`.
    ArithmeticOverflow,
}

} // verus!
