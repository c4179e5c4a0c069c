use vstd::prelude::*;

verus! {

/// Reasons an operation on a pool or a user record is rejected.
#[derive(Clone, Copy, Debug, PartialEq, Eq, Structural)]
pub enum ErrorCode {
    /// The staking mint is not on the allow-list.
    WrongStakingMint,
    /// The pool creator is not on the allow-list.
    InvalidAdminWhenCreatingPool,
    /// A start time lies before the current time.
    InvalidStartDate,
    /// A withdrawal would take more than the deposited amount.
    CannotWithdrawMoreThanBalance,
    /// The user has less staked than the withdrawal asks for.
    InsufficientFundWithdraw,
    /// Deposits and withdrawals must move a positive amount.
    AmountMustBeGreaterThanZero,
    /// The reward duration is below the configured minimum.
    DurationTooShort,
    /// An arithmetic step left its representable range.
    MathOverFlow,
}

impl ErrorCode {
    /// The message shown for this error.
    pub fn message(&self) -> (r: String) {
        match self {
            ErrorCode::WrongStakingMint => String::from_str("Staking mint is wrong"),
            ErrorCode::InvalidAdminWhenCreatingPool => String::from_str("Create pool with wrong admin"),
            ErrorCode::InvalidStartDate => String::from_str("Start time cannot be smaller than current time"),
            ErrorCode::CannotWithdrawMoreThanBalance => String::from_str("Cannot withdraw more than deposited amount"),
            ErrorCode::InsufficientFundWithdraw => String::from_str("Insufficient funds to withdraw."),
            ErrorCode::AmountMustBeGreaterThanZero => String::from_str("Amount must be greater than zero."),
            ErrorCode::DurationTooShort => String::from_str("Duration cannot be shorter than one day."),
            ErrorCode::MathOverFlow => String::from_str("MathOverFlow"),
        }
    }
}

} // verus!
