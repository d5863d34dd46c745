//! Failures reported by pool operations.

use vstd::prelude::*;

verus! {

/// Why an operation on the pool was refused.
///
/// Every failing operation leaves the pool, the validator list and the
/// reserve exactly as they were.
#[derive(Clone, Copy, Debug, PartialEq, Eq, Structural)]
pub enum StakePoolError {
    /// An amount left the range of 64-bit lamports or pool tokens.
    CalculationFailure,
    /// A fee ratio above one, or a referral share above one hundred percent.
    FeeTooHigh,
    /// The signer is not the pool's manager.
    WrongManager,
    /// The signer is neither the pool's manager nor its staker.
    WrongStaker,
    /// The validator list already holds as many entries as it may.
    ValidatorListFull,
    /// The validator is already in the list.
    ValidatorAlreadyAdded,
    /// The validator is not in the list.
    ValidatorNotFound,
    /// The validator is in a lifecycle state that does not allow the operation.
    WrongStakeState,
    /// The window of validators to update reaches past the end of the list.
    InvalidValidatorStakeList,
    /// Some validator entry has not been reconciled for the current epoch.
    StakeListOutOfDate,
    /// The network is still paying out the rewards of the last epoch.
    EpochRewardDistributionInProgress,
    /// The validator cannot be preferred because it is not active.
    InvalidPreferredValidator,
    /// A deposit must go to the preferred deposit validator.
    IncorrectDepositVoteAddress,
    /// A withdrawal must come from the preferred withdraw validator.
    IncorrectWithdrawVoteAddress,
    /// The amount is more than the validator's active stake.
    InsufficientActiveStake,
    /// The withdrawal would leave the validator with less than the minimum
    /// stake, without taking all of its stake.
    StakeLamportsNotEqualToMinimum,
    /// The reserve would fall under its minimum balance.
    InsufficientFunds,
    /// The withdrawal pays less than the least that the caller accepts.
    ExceededSlippage,
    /// The withdrawal is more than the reserve can pay out.
    SolWithdrawalTooLarge,
    /// The deposit is worth no pool token after fees.
    DepositTooSmall,
    /// The pool tokens are worth no lamport after fees.
    WithdrawalTooSmall,
}

impl StakePoolError {
    /// The failure in words.
    pub open spec fn description(self) -> Seq<char> {
        match self {
            StakePoolError::CalculationFailure => "an amount is out of range"@,
            StakePoolError::FeeTooHigh => "the fee is too high"@,
            StakePoolError::WrongManager => "the signer is not the manager"@,
            StakePoolError::WrongStaker => "the signer is neither the manager nor the staker"@,
            StakePoolError::ValidatorListFull => "the validator list is full"@,
            StakePoolError::ValidatorAlreadyAdded => "the validator is already in the pool"@,
            StakePoolError::ValidatorNotFound => "the validator is not in the pool"@,
            StakePoolError::WrongStakeState => "the validator is in the wrong state"@,
            StakePoolError::InvalidValidatorStakeList => "the validators to update are not all in the list"@,
            StakePoolError::StakeListOutOfDate => "the validator list is out of date"@,
            StakePoolError::EpochRewardDistributionInProgress => "epoch rewards are being paid out"@,
            StakePoolError::InvalidPreferredValidator => "the validator cannot be preferred"@,
            StakePoolError::IncorrectDepositVoteAddress => "the deposit must go to the preferred validator"@,
            StakePoolError::IncorrectWithdrawVoteAddress => "the withdrawal must come from the preferred validator"@,
            StakePoolError::InsufficientActiveStake => "the validator has less active stake"@,
            StakePoolError::StakeLamportsNotEqualToMinimum => "the validator would be left under the minimum stake"@,
            StakePoolError::ExceededSlippage => "the withdrawal pays less than the least accepted"@,
            StakePoolError::InsufficientFunds => "the reserve would fall under its minimum"@,
            StakePoolError::SolWithdrawalTooLarge => "the withdrawal is more than the reserve can pay"@,
            StakePoolError::DepositTooSmall => "the deposit is too small"@,
            StakePoolError::WithdrawalTooSmall => "the withdrawal is too small"@,
        }
    }

    /// The failure in words.
    pub fn to_str(&self) -> (r: &'static str)
        ensures
            r@ == self.description(),
    {
        match self {
            StakePoolError::CalculationFailure => "an amount is out of range",
            StakePoolError::FeeTooHigh => "the fee is too high",
            StakePoolError::WrongManager => "the signer is not the manager",
            StakePoolError::WrongStaker => "the signer is neither the manager nor the staker",
            StakePoolError::ValidatorListFull => "the validator list is full",
            StakePoolError::ValidatorAlreadyAdded => "the validator is already in the pool",
            StakePoolError::ValidatorNotFound => "the validator is not in the pool",
            StakePoolError::WrongStakeState => "the validator is in the wrong state",
            StakePoolError::InvalidValidatorStakeList => "the validators to update are not all in the list",
            StakePoolError::StakeListOutOfDate => "the validator list is out of date",
            StakePoolError::EpochRewardDistributionInProgress => "epoch rewards are being paid out",
            StakePoolError::InvalidPreferredValidator => "the validator cannot be preferred",
            StakePoolError::IncorrectDepositVoteAddress => "the deposit must go to the preferred validator",
            StakePoolError::IncorrectWithdrawVoteAddress => "the withdrawal must come from the preferred validator",
            StakePoolError::InsufficientActiveStake => "the validator has less active stake",
            StakePoolError::StakeLamportsNotEqualToMinimum => "the validator would be left under the minimum stake",
            StakePoolError::ExceededSlippage => "the withdrawal pays less than the least accepted",
            StakePoolError::InsufficientFunds => "the reserve would fall under its minimum",
            StakePoolError::SolWithdrawalTooLarge => "the withdrawal is more than the reserve can pay",
            StakePoolError::DepositTooSmall => "the deposit is too small",
            StakePoolError::WithdrawalTooSmall => "the withdrawal is too small",
        }
    }
}

} // verus!
