//! Error conditions returned by the lottery operations.

use vstd::prelude::*;

verus! {

/// Every way a lottery operation can be refused.
///
/// The taxonomy covers validation of configuration values, authorization of
/// callers, lifecycle-phase violations, capacity limits, the retryable
/// "randomness not ready" condition, and arithmetic faults.
#[derive(Clone, Copy, Debug, PartialEq, Eq, Structural)]
pub enum ContractError {
    /// A validated value lies below the allowed minimum.
    ValueTooSmall,
    /// A validated value lies above the allowed maximum.
    ValueTooLarge,
    /// A validated value is not in the allowed set.
    ValueInvalid,
    /// The caller is not the required authority for this operation.
    IncorrectAuthority,
    /// The caller is not the configured team wallet.
    IncorrectTeamWalletAuthority,
    /// The co-authorizing caller is not the configured payer wallet.
    IncorrectPayerAuthority,
    /// The supplied configuration account is not the expected one.
    IncorrectConfigAccount,
    /// An accounting step would overflow or underflow.
    OverflowOrUnderflowOccurred,
    /// An amount is invalid for the requested operation.
    InvalidAmount,
    /// The supplied team wallet address is wrong.
    IncorrectTeamWallet,
    /// A deposit was attempted after the round was completed.
    GameAlreadyCompleted,
    /// A winner has already been recorded for this round.
    SetWinnerCompleted,
    /// The round has not been completed yet.
    GameNotCompleted,
    /// The winner has already claimed the reward.
    WinnerClaimed,
    /// A returned amount is smaller than the required minimum.
    ReturnAmountTooSmall,
    /// The global configuration has not been initialized.
    NotInitialized,
    /// The global authority is invalid.
    InvalidGlobalAuthority,
    /// Not enough value was received for the operation to be valid.
    InsufficientSol,
    /// An arithmetic fault occurred.
    ArithmeticError,
    /// A multiplication or addition overflowed.
    MathOverflow,
    /// The requested end time is invalid.
    EndTimeError,
    /// The requested round duration is invalid.
    RoundTimeError,
    /// The requested minimum deposit amount is invalid.
    MinDepositAmountError,
    /// The requested maximum participant count is invalid.
    MaxJoinerCountError,
    /// The participant count would exceed the allowed maximum.
    UserCountOverError,
    /// The external randomness is still being fulfilled; retry later.
    StillProcessing,
    /// The deposit amount is below the round's minimum deposit.
    DepositAmountError,
    /// The given round number does not exist yet.
    RoundNumberError,
}

} // verus!
