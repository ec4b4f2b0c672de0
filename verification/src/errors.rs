use vstd::prelude::*;

verus! {

/// Every way an operation of the protocol can fail. A failed operation leaves
/// the records it was given exactly as they were.
#[derive(Clone, Copy, Debug, PartialEq, Eq, Structural)]
pub enum ErrorCode {
    /// A checked addition, subtraction or multiplication left its range.
    ArithmeticOverflow,
    /// The caller is not the authority the operation is reserved for.
    Unauthorized,
    /// A cool-down or transfer deadline has not passed yet.
    TimelockNotExpired,
    /// There is no authority transfer to carry out.
    NoPendingTransfer,
    /// The stake is below the registration floor.
    InsufficientStake,
    /// The agent has been deactivated.
    AgentNotActive,
    /// The pending set is full while the update interval has not elapsed.
    UpdateTooFrequent,
    /// The proposal is not open for votes or execution.
    ProposalNotActive,
    /// The voting window of the proposal has not closed yet.
    ProposalStillActive,
    /// The voting period is outside the allowed range.
    InvalidVotingPeriod,
    /// The circuit breaker is tripped.
    CircuitBreakerActive,
    /// The agent's reputation is too low to trip the circuit breaker.
    InsufficientReputation,
    /// The amount to slash is larger than the agent's stake.
    SlashExceedsStake,
    /// The epoch duration is not positive.
    InvalidEpochDuration,
    /// The combined mint and burn cap is above 100%.
    InvalidMintBurnCap,
    /// The mint cap is above 100%.
    InvalidMintCap,
    /// The burn cap is above 100%.
    InvalidBurnCap,
    /// The protocol's health-ratio threshold is above 100%.
    InvalidVHRThreshold,
    /// The vault's minimum health ratio is below 100%.
    InvalidVHR,
    /// The rebalance threshold is above 100%.
    InvalidThreshold,
    /// A zero amount, an oversized payload or an account without funds.
    InvalidAmount,
    /// The amount is larger than the balance it is taken from.
    InsufficientBalance,
    /// The withdrawal would leave the health ratio below the minimum.
    HealthRatioTooLow,
    /// The health ratio is not below the rebalance threshold.
    RebalanceNotNeeded,
    /// The mint would exceed the epoch's cap.
    MintCapExceeded,
    /// The burn would exceed the epoch's cap.
    BurnCapExceeded,
    /// The current epoch has not run its full duration.
    EpochNotComplete,
    /// The program handed in is not the perpetuals venue.
    InvalidPercolatorProgram,
    /// A price does not fit once scaled to six decimals.
    Overflow,
    /// The record is locked by an operation that has not finished.
    ReentrancyDetected,
    /// A swap returned less than the slippage bound allows.
    SlippageExceeded,
    /// An address or bump seed is not the one derived from the seeds.
    InvalidPDA,
    /// An account or program is not the expected one.
    InvalidAccountOwner,
    /// No instruction precedes the current one.
    MissingSignatureVerification,
    /// The preceding instruction is not addressed to the signature verifier.
    InvalidSignatureProgram,
    /// The signature instruction is malformed or signs another message.
    SignatureVerificationFailed,
    /// The signature instruction names another signer.
    AgentMismatch,
}

} // verus!
