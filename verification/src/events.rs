use crate::address::Address;
use crate::governance::PolicyType;
use crate::registry::AgentTier;
use vstd::prelude::*;

verus! {

/// The protocol was set up.
#[derive(Clone, Copy, Debug, PartialEq, Eq)]
pub struct ProtocolInitialized {
    pub authority: Address,
    pub epoch_duration: i64,
    pub timestamp: i64,
}

/// The authority announced its successor.
#[derive(Clone, Copy, Debug, PartialEq, Eq)]
pub struct AdminTransferInitiated {
    pub old_authority: Address,
    pub new_authority: Address,
    pub timelock_expires: i64,
}

/// The successor took over as authority.
#[derive(Clone, Copy, Debug, PartialEq, Eq)]
pub struct AdminTransferExecuted {
    pub new_authority: Address,
    pub timestamp: i64,
}

/// An agent joined the registry.
#[derive(Clone, Copy, Debug, PartialEq, Eq)]
pub struct AgentRegistered {
    pub agent: Address,
    pub tier: AgentTier,
    pub stake_amount: u64,
    pub timestamp: i64,
}

/// The oracle aggregated its pending submissions into a new index value.
#[derive(Clone, Copy, Debug, PartialEq, Eq)]
pub struct ILIUpdated {
    pub ili_value: u64,
    pub consensus_agents: u8,
    pub timestamp: i64,
}

/// A proposal was opened for voting.
#[derive(Clone, Copy, Debug, PartialEq, Eq)]
pub struct ProposalCreated {
    pub proposal_id: u64,
    pub proposer: Address,
    pub policy_type: PolicyType,
    pub timestamp: i64,
}

/// A vote was added to a proposal.
#[derive(Clone, Copy, Debug, PartialEq, Eq)]
pub struct VoteCast {
    pub proposal_id: u64,
    pub agent: Address,
    pub vote_yes: bool,
    pub stake_amount: u64,
    pub voting_power: u64,
}

/// An agent tripped the circuit breaker.
#[derive(Clone, Debug, PartialEq, Eq)]
pub struct CircuitBreakerTriggered {
    pub agent: Address,
    pub reason: String,
    pub timelock_expires: i64,
}

/// The authority slashed an agent's stake.
#[derive(Clone, Debug, PartialEq, Eq)]
pub struct AgentSlashed {
    pub agent: Address,
    pub slash_amount: u64,
    pub reason: String,
    pub new_reputation: i32,
}

} // verus!
