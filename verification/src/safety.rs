use crate::config::GlobalState;
use crate::governance::{create_error, execute_error, vote_error, PolicyProposal};
use crate::oracle::{submit_error, ILIOracle};
use crate::registry::AgentRegistry;
use crate::reserve::{deposit_error, rebalance_error, withdraw_error, ReserveVault};
use crate::supply::{burn_error, mint_error, MintState};
use vstd::prelude::*;

verus! {

/// While the circuit breaker is active, no operation that moves value goes
/// through: every submission, proposal, vote, execution, deposit,
/// withdrawal, rebalance, mint and burn is refused, whatever its arguments
/// and whatever state the records are in.
pub proof fn lemma_breaker_stops_value_moving_operations(
    state: GlobalState,
    oracle: ILIOracle,
    agent: AgentRegistry,
    proposal: PolicyProposal,
    vault: ReserveVault,
    mint_state: MintState,
    policy_params: Seq<u8>,
    voting_period: i64,
    vote_yes: bool,
    amount: u64,
    vault_balance: u64,
    now: i64,
)
    requires
        state.circuit_breaker_active,
    ensures
        submit_error(oracle, state, agent, now) is Some,
        create_error(state, policy_params, voting_period, now) is Some,
        vote_error(proposal, agent, state, vote_yes, amount, now) is Some,
        execute_error(proposal, state, now) is Some,
        deposit_error(vault, state, amount) is Some,
        withdraw_error(vault, state, amount, vault_balance) is Some,
        rebalance_error(vault, state) is Some,
        mint_error(mint_state, state, amount, now) is Some,
        burn_error(mint_state, state, amount, now) is Some,
{
}

} // verus!
