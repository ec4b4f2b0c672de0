use crate::address::Address;
use crate::config::{parameters_error, GlobalState};
use crate::errors::ErrorCode;
use crate::events::{ProposalCreated, VoteCast};
use crate::math::{
    byte_range,
    floor_sqrt,
    integer_sqrt,
    le_bytes,
    le_value,
    lemma_le_bytes_len,
    lemma_le_round_trip,
    read_i64_le,
    read_u16_le,
    read_u64_le,
    signed_value,
    BPS_DENOMINATOR,
};
use crate::registry::AgentRegistry;
use crate::reserve::{rebalance, rebalance_error, rebalanced, ReserveVault};
use crate::supply::{
    burn_aru,
    burn_error,
    burned,
    mint_aru,
    mint_error,
    minted,
    EpochHistory,
    MintState,
};
use vstd::prelude::*;

verus! {

/// Shortest voting period: one hour.
pub const MIN_VOTING_PERIOD: i64 = 3600;

/// Longest voting period: seven days.
pub const MAX_VOTING_PERIOD: i64 = 604800;

/// Most bytes a policy payload can have.
pub const MAX_POLICY_PARAMS_LEN: usize = 256;

/// Deposit a proposer locks against frivolous proposals: 10 tokens.
pub const GRIEFING_PROTECTION_DEPOSIT: u64 = 10_000_000;

/// What a proposal asks the protocol to do.
#[derive(Clone, Copy, Debug, PartialEq, Eq, Structural)]
pub enum PolicyType {
    MintARU,
    BurnARU,
    UpdateParameters,
    RebalanceVault,
}

/// Where a proposal stands. It starts `Active` and ends `Rejected` or
/// `Executed`; nothing leads back.
#[derive(Clone, Copy, Debug, PartialEq, Eq, Structural)]
pub enum ProposalStatus {
    Active,
    Passed,
    Rejected,
    Executed,
}

/// A policy put to the vote.
#[derive(Clone, Debug, PartialEq, Eq)]
pub struct PolicyProposal {
    pub id: u64,
    pub proposer: Address,
    pub policy_type: PolicyType,
    pub policy_params: Vec<u8>,
    pub start_time: i64,
    pub end_time: i64,
    pub yes_stake: u64,
    pub no_stake: u64,
    pub quadratic_yes: u64,
    pub quadratic_no: u64,
    pub status: ProposalStatus,
    pub execution_tx: Option<[u8; 64]>,
    pub griefing_protection_deposit: u64,
    pub bump: u8,
}

impl PolicyProposal {
    /// Votes are taken at `now`: the proposal is active and `now` lies in
    /// its voting window, which excludes its end.
    pub open spec fn accepts_votes_at(&self, now: i64) -> bool {
        self.status == ProposalStatus::Active && self.start_time <= now < self.end_time
    }

    /// The yes side's share of the raw stake, in basis points and rounded
    /// down: zero where nothing was staked.
    pub open spec fn yes_share_bps(&self) -> int {
        if self.yes_stake + self.no_stake == 0 {
            0
        } else {
            self.yes_stake * 10000 / (self.yes_stake + self.no_stake)
        }
    }

    /// The yes side has the majority: more raw stake stands behind yes
    /// than behind no. The raw totals decide; the quadratic totals are
    /// kept beside them for the record. A proposal nobody voted on has no
    /// majority.
    pub open spec fn passes(&self) -> bool {
        self.yes_stake > self.no_stake
    }
}

/// Why a proposal is not created, if it is not. The checks come in this
/// order.
pub open spec fn create_error(
    state: GlobalState,
    policy_params: Seq<u8>,
    voting_period: i64,
    now: i64,
) -> Option<ErrorCode> {
    if voting_period < MIN_VOTING_PERIOD || voting_period > MAX_VOTING_PERIOD {
        Some(ErrorCode::InvalidVotingPeriod)
    } else if policy_params.len() > MAX_POLICY_PARAMS_LEN {
        Some(ErrorCode::InvalidAmount)
    } else if state.circuit_breaker_active {
        Some(ErrorCode::CircuitBreakerActive)
    } else if now + voting_period > i64::MAX {
        Some(ErrorCode::ArithmeticOverflow)
    } else if state.proposal_counter == u64::MAX {
        Some(ErrorCode::ArithmeticOverflow)
    } else {
        None
    }
}

/// Opens a proposal for voting.
///
/// Fails as `create_error` says and then leaves the counter untouched.
/// Otherwise the proposal gets the counter's value as its id, the window
/// from `now` to `now + voting_period`, no votes, the fixed deposit and the
/// status `Active`, and the counter moves on by one.
pub fn create_proposal(
    state: &mut GlobalState,
    proposer: Address,
    policy_type: PolicyType,
    policy_params: Vec<u8>,
    voting_period: i64,
    now: i64,
    bump: u8,
) -> (r: Result<(PolicyProposal, ProposalCreated), ErrorCode>)
    ensures
        old(state).wf() ==> final(state).wf(),
        match create_error(*old(state), policy_params@, voting_period, now) {
            Some(e) => r == Err::<(PolicyProposal, ProposalCreated), ErrorCode>(e) && *final(state)
                == *old(state),
            None => {
                &&& *final(state) == (GlobalState {
                    proposal_counter: (old(state).proposal_counter + 1) as u64,
                    ..*old(state)
                })
                &&& r matches Ok(p)
                &&& p.0.id == old(state).proposal_counter
                &&& p.0.proposer == proposer
                &&& p.0.policy_type == policy_type
                &&& p.0.policy_params@ == policy_params@
                &&& p.0.start_time == now
                &&& p.0.end_time == now + voting_period
                &&& p.0.yes_stake == 0
                &&& p.0.no_stake == 0
                &&& p.0.quadratic_yes == 0
                &&& p.0.quadratic_no == 0
                &&& p.0.status == ProposalStatus::Active
                &&& p.0.execution_tx is None
                &&& p.0.griefing_protection_deposit == GRIEFING_PROTECTION_DEPOSIT
                &&& p.0.bump == bump
                &&& p.1 == (ProposalCreated {
                    proposal_id: old(state).proposal_counter,
                    proposer,
                    policy_type,
                    timestamp: now,
                })
            },
        },
{
    if voting_period < MIN_VOTING_PERIOD || voting_period > MAX_VOTING_PERIOD {
        return Err(ErrorCode::InvalidVotingPeriod);
    }
    if policy_params.len() > MAX_POLICY_PARAMS_LEN {
        return Err(ErrorCode::InvalidAmount);
    }
    if state.circuit_breaker_active {
        return Err(ErrorCode::CircuitBreakerActive);
    }
    let end_time: i64 = match now.checked_add(voting_period) {
        Some(t) => t,
        None => {
            return Err(ErrorCode::ArithmeticOverflow);
        },
    };
    let next_counter: u64 = match state.proposal_counter.checked_add(1) {
        Some(n) => n,
        None => {
            return Err(ErrorCode::ArithmeticOverflow);
        },
    };
    let id: u64 = state.proposal_counter;
    let proposal = PolicyProposal {
        id,
        proposer,
        policy_type,
        policy_params,
        start_time: now,
        end_time,
        yes_stake: 0,
        no_stake: 0,
        quadratic_yes: 0,
        quadratic_no: 0,
        status: ProposalStatus::Active,
        execution_tx: None,
        griefing_protection_deposit: GRIEFING_PROTECTION_DEPOSIT,
        bump,
    };
    state.proposal_counter = next_counter;
    Ok((proposal, ProposalCreated { proposal_id: id, proposer, policy_type, timestamp: now }))
}

/// The weight of a vote backed by `stake_amount`: the integer part of its
/// square root.
pub fn quadratic_voting_power(stake_amount: u64) -> (power: u64)
    ensures
        power == floor_sqrt(stake_amount as nat),
        power * power <= stake_amount < (power + 1) * (power + 1),
        power <= stake_amount,
{
    integer_sqrt(stake_amount)
}

/// Why a vote is refused, if it is. The checks come in this order.
pub open spec fn vote_error(
    proposal: PolicyProposal,
    agent: AgentRegistry,
    state: GlobalState,
    vote_yes: bool,
    stake_amount: u64,
    now: i64,
) -> Option<ErrorCode> {
    if !proposal.accepts_votes_at(now) {
        Some(ErrorCode::ProposalNotActive)
    } else if !agent.is_active {
        Some(ErrorCode::AgentNotActive)
    } else if state.circuit_breaker_active {
        Some(ErrorCode::CircuitBreakerActive)
    } else if vote_yes && (proposal.yes_stake + stake_amount > u64::MAX || proposal.quadratic_yes
        + floor_sqrt(stake_amount as nat) > u64::MAX) {
        Some(ErrorCode::ArithmeticOverflow)
    } else if !vote_yes && (proposal.no_stake + stake_amount > u64::MAX || proposal.quadratic_no
        + floor_sqrt(stake_amount as nat) > u64::MAX) {
        Some(ErrorCode::ArithmeticOverflow)
    } else {
        None
    }
}

/// Adds an agent's vote to a proposal.
///
/// Fails as `vote_error` says and then leaves proposal and agent
/// untouched. Otherwise the agent's record shows it active at `now`, and
/// the side voted for gains `stake_amount` in raw stake and the
/// integer part of its square root in quadratic power; the other side and
/// everything else stay as they were.
pub fn vote_on_proposal(
    proposal: &mut PolicyProposal,
    agent: &mut AgentRegistry,
    state: &GlobalState,
    vote_yes: bool,
    stake_amount: u64,
    now: i64,
) -> (r: Result<VoteCast, ErrorCode>)
    ensures
        old(agent).wf() ==> final(agent).wf(),
        *final(agent) == if vote_error(
            *old(proposal),
            *old(agent),
            *state,
            vote_yes,
            stake_amount,
            now,
        ) is None {
            old(agent).after_vote(now)
        } else {
            *old(agent)
        },
        final(proposal).id == old(proposal).id,
        final(proposal).proposer == old(proposal).proposer,
        final(proposal).policy_type == old(proposal).policy_type,
        final(proposal).policy_params == old(proposal).policy_params,
        final(proposal).start_time == old(proposal).start_time,
        final(proposal).end_time == old(proposal).end_time,
        final(proposal).status == old(proposal).status,
        final(proposal).execution_tx == old(proposal).execution_tx,
        final(proposal).griefing_protection_deposit == old(proposal).griefing_protection_deposit,
        final(proposal).bump == old(proposal).bump,
        match vote_error(*old(proposal), *old(agent), *state, vote_yes, stake_amount, now) {
            Some(e) => r == Err::<VoteCast, ErrorCode>(e) && *final(proposal) == *old(proposal),
            None => {
                &&& r == Ok::<VoteCast, ErrorCode>(
                    (VoteCast {
                        proposal_id: old(proposal).id,
                        agent: old(agent).agent_pubkey,
                        vote_yes,
                        stake_amount,
                        voting_power: floor_sqrt(stake_amount as nat) as u64,
                    }),
                )
                &&& vote_yes ==> {
                    &&& final(proposal).yes_stake == old(proposal).yes_stake + stake_amount
                    &&& final(proposal).quadratic_yes == old(proposal).quadratic_yes + floor_sqrt(
                        stake_amount as nat,
                    )
                    &&& final(proposal).no_stake == old(proposal).no_stake
                    &&& final(proposal).quadratic_no == old(proposal).quadratic_no
                }
                &&& !vote_yes ==> {
                    &&& final(proposal).no_stake == old(proposal).no_stake + stake_amount
                    &&& final(proposal).quadratic_no == old(proposal).quadratic_no + floor_sqrt(
                        stake_amount as nat,
                    )
                    &&& final(proposal).yes_stake == old(proposal).yes_stake
                    &&& final(proposal).quadratic_yes == old(proposal).quadratic_yes
                }
            },
        },
{
    let in_window: bool = proposal.start_time <= now && now < proposal.end_time;
    if !(proposal.status == ProposalStatus::Active && in_window) {
        return Err(ErrorCode::ProposalNotActive);
    }
    if !agent.is_active {
        return Err(ErrorCode::AgentNotActive);
    }
    if state.circuit_breaker_active {
        return Err(ErrorCode::CircuitBreakerActive);
    }
    let voting_power: u64 = quadratic_voting_power(stake_amount);
    let (stake, power) = if vote_yes {
        (proposal.yes_stake, proposal.quadratic_yes)
    } else {
        (proposal.no_stake, proposal.quadratic_no)
    };
    let new_stake: u64 = match stake.checked_add(stake_amount) {
        Some(total) => total,
        None => {
            return Err(ErrorCode::ArithmeticOverflow);
        },
    };
    let new_power: u64 = match power.checked_add(voting_power) {
        Some(total) => total,
        None => {
            return Err(ErrorCode::ArithmeticOverflow);
        },
    };
    agent.last_active = now;
    if vote_yes {
        proposal.yes_stake = new_stake;
        proposal.quadratic_yes = new_power;
    } else {
        proposal.no_stake = new_stake;
        proposal.quadratic_no = new_power;
    }
    Ok(
        VoteCast {
            proposal_id: proposal.id,
            agent: agent.agent_pubkey,
            vote_yes,
            stake_amount,
            voting_power,
        },
    )
}

/// A policy in typed form, as its payload spells it out.
#[derive(Clone, Copy, Debug, PartialEq, Eq, Structural)]
pub enum PolicyAction {
    /// Mint `amount` tokens.
    Mint { amount: u64 },
    /// Burn `amount` tokens.
    Burn { amount: u64 },
    /// Replace the protocol's parameters.
    UpdateParameters { epoch_duration: i64, mint_burn_cap_bps: u16, vhr_threshold: u16 },
    /// Rebalance the reserve vault.
    Rebalance,
}

/// The policy that a payload of the given type spells out, if it has the
/// type's layout. All numbers are little-endian. A mint or burn is eight
/// bytes, the amount. An update of parameters is twelve bytes: the epoch
/// duration in eight, the mint and burn cap in two, the health-ratio
/// threshold in two. A rebalance has no payload.
pub open spec fn decoded_policy(policy_type: PolicyType, params: Seq<u8>) -> Option<PolicyAction> {
    match policy_type {
        PolicyType::MintARU => if params.len() == 8 {
            Some(PolicyAction::Mint { amount: le_value(params.subrange(0, 8)) as u64 })
        } else {
            None
        },
        PolicyType::BurnARU => if params.len() == 8 {
            Some(PolicyAction::Burn { amount: le_value(params.subrange(0, 8)) as u64 })
        } else {
            None
        },
        PolicyType::UpdateParameters => if params.len() == 12 {
            Some(
                PolicyAction::UpdateParameters {
                    epoch_duration: signed_value(le_value(params.subrange(0, 8))) as i64,
                    mint_burn_cap_bps: le_value(params.subrange(8, 10)) as u16,
                    vhr_threshold: le_value(params.subrange(10, 12)) as u16,
                },
            )
        } else {
            None
        },
        PolicyType::RebalanceVault => if params.len() == 0 {
            Some(PolicyAction::Rebalance)
        } else {
            None
        },
    }
}

/// A payload made of the eight little-endian bytes of an amount spells out
/// the mint, or the burn, of that amount.
pub proof fn lemma_amount_payload_decodes(amount: u64)
    ensures
        decoded_policy(PolicyType::MintARU, le_bytes(amount as nat, 8)) == Some(
            PolicyAction::Mint { amount },
        ),
        decoded_policy(PolicyType::BurnARU, le_bytes(amount as nat, 8)) == Some(
            PolicyAction::Burn { amount },
        ),
{
    let payload = le_bytes(amount as nat, 8);
    lemma_le_bytes_len(amount as nat, 8);
    lemma_le_round_trip(amount as nat, 8);
    assert(byte_range(8) == 0x1_0000_0000_0000_0000) by {
        reveal_with_fuel(byte_range, 9);
    }
    assert(payload.subrange(0, 8) =~= payload);
}

/// Reads a payload as the policy of the given type.
pub fn decode_policy(policy_type: PolicyType, params: &Vec<u8>) -> (action: Option<PolicyAction>)
    ensures
        action == decoded_policy(policy_type, params@),
{
    match policy_type {
        PolicyType::MintARU => {
            if params.len() != 8 {
                return None;
            }
            Some(PolicyAction::Mint { amount: read_u64_le(params, 0) })
        },
        PolicyType::BurnARU => {
            if params.len() != 8 {
                return None;
            }
            Some(PolicyAction::Burn { amount: read_u64_le(params, 0) })
        },
        PolicyType::UpdateParameters => {
            if params.len() != 12 {
                return None;
            }
            Some(
                PolicyAction::UpdateParameters {
                    epoch_duration: read_i64_le(params, 0),
                    mint_burn_cap_bps: read_u16_le(params, 8),
                    vhr_threshold: read_u16_le(params, 10),
                },
            )
        },
        PolicyType::RebalanceVault => {
            if params.len() != 0 {
                return None;
            }
            Some(PolicyAction::Rebalance)
        },
    }
}

/// Why a policy cannot be carried out, if it cannot: its payload is
/// malformed, or the component it is handed to refuses it.
pub open spec fn policy_error(
    action: Option<PolicyAction>,
    state: GlobalState,
    mint_state: MintState,
    vault: ReserveVault,
    now: i64,
) -> Option<ErrorCode> {
    match action {
        None => Some(ErrorCode::InvalidAmount),
        Some(PolicyAction::Mint { amount }) => mint_error(mint_state, state, amount, now),
        Some(PolicyAction::Burn { amount }) => burn_error(mint_state, state, amount, now),
        Some(PolicyAction::UpdateParameters { epoch_duration, mint_burn_cap_bps, vhr_threshold }) =>
            parameters_error(epoch_duration, mint_burn_cap_bps, vhr_threshold),
        Some(PolicyAction::Rebalance) => rebalance_error(vault, state),
    }
}

/// The configuration once a policy has been carried out.
pub open spec fn state_after(action: PolicyAction, state: GlobalState) -> GlobalState {
    match action {
        PolicyAction::UpdateParameters { epoch_duration, mint_burn_cap_bps, vhr_threshold } =>
            GlobalState { epoch_duration, mint_burn_cap_bps, vhr_threshold, ..state },
        _ => state,
    }
}

/// The supply once a policy has been carried out at `now`.
pub open spec fn supply_after(action: PolicyAction, mint_state: MintState, now: i64) -> MintState {
    match action {
        PolicyAction::Mint { amount } => minted(mint_state, amount, now),
        PolicyAction::Burn { amount } => burned(mint_state, amount, now),
        _ => mint_state,
    }
}

/// The vault once a policy has been carried out at `now`.
pub open spec fn vault_after(action: PolicyAction, vault: ReserveVault, now: i64) -> ReserveVault {
    match action {
        PolicyAction::Rebalance => rebalanced(vault, now),
        _ => vault,
    }
}

/// The epoch that carrying out a policy at `now` archives, if any.
pub open spec fn epoch_archived_by(action: PolicyAction, mint_state: MintState, now: i64) -> Option<
    EpochHistory,
> {
    match action {
        PolicyAction::Mint { .. } => mint_state.archived_at(now),
        PolicyAction::Burn { .. } => mint_state.archived_at(now),
        _ => None,
    }
}

/// Hands a policy to the component it concerns: a mint or burn to the
/// supply, new parameters to the configuration, a rebalance to the vault.
///
/// Returns the error of `policy_error` and then leaves all three records
/// untouched. Otherwise the one record concerned changes as the component
/// says, and the epoch a mint or burn archived is returned.
pub fn carry_out_policy(
    action: Option<PolicyAction>,
    state: &mut GlobalState,
    mint_state: &mut MintState,
    vault: &mut ReserveVault,
    now: i64,
) -> (r: Result<Option<EpochHistory>, ErrorCode>)
    ensures
        old(state).wf() ==> final(state).wf(),
        match policy_error(action, *old(state), *old(mint_state), *old(vault), now) {
            Some(e) => {
                &&& r == Err::<Option<EpochHistory>, ErrorCode>(e)
                &&& *final(state) == *old(state)
                &&& *final(mint_state) == *old(mint_state)
                &&& *final(vault) == *old(vault)
            },
            None => {
                &&& r == Ok::<Option<EpochHistory>, ErrorCode>(
                    epoch_archived_by(action->0, *old(mint_state), now),
                )
                &&& *final(state) == state_after(action->0, *old(state))
                &&& *final(mint_state) == supply_after(action->0, *old(mint_state), now)
                &&& *final(vault) == vault_after(action->0, *old(vault), now)
            },
        },
{
    match action {
        None => Err(ErrorCode::InvalidAmount),
        Some(PolicyAction::Mint { amount }) => mint_aru(mint_state, state, amount, now),
        Some(PolicyAction::Burn { amount }) => burn_aru(mint_state, state, amount, now),
        Some(PolicyAction::UpdateParameters { epoch_duration, mint_burn_cap_bps, vhr_threshold }) => {
            if epoch_duration <= 0 {
                return Err(ErrorCode::InvalidEpochDuration);
            }
            if mint_burn_cap_bps > BPS_DENOMINATOR {
                return Err(ErrorCode::InvalidMintBurnCap);
            }
            if vhr_threshold > BPS_DENOMINATOR {
                return Err(ErrorCode::InvalidVHRThreshold);
            }
            state.epoch_duration = epoch_duration;
            state.mint_burn_cap_bps = mint_burn_cap_bps;
            state.vhr_threshold = vhr_threshold;
            Ok(None)
        },
        Some(PolicyAction::Rebalance) => match rebalance(vault, state, now) {
            Ok(()) => Ok(None),
            Err(e) => Err(e),
        },
    }
}

/// What became of a proposal when its vote was counted.
#[derive(Clone, Copy, Debug, PartialEq, Eq)]
pub struct ExecutionReceipt {
    pub proposal_id: u64,
    /// How the vote went: `Passed` or `Rejected`.
    pub resolution: ProposalStatus,
    /// The yes side's share of the raw stake, in basis points.
    pub yes_share_bps: u64,
    /// Why the policy of a proposal that passed was not carried out, if it
    /// was not.
    pub failure: Option<ErrorCode>,
    /// The policy that was carried out, if one was: what the caller has
    /// left to do outside, such as having the tokens minted or burned.
    pub applied: Option<PolicyAction>,
    /// The epoch that a mint or burn archived on the way.
    pub archived_epoch: Option<EpochHistory>,
    pub timestamp: i64,
}

/// Why a proposal cannot be resolved at `now`, if it cannot. The checks
/// come in this order.
pub open spec fn execute_error(proposal: PolicyProposal, state: GlobalState, now: i64) -> Option<
    ErrorCode,
> {
    if proposal.status != ProposalStatus::Active {
        Some(ErrorCode::ProposalNotActive)
    } else if now < proposal.end_time {
        Some(ErrorCode::ProposalStillActive)
    } else if state.circuit_breaker_active {
        Some(ErrorCode::CircuitBreakerActive)
    } else {
        None
    }
}

/// Counts the vote on a proposal whose window has closed and, if it passed,
/// carries its policy out.
///
/// Fails as `execute_error` says and then leaves everything untouched.
///
/// Otherwise every proposal is resolved, and the raw stake decides. Unless
/// more stake stands behind yes than behind no, the proposal ends
/// `Rejected` and nothing else changes; so does one that nobody voted on.
/// If yes has the majority, the proposal ends `Executed` and its policy is
/// handed on as `carry_out_policy` does. A policy that is refused there changes nothing
/// but is no failure of this call: the proposal still ends `Executed`, and
/// the receipt names the reason.
pub fn execute_proposal(
    proposal: &mut PolicyProposal,
    state: &mut GlobalState,
    mint_state: &mut MintState,
    vault: &mut ReserveVault,
    now: i64,
) -> (r: Result<ExecutionReceipt, ErrorCode>)
    ensures
        old(state).wf() ==> final(state).wf(),
        match execute_error(*old(proposal), *old(state), now) {
            Some(e) => {
                &&& r == Err::<ExecutionReceipt, ErrorCode>(e)
                &&& *final(proposal) == *old(proposal)
                &&& *final(state) == *old(state)
                &&& *final(mint_state) == *old(mint_state)
                &&& *final(vault) == *old(vault)
            },
            None => {
                let action = decoded_policy(old(proposal).policy_type, old(proposal).policy_params@);
                let failure = policy_error(action, *old(state), *old(mint_state), *old(vault), now);
                let applied = old(proposal).passes() && failure is None;
                &&& r matches Ok(receipt)
                &&& receipt.proposal_id == old(proposal).id
                &&& receipt.yes_share_bps == old(proposal).yes_share_bps()
                &&& receipt.timestamp == now
                &&& receipt.resolution == if old(proposal).passes() {
                    ProposalStatus::Passed
                } else {
                    ProposalStatus::Rejected
                }
                &&& receipt.failure == if old(proposal).passes() {
                    failure
                } else {
                    None
                }
                &&& receipt.applied == if applied {
                    action
                } else {
                    None
                }
                &&& receipt.archived_epoch == if applied {
                    epoch_archived_by(action->0, *old(mint_state), now)
                } else {
                    None
                }
                &&& *final(proposal) == (PolicyProposal {
                    status: if old(proposal).passes() {
                        ProposalStatus::Executed
                    } else {
                        ProposalStatus::Rejected
                    },
                    ..*old(proposal)
                })
                &&& *final(state) == if applied {
                    state_after(action->0, *old(state))
                } else {
                    *old(state)
                }
                &&& *final(mint_state) == if applied {
                    supply_after(action->0, *old(mint_state), now)
                } else {
                    *old(mint_state)
                }
                &&& *final(vault) == if applied {
                    vault_after(action->0, *old(vault), now)
                } else {
                    *old(vault)
                }
            },
        },
{
    if proposal.status != ProposalStatus::Active {
        return Err(ErrorCode::ProposalNotActive);
    }
    if now < proposal.end_time {
        return Err(ErrorCode::ProposalStillActive);
    }
    if state.circuit_breaker_active {
        return Err(ErrorCode::CircuitBreakerActive);
    }
    let total_stake: u128 = proposal.yes_stake as u128 + proposal.no_stake as u128;
    let yes_share_bps: u64 = if total_stake == 0 {
        0
    } else {
        let share: u128 = proposal.yes_stake as u128 * 10000 / total_stake;
        assert(share <= 10000) by (nonlinear_arith)
            requires
                share == proposal.yes_stake * 10000 / (total_stake as int),
                0 <= proposal.yes_stake <= total_stake,
                total_stake > 0,
        ;
        share as u64
    };
    if proposal.yes_stake > proposal.no_stake {
        let action = decode_policy(proposal.policy_type, &proposal.policy_params);
        let (failure, applied, archived_epoch) = match carry_out_policy(
            action,
            state,
            mint_state,
            vault,
            now,
        ) {
            Ok(archived) => (None, action, archived),
            Err(e) => (Some(e), None, None),
        };
        proposal.status = ProposalStatus::Executed;
        Ok(
            ExecutionReceipt {
                proposal_id: proposal.id,
                resolution: ProposalStatus::Passed,
                yes_share_bps,
                failure,
                applied,
                archived_epoch,
                timestamp: now,
            },
        )
    } else {
        proposal.status = ProposalStatus::Rejected;
        Ok(
            ExecutionReceipt {
                proposal_id: proposal.id,
                resolution: ProposalStatus::Rejected,
                yes_share_bps,
                failure: None,
                applied: None,
                archived_epoch: None,
                timestamp: now,
            },
        )
    }
}

/// Every proposal whose window has closed can be resolved once the circuit
/// breaker is clear, whatever was or was not voted: none stays `Active`
/// for want of votes or for the size of its totals.
pub proof fn lemma_closed_proposal_resolves(proposal: PolicyProposal, state: GlobalState, now: i64)
    requires
        proposal.status == ProposalStatus::Active,
        now >= proposal.end_time,
        !state.circuit_breaker_active,
    ensures
        execute_error(proposal, state, now) is None,
        proposal.yes_stake + proposal.no_stake == 0 ==> !proposal.passes(),
{
}

/// The share in the receipt never contradicts the resolution: a majority
/// holds at least half of the stake, and where there is none the yes side
/// holds at most half.
pub proof fn lemma_share_follows_majority(proposal: PolicyProposal)
    ensures
        0 <= proposal.yes_share_bps() <= 10000,
        proposal.passes() ==> proposal.yes_share_bps() >= 5000,
        !proposal.passes() ==> proposal.yes_share_bps() <= 5000,
{
    let yes = proposal.yes_stake as int;
    let no = proposal.no_stake as int;
    if yes + no > 0 {
        let share = yes * 10000 / (yes + no);
        assert(0 <= share <= 10000) by (nonlinear_arith)
            requires
                share == yes * 10000 / (yes + no),
                0 <= yes,
                0 <= no,
                yes + no > 0,
        ;
        if yes > no {
            assert(share >= 5000) by (nonlinear_arith)
                requires
                    share == yes * 10000 / (yes + no),
                    yes > no,
                    no >= 0,
            ;
        } else {
            assert(share <= 5000) by (nonlinear_arith)
                requires
                    share == yes * 10000 / (yes + no),
                    yes <= no,
                    yes >= 0,
                    yes + no > 0,
            ;
        }
    }
}

/// A proposal that has been resolved stays as it is: it takes no more
/// votes and cannot be resolved again.
pub proof fn lemma_resolved_proposal_is_final(
    proposal: PolicyProposal,
    agent: AgentRegistry,
    state: GlobalState,
    vote_yes: bool,
    stake_amount: u64,
    now: i64,
)
    requires
        proposal.status != ProposalStatus::Active,
    ensures
        vote_error(proposal, agent, state, vote_yes, stake_amount, now) == Some(
            ErrorCode::ProposalNotActive,
        ),
        execute_error(proposal, state, now) == Some(ErrorCode::ProposalNotActive),
{
}

/// The weight of a vote is the integer part of the square root of its
/// stake, and never more than the stake.
pub proof fn lemma_voting_power_at_most_stake(stake_amount: u64)
    ensures
        floor_sqrt(stake_amount as nat) * floor_sqrt(stake_amount as nat) <= stake_amount,
        stake_amount < (floor_sqrt(stake_amount as nat) + 1) * (floor_sqrt(stake_amount as nat) + 1),
        floor_sqrt(stake_amount as nat) <= stake_amount,
{
    crate::math::lemma_floor_sqrt(stake_amount as nat);
    crate::math::lemma_floor_sqrt_at_most_self(stake_amount as nat);
}

/// Where a proposal stands.
pub fn proposal_status(proposal: &PolicyProposal) -> (status: ProposalStatus)
    ensures
        status == proposal.status,
{
    proposal.status
}

} // verus!
