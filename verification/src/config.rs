use crate::address::Address;
use crate::errors::ErrorCode;
use crate::events::{
    AdminTransferExecuted,
    AdminTransferInitiated,
    CircuitBreakerTriggered,
    ProtocolInitialized,
};
use crate::math::BPS_DENOMINATOR;
use crate::oracle::ILIOracle;
use crate::registry::AgentRegistry;
use vstd::prelude::*;

verus! {

/// Seconds the successor has to wait before it can take over: 48 hours.
pub const ADMIN_TRANSFER_DELAY: i64 = 172800;

/// Seconds the circuit breaker stays tripped at least: 24 hours.
pub const CIRCUIT_BREAKER_DELAY: i64 = 86400;

/// Reputation an agent has to exceed to trip the circuit breaker.
pub const CIRCUIT_BREAKER_REPUTATION_FLOOR: i32 = 99;

/// Number of submissions the oracle waits for unless told otherwise.
pub const DEFAULT_CONSENSUS_THRESHOLD: u8 = 3;

/// Seconds between two aggregations of the oracle unless told otherwise.
pub const DEFAULT_ILI_UPDATE_INTERVAL: i64 = 300;

/// Configuration shared by every component of the protocol.
#[derive(Clone, Copy, Debug, PartialEq, Eq)]
pub struct GlobalState {
    pub authority: Address,
    pub pending_authority: Option<Address>,
    pub transfer_timelock: i64,
    pub ili_oracle: Address,
    pub reserve_vault: Address,
    pub aru_mint: Address,
    pub epoch_duration: i64,
    pub mint_burn_cap_bps: u16,
    pub stability_fee_bps: u16,
    pub vhr_threshold: u16,
    pub circuit_breaker_active: bool,
    pub circuit_breaker_timelock: i64,
    pub min_agent_consensus: u8,
    pub proposal_counter: u64,
    pub last_update_slot: u64,
    pub bump: u8,
}

impl GlobalState {
    /// The parameters are in range, and the transfer deadline is set only
    /// while a transfer is pending.
    pub open spec fn wf(&self) -> bool {
        &&& self.epoch_duration > 0
        &&& self.mint_burn_cap_bps <= BPS_DENOMINATOR
        &&& self.vhr_threshold <= BPS_DENOMINATOR
        &&& self.pending_authority is None ==> self.transfer_timelock == 0
    }
}

/// Addresses of the accounts the protocol is set up with.
#[derive(Clone, Copy, Debug, PartialEq, Eq)]
pub struct ProtocolAccounts {
    pub authority: Address,
    pub ili_oracle: Address,
    pub reserve_vault: Address,
    pub aru_mint: Address,
    pub global_state_bump: u8,
    pub ili_oracle_bump: u8,
}

/// Why the parameters of the protocol are refused, if they are.
pub open spec fn parameters_error(
    epoch_duration: i64,
    mint_burn_cap_bps: u16,
    vhr_threshold: u16,
) -> Option<ErrorCode> {
    if epoch_duration <= 0 {
        Some(ErrorCode::InvalidEpochDuration)
    } else if mint_burn_cap_bps > BPS_DENOMINATOR {
        Some(ErrorCode::InvalidMintBurnCap)
    } else if vhr_threshold > BPS_DENOMINATOR {
        Some(ErrorCode::InvalidVHRThreshold)
    } else {
        None
    }
}

/// The configuration a protocol starts with.
pub open spec fn initial_state(
    accounts: ProtocolAccounts,
    epoch_duration: i64,
    mint_burn_cap_bps: u16,
    vhr_threshold: u16,
    slot: u64,
) -> GlobalState {
    GlobalState {
        authority: accounts.authority,
        pending_authority: None,
        transfer_timelock: 0,
        ili_oracle: accounts.ili_oracle,
        reserve_vault: accounts.reserve_vault,
        aru_mint: accounts.aru_mint,
        epoch_duration,
        mint_burn_cap_bps,
        stability_fee_bps: 0,
        vhr_threshold,
        circuit_breaker_active: false,
        circuit_breaker_timelock: 0,
        min_agent_consensus: DEFAULT_CONSENSUS_THRESHOLD,
        proposal_counter: 0,
        last_update_slot: slot,
        bump: accounts.global_state_bump,
    }
}

/// Sets up the protocol's configuration and its oracle.
///
/// Fails as `parameters_error` says. Otherwise the configuration is
/// `initial_state`, and the oracle belongs to the authority, has no value and
/// no pending submission yet, and waits for three submissions, five minutes
/// apart from the last aggregation.
pub fn initialize(
    accounts: ProtocolAccounts,
    epoch_duration: i64,
    mint_burn_cap_bps: u16,
    vhr_threshold: u16,
    slot: u64,
    now: i64,
) -> (r: Result<(GlobalState, ILIOracle, ProtocolInitialized), ErrorCode>)
    ensures
        match parameters_error(epoch_duration, mint_burn_cap_bps, vhr_threshold) {
            Some(e) => r == Err::<(GlobalState, ILIOracle, ProtocolInitialized), ErrorCode>(e),
            None => {
                &&& r matches Ok(p)
                &&& p.0 == initial_state(
                    accounts,
                    epoch_duration,
                    mint_burn_cap_bps,
                    vhr_threshold,
                    slot,
                )
                &&& p.0.wf()
                &&& p.1.wf()
                &&& p.1.authority == accounts.authority
                &&& p.1.current_ili == 0
                &&& p.1.last_update == 0
                &&& p.1.update_interval == DEFAULT_ILI_UPDATE_INTERVAL
                &&& p.1.pending_updates@ == Seq::<crate::oracle::ILIPendingUpdate>::empty()
                &&& p.1.consensus_threshold == DEFAULT_CONSENSUS_THRESHOLD
                &&& p.1.bump == accounts.ili_oracle_bump
                &&& p.2 == (ProtocolInitialized {
                    authority: accounts.authority,
                    epoch_duration,
                    timestamp: now,
                })
            },
        },
{
    if epoch_duration <= 0 {
        return Err(ErrorCode::InvalidEpochDuration);
    }
    if mint_burn_cap_bps > BPS_DENOMINATOR {
        return Err(ErrorCode::InvalidMintBurnCap);
    }
    if vhr_threshold > BPS_DENOMINATOR {
        return Err(ErrorCode::InvalidVHRThreshold);
    }
    let global_state = GlobalState {
        authority: accounts.authority,
        pending_authority: None,
        transfer_timelock: 0,
        ili_oracle: accounts.ili_oracle,
        reserve_vault: accounts.reserve_vault,
        aru_mint: accounts.aru_mint,
        epoch_duration,
        mint_burn_cap_bps,
        stability_fee_bps: 0,
        vhr_threshold,
        circuit_breaker_active: false,
        circuit_breaker_timelock: 0,
        min_agent_consensus: DEFAULT_CONSENSUS_THRESHOLD,
        proposal_counter: 0,
        last_update_slot: slot,
        bump: accounts.global_state_bump,
    };
    let ili_oracle = ILIOracle {
        authority: accounts.authority,
        current_ili: 0,
        last_update: 0,
        update_interval: DEFAULT_ILI_UPDATE_INTERVAL,
        pending_updates: Vec::new(),
        consensus_threshold: DEFAULT_CONSENSUS_THRESHOLD,
        bump: accounts.ili_oracle_bump,
    };
    let event = ProtocolInitialized { authority: accounts.authority, epoch_duration, timestamp: now };
    Ok((global_state, ili_oracle, event))
}

/// Announces `new_authority` as the successor of the current authority.
///
/// Fails with `Unauthorized` unless the caller is the authority, and with
/// `ArithmeticOverflow` if the deadline, 48 hours from `now`, is not an
/// `i64`. Otherwise the successor is pending, replacing any earlier one, and
/// can take over from the deadline on.
pub fn initiate_admin_transfer(
    state: &mut GlobalState,
    caller: &Address,
    new_authority: Address,
    now: i64,
) -> (r: Result<AdminTransferInitiated, ErrorCode>)
    ensures
        *caller != old(state).authority ==> r == Err::<AdminTransferInitiated, ErrorCode>(
            ErrorCode::Unauthorized,
        ) && *final(state) == *old(state),
        *caller == old(state).authority && now + ADMIN_TRANSFER_DELAY > i64::MAX ==> r == Err::<
            AdminTransferInitiated,
            ErrorCode,
        >(ErrorCode::ArithmeticOverflow) && *final(state) == *old(state),
        *caller == old(state).authority && now + ADMIN_TRANSFER_DELAY <= i64::MAX ==> {
            &&& *final(state) == (GlobalState {
                pending_authority: Some(new_authority),
                transfer_timelock: (now + ADMIN_TRANSFER_DELAY) as i64,
                ..*old(state)
            })
            &&& r == Ok::<AdminTransferInitiated, ErrorCode>(
                (AdminTransferInitiated {
                    old_authority: old(state).authority,
                    new_authority,
                    timelock_expires: (now + ADMIN_TRANSFER_DELAY) as i64,
                }),
            )
        },
        old(state).wf() ==> final(state).wf(),
{
    if *caller != state.authority {
        return Err(ErrorCode::Unauthorized);
    }
    let deadline: i64 = match now.checked_add(ADMIN_TRANSFER_DELAY) {
        Some(t) => t,
        None => {
            return Err(ErrorCode::ArithmeticOverflow);
        },
    };
    state.pending_authority = Some(new_authority);
    state.transfer_timelock = deadline;
    Ok(
        AdminTransferInitiated {
            old_authority: state.authority,
            new_authority,
            timelock_expires: deadline,
        },
    )
}

/// Hands the authority over to the pending successor.
///
/// Fails with `TimelockNotExpired` before the deadline, and with
/// `NoPendingTransfer` if no successor is pending. Otherwise the successor
/// is the authority, and no transfer is pending any more.
pub fn execute_admin_transfer(state: &mut GlobalState, now: i64) -> (r: Result<
    AdminTransferExecuted,
    ErrorCode,
>)
    ensures
        now < old(state).transfer_timelock ==> r == Err::<AdminTransferExecuted, ErrorCode>(
            ErrorCode::TimelockNotExpired,
        ) && *final(state) == *old(state),
        now >= old(state).transfer_timelock && old(state).pending_authority is None ==> r == Err::<
            AdminTransferExecuted,
            ErrorCode,
        >(ErrorCode::NoPendingTransfer) && *final(state) == *old(state),
        now >= old(state).transfer_timelock && old(state).pending_authority is Some ==> {
            &&& *final(state) == (GlobalState {
                authority: old(state).pending_authority->0,
                pending_authority: None,
                transfer_timelock: 0,
                ..*old(state)
            })
            &&& r == Ok::<AdminTransferExecuted, ErrorCode>(
                (AdminTransferExecuted {
                    new_authority: old(state).pending_authority->0,
                    timestamp: now,
                }),
            )
        },
        old(state).wf() ==> final(state).wf(),
{
    if now < state.transfer_timelock {
        return Err(ErrorCode::TimelockNotExpired);
    }
    match state.pending_authority {
        None => Err(ErrorCode::NoPendingTransfer),
        Some(new_authority) => {
            state.authority = new_authority;
            state.pending_authority = None;
            state.transfer_timelock = 0;
            Ok(AdminTransferExecuted { new_authority, timestamp: now })
        },
    }
}

/// Trips the circuit breaker on behalf of a reputable agent.
///
/// Fails with `InsufficientReputation` unless the agent's reputation
/// exceeds `CIRCUIT_BREAKER_REPUTATION_FLOOR`, and with `ArithmeticOverflow` if the
/// cool-down deadline, 24 hours from `now`, is not an `i64`. Otherwise the
/// breaker is active and cannot be reset before the deadline.
pub fn trigger_circuit_breaker(
    state: &mut GlobalState,
    agent: &AgentRegistry,
    reason: String,
    now: i64,
) -> (r: Result<CircuitBreakerTriggered, ErrorCode>)
    ensures
        agent.reputation_score <= CIRCUIT_BREAKER_REPUTATION_FLOOR ==> r == Err::<
            CircuitBreakerTriggered,
            ErrorCode,
        >(ErrorCode::InsufficientReputation) && *final(state) == *old(state),
        agent.reputation_score > CIRCUIT_BREAKER_REPUTATION_FLOOR && now + CIRCUIT_BREAKER_DELAY
            > i64::MAX ==> r == Err::<CircuitBreakerTriggered, ErrorCode>(
            ErrorCode::ArithmeticOverflow,
        ) && *final(state) == *old(state),
        agent.reputation_score > CIRCUIT_BREAKER_REPUTATION_FLOOR && now + CIRCUIT_BREAKER_DELAY
            <= i64::MAX ==> {
            &&& *final(state) == (GlobalState {
                circuit_breaker_active: true,
                circuit_breaker_timelock: (now + CIRCUIT_BREAKER_DELAY) as i64,
                ..*old(state)
            })
            &&& r == Ok::<CircuitBreakerTriggered, ErrorCode>(
                (CircuitBreakerTriggered {
                    agent: agent.agent_pubkey,
                    reason,
                    timelock_expires: (now + CIRCUIT_BREAKER_DELAY) as i64,
                }),
            )
        },
        old(state).wf() ==> final(state).wf(),
{
    if agent.reputation_score <= CIRCUIT_BREAKER_REPUTATION_FLOOR {
        return Err(ErrorCode::InsufficientReputation);
    }
    let deadline: i64 = match now.checked_add(CIRCUIT_BREAKER_DELAY) {
        Some(t) => t,
        None => {
            return Err(ErrorCode::ArithmeticOverflow);
        },
    };
    state.circuit_breaker_active = true;
    state.circuit_breaker_timelock = deadline;
    Ok(CircuitBreakerTriggered { agent: agent.agent_pubkey, reason, timelock_expires: deadline })
}

/// Clears the circuit breaker once its cool-down has passed.
///
/// Fails with `TimelockNotExpired` exactly when `now` is before the
/// cool-down deadline; otherwise the breaker is inactive and nothing else
/// has changed.
pub fn reset_circuit_breaker(state: &mut GlobalState, now: i64) -> (r: Result<(), ErrorCode>)
    ensures
        now < old(state).circuit_breaker_timelock ==> r == Err::<(), ErrorCode>(
            ErrorCode::TimelockNotExpired,
        ) && *final(state) == *old(state),
        now >= old(state).circuit_breaker_timelock ==> r == Ok::<(), ErrorCode>(()) && *final(state)
            == (GlobalState { circuit_breaker_active: false, ..*old(state) }),
        old(state).wf() ==> final(state).wf(),
{
    if now < state.circuit_breaker_timelock {
        return Err(ErrorCode::TimelockNotExpired);
    }
    state.circuit_breaker_active = false;
    Ok(())
}

} // verus!
