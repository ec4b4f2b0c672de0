use crate::address::Address;
use crate::config::GlobalState;
use crate::errors::ErrorCode;
use crate::events::{AgentRegistered, AgentSlashed};
use vstd::prelude::*;

verus! {

/// Smallest stake an agent can register with, and below which a slashed agent
/// is deactivated: 100 tokens of six decimals.
pub const MIN_AGENT_STAKE: u64 = 100_000_000;

/// Stake from which an agent is Silver: 1,000 tokens.
pub const SILVER_STAKE: u64 = 1_000_000_000_000;

/// Stake from which an agent is Gold: 10,000 tokens.
pub const GOLD_STAKE: u64 = 10_000_000_000_000;

/// Stake from which an agent is Platinum: 100,000 tokens.
pub const PLATINUM_STAKE: u64 = 100_000_000_000_000;

/// Reputation an agent loses each time it is slashed.
pub const SLASH_REPUTATION_PENALTY: i32 = 50;

/// Reputation never falls below this value through slashing.
pub const REPUTATION_FLOOR: i32 = -1000;

/// Band an agent falls in by the size of its stake.
#[derive(Clone, Copy, Debug, PartialEq, Eq, Structural)]
pub enum AgentTier {
    Bronze,
    Silver,
    Gold,
    Platinum,
}

impl AgentTier {
    /// The tier of a stake: a step function with three breakpoints.
    pub open spec fn of_stake(stake_amount: u64) -> AgentTier {
        if stake_amount >= PLATINUM_STAKE {
            AgentTier::Platinum
        } else if stake_amount >= GOLD_STAKE {
            AgentTier::Gold
        } else if stake_amount >= SILVER_STAKE {
            AgentTier::Silver
        } else {
            AgentTier::Bronze
        }
    }

    /// Classifies a stake into its tier.
    pub fn from_stake(stake_amount: u64) -> (tier: AgentTier)
        ensures
            tier == AgentTier::of_stake(stake_amount),
    {
        if stake_amount >= PLATINUM_STAKE {
            AgentTier::Platinum
        } else if stake_amount >= GOLD_STAKE {
            AgentTier::Gold
        } else if stake_amount >= SILVER_STAKE {
            AgentTier::Silver
        } else {
            AgentTier::Bronze
        }
    }
}

/// Record of one staked reporting agent.
#[derive(Clone, Copy, Debug, PartialEq, Eq)]
pub struct AgentRegistry {
    pub agent_pubkey: Address,
    pub agent_tier: AgentTier,
    pub stake_amount: u64,
    pub reputation_score: i32,
    pub total_ili_updates: u64,
    pub successful_updates: u64,
    pub slashed_amount: u64,
    pub registered_at: i64,
    pub last_active: i64,
    pub is_active: bool,
    pub bump: u8,
}

impl AgentRegistry {
    /// The tier is the tier of the stake, an active agent holds at least
    /// the minimum stake, and no agent's reputation is below the floor.
    pub open spec fn wf(&self) -> bool {
        &&& self.agent_tier == AgentTier::of_stake(self.stake_amount)
        &&& self.is_active ==> self.stake_amount >= MIN_AGENT_STAKE
        &&& self.reputation_score >= REPUTATION_FLOOR
    }

    /// The record once the agent has made one more submission, at `now`:
    /// one more in its count of submissions, and active last at `now`.
    pub open spec fn after_submission(&self, now: i64) -> AgentRegistry {
        AgentRegistry {
            total_ili_updates: (self.total_ili_updates + 1) as u64,
            last_active: now,
            ..*self
        }
    }

    /// The record once the agent has voted at `now`: active last at `now`.
    pub open spec fn after_vote(&self, now: i64) -> AgentRegistry {
        AgentRegistry { last_active: now, ..*self }
    }
}

/// The record of an agent that has just registered with `stake_amount`.
pub open spec fn fresh_agent(agent: Address, stake_amount: u64, now: i64, bump: u8) -> AgentRegistry {
    AgentRegistry {
        agent_pubkey: agent,
        agent_tier: AgentTier::of_stake(stake_amount),
        stake_amount,
        reputation_score: 0,
        total_ili_updates: 0,
        successful_updates: 0,
        slashed_amount: 0,
        registered_at: now,
        last_active: now,
        is_active: true,
        bump,
    }
}

/// Registers an agent whose stake has been moved into escrow.
///
/// Fails with `InsufficientStake` exactly when the stake is below
/// `MIN_AGENT_STAKE`; otherwise returns the new record, active and with a
/// clean history, and the event that announces it.
pub fn register_agent(agent: Address, stake_amount: u64, now: i64, bump: u8) -> (r: Result<
    (AgentRegistry, AgentRegistered),
    ErrorCode,
>)
    ensures
        stake_amount < MIN_AGENT_STAKE ==> r == Err::<(AgentRegistry, AgentRegistered), ErrorCode>(
            ErrorCode::InsufficientStake,
        ),
        stake_amount >= MIN_AGENT_STAKE ==> r == Ok::<(AgentRegistry, AgentRegistered), ErrorCode>(
            (
                fresh_agent(agent, stake_amount, now, bump),
                (AgentRegistered {
                    agent,
                    tier: AgentTier::of_stake(stake_amount),
                    stake_amount,
                    timestamp: now,
                }),
            ),
        ),
        r matches Ok(p) ==> p.0.wf(),
{
    if stake_amount < MIN_AGENT_STAKE {
        return Err(ErrorCode::InsufficientStake);
    }
    let tier = AgentTier::from_stake(stake_amount);
    let record = AgentRegistry {
        agent_pubkey: agent,
        agent_tier: tier,
        stake_amount,
        reputation_score: 0,
        total_ili_updates: 0,
        successful_updates: 0,
        slashed_amount: 0,
        registered_at: now,
        last_active: now,
        is_active: true,
        bump,
    };
    Ok((record, AgentRegistered { agent, tier, stake_amount, timestamp: now }))
}

/// The reputation an agent is left with after one slash: fifty points less,
/// but never below `REPUTATION_FLOOR`.
pub open spec fn reputation_after_slash(reputation: i32) -> i32 {
    if reputation - SLASH_REPUTATION_PENALTY < REPUTATION_FLOOR {
        REPUTATION_FLOOR
    } else {
        (reputation - SLASH_REPUTATION_PENALTY) as i32
    }
}

/// Why a slash is refused, if it is. The checks come in this order.
pub open spec fn slash_error(
    state: GlobalState,
    agent: AgentRegistry,
    caller: Address,
    slash_amount: u64,
) -> Option<ErrorCode> {
    if caller != state.authority {
        Some(ErrorCode::Unauthorized)
    } else if slash_amount > agent.stake_amount {
        Some(ErrorCode::SlashExceedsStake)
    } else if agent.slashed_amount + slash_amount > u64::MAX {
        Some(ErrorCode::ArithmeticOverflow)
    } else {
        None
    }
}

/// The record of `agent` once `slash_amount` has been taken from its stake.
pub open spec fn slashed_agent(agent: AgentRegistry, slash_amount: u64) -> AgentRegistry {
    AgentRegistry {
        agent_tier: AgentTier::of_stake((agent.stake_amount - slash_amount) as u64),
        stake_amount: (agent.stake_amount - slash_amount) as u64,
        slashed_amount: (agent.slashed_amount + slash_amount) as u64,
        reputation_score: reputation_after_slash(agent.reputation_score),
        is_active: agent.is_active && agent.stake_amount - slash_amount >= MIN_AGENT_STAKE,
        ..agent
    }
}

/// Takes `slash_amount` from an agent's stake on the authority's order.
///
/// Fails as `slash_error` says and then leaves the record untouched.
/// Otherwise the stake shrinks and the slashed total grows by the amount, the
/// reputation drops as `reputation_after_slash` says, the tier becomes the
/// tier of the stake that is left, and the agent is deactivated if that
/// stake is below `MIN_AGENT_STAKE`.
pub fn slash_agent(
    state: &GlobalState,
    agent: &mut AgentRegistry,
    caller: &Address,
    slash_amount: u64,
    reason: String,
) -> (r: Result<AgentSlashed, ErrorCode>)
    ensures
        old(agent).wf() ==> final(agent).wf(),
        r is Ok ==> final(agent).agent_tier == AgentTier::of_stake(final(agent).stake_amount),
        match slash_error(*state, *old(agent), *caller, slash_amount) {
            Some(e) => r == Err::<AgentSlashed, ErrorCode>(e) && *final(agent) == *old(agent),
            None => {
                &&& *final(agent) == slashed_agent(*old(agent), slash_amount)
                &&& r == Ok::<AgentSlashed, ErrorCode>(
                    (AgentSlashed {
                        agent: old(agent).agent_pubkey,
                        slash_amount,
                        reason,
                        new_reputation: reputation_after_slash(old(agent).reputation_score),
                    }),
                )
            },
        },
{
    if *caller != state.authority {
        return Err(ErrorCode::Unauthorized);
    }
    if slash_amount > agent.stake_amount {
        return Err(ErrorCode::SlashExceedsStake);
    }
    let slashed_total: u64 = match agent.slashed_amount.checked_add(slash_amount) {
        Some(total) => total,
        None => {
            return Err(ErrorCode::ArithmeticOverflow);
        },
    };
    let reputation: i32 = if agent.reputation_score < REPUTATION_FLOOR + SLASH_REPUTATION_PENALTY {
        REPUTATION_FLOOR
    } else {
        agent.reputation_score - SLASH_REPUTATION_PENALTY
    };
    agent.stake_amount = agent.stake_amount - slash_amount;
    agent.agent_tier = AgentTier::from_stake(agent.stake_amount);
    agent.slashed_amount = slashed_total;
    agent.reputation_score = reputation;
    if agent.stake_amount < MIN_AGENT_STAKE {
        agent.is_active = false;
    }
    Ok(
        AgentSlashed {
            agent: agent.agent_pubkey,
            slash_amount,
            reason,
            new_reputation: reputation,
        },
    )
}

} // verus!
