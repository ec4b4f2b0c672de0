use crate::reserve::{calculate_vhr, health_ratio};
use vstd::prelude::*;

verus! {

/// Supply a fuzzing run starts from.
pub const INITIAL_SUPPLY: u64 = 1_000_000_000;

/// Value of the reserve a fuzzing run starts from.
pub const INITIAL_RESERVE_VALUE: u64 = 2_000_000_000;

/// Liabilities of the reserve throughout a fuzzing run.
pub const INITIAL_LIABILITIES: u64 = 1_000_000_000;

/// Mint and burn cap of a fuzzing run, in basis points: 2%.
pub const FUZZ_CAP_BPS: u64 = 200;

/// Health ratio a fuzzing run expects the reserve to keep: 150%.
pub const FUZZ_MIN_VHR: u16 = 15000;

/// One instruction of a fuzzing run.
#[derive(Clone, Copy, Debug, PartialEq, Eq, Structural)]
pub enum FuzzInstruction {
    RegisterAgent { stake_amount: u64 },
    SubmitIliUpdate { ili_value: u64 },
    CreateProposal { policy_type: u8, voting_period: i64 },
    VoteOnProposal { vote_yes: bool, stake_amount: u64 },
    TriggerCircuitBreaker,
    SlashAgent { slash_amount: u64 },
    Deposit { amount: u64 },
    Withdraw { amount: u64 },
    Rebalance { amount: u64 },
    MintAru { amount: u64 },
    BurnAru { amount: u64 },
    StartNewEpoch,
}

impl FuzzInstruction {
    /// The instruction moves value, so a run does not send it while the
    /// circuit breaker is active.
    pub open spec fn is_gated(&self) -> bool {
        !(*self is RegisterAgent || *self is TriggerCircuitBreaker || *self is SlashAgent
            || *self is StartNewEpoch)
    }
}

/// What a fuzzing run expects of the protocol's state, kept beside the
/// protocol as the instructions go by.
#[derive(Clone, Copy, Debug, PartialEq, Eq, Structural)]
pub struct FuzzModel {
    pub total_supply: u64,
    pub epoch_minted: u64,
    pub epoch_burned: u64,
    pub total_value_usd: u64,
    pub liabilities_usd: u64,
    pub circuit_breaker_active: bool,
}

/// `a + b`, held at `u64::MAX`.
pub open spec fn saturating_sum(a: u64, b: u64) -> u64 {
    if a + b > u64::MAX {
        u64::MAX
    } else {
        (a + b) as u64
    }
}

/// `a - b`, held at zero.
pub open spec fn saturating_difference(a: u64, b: u64) -> u64 {
    if a < b {
        0
    } else {
        (a - b) as u64
    }
}

fn add_saturating(a: u64, b: u64) -> (sum: u64)
    ensures
        sum == saturating_sum(a, b),
{
    match a.checked_add(b) {
        Some(sum) => sum,
        None => u64::MAX,
    }
}

fn subtract_saturating(a: u64, b: u64) -> (difference: u64)
    ensures
        difference == saturating_difference(a, b),
{
    if a < b {
        0
    } else {
        a - b
    }
}

impl FuzzModel {
    /// The cap on what an epoch may mint or burn, by the supply as it
    /// stands.
    pub open spec fn cap(&self) -> int {
        self.total_supply * FUZZ_CAP_BPS / 10000
    }

    /// The reserve is healthy, or the circuit breaker is active.
    pub open spec fn reserve_is_safe(&self) -> bool {
        health_ratio(self.total_value_usd, self.liabilities_usd) >= FUZZ_MIN_VHR
            || self.circuit_breaker_active
    }

    /// All that a run expects at its end: both counters within the cap, and
    /// the reserve safe.
    pub open spec fn invariants(&self) -> bool {
        &&& self.epoch_minted <= self.cap()
        &&& self.epoch_burned <= self.cap()
        &&& self.reserve_is_safe()
    }

    /// The model after `instruction` was sent and succeeded or failed.
    pub open spec fn after(&self, instruction: FuzzInstruction, succeeded: bool) -> FuzzModel {
        if !succeeded {
            *self
        } else {
            match instruction {
                FuzzInstruction::TriggerCircuitBreaker => FuzzModel {
                    circuit_breaker_active: true,
                    ..*self
                },
                FuzzInstruction::Deposit { amount } => FuzzModel {
                    total_value_usd: saturating_sum(self.total_value_usd, amount),
                    ..*self
                },
                FuzzInstruction::Withdraw { amount } => FuzzModel {
                    total_value_usd: saturating_difference(self.total_value_usd, amount),
                    ..*self
                },
                FuzzInstruction::MintAru { amount } => FuzzModel {
                    epoch_minted: saturating_sum(self.epoch_minted, amount),
                    total_supply: saturating_sum(self.total_supply, amount),
                    ..*self
                },
                FuzzInstruction::BurnAru { amount } => FuzzModel {
                    epoch_burned: saturating_sum(self.epoch_burned, amount),
                    total_supply: saturating_difference(self.total_supply, amount),
                    ..*self
                },
                FuzzInstruction::StartNewEpoch => FuzzModel {
                    epoch_minted: 0,
                    epoch_burned: 0,
                    ..*self
                },
                _ => *self,
            }
        }
    }

    /// What a run expects right after `instruction`, which took the model
    /// from `self` to `next`: after a withdrawal the reserve is safe, and
    /// after a mint or burn the counter is within the cap that held before.
    pub open spec fn expectation(&self, instruction: FuzzInstruction, next: FuzzModel) -> bool {
        match instruction {
            FuzzInstruction::Withdraw { .. } => next.reserve_is_safe(),
            FuzzInstruction::MintAru { .. } => next.epoch_minted <= self.cap(),
            FuzzInstruction::BurnAru { .. } => next.epoch_burned <= self.cap(),
            _ => true,
        }
    }

    /// The model at the start of a run.
    pub fn new() -> (model: FuzzModel)
        ensures
            model == (FuzzModel {
                total_supply: INITIAL_SUPPLY,
                epoch_minted: 0,
                epoch_burned: 0,
                total_value_usd: INITIAL_RESERVE_VALUE,
                liabilities_usd: INITIAL_LIABILITIES,
                circuit_breaker_active: false,
            }),
            model.invariants(),
    {
        FuzzModel {
            total_supply: INITIAL_SUPPLY,
            epoch_minted: 0,
            epoch_burned: 0,
            total_value_usd: INITIAL_RESERVE_VALUE,
            liabilities_usd: INITIAL_LIABILITIES,
            circuit_breaker_active: false,
        }
    }

    /// Whether the run sends `instruction`: always, unless it moves value
    /// and the circuit breaker is active.
    pub fn dispatches(&self, instruction: &FuzzInstruction) -> (send: bool)
        ensures
            send == !(self.circuit_breaker_active && instruction.is_gated()),
    {
        match instruction {
            FuzzInstruction::RegisterAgent { .. } => true,
            FuzzInstruction::TriggerCircuitBreaker => true,
            FuzzInstruction::SlashAgent { .. } => true,
            FuzzInstruction::StartNewEpoch => true,
            _ => !self.circuit_breaker_active,
        }
    }

    fn within_cap(total_supply: u64, counter: u64) -> (within: bool)
        ensures
            within == (counter <= total_supply * FUZZ_CAP_BPS / 10000),
    {
        counter as u128 <= crate::math::mul_div(total_supply, FUZZ_CAP_BPS, 10000)
    }

    fn is_safe(&self) -> (safe: bool)
        ensures
            safe == self.reserve_is_safe(),
    {
        calculate_vhr(self.total_value_usd, self.liabilities_usd) >= FUZZ_MIN_VHR
            || self.circuit_breaker_active
    }

    /// Takes note of an instruction that was sent and of whether it
    /// succeeded, and tells whether the protocol did what the run expects
    /// right after it.
    pub fn record(&mut self, instruction: &FuzzInstruction, succeeded: bool) -> (met: bool)
        ensures
            *final(self) == old(self).after(*instruction, succeeded),
            met == old(self).expectation(*instruction, *final(self)),
    {
        let supply_before: u64 = self.total_supply;
        if succeeded {
            match instruction {
                FuzzInstruction::TriggerCircuitBreaker => {
                    self.circuit_breaker_active = true;
                },
                FuzzInstruction::Deposit { amount } => {
                    self.total_value_usd = add_saturating(self.total_value_usd, *amount);
                },
                FuzzInstruction::Withdraw { amount } => {
                    self.total_value_usd = subtract_saturating(self.total_value_usd, *amount);
                },
                FuzzInstruction::MintAru { amount } => {
                    self.epoch_minted = add_saturating(self.epoch_minted, *amount);
                    self.total_supply = add_saturating(self.total_supply, *amount);
                },
                FuzzInstruction::BurnAru { amount } => {
                    self.epoch_burned = add_saturating(self.epoch_burned, *amount);
                    self.total_supply = subtract_saturating(self.total_supply, *amount);
                },
                FuzzInstruction::StartNewEpoch => {
                    self.epoch_minted = 0;
                    self.epoch_burned = 0;
                },
                _ => {},
            }
        }
        match instruction {
            FuzzInstruction::Withdraw { .. } => self.is_safe(),
            FuzzInstruction::MintAru { .. } => FuzzModel::within_cap(supply_before, self.epoch_minted),
            FuzzInstruction::BurnAru { .. } => FuzzModel::within_cap(supply_before, self.epoch_burned),
            _ => true,
        }
    }

    /// Whether the model is as a run expects it at its end.
    pub fn invariants_hold(&self) -> (hold: bool)
        ensures
            hold == self.invariants(),
    {
        FuzzModel::within_cap(self.total_supply, self.epoch_minted) && FuzzModel::within_cap(
            self.total_supply,
            self.epoch_burned,
        ) && self.is_safe()
    }
}

} // verus!
