use crate::address::Address;
use crate::config::GlobalState;
use crate::errors::ErrorCode;
use crate::math::{mul_div, BPS_DENOMINATOR};
use vstd::prelude::*;

verus! {

/// The managed token supply and the accounting of its current epoch.
#[derive(Clone, Copy, Debug, PartialEq, Eq)]
pub struct MintState {
    pub authority: Address,
    pub aru_mint: Address,
    pub current_epoch: u64,
    pub epoch_start: i64,
    pub epoch_duration: i64,
    pub total_supply: u64,
    pub epoch_minted: u64,
    pub epoch_burned: u64,
    pub supply_at_epoch_start: u64,
    pub mint_cap_per_epoch_bps: u16,
    pub burn_cap_per_epoch_bps: u16,
    pub bump: u8,
}

/// What one finished epoch did to the supply. Written once, at the rollover.
#[derive(Clone, Copy, Debug, PartialEq, Eq)]
pub struct EpochHistory {
    pub epoch_number: u64,
    pub start_time: i64,
    pub end_time: i64,
    pub total_minted: u64,
    pub total_burned: u64,
    pub net_supply_change: i64,
    pub final_supply: u64,
}

impl MintState {
    /// The parameters are in range and the epoch's counters within its caps.
    pub open spec fn wf(&self) -> bool {
        &&& self.epoch_duration > 0
        &&& self.mint_cap_per_epoch_bps <= BPS_DENOMINATOR
        &&& self.burn_cap_per_epoch_bps <= BPS_DENOMINATOR
        &&& self.epoch_minted <= self.mint_cap()
        &&& self.epoch_burned <= self.burn_cap()
    }

    /// Most that can be minted in the current epoch: the mint cap's share of
    /// the supply at the epoch's start, rounded down.
    pub open spec fn mint_cap(&self) -> int {
        self.supply_at_epoch_start * self.mint_cap_per_epoch_bps / 10000
    }

    /// Most that can be burned in the current epoch: the burn cap's share of
    /// the supply at the epoch's start, rounded down.
    pub open spec fn burn_cap(&self) -> int {
        self.supply_at_epoch_start * self.burn_cap_per_epoch_bps / 10000
    }

    /// The time at which the current epoch ends.
    pub open spec fn epoch_end(&self) -> int {
        self.epoch_start + self.epoch_duration
    }

    /// Why the current epoch cannot be archived at `now`, if it cannot: it
    /// has not run its full duration, or one of the numbers to write down
    /// leaves its range.
    pub open spec fn rollover_error(&self, now: i64) -> Option<ErrorCode> {
        if self.epoch_end() > i64::MAX {
            Some(ErrorCode::ArithmeticOverflow)
        } else if now < self.epoch_end() {
            Some(ErrorCode::EpochNotComplete)
        } else if self.epoch_minted - self.epoch_burned > i64::MAX || self.epoch_minted
            - self.epoch_burned < i64::MIN {
            Some(ErrorCode::ArithmeticOverflow)
        } else if self.current_epoch == u64::MAX {
            Some(ErrorCode::ArithmeticOverflow)
        } else {
            None
        }
    }

    /// The record that archives the current epoch at `now`.
    pub open spec fn epoch_record(&self, now: i64) -> EpochHistory {
        EpochHistory {
            epoch_number: self.current_epoch,
            start_time: self.epoch_start,
            end_time: now,
            total_minted: self.epoch_minted,
            total_burned: self.epoch_burned,
            net_supply_change: (self.epoch_minted - self.epoch_burned) as i64,
            final_supply: self.total_supply,
        }
    }

    /// The state at the start of the next epoch, opened at `now`: counters
    /// at zero and the current supply as the new snapshot.
    pub open spec fn rolled_over(&self, now: i64) -> MintState {
        MintState {
            current_epoch: (self.current_epoch + 1) as u64,
            epoch_start: now,
            epoch_minted: 0,
            epoch_burned: 0,
            supply_at_epoch_start: self.total_supply,
            ..*self
        }
    }

    /// A mint or burn at `now` first rolls the epoch over: the epoch has run
    /// its duration, or its end cannot even be computed.
    pub open spec fn rolls_over_at(&self, now: i64) -> bool {
        self.rollover_error(now) != Some(ErrorCode::EpochNotComplete)
    }

    /// The state a mint or burn at `now` works on: the next epoch if the
    /// current one has run its duration, the current one otherwise.
    pub open spec fn epoch_at(&self, now: i64) -> MintState {
        if self.rolls_over_at(now) {
            self.rolled_over(now)
        } else {
            *self
        }
    }

    /// The record a mint or burn at `now` archives, if it rolls the epoch
    /// over.
    pub open spec fn archived_at(&self, now: i64) -> Option<EpochHistory> {
        if self.rolls_over_at(now) {
            Some(self.epoch_record(now))
        } else {
            None
        }
    }
}

/// Why the parameters of a supply are refused, if they are.
pub open spec fn supply_parameters_error(
    epoch_duration: i64,
    mint_cap_per_epoch_bps: u16,
    burn_cap_per_epoch_bps: u16,
) -> Option<ErrorCode> {
    if epoch_duration <= 0 {
        Some(ErrorCode::InvalidEpochDuration)
    } else if mint_cap_per_epoch_bps > BPS_DENOMINATOR {
        Some(ErrorCode::InvalidMintCap)
    } else if burn_cap_per_epoch_bps > BPS_DENOMINATOR {
        Some(ErrorCode::InvalidBurnCap)
    } else {
        None
    }
}

/// Sets up the accounting for a token whose supply is `current_supply`.
///
/// Fails as `supply_parameters_error` says. Otherwise epoch 0 starts at
/// `now` with nothing minted or burned and `current_supply` as its snapshot.
pub fn initialize(
    authority: Address,
    aru_mint: Address,
    current_supply: u64,
    epoch_duration: i64,
    mint_cap_per_epoch_bps: u16,
    burn_cap_per_epoch_bps: u16,
    now: i64,
    bump: u8,
) -> (r: Result<MintState, ErrorCode>)
    ensures
        match supply_parameters_error(
            epoch_duration,
            mint_cap_per_epoch_bps,
            burn_cap_per_epoch_bps,
        ) {
            Some(e) => r == Err::<MintState, ErrorCode>(e),
            None => r == Ok::<MintState, ErrorCode>(
                (MintState {
                    authority,
                    aru_mint,
                    current_epoch: 0,
                    epoch_start: now,
                    epoch_duration,
                    total_supply: current_supply,
                    epoch_minted: 0,
                    epoch_burned: 0,
                    supply_at_epoch_start: current_supply,
                    mint_cap_per_epoch_bps,
                    burn_cap_per_epoch_bps,
                    bump,
                }),
            ) && r->Ok_0.wf(),
        },
{
    if epoch_duration <= 0 {
        return Err(ErrorCode::InvalidEpochDuration);
    }
    if mint_cap_per_epoch_bps > BPS_DENOMINATOR {
        return Err(ErrorCode::InvalidMintCap);
    }
    if burn_cap_per_epoch_bps > BPS_DENOMINATOR {
        return Err(ErrorCode::InvalidBurnCap);
    }
    Ok(
        MintState {
            authority,
            aru_mint,
            current_epoch: 0,
            epoch_start: now,
            epoch_duration,
            total_supply: current_supply,
            epoch_minted: 0,
            epoch_burned: 0,
            supply_at_epoch_start: current_supply,
            mint_cap_per_epoch_bps,
            burn_cap_per_epoch_bps,
            bump,
        },
    )
}

/// Archives the current epoch and opens the next one, without touching the
/// state: the record to archive or the reason why there is none, and the
/// state of the next epoch.
fn roll_over(mint_state: &MintState, now: i64) -> (r: Result<(EpochHistory, MintState), ErrorCode>)
    ensures
        match mint_state.rollover_error(now) {
            Some(e) => r == Err::<(EpochHistory, MintState), ErrorCode>(e),
            None => r == Ok::<(EpochHistory, MintState), ErrorCode>(
                (mint_state.epoch_record(now), mint_state.rolled_over(now)),
            ),
        },
{
    let epoch_end: i128 = mint_state.epoch_start as i128 + mint_state.epoch_duration as i128;
    if epoch_end > i64::MAX as i128 {
        return Err(ErrorCode::ArithmeticOverflow);
    }
    if (now as i128) < epoch_end {
        return Err(ErrorCode::EpochNotComplete);
    }
    let net: i128 = mint_state.epoch_minted as i128 - mint_state.epoch_burned as i128;
    if net > i64::MAX as i128 || net < i64::MIN as i128 {
        return Err(ErrorCode::ArithmeticOverflow);
    }
    if mint_state.current_epoch == u64::MAX {
        return Err(ErrorCode::ArithmeticOverflow);
    }
    let record = EpochHistory {
        epoch_number: mint_state.current_epoch,
        start_time: mint_state.epoch_start,
        end_time: now,
        total_minted: mint_state.epoch_minted,
        total_burned: mint_state.epoch_burned,
        net_supply_change: net as i64,
        final_supply: mint_state.total_supply,
    };
    let next = MintState {
        authority: mint_state.authority,
        aru_mint: mint_state.aru_mint,
        current_epoch: mint_state.current_epoch + 1,
        epoch_start: now,
        epoch_duration: mint_state.epoch_duration,
        total_supply: mint_state.total_supply,
        epoch_minted: 0,
        epoch_burned: 0,
        supply_at_epoch_start: mint_state.total_supply,
        mint_cap_per_epoch_bps: mint_state.mint_cap_per_epoch_bps,
        burn_cap_per_epoch_bps: mint_state.burn_cap_per_epoch_bps,
        bump: mint_state.bump,
    };
    Ok((record, next))
}

/// Closes the current epoch once it has run its duration.
///
/// Fails as `rollover_error` says and then leaves the state untouched.
/// Otherwise returns the record of the epoch that ended and starts the next
/// one at `now`: counters at zero, the current supply as snapshot.
pub fn start_new_epoch(mint_state: &mut MintState, now: i64) -> (r: Result<EpochHistory, ErrorCode>)
    ensures
        match old(mint_state).rollover_error(now) {
            Some(e) => r == Err::<EpochHistory, ErrorCode>(e) && *final(mint_state) == *old(
                mint_state,
            ),
            None => r == Ok::<EpochHistory, ErrorCode>(old(mint_state).epoch_record(now))
                && *final(mint_state) == old(mint_state).rolled_over(now),
        },
{
    match roll_over(mint_state, now) {
        Err(e) => Err(e),
        Ok((record, next)) => {
            *mint_state = next;
            Ok(record)
        },
    }
}

/// Why a mint of `amount` at `now` is refused, if it is. The checks come in
/// this order; the cap is that of the epoch the mint falls in.
pub open spec fn mint_error(
    mint_state: MintState,
    state: GlobalState,
    amount: u64,
    now: i64,
) -> Option<ErrorCode> {
    let epoch = mint_state.epoch_at(now);
    if amount == 0 {
        Some(ErrorCode::InvalidAmount)
    } else if state.circuit_breaker_active {
        Some(ErrorCode::CircuitBreakerActive)
    } else if mint_state.rolls_over_at(now) && mint_state.rollover_error(now) is Some {
        mint_state.rollover_error(now)
    } else if epoch.epoch_minted + amount > u64::MAX {
        Some(ErrorCode::ArithmeticOverflow)
    } else if epoch.epoch_minted + amount > epoch.mint_cap() {
        Some(ErrorCode::MintCapExceeded)
    } else if epoch.total_supply + amount > u64::MAX {
        Some(ErrorCode::ArithmeticOverflow)
    } else {
        None
    }
}

/// The state after a mint of `amount` at `now`.
pub open spec fn minted(mint_state: MintState, amount: u64, now: i64) -> MintState {
    let epoch = mint_state.epoch_at(now);
    MintState {
        epoch_minted: (epoch.epoch_minted + amount) as u64,
        total_supply: (epoch.total_supply + amount) as u64,
        ..epoch
    }
}

/// Why a burn of `amount` at `now` is refused, if it is. The checks come in
/// this order; the cap is that of the epoch the burn falls in.
pub open spec fn burn_error(
    mint_state: MintState,
    state: GlobalState,
    amount: u64,
    now: i64,
) -> Option<ErrorCode> {
    let epoch = mint_state.epoch_at(now);
    if amount == 0 {
        Some(ErrorCode::InvalidAmount)
    } else if state.circuit_breaker_active {
        Some(ErrorCode::CircuitBreakerActive)
    } else if mint_state.rolls_over_at(now) && mint_state.rollover_error(now) is Some {
        mint_state.rollover_error(now)
    } else if epoch.epoch_burned + amount > u64::MAX {
        Some(ErrorCode::ArithmeticOverflow)
    } else if epoch.epoch_burned + amount > epoch.burn_cap() {
        Some(ErrorCode::BurnCapExceeded)
    } else if amount > epoch.total_supply {
        Some(ErrorCode::ArithmeticOverflow)
    } else {
        None
    }
}

/// The state after a burn of `amount` at `now`.
pub open spec fn burned(mint_state: MintState, amount: u64, now: i64) -> MintState {
    let epoch = mint_state.epoch_at(now);
    MintState {
        epoch_burned: (epoch.epoch_burned + amount) as u64,
        total_supply: (epoch.total_supply - amount) as u64,
        ..epoch
    }
}

/// The epoch a mint or burn at `now` falls in, with the record it archives
/// on the way, or the error that stops the rollover.
fn enter_epoch(mint_state: &MintState, now: i64) -> (r: Result<
    (MintState, Option<EpochHistory>),
    ErrorCode,
>)
    ensures
        mint_state.rolls_over_at(now) && mint_state.rollover_error(now) is Some ==> r == Err::<
            (MintState, Option<EpochHistory>),
            ErrorCode,
        >(mint_state.rollover_error(now)->0),
        !(mint_state.rolls_over_at(now) && mint_state.rollover_error(now) is Some) ==> r == Ok::<
            (MintState, Option<EpochHistory>),
            ErrorCode,
        >((mint_state.epoch_at(now), mint_state.archived_at(now))),
{
    match roll_over(mint_state, now) {
        Ok((record, next)) => Ok((next, Some(record))),
        Err(ErrorCode::EpochNotComplete) => Ok((*mint_state, None)),
        Err(e) => Err(e),
    }
}

/// Accounts for `amount` newly minted tokens.
///
/// If the current epoch has run its duration, it is archived first and the
/// cap is that of the next epoch. Fails as `mint_error` says and then
/// leaves the state untouched, rollover included. Otherwise the supply and
/// the epoch's minted total grow by `amount`, which keeps the total within
/// the epoch's cap, and the record of an epoch that was archived is
/// returned.
pub fn mint_aru(mint_state: &mut MintState, state: &GlobalState, amount: u64, now: i64) -> (r:
    Result<Option<EpochHistory>, ErrorCode>)
    ensures
        match mint_error(*old(mint_state), *state, amount, now) {
            Some(e) => r == Err::<Option<EpochHistory>, ErrorCode>(e) && *final(mint_state)
                == *old(mint_state),
            None => {
                &&& *final(mint_state) == minted(*old(mint_state), amount, now)
                &&& r == Ok::<Option<EpochHistory>, ErrorCode>(old(mint_state).archived_at(now))
                &&& final(mint_state).epoch_minted <= final(mint_state).mint_cap()
            },
        },
{
    if amount == 0 {
        return Err(ErrorCode::InvalidAmount);
    }
    if state.circuit_breaker_active {
        return Err(ErrorCode::CircuitBreakerActive);
    }
    let (epoch, archived) = match enter_epoch(mint_state, now) {
        Ok(entered) => entered,
        Err(e) => {
            return Err(e);
        },
    };
    let new_minted: u64 = match epoch.epoch_minted.checked_add(amount) {
        Some(total) => total,
        None => {
            return Err(ErrorCode::ArithmeticOverflow);
        },
    };
    let cap: u128 = mul_div(epoch.supply_at_epoch_start, epoch.mint_cap_per_epoch_bps as u64, 10000);
    if new_minted as u128 > cap {
        return Err(ErrorCode::MintCapExceeded);
    }
    let new_supply: u64 = match epoch.total_supply.checked_add(amount) {
        Some(total) => total,
        None => {
            return Err(ErrorCode::ArithmeticOverflow);
        },
    };
    *mint_state = epoch;
    mint_state.epoch_minted = new_minted;
    mint_state.total_supply = new_supply;
    Ok(archived)
}

/// Accounts for `amount` burned tokens.
///
/// If the current epoch has run its duration, it is archived first and the
/// cap is that of the next epoch. Fails as `burn_error` says and then
/// leaves the state untouched, rollover included. Otherwise the supply
/// shrinks and the epoch's burned total grows by `amount`, which keeps the
/// total within the epoch's cap, and the record of an epoch that was
/// archived is returned.
pub fn burn_aru(mint_state: &mut MintState, state: &GlobalState, amount: u64, now: i64) -> (r:
    Result<Option<EpochHistory>, ErrorCode>)
    ensures
        match burn_error(*old(mint_state), *state, amount, now) {
            Some(e) => r == Err::<Option<EpochHistory>, ErrorCode>(e) && *final(mint_state)
                == *old(mint_state),
            None => {
                &&& *final(mint_state) == burned(*old(mint_state), amount, now)
                &&& r == Ok::<Option<EpochHistory>, ErrorCode>(old(mint_state).archived_at(now))
                &&& final(mint_state).epoch_burned <= final(mint_state).burn_cap()
            },
        },
{
    if amount == 0 {
        return Err(ErrorCode::InvalidAmount);
    }
    if state.circuit_breaker_active {
        return Err(ErrorCode::CircuitBreakerActive);
    }
    let (epoch, archived) = match enter_epoch(mint_state, now) {
        Ok(entered) => entered,
        Err(e) => {
            return Err(e);
        },
    };
    let new_burned: u64 = match epoch.epoch_burned.checked_add(amount) {
        Some(total) => total,
        None => {
            return Err(ErrorCode::ArithmeticOverflow);
        },
    };
    let cap: u128 = mul_div(epoch.supply_at_epoch_start, epoch.burn_cap_per_epoch_bps as u64, 10000);
    if new_burned as u128 > cap {
        return Err(ErrorCode::BurnCapExceeded);
    }
    let new_supply: u64 = match epoch.total_supply.checked_sub(amount) {
        Some(rest) => rest,
        None => {
            return Err(ErrorCode::ArithmeticOverflow);
        },
    };
    *mint_state = epoch;
    mint_state.epoch_burned = new_burned;
    mint_state.total_supply = new_supply;
    Ok(archived)
}

/// Where the supply stands in its current epoch.
#[derive(Clone, Copy, Debug, PartialEq, Eq, Structural)]
pub struct EpochCounters {
    pub current_epoch: u64,
    pub epoch_minted: u64,
    pub epoch_burned: u64,
}

/// The number of the current epoch and what it has minted and burned so
/// far.
pub fn query_epoch(mint_state: &MintState) -> (counters: EpochCounters)
    ensures
        counters == (EpochCounters {
            current_epoch: mint_state.current_epoch,
            epoch_minted: mint_state.epoch_minted,
            epoch_burned: mint_state.epoch_burned,
        }),
{
    EpochCounters {
        current_epoch: mint_state.current_epoch,
        epoch_minted: mint_state.epoch_minted,
        epoch_burned: mint_state.epoch_burned,
    }
}

/// Whatever the state, a mint that would take the epoch's minted total
/// above its cap is refused, with `MintCapExceeded` unless an earlier check
/// fails, and after a mint that succeeds the total is within the cap:
/// `floor(supply_at_epoch_start * cap_bps / 10000)`.
pub proof fn lemma_mint_respects_cap(mint_state: MintState, state: GlobalState, amount: u64, now: i64)
    ensures
        mint_error(mint_state, state, amount, now) is None ==> minted(
            mint_state,
            amount,
            now,
        ).epoch_minted <= minted(mint_state, amount, now).supply_at_epoch_start * minted(
            mint_state,
            amount,
            now,
        ).mint_cap_per_epoch_bps / 10000,
        mint_state.epoch_at(now).epoch_minted + amount > mint_state.epoch_at(now).mint_cap()
            ==> mint_error(mint_state, state, amount, now) is Some,
        ({
            &&& amount > 0
            &&& !state.circuit_breaker_active
            &&& !(mint_state.rolls_over_at(now) && mint_state.rollover_error(now) is Some)
            &&& mint_state.epoch_at(now).epoch_minted + amount <= u64::MAX
            &&& mint_state.epoch_at(now).epoch_minted + amount > mint_state.epoch_at(
                now,
            ).mint_cap()
        }) ==> mint_error(mint_state, state, amount, now) == Some(ErrorCode::MintCapExceeded),
{
}

/// Whatever the state, a burn that would take the epoch's burned total
/// above its cap is refused, with `BurnCapExceeded` unless an earlier check
/// fails, and after a burn that succeeds the total is within the cap:
/// `floor(supply_at_epoch_start * cap_bps / 10000)`.
pub proof fn lemma_burn_respects_cap(mint_state: MintState, state: GlobalState, amount: u64, now: i64)
    ensures
        burn_error(mint_state, state, amount, now) is None ==> burned(
            mint_state,
            amount,
            now,
        ).epoch_burned <= burned(mint_state, amount, now).supply_at_epoch_start * burned(
            mint_state,
            amount,
            now,
        ).burn_cap_per_epoch_bps / 10000,
        mint_state.epoch_at(now).epoch_burned + amount > mint_state.epoch_at(now).burn_cap()
            ==> burn_error(mint_state, state, amount, now) is Some,
        ({
            &&& amount > 0
            &&& !state.circuit_breaker_active
            &&& !(mint_state.rolls_over_at(now) && mint_state.rollover_error(now) is Some)
            &&& mint_state.epoch_at(now).epoch_burned + amount <= u64::MAX
            &&& mint_state.epoch_at(now).epoch_burned + amount > mint_state.epoch_at(
                now,
            ).burn_cap()
        }) ==> burn_error(mint_state, state, amount, now) == Some(ErrorCode::BurnCapExceeded),
{
}

/// The counters of a well-formed state stay within their caps through
/// every operation that succeeds: mint, burn and rollover.
pub proof fn lemma_caps_are_invariant(mint_state: MintState, state: GlobalState, amount: u64, now: i64)
    requires
        mint_state.wf(),
    ensures
        mint_error(mint_state, state, amount, now) is None ==> minted(mint_state, amount, now).wf(),
        burn_error(mint_state, state, amount, now) is None ==> burned(mint_state, amount, now).wf(),
        mint_state.rollover_error(now) is None ==> mint_state.rolled_over(now).wf(),
{
    assert(mint_state.total_supply * mint_state.mint_cap_per_epoch_bps / 10000 >= 0);
    assert(mint_state.total_supply * mint_state.burn_cap_per_epoch_bps / 10000 >= 0);
}

} // verus!
