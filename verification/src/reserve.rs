use crate::address::Address;
use crate::config::GlobalState;
use crate::errors::ErrorCode;
use crate::math::{mul_div, BPS_DENOMINATOR};
use crate::security::ReentrancyGuard;
use vstd::prelude::*;

verus! {

/// Health ratio of a vault without liabilities, and the top of the scale.
pub const MAX_VHR: u16 = 65535;

/// The reserve that backs the token.
#[derive(Clone, Copy, Debug, PartialEq, Eq)]
pub struct ReserveVault {
    pub authority: Address,
    pub usdc_vault: Address,
    pub sol_vault: Address,
    pub msol_vault: Address,
    pub jitosol_vault: Address,
    pub total_value_usd: u64,
    pub liabilities_usd: u64,
    pub vhr: u16,
    pub last_rebalance: i64,
    pub rebalance_threshold_bps: u16,
    pub min_vhr: u16,
    pub locked: bool,
    pub bump: u8,
}

/// Health ratio of `value` against `liabilities`, in basis points: the top
/// of the scale where there are no liabilities, `floor(value * 10000 /
/// liabilities)` otherwise, held at the top of the scale where it would
/// pass it. Against any threshold on the scale it compares as the exact
/// ratio does.
pub open spec fn health_ratio(value: u64, liabilities: u64) -> int {
    if liabilities == 0 {
        MAX_VHR as int
    } else if value * 10000 / (liabilities as int) > MAX_VHR {
        MAX_VHR as int
    } else {
        value * 10000 / (liabilities as int)
    }
}

/// Computes the health ratio of `total_value_usd` against `liabilities_usd`.
pub fn calculate_vhr(total_value_usd: u64, liabilities_usd: u64) -> (vhr: u16)
    ensures
        vhr == health_ratio(total_value_usd, liabilities_usd),
{
    if liabilities_usd == 0 {
        return MAX_VHR;
    }
    let ratio: u128 = mul_div(total_value_usd, 10000, liabilities_usd);
    if ratio > MAX_VHR as u128 {
        MAX_VHR
    } else {
        ratio as u16
    }
}

impl ReserveVault {
    /// The stored ratio is the ratio of the stored value and liabilities,
    /// and no operation holds the lock.
    pub open spec fn wf(&self) -> bool {
        &&& self.vhr == health_ratio(self.total_value_usd, self.liabilities_usd)
        &&& !self.locked
    }
}

/// Why the parameters of a vault are refused, if they are.
pub open spec fn vault_parameters_error(min_vhr: u16, rebalance_threshold_bps: u16) -> Option<
    ErrorCode,
> {
    if min_vhr < BPS_DENOMINATOR {
        Some(ErrorCode::InvalidVHR)
    } else if rebalance_threshold_bps > BPS_DENOMINATOR {
        Some(ErrorCode::InvalidThreshold)
    } else {
        None
    }
}

/// Addresses of the accounts a vault is set up with.
#[derive(Clone, Copy, Debug, PartialEq, Eq)]
pub struct VaultAccounts {
    pub authority: Address,
    pub usdc_vault: Address,
    pub sol_vault: Address,
    pub msol_vault: Address,
    pub jitosol_vault: Address,
    pub bump: u8,
}

/// Sets up an empty vault.
///
/// Fails as `vault_parameters_error` says: the minimum ratio must be at
/// least 100%, the rebalance threshold at most 100%. Otherwise the vault
/// holds nothing, owes nothing, and its ratio is the top of the scale.
pub fn initialize(accounts: VaultAccounts, min_vhr: u16, rebalance_threshold_bps: u16) -> (r:
    Result<ReserveVault, ErrorCode>)
    ensures
        match vault_parameters_error(min_vhr, rebalance_threshold_bps) {
            Some(e) => r == Err::<ReserveVault, ErrorCode>(e),
            None => r == Ok::<ReserveVault, ErrorCode>(
                (ReserveVault {
                    authority: accounts.authority,
                    usdc_vault: accounts.usdc_vault,
                    sol_vault: accounts.sol_vault,
                    msol_vault: accounts.msol_vault,
                    jitosol_vault: accounts.jitosol_vault,
                    total_value_usd: 0,
                    liabilities_usd: 0,
                    vhr: MAX_VHR,
                    last_rebalance: 0,
                    rebalance_threshold_bps,
                    min_vhr,
                    locked: false,
                    bump: accounts.bump,
                }),
            ) && r->Ok_0.wf(),
        },
{
    if min_vhr < BPS_DENOMINATOR {
        return Err(ErrorCode::InvalidVHR);
    }
    if rebalance_threshold_bps > BPS_DENOMINATOR {
        return Err(ErrorCode::InvalidThreshold);
    }
    Ok(
        ReserveVault {
            authority: accounts.authority,
            usdc_vault: accounts.usdc_vault,
            sol_vault: accounts.sol_vault,
            msol_vault: accounts.msol_vault,
            jitosol_vault: accounts.jitosol_vault,
            total_value_usd: 0,
            liabilities_usd: 0,
            vhr: MAX_VHR,
            last_rebalance: 0,
            rebalance_threshold_bps,
            min_vhr,
            locked: false,
            bump: accounts.bump,
        },
    )
}

/// Why a deposit is refused, if it is. The checks come in this order.
pub open spec fn deposit_error(vault: ReserveVault, state: GlobalState, amount: u64) -> Option<
    ErrorCode,
> {
    if amount == 0 {
        Some(ErrorCode::InvalidAmount)
    } else if vault.locked {
        Some(ErrorCode::ReentrancyDetected)
    } else if state.circuit_breaker_active {
        Some(ErrorCode::CircuitBreakerActive)
    } else if vault.total_value_usd + amount > u64::MAX {
        Some(ErrorCode::ArithmeticOverflow)
    } else {
        None
    }
}

/// The vault after a deposit of `amount`.
pub open spec fn deposited(vault: ReserveVault, amount: u64) -> ReserveVault {
    ReserveVault {
        total_value_usd: (vault.total_value_usd + amount) as u64,
        vhr: health_ratio((vault.total_value_usd + amount) as u64, vault.liabilities_usd) as u16,
        ..vault
    }
}

/// The vault while an operation holds its lock.
pub open spec fn held(vault: ReserveVault) -> ReserveVault {
    ReserveVault { locked: true, ..vault }
}

/// The vault once the lock has been given back.
pub open spec fn released(vault: ReserveVault) -> ReserveVault {
    ReserveVault { locked: false, ..vault }
}

/// First step of a deposit: tests it and takes the lock, so that the tokens
/// can be moved while no other operation can enter the vault.
///
/// Fails as `deposit_error` says and then leaves the vault untouched, the
/// lock included. Otherwise nothing changes but the lock, which is now
/// held until `finish_deposit` or `cancel_transfer` gives it back.
pub fn begin_deposit(vault: &mut ReserveVault, state: &GlobalState, amount: u64) -> (r: Result<
    (),
    ErrorCode,
>)
    ensures
        match deposit_error(*old(vault), *state, amount) {
            Some(e) => r == Err::<(), ErrorCode>(e) && *final(vault) == *old(vault),
            None => r == Ok::<(), ErrorCode>(()) && *final(vault) == held(*old(vault)),
        },
{
    if amount == 0 {
        return Err(ErrorCode::InvalidAmount);
    }
    let guard = match ReentrancyGuard::new(&mut vault.locked) {
        Ok(guard) => guard,
        Err(e) => {
            return Err(e);
        },
    };
    if state.circuit_breaker_active {
        guard.release(&mut vault.locked);
        return Err(ErrorCode::CircuitBreakerActive);
    }
    if amount > u64::MAX - vault.total_value_usd {
        guard.release(&mut vault.locked);
        return Err(ErrorCode::ArithmeticOverflow);
    }
    Ok(())
}

/// Second step of a deposit, once the tokens have arrived: the value grows
/// by `amount`, the ratio is computed anew and the lock is given back.
pub fn finish_deposit(vault: &mut ReserveVault, amount: u64)
    requires
        old(vault).locked,
        old(vault).total_value_usd + amount <= u64::MAX,
    ensures
        *final(vault) == deposited(released(*old(vault)), amount),
{
    vault.total_value_usd = vault.total_value_usd + amount;
    vault.vhr = calculate_vhr(vault.total_value_usd, vault.liabilities_usd);
    vault.locked = false;
}

/// Gives the lock back after a transfer that failed: the vault is as it was
/// before the first step.
pub fn cancel_transfer(vault: &mut ReserveVault)
    ensures
        *final(vault) == released(*old(vault)),
{
    vault.locked = false;
}

/// Adds `amount`, valued one to one, to the vault, in one step: for a
/// caller that has nothing to do between the two.
///
/// Fails as `deposit_error` says and then leaves the vault untouched.
/// Otherwise the value grows by `amount` and the ratio is computed anew.
/// The lock is taken on entry and given back on every way out.
pub fn deposit(vault: &mut ReserveVault, state: &GlobalState, amount: u64) -> (r: Result<
    (),
    ErrorCode,
>)
    ensures
        match deposit_error(*old(vault), *state, amount) {
            Some(e) => r == Err::<(), ErrorCode>(e) && *final(vault) == *old(vault),
            None => r == Ok::<(), ErrorCode>(()) && *final(vault) == deposited(*old(vault), amount),
        },
{
    match begin_deposit(vault, state, amount) {
        Err(e) => Err(e),
        Ok(()) => {
            finish_deposit(vault, amount);
            Ok(())
        },
    }
}

/// Why a withdrawal is refused, if it is. The checks come in this order;
/// the ratio tested is the one the vault would have after the withdrawal.
pub open spec fn withdraw_error(
    vault: ReserveVault,
    state: GlobalState,
    amount: u64,
    vault_balance: u64,
) -> Option<ErrorCode> {
    if amount == 0 {
        Some(ErrorCode::InvalidAmount)
    } else if vault.locked {
        Some(ErrorCode::ReentrancyDetected)
    } else if state.circuit_breaker_active {
        Some(ErrorCode::CircuitBreakerActive)
    } else if amount > vault_balance {
        Some(ErrorCode::InsufficientBalance)
    } else if amount > vault.total_value_usd {
        Some(ErrorCode::ArithmeticOverflow)
    } else if health_ratio((vault.total_value_usd - amount) as u64, vault.liabilities_usd)
        < vault.min_vhr {
        Some(ErrorCode::HealthRatioTooLow)
    } else {
        None
    }
}

/// The vault after a withdrawal of `amount`.
pub open spec fn withdrawn(vault: ReserveVault, amount: u64) -> ReserveVault {
    ReserveVault {
        total_value_usd: (vault.total_value_usd - amount) as u64,
        vhr: health_ratio((vault.total_value_usd - amount) as u64, vault.liabilities_usd) as u16,
        ..vault
    }
}

/// First step of a withdrawal from the vault, whose token account holds
/// `vault_balance`: tests it and takes the lock, so that the tokens can be
/// paid out while no other operation can enter the vault.
///
/// Fails as `withdraw_error` says and then leaves the vault untouched, the
/// lock included; the ratio is tested before anything is paid out.
/// Otherwise nothing changes but the lock, which is now held until
/// `finish_withdraw` or `cancel_transfer` gives it back.
pub fn begin_withdraw(
    vault: &mut ReserveVault,
    state: &GlobalState,
    amount: u64,
    vault_balance: u64,
) -> (r: Result<(), ErrorCode>)
    ensures
        match withdraw_error(*old(vault), *state, amount, vault_balance) {
            Some(e) => r == Err::<(), ErrorCode>(e) && *final(vault) == *old(vault),
            None => r == Ok::<(), ErrorCode>(()) && *final(vault) == held(*old(vault)),
        },
{
    if amount == 0 {
        return Err(ErrorCode::InvalidAmount);
    }
    let guard = match ReentrancyGuard::new(&mut vault.locked) {
        Ok(guard) => guard,
        Err(e) => {
            return Err(e);
        },
    };
    if state.circuit_breaker_active {
        guard.release(&mut vault.locked);
        return Err(ErrorCode::CircuitBreakerActive);
    }
    if amount > vault_balance {
        guard.release(&mut vault.locked);
        return Err(ErrorCode::InsufficientBalance);
    }
    if amount > vault.total_value_usd {
        guard.release(&mut vault.locked);
        return Err(ErrorCode::ArithmeticOverflow);
    }
    let new_vhr: u16 = calculate_vhr(vault.total_value_usd - amount, vault.liabilities_usd);
    if new_vhr < vault.min_vhr {
        guard.release(&mut vault.locked);
        return Err(ErrorCode::HealthRatioTooLow);
    }
    Ok(())
}

/// Second step of a withdrawal, once the tokens have been paid out: the
/// value shrinks by `amount`, the ratio is computed anew and the lock is
/// given back.
pub fn finish_withdraw(vault: &mut ReserveVault, amount: u64)
    requires
        old(vault).locked,
        amount <= old(vault).total_value_usd,
    ensures
        *final(vault) == withdrawn(released(*old(vault)), amount),
{
    vault.total_value_usd = vault.total_value_usd - amount;
    vault.vhr = calculate_vhr(vault.total_value_usd, vault.liabilities_usd);
    vault.locked = false;
}

/// Takes `amount`, valued one to one, out of the vault, whose token account
/// holds `vault_balance`, in one step: for a caller that has nothing to do
/// between the two.
///
/// Fails as `withdraw_error` says and then leaves the vault untouched; the
/// ratio is tested before anything is paid out. Otherwise the value shrinks
/// by `amount`, and the ratio, computed anew, is at least the vault's
/// minimum. The lock is taken on entry and given back on every way out.
pub fn withdraw(vault: &mut ReserveVault, state: &GlobalState, amount: u64, vault_balance: u64) -> (r:
    Result<(), ErrorCode>)
    ensures
        match withdraw_error(*old(vault), *state, amount, vault_balance) {
            Some(e) => r == Err::<(), ErrorCode>(e) && *final(vault) == *old(vault),
            None => {
                &&& r == Ok::<(), ErrorCode>(())
                &&& *final(vault) == withdrawn(*old(vault), amount)
                &&& final(vault).vhr >= final(vault).min_vhr
            },
        },
{
    match begin_withdraw(vault, state, amount, vault_balance) {
        Err(e) => Err(e),
        Ok(()) => {
            finish_withdraw(vault, amount);
            Ok(())
        },
    }
}

/// Why a rebalance is refused, if it is. The checks come in this order.
pub open spec fn rebalance_error(vault: ReserveVault, state: GlobalState) -> Option<ErrorCode> {
    if vault.locked {
        Some(ErrorCode::ReentrancyDetected)
    } else if state.circuit_breaker_active {
        Some(ErrorCode::CircuitBreakerActive)
    } else if health_ratio(vault.total_value_usd, vault.liabilities_usd)
        >= vault.rebalance_threshold_bps {
        Some(ErrorCode::RebalanceNotNeeded)
    } else {
        None
    }
}

/// The vault after a rebalance at `now`.
pub open spec fn rebalanced(vault: ReserveVault, now: i64) -> ReserveVault {
    ReserveVault {
        last_rebalance: now,
        vhr: health_ratio(vault.total_value_usd, vault.liabilities_usd) as u16,
        ..vault
    }
}

/// Records a rebalance of the vault at `now`.
///
/// Fails as `rebalance_error` says and then leaves the vault untouched: a
/// rebalance is due only while the ratio of value to liabilities is below
/// the rebalance threshold, whatever ratio the vault has on record.
/// Otherwise the time is recorded and the ratio computed anew.
/// The lock is taken on entry and given back on every way out.
pub fn rebalance(vault: &mut ReserveVault, state: &GlobalState, now: i64) -> (r: Result<
    (),
    ErrorCode,
>)
    ensures
        match rebalance_error(*old(vault), *state) {
            Some(e) => r == Err::<(), ErrorCode>(e) && *final(vault) == *old(vault),
            None => r == Ok::<(), ErrorCode>(()) && *final(vault) == rebalanced(*old(vault), now),
        },
{
    let guard = match ReentrancyGuard::new(&mut vault.locked) {
        Ok(guard) => guard,
        Err(e) => {
            return Err(e);
        },
    };
    if state.circuit_breaker_active {
        guard.release(&mut vault.locked);
        return Err(ErrorCode::CircuitBreakerActive);
    }
    let current_vhr: u16 = calculate_vhr(vault.total_value_usd, vault.liabilities_usd);
    if current_vhr >= vault.rebalance_threshold_bps {
        guard.release(&mut vault.locked);
        return Err(ErrorCode::RebalanceNotNeeded);
    }
    vault.last_rebalance = now;
    vault.vhr = current_vhr;
    guard.release(&mut vault.locked);
    Ok(())
}

/// Why a revaluation is refused, if it is. The checks come in this order.
pub open spec fn update_vhr_error(vault: ReserveVault, caller: Address) -> Option<ErrorCode> {
    if caller != vault.authority {
        Some(ErrorCode::Unauthorized)
    } else if vault.locked {
        Some(ErrorCode::ReentrancyDetected)
    } else {
        None
    }
}

/// Revalues the vault on the authority's word.
///
/// Fails as `update_vhr_error` says and then leaves the vault untouched:
/// the caller is not the vault's authority, or an operation holds the
/// lock. Otherwise value and liabilities are as given and the ratio is
/// computed from them.
pub fn update_vhr(
    vault: &mut ReserveVault,
    caller: &Address,
    total_value_usd: u64,
    liabilities_usd: u64,
) -> (r: Result<(), ErrorCode>)
    ensures
        match update_vhr_error(*old(vault), *caller) {
            Some(e) => r == Err::<(), ErrorCode>(e) && *final(vault) == *old(vault),
            None => r == Ok::<(), ErrorCode>(()) && *final(vault) == (ReserveVault {
                total_value_usd,
                liabilities_usd,
                vhr: health_ratio(total_value_usd, liabilities_usd) as u16,
                ..*old(vault)
            }),
        },
{
    if *caller != vault.authority {
        return Err(ErrorCode::Unauthorized);
    }
    if vault.locked {
        return Err(ErrorCode::ReentrancyDetected);
    }
    vault.total_value_usd = total_value_usd;
    vault.liabilities_usd = liabilities_usd;
    vault.vhr = calculate_vhr(total_value_usd, liabilities_usd);
    Ok(())
}

/// The health ratio the vault has on record.
pub fn query_vhr(vault: &ReserveVault) -> (vhr: u16)
    ensures
        vhr == vault.vhr,
{
    vault.vhr
}

/// No withdrawal takes the health ratio below the vault's minimum: one that
/// would is refused, whether the circuit breaker is active or not, and
/// after one that succeeds the ratio of the vault's value to its
/// liabilities is at least the minimum.
pub proof fn lemma_withdraw_keeps_minimum(
    vault: ReserveVault,
    state: GlobalState,
    amount: u64,
    vault_balance: u64,
)
    ensures
        withdraw_error(vault, state, amount, vault_balance) is None ==> health_ratio(
            withdrawn(vault, amount).total_value_usd,
            withdrawn(vault, amount).liabilities_usd,
        ) >= vault.min_vhr && withdrawn(vault, amount).vhr >= vault.min_vhr,
        amount <= vault.total_value_usd && health_ratio(
            (vault.total_value_usd - amount) as u64,
            vault.liabilities_usd,
        ) < vault.min_vhr ==> withdraw_error(vault, state, amount, vault_balance) is Some,
        state.circuit_breaker_active ==> withdraw_error(vault, state, amount, vault_balance)
            is Some,
{
}

/// While an operation holds the lock, nothing else enters the vault: a
/// second deposit, withdrawal, rebalance or revaluation is refused with
/// `ReentrancyDetected` unless an earlier check of its own fails, and in
/// every case leaves the vault as it is.
pub proof fn lemma_held_lock_keeps_others_out(
    vault: ReserveVault,
    state: GlobalState,
    caller: Address,
    amount: u64,
    vault_balance: u64,
)
    requires
        vault.locked,
    ensures
        deposit_error(vault, state, amount) is Some,
        withdraw_error(vault, state, amount, vault_balance) is Some,
        rebalance_error(vault, state) == Some(ErrorCode::ReentrancyDetected),
        update_vhr_error(vault, caller) is Some,
        amount > 0 ==> deposit_error(vault, state, amount) == Some(ErrorCode::ReentrancyDetected),
        amount > 0 ==> withdraw_error(vault, state, amount, vault_balance) == Some(
            ErrorCode::ReentrancyDetected,
        ),
        caller == vault.authority ==> update_vhr_error(vault, caller) == Some(
            ErrorCode::ReentrancyDetected,
        ),
{
}

/// The two steps of a deposit or withdrawal, taken one after the other,
/// lead where the single step leads, and a cancelled first step leads back
/// to the start.
pub proof fn lemma_two_steps_agree(
    vault: ReserveVault,
    state: GlobalState,
    amount: u64,
    vault_balance: u64,
)
    ensures
        deposit_error(vault, state, amount) is None ==> deposited(released(held(vault)), amount)
            == deposited(vault, amount) && released(held(vault)) == vault,
        withdraw_error(vault, state, amount, vault_balance) is None ==> withdrawn(
            released(held(vault)),
            amount,
        ) == withdrawn(vault, amount) && withdrawn(released(held(vault)), amount).vhr
            >= vault.min_vhr,
{
}

/// The health ratio does not fall when the value grows.
pub proof fn lemma_health_ratio_grows_with_value(value: u64, more: u64, liabilities: u64)
    requires
        value <= more,
    ensures
        health_ratio(value, liabilities) <= health_ratio(more, liabilities),
{
    if liabilities > 0 {
        vstd::arithmetic::div_mod::lemma_div_is_ordered(
            value * 10000,
            more * 10000,
            liabilities as int,
        );
    }
}

/// A vault whose ratio is at or above its minimum stays so through every
/// deposit and withdrawal that succeeds: between revaluations, only the
/// circuit breaker stands between the vault and a ratio below the minimum.
pub proof fn lemma_deposits_and_withdrawals_keep_health(
    vault: ReserveVault,
    state: GlobalState,
    amount: u64,
    vault_balance: u64,
)
    requires
        vault.wf(),
        vault.vhr >= vault.min_vhr,
    ensures
        deposit_error(vault, state, amount) is None ==> deposited(vault, amount).vhr
            >= vault.min_vhr,
        withdraw_error(vault, state, amount, vault_balance) is None ==> withdrawn(
            vault,
            amount,
        ).vhr >= vault.min_vhr,
{
    if deposit_error(vault, state, amount) is None {
        lemma_health_ratio_grows_with_value(
            vault.total_value_usd,
            (vault.total_value_usd + amount) as u64,
            vault.liabilities_usd,
        );
    }
}

/// Every operation on a well-formed vault leaves it well-formed: the stored
/// ratio is always that of the stored value and liabilities.
pub proof fn lemma_ratio_is_recomputed(
    vault: ReserveVault,
    state: GlobalState,
    amount: u64,
    vault_balance: u64,
    now: i64,
)
    requires
        vault.wf(),
    ensures
        deposit_error(vault, state, amount) is None ==> deposited(vault, amount).wf(),
        withdraw_error(vault, state, amount, vault_balance) is None ==> withdrawn(
            vault,
            amount,
        ).wf(),
        rebalance_error(vault, state) is None ==> rebalanced(vault, now).wf(),
{
}

} // verus!
