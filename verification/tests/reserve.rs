use ars_protocol::address::Address;
use ars_protocol::config::{initialize, GlobalState, ProtocolAccounts};
use ars_protocol::errors::ErrorCode;
use ars_protocol::reserve::{
    begin_deposit, begin_withdraw, calculate_vhr, cancel_transfer, deposit, finish_deposit,
    finish_withdraw, query_vhr, rebalance, update_vhr, withdraw, ReserveVault, VaultAccounts,
    MAX_VHR,
};

fn key(n: u8) -> Address {
    Address::new([n; 32])
}

fn fresh_state() -> GlobalState {
    let accounts = ProtocolAccounts {
        authority: key(1),
        ili_oracle: key(2),
        reserve_vault: key(3),
        aru_mint: key(4),
        global_state_bump: 255,
        ili_oracle_bump: 254,
    };
    initialize(accounts, 86400, 200, 10000, 7, 1_000).unwrap().0
}

fn accounts() -> VaultAccounts {
    VaultAccounts {
        authority: key(1),
        usdc_vault: key(20),
        sol_vault: key(21),
        msol_vault: key(22),
        jitosol_vault: key(23),
        bump: 9,
    }
}

fn vault_with(value: u64, liabilities: u64, min_vhr: u16) -> ReserveVault {
    let mut vault = ars_protocol::reserve::initialize(accounts(), min_vhr, 10000).unwrap();
    update_vhr(&mut vault, &key(1), value, liabilities).unwrap();
    vault
}

#[test]
fn ratio_of_equal_value_and_liabilities_is_100_percent() {
    assert_eq!(calculate_vhr(1_000_000, 1_000_000), 10000);
}

#[test]
fn ratio_without_liabilities_is_the_maximum() {
    assert_eq!(calculate_vhr(1_000_000, 0), u16::MAX);
    assert_eq!(calculate_vhr(0, 0), u16::MAX);
    assert_eq!(MAX_VHR, u16::MAX);
}

#[test]
fn ratio_rounds_down_and_stops_at_the_maximum() {
    assert_eq!(calculate_vhr(0, 5), 0);
    assert_eq!(calculate_vhr(1, 3), 3333);
    assert_eq!(calculate_vhr(2, 3), 6666);
    assert_eq!(calculate_vhr(1_500_000, 1_000_000), 15000);
    assert_eq!(calculate_vhr(1_499_999, 1_000_000), 14999);
    assert_eq!(calculate_vhr(65_535, 10_000), 65535);
    assert_eq!(calculate_vhr(65_534, 10_000), 65534);
    assert_eq!(calculate_vhr(65_536, 10_000), 65535);
    assert_eq!(calculate_vhr(u64::MAX, 1), 65535);
    assert_eq!(calculate_vhr(u64::MAX, u64::MAX), 10000);
}

#[test]
fn initialize_checks_the_thresholds() {
    let vault = ars_protocol::reserve::initialize(accounts(), 15000, 9000).unwrap();
    assert_eq!(vault.authority, key(1));
    assert_eq!(vault.usdc_vault, key(20));
    assert_eq!(vault.sol_vault, key(21));
    assert_eq!(vault.msol_vault, key(22));
    assert_eq!(vault.jitosol_vault, key(23));
    assert_eq!(vault.total_value_usd, 0);
    assert_eq!(vault.liabilities_usd, 0);
    assert_eq!(vault.vhr, u16::MAX);
    assert_eq!(vault.last_rebalance, 0);
    assert_eq!(vault.rebalance_threshold_bps, 9000);
    assert_eq!(vault.min_vhr, 15000);
    assert!(!vault.locked);
    assert_eq!(vault.bump, 9);
    assert_eq!(
        ars_protocol::reserve::initialize(accounts(), 9999, 10001),
        Err(ErrorCode::InvalidVHR)
    );
    assert_eq!(
        ars_protocol::reserve::initialize(accounts(), 10000, 10001),
        Err(ErrorCode::InvalidThreshold)
    );
    assert!(ars_protocol::reserve::initialize(accounts(), 10000, 10000).is_ok());
}

#[test]
fn deposit_adds_value_and_recomputes_the_ratio() {
    let state = fresh_state();
    let mut vault = vault_with(1_000_000, 1_000_000, 15000);
    assert_eq!(vault.vhr, 10000);
    assert_eq!(deposit(&mut vault, &state, 500_000), Ok(()));
    assert_eq!(vault.total_value_usd, 1_500_000);
    assert_eq!(vault.vhr, 15000);
    assert!(!vault.locked);
}

#[test]
fn deposit_refusals_leave_the_vault_alone() {
    let mut state = fresh_state();
    let mut vault = vault_with(u64::MAX - 1, 1_000_000, 15000);
    let before = vault;
    assert_eq!(deposit(&mut vault, &state, 0), Err(ErrorCode::InvalidAmount));
    assert_eq!(deposit(&mut vault, &state, 2), Err(ErrorCode::ArithmeticOverflow));
    state.circuit_breaker_active = true;
    assert_eq!(deposit(&mut vault, &state, 1), Err(ErrorCode::CircuitBreakerActive));
    assert_eq!(vault, before);
    vault.locked = true;
    assert_eq!(deposit(&mut vault, &state, 1), Err(ErrorCode::ReentrancyDetected));
    assert!(vault.locked);
    assert_eq!(deposit(&mut vault, &state, 0), Err(ErrorCode::InvalidAmount));
}

#[test]
fn withdrawal_below_the_minimum_is_rejected() {
    let state = fresh_state();
    let mut vault = vault_with(1_600_000, 1_000_000, 15000);
    assert_eq!(vault.vhr, 16000);
    let before = vault;
    assert_eq!(
        withdraw(&mut vault, &state, 200_000, 1_600_000),
        Err(ErrorCode::HealthRatioTooLow)
    );
    assert_eq!(vault, before);
    assert_eq!(calculate_vhr(1_400_000, 1_000_000), 14000);
}

#[test]
fn withdrawal_down_to_the_minimum_is_paid() {
    let state = fresh_state();
    let mut vault = vault_with(1_600_000, 1_000_000, 15000);
    assert_eq!(withdraw(&mut vault, &state, 100_000, 1_600_000), Ok(()));
    assert_eq!(vault.total_value_usd, 1_500_000);
    assert_eq!(vault.vhr, 15000);
    assert!(!vault.locked);
    let before = vault;
    assert_eq!(withdraw(&mut vault, &state, 1, 1_600_000), Err(ErrorCode::HealthRatioTooLow));
    assert_eq!(vault, before);
}

#[test]
fn withdrawal_refusals_leave_the_vault_alone() {
    let mut state = fresh_state();
    let mut vault = vault_with(2_000_000, 0, 15000);
    let before = vault;
    assert_eq!(withdraw(&mut vault, &state, 0, 10), Err(ErrorCode::InvalidAmount));
    assert_eq!(withdraw(&mut vault, &state, 11, 10), Err(ErrorCode::InsufficientBalance));
    assert_eq!(
        withdraw(&mut vault, &state, 2_000_001, 3_000_000),
        Err(ErrorCode::ArithmeticOverflow)
    );
    state.circuit_breaker_active = true;
    assert_eq!(withdraw(&mut vault, &state, 1, 10), Err(ErrorCode::CircuitBreakerActive));
    assert_eq!(vault, before);
    vault.locked = true;
    assert_eq!(withdraw(&mut vault, &state, 1, 10), Err(ErrorCode::ReentrancyDetected));
    assert!(vault.locked);
    vault.locked = false;
    state.circuit_breaker_active = false;
    assert_eq!(withdraw(&mut vault, &state, 2_000_000, 2_000_000), Ok(()));
    assert_eq!(vault.total_value_usd, 0);
    assert_eq!(vault.vhr, u16::MAX);
}

#[test]
fn rebalance_is_due_only_below_the_threshold() {
    let mut state = fresh_state();
    let mut vault = vault_with(1_000_000, 1_000_000, 15000);
    let before = vault;
    assert_eq!(rebalance(&mut vault, &state, 77), Err(ErrorCode::RebalanceNotNeeded));
    assert_eq!(vault, before);
    update_vhr(&mut vault, &key(1), 999_999, 1_000_000).unwrap();
    assert_eq!(vault.vhr, 9999);
    assert_eq!(rebalance(&mut vault, &state, 77), Ok(()));
    assert_eq!(vault.last_rebalance, 77);
    assert_eq!(vault.vhr, 9999);
    assert!(!vault.locked);
    state.circuit_breaker_active = true;
    let before = vault;
    assert_eq!(rebalance(&mut vault, &state, 78), Err(ErrorCode::CircuitBreakerActive));
    vault.locked = true;
    assert_eq!(rebalance(&mut vault, &state, 78), Err(ErrorCode::ReentrancyDetected));
    vault.locked = false;
    assert_eq!(vault, before);
}

#[test]
fn update_vhr_is_for_the_authority() {
    let mut vault = vault_with(1, 1, 15000);
    let before = vault;
    assert_eq!(update_vhr(&mut vault, &key(2), 5, 5), Err(ErrorCode::Unauthorized));
    assert_eq!(vault, before);
    assert_eq!(update_vhr(&mut vault, &key(1), 3_000, 2_000), Ok(()));
    assert_eq!(vault.total_value_usd, 3_000);
    assert_eq!(vault.liabilities_usd, 2_000);
    assert_eq!(vault.vhr, 15000);
}

#[test]
fn a_low_ratio_never_comes_from_a_withdrawal() {
    let state = fresh_state();
    for value in [1_499_999u64, 1_500_000, 1_500_001, 3_000_000] {
        for amount in [1u64, 2, 500_000, 1_500_000] {
            let mut vault = vault_with(value, 1_000_000, 15000);
            let before = vault;
            match withdraw(&mut vault, &state, amount, u64::MAX) {
                Ok(()) => {
                    assert!(vault.vhr >= 15000);
                    assert_eq!(vault.vhr, calculate_vhr(value - amount, 1_000_000));
                }
                Err(_) => assert_eq!(vault, before),
            }
        }
    }
}

#[test]
fn queried_ratio_is_the_stored_one() {
    let state = fresh_state();
    let mut vault = vault_with(1_600_000, 1_000_000, 15000);
    assert_eq!(query_vhr(&vault), 16000);
    assert_eq!(query_vhr(&vault), query_vhr(&vault));
    deposit(&mut vault, &state, 400_000).unwrap();
    assert_eq!(query_vhr(&vault), 20000);
}

#[test]
fn the_lock_is_held_between_the_two_steps_of_a_withdrawal() {
    let state = fresh_state();
    let mut vault = vault_with(1_600_000, 1_000_000, 15000);
    let start = vault;
    assert_eq!(begin_withdraw(&mut vault, &state, 100_000, 1_600_000), Ok(()));
    assert!(vault.locked);
    assert_eq!(vault, ReserveVault { locked: true, ..start });
    // Whatever comes in while the tokens are on their way is refused.
    let held = vault;
    assert_eq!(begin_withdraw(&mut vault, &state, 1, 10), Err(ErrorCode::ReentrancyDetected));
    assert_eq!(withdraw(&mut vault, &state, 1, 10), Err(ErrorCode::ReentrancyDetected));
    assert_eq!(begin_deposit(&mut vault, &state, 1), Err(ErrorCode::ReentrancyDetected));
    assert_eq!(deposit(&mut vault, &state, 1), Err(ErrorCode::ReentrancyDetected));
    assert_eq!(rebalance(&mut vault, &state, 5), Err(ErrorCode::ReentrancyDetected));
    assert_eq!(update_vhr(&mut vault, &key(1), 1, 1), Err(ErrorCode::ReentrancyDetected));
    assert_eq!(update_vhr(&mut vault, &key(2), 1, 1), Err(ErrorCode::Unauthorized));
    assert_eq!(vault, held);
    finish_withdraw(&mut vault, 100_000);
    assert!(!vault.locked);
    assert_eq!(vault.total_value_usd, 1_500_000);
    assert_eq!(vault.vhr, 15000);
    let mut whole = start;
    withdraw(&mut whole, &state, 100_000, 1_600_000).unwrap();
    assert_eq!(vault, whole);
}

#[test]
fn the_lock_is_held_between_the_two_steps_of_a_deposit() {
    let state = fresh_state();
    let mut vault = vault_with(1_000_000, 1_000_000, 15000);
    let start = vault;
    assert_eq!(begin_deposit(&mut vault, &state, 500_000), Ok(()));
    assert_eq!(vault, ReserveVault { locked: true, ..start });
    assert_eq!(begin_deposit(&mut vault, &state, 1), Err(ErrorCode::ReentrancyDetected));
    finish_deposit(&mut vault, 500_000);
    assert!(!vault.locked);
    assert_eq!(vault.total_value_usd, 1_500_000);
    assert_eq!(vault.vhr, 15000);
    let mut whole = start;
    deposit(&mut whole, &state, 500_000).unwrap();
    assert_eq!(vault, whole);
}

#[test]
fn a_refused_first_step_takes_no_lock() {
    let mut state = fresh_state();
    let mut vault = vault_with(1_600_000, 1_000_000, 15000);
    let start = vault;
    assert_eq!(begin_withdraw(&mut vault, &state, 0, 10), Err(ErrorCode::InvalidAmount));
    assert_eq!(begin_withdraw(&mut vault, &state, 11, 10), Err(ErrorCode::InsufficientBalance));
    assert_eq!(
        begin_withdraw(&mut vault, &state, 1_600_001, u64::MAX),
        Err(ErrorCode::ArithmeticOverflow)
    );
    assert_eq!(
        begin_withdraw(&mut vault, &state, 200_000, u64::MAX),
        Err(ErrorCode::HealthRatioTooLow)
    );
    assert_eq!(begin_deposit(&mut vault, &state, 0), Err(ErrorCode::InvalidAmount));
    assert_eq!(begin_deposit(&mut vault, &state, u64::MAX), Err(ErrorCode::ArithmeticOverflow));
    state.circuit_breaker_active = true;
    assert_eq!(begin_withdraw(&mut vault, &state, 1, 10), Err(ErrorCode::CircuitBreakerActive));
    assert_eq!(begin_deposit(&mut vault, &state, 1), Err(ErrorCode::CircuitBreakerActive));
    assert_eq!(vault, start);
    assert!(!vault.locked);
}

#[test]
fn a_cancelled_transfer_gives_the_lock_back() {
    let state = fresh_state();
    let mut vault = vault_with(1_600_000, 1_000_000, 15000);
    let start = vault;
    begin_withdraw(&mut vault, &state, 100_000, 1_600_000).unwrap();
    cancel_transfer(&mut vault);
    assert_eq!(vault, start);
    begin_deposit(&mut vault, &state, 7).unwrap();
    cancel_transfer(&mut vault);
    assert_eq!(vault, start);
    assert_eq!(withdraw(&mut vault, &state, 100_000, 1_600_000), Ok(()));
}

#[test]
fn rebalance_goes_by_the_ratio_computed_anew() {
    let state = fresh_state();
    let mut vault = vault_with(900, 1_000, 15000);
    vault.vhr = 20_000;
    assert_eq!(rebalance(&mut vault, &state, 5), Ok(()));
    assert_eq!(vault.vhr, 9_000);
    assert_eq!(vault.last_rebalance, 5);
    let mut vault = vault_with(1_000, 1_000, 15000);
    vault.vhr = 1;
    let before = vault;
    assert_eq!(rebalance(&mut vault, &state, 5), Err(ErrorCode::RebalanceNotNeeded));
    assert_eq!(vault, before);
}
