use ars_protocol::address::Address;
use ars_protocol::config::{initialize, GlobalState, ProtocolAccounts};
use ars_protocol::errors::ErrorCode;
use ars_protocol::governance::{
    create_proposal, decode_policy, execute_proposal, proposal_status, quadratic_voting_power,
    vote_on_proposal, PolicyAction, PolicyProposal, PolicyType, ProposalStatus,
    GRIEFING_PROTECTION_DEPOSIT,
};
use ars_protocol::registry::{register_agent, AgentRegistry};
use ars_protocol::reserve::{ReserveVault, VaultAccounts};
use ars_protocol::supply::MintState;

fn key(n: u8) -> Address {
    Address::new([n; 32])
}

fn fresh_state() -> GlobalState {
    let accounts = ProtocolAccounts {
        authority: key(1),
        ili_oracle: key(2),
        reserve_vault: key(3),
        aru_mint: key(4),
        global_state_bump: 255,
        ili_oracle_bump: 254,
    };
    initialize(accounts, 86400, 200, 10000, 7, 1_000).unwrap().0
}

fn voter() -> AgentRegistry {
    register_agent(key(9), 100_000_000, 0, 1).unwrap().0
}

fn supply() -> MintState {
    ars_protocol::supply::initialize(key(1), key(4), 1_000_000, 86400, 200, 200, 0, 1).unwrap()
}

fn vault() -> ReserveVault {
    let accounts = VaultAccounts {
        authority: key(1),
        usdc_vault: key(20),
        sol_vault: key(21),
        msol_vault: key(22),
        jitosol_vault: key(23),
        bump: 9,
    };
    ars_protocol::reserve::initialize(accounts, 15000, 10000).unwrap()
}

fn proposal_with(
    state: &mut GlobalState,
    policy_type: PolicyType,
    params: Vec<u8>,
    yes: u64,
    no: u64,
) -> PolicyProposal {
    let (mut proposal, _) =
        create_proposal(state, key(7), policy_type, params, 3600, 10_000, 5).unwrap();
    if yes > 0 {
        vote_on_proposal(&mut proposal, &mut voter(), state, true, yes, 10_000).unwrap();
    }
    if no > 0 {
        vote_on_proposal(&mut proposal, &mut voter(), state, false, no, 13_599).unwrap();
    }
    proposal
}

#[test]
fn create_proposal_opens_the_window() {
    let mut state = fresh_state();
    let (proposal, event) =
        create_proposal(&mut state, key(7), PolicyType::MintARU, vec![1, 2, 3], 3600, 10_000, 5)
            .unwrap();
    assert_eq!(proposal.id, 0);
    assert_eq!(proposal.proposer, key(7));
    assert_eq!(proposal.policy_type, PolicyType::MintARU);
    assert_eq!(proposal.policy_params, vec![1, 2, 3]);
    assert_eq!(proposal.start_time, 10_000);
    assert_eq!(proposal.end_time, 13_600);
    assert_eq!(proposal.yes_stake, 0);
    assert_eq!(proposal.no_stake, 0);
    assert_eq!(proposal.quadratic_yes, 0);
    assert_eq!(proposal.quadratic_no, 0);
    assert_eq!(proposal.status, ProposalStatus::Active);
    assert_eq!(proposal.execution_tx, None);
    assert_eq!(proposal.griefing_protection_deposit, 10_000_000);
    assert_eq!(GRIEFING_PROTECTION_DEPOSIT, 10_000_000);
    assert_eq!(proposal.bump, 5);
    assert_eq!(event.proposal_id, 0);
    assert_eq!(event.proposer, key(7));
    assert_eq!(event.policy_type, PolicyType::MintARU);
    assert_eq!(event.timestamp, 10_000);
    assert_eq!(state.proposal_counter, 1);
    let (second, _) =
        create_proposal(&mut state, key(7), PolicyType::BurnARU, Vec::new(), 604_800, 0, 5).unwrap();
    assert_eq!(second.id, 1);
    assert_eq!(second.end_time, 604_800);
    assert_eq!(state.proposal_counter, 2);
}

#[test]
fn voting_period_must_be_an_hour_to_a_week() {
    let mut state = fresh_state();
    let before = state;
    for period in [3599i64, 604_801, 0, -1, i64::MIN, i64::MAX] {
        assert_eq!(
            create_proposal(&mut state, key(7), PolicyType::MintARU, Vec::new(), period, 0, 5).err(),
            Some(ErrorCode::InvalidVotingPeriod)
        );
    }
    assert_eq!(state, before);
    assert!(create_proposal(&mut state, key(7), PolicyType::MintARU, Vec::new(), 3600, 0, 5).is_ok());
}

#[test]
fn payload_is_bounded() {
    let mut state = fresh_state();
    let before = state;
    assert_eq!(
        create_proposal(&mut state, key(7), PolicyType::MintARU, vec![0; 257], 3600, 0, 5).err(),
        Some(ErrorCode::InvalidAmount)
    );
    assert_eq!(state, before);
    assert!(
        create_proposal(&mut state, key(7), PolicyType::MintARU, vec![0; 256], 3600, 0, 5).is_ok()
    );
}

#[test]
fn create_proposal_checks_breaker_and_overflow() {
    let mut state = fresh_state();
    state.circuit_breaker_active = true;
    let before = state;
    assert_eq!(
        create_proposal(&mut state, key(7), PolicyType::MintARU, Vec::new(), 3600, 0, 5).err(),
        Some(ErrorCode::CircuitBreakerActive)
    );
    assert_eq!(state, before);
    state.circuit_breaker_active = false;
    assert_eq!(
        create_proposal(&mut state, key(7), PolicyType::MintARU, Vec::new(), 3600, i64::MAX, 5)
            .err(),
        Some(ErrorCode::ArithmeticOverflow)
    );
    state.proposal_counter = u64::MAX;
    let before = state;
    assert_eq!(
        create_proposal(&mut state, key(7), PolicyType::MintARU, Vec::new(), 3600, 0, 5).err(),
        Some(ErrorCode::ArithmeticOverflow)
    );
    assert_eq!(state, before);
}

#[test]
fn voting_power_is_the_floor_of_the_square_root() {
    assert_eq!(quadratic_voting_power(0), 0);
    assert_eq!(quadratic_voting_power(1), 1);
    assert_eq!(quadratic_voting_power(2), 1);
    assert_eq!(quadratic_voting_power(3), 1);
    assert_eq!(quadratic_voting_power(4), 2);
    assert_eq!(quadratic_voting_power(15), 3);
    assert_eq!(quadratic_voting_power(16), 4);
    assert_eq!(quadratic_voting_power(17), 4);
    assert_eq!(quadratic_voting_power(1_000_000), 1_000);
    assert_eq!(quadratic_voting_power(999_999), 999);
    assert_eq!(quadratic_voting_power(u64::MAX), 4_294_967_295);
    assert_eq!(quadratic_voting_power(18_446_744_065_119_617_025), 4_294_967_295);
    assert_eq!(quadratic_voting_power(18_446_744_065_119_617_024), 4_294_967_294);
    for stake in [0u64, 1, 2, 99, 10_000, 123_456_789, u64::MAX] {
        let power = quadratic_voting_power(stake);
        assert!(power <= stake);
        assert!((power as u128) * (power as u128) <= stake as u128);
        assert!((power as u128 + 1) * (power as u128 + 1) > stake as u128);
    }
}

#[test]
fn quadratic_weight_compresses_a_large_stake() {
    let whale: u64 = 1_000_000_000;
    let small: u64 = 10_000;
    assert_eq!(quadratic_voting_power(whale), 31_622);
    assert_eq!(quadratic_voting_power(small), 100);
    assert!(quadratic_voting_power(whale) / quadratic_voting_power(small) < whale / small);
}

#[test]
fn votes_accumulate_stake_and_power() {
    let mut state = fresh_state();
    let (mut proposal, _) =
        create_proposal(&mut state, key(7), PolicyType::MintARU, Vec::new(), 3600, 10_000, 5)
            .unwrap();
    let event = vote_on_proposal(&mut proposal, &mut voter(), &state, true, 700, 10_000).unwrap();
    assert_eq!(event.proposal_id, 0);
    assert_eq!(event.agent, key(9));
    assert!(event.vote_yes);
    assert_eq!(event.stake_amount, 700);
    assert_eq!(event.voting_power, 26);
    vote_on_proposal(&mut proposal, &mut voter(), &state, false, 300, 13_599).unwrap();
    vote_on_proposal(&mut proposal, &mut voter(), &state, true, 100, 12_000).unwrap();
    assert_eq!(proposal.yes_stake, 800);
    assert_eq!(proposal.quadratic_yes, 36);
    assert_eq!(proposal.no_stake, 300);
    assert_eq!(proposal.quadratic_no, 17);
    assert_eq!(proposal.status, ProposalStatus::Active);
}

#[test]
fn votes_outside_the_window_are_refused() {
    let mut state = fresh_state();
    let (mut proposal, _) =
        create_proposal(&mut state, key(7), PolicyType::MintARU, Vec::new(), 3600, 10_000, 5)
            .unwrap();
    let before = proposal.clone();
    assert_eq!(
        vote_on_proposal(&mut proposal, &mut voter(), &state, true, 1, 9_999),
        Err(ErrorCode::ProposalNotActive)
    );
    assert_eq!(
        vote_on_proposal(&mut proposal, &mut voter(), &state, true, 1, 13_600),
        Err(ErrorCode::ProposalNotActive)
    );
    proposal.status = ProposalStatus::Rejected;
    assert_eq!(
        vote_on_proposal(&mut proposal, &mut voter(), &state, true, 1, 10_000),
        Err(ErrorCode::ProposalNotActive)
    );
    proposal.status = ProposalStatus::Active;
    assert_eq!(proposal, before);
}

#[test]
fn vote_checks_agent_breaker_and_overflow() {
    let mut state = fresh_state();
    let (mut proposal, _) =
        create_proposal(&mut state, key(7), PolicyType::MintARU, Vec::new(), 3600, 10_000, 5)
            .unwrap();
    let mut sleeper = voter();
    sleeper.is_active = false;
    assert_eq!(
        vote_on_proposal(&mut proposal, &mut sleeper, &state, true, 1, 10_000),
        Err(ErrorCode::AgentNotActive)
    );
    state.circuit_breaker_active = true;
    assert_eq!(
        vote_on_proposal(&mut proposal, &mut voter(), &state, true, 1, 10_000),
        Err(ErrorCode::CircuitBreakerActive)
    );
    state.circuit_breaker_active = false;
    proposal.no_stake = u64::MAX;
    let before = proposal.clone();
    assert_eq!(
        vote_on_proposal(&mut proposal, &mut voter(), &state, false, 1, 10_000),
        Err(ErrorCode::ArithmeticOverflow)
    );
    assert_eq!(proposal, before);
    proposal.no_stake = 0;
    proposal.quadratic_no = u64::MAX;
    assert_eq!(
        vote_on_proposal(&mut proposal, &mut voter(), &state, false, 1, 10_000),
        Err(ErrorCode::ArithmeticOverflow)
    );
    assert!(vote_on_proposal(&mut proposal, &mut voter(), &state, false, 0, 10_000).is_ok());
    assert!(vote_on_proposal(&mut proposal, &mut voter(), &state, true, 1, 10_000).is_ok());
}

#[test]
fn majority_of_yes_stake_passes() {
    let mut state = fresh_state();
    let mut proposal = proposal_with(&mut state, PolicyType::RebalanceVault, Vec::new(), 700, 300);
    let (mut mint_state, mut reserve) = (supply(), vault());
    let receipt =
        execute_proposal(&mut proposal, &mut state, &mut mint_state, &mut reserve, 13_600).unwrap();
    assert_eq!(receipt.resolution, ProposalStatus::Passed);
    assert_eq!(receipt.yes_share_bps, 7000);
    assert_eq!(receipt.proposal_id, 0);
    assert_eq!(receipt.timestamp, 13_600);
    assert_eq!(proposal.status, ProposalStatus::Executed);
    assert_eq!(proposal_status(&proposal), ProposalStatus::Executed);
    assert_eq!(proposal_status(&proposal), proposal_status(&proposal));
}

#[test]
fn majority_of_no_stake_rejects() {
    let mut state = fresh_state();
    let mut proposal = proposal_with(&mut state, PolicyType::MintARU, vec![1, 0, 0, 0, 0, 0, 0, 0], 300, 700);
    let (mut mint_state, mut reserve) = (supply(), vault());
    let (state_before, supply_before, vault_before) = (state, mint_state, reserve);
    let receipt =
        execute_proposal(&mut proposal, &mut state, &mut mint_state, &mut reserve, 13_600).unwrap();
    assert_eq!(receipt.resolution, ProposalStatus::Rejected);
    assert_eq!(receipt.yes_share_bps, 3000);
    assert_eq!(receipt.failure, None);
    assert_eq!(receipt.archived_epoch, None);
    assert_eq!(proposal.status, ProposalStatus::Rejected);
    assert_eq!(state, state_before);
    assert_eq!(mint_state, supply_before);
    assert_eq!(reserve, vault_before);
}

#[test]
fn an_even_split_rejects() {
    let mut state = fresh_state();
    let mut proposal = proposal_with(&mut state, PolicyType::RebalanceVault, Vec::new(), 500, 500);
    let (mut mint_state, mut reserve) = (supply(), vault());
    let receipt =
        execute_proposal(&mut proposal, &mut state, &mut mint_state, &mut reserve, 13_600).unwrap();
    assert_eq!(receipt.yes_share_bps, 5000);
    assert_eq!(receipt.resolution, ProposalStatus::Rejected);
    let mut proposal = proposal_with(&mut state, PolicyType::RebalanceVault, Vec::new(), 5001, 4999);
    let receipt =
        execute_proposal(&mut proposal, &mut state, &mut mint_state, &mut reserve, 13_600).unwrap();
    assert_eq!(receipt.yes_share_bps, 5001);
    assert_eq!(receipt.resolution, ProposalStatus::Passed);
}

#[test]
fn execute_before_the_end_is_refused() {
    let mut state = fresh_state();
    let mut proposal = proposal_with(&mut state, PolicyType::RebalanceVault, Vec::new(), 700, 300);
    let (mut mint_state, mut reserve) = (supply(), vault());
    let before = proposal.clone();
    assert_eq!(
        execute_proposal(&mut proposal, &mut state, &mut mint_state, &mut reserve, 13_599),
        Err(ErrorCode::ProposalStillActive)
    );
    assert_eq!(proposal, before);
}

#[test]
fn execute_checks_status_and_breaker() {
    let mut state = fresh_state();
    let (mut mint_state, mut reserve) = (supply(), vault());
    let mut proposal = proposal_with(&mut state, PolicyType::RebalanceVault, Vec::new(), 700, 300);
    state.circuit_breaker_active = true;
    let before = proposal.clone();
    assert_eq!(
        execute_proposal(&mut proposal, &mut state, &mut mint_state, &mut reserve, 13_600),
        Err(ErrorCode::CircuitBreakerActive)
    );
    assert_eq!(proposal, before);
    state.circuit_breaker_active = false;
    execute_proposal(&mut proposal, &mut state, &mut mint_state, &mut reserve, 13_600).unwrap();
    let done = proposal.clone();
    assert_eq!(
        execute_proposal(&mut proposal, &mut state, &mut mint_state, &mut reserve, 13_600),
        Err(ErrorCode::ProposalNotActive)
    );
    assert_eq!(proposal, done);
}

#[test]
fn a_proposal_without_votes_is_rejected() {
    let mut state = fresh_state();
    let (mut mint_state, mut reserve) = (supply(), vault());
    let (state_before, supply_before, vault_before) = (state, mint_state, reserve);
    let mut silent = proposal_with(&mut state, PolicyType::MintARU, vec![1, 0, 0, 0, 0, 0, 0, 0], 0, 0);
    let state_before = GlobalState { proposal_counter: state.proposal_counter, ..state_before };
    let receipt =
        execute_proposal(&mut silent, &mut state, &mut mint_state, &mut reserve, 13_600).unwrap();
    assert_eq!(receipt.resolution, ProposalStatus::Rejected);
    assert_eq!(receipt.yes_share_bps, 0);
    assert_eq!(receipt.failure, None);
    assert_eq!(receipt.applied, None);
    assert_eq!(silent.status, ProposalStatus::Rejected);
    assert_eq!((state, mint_state, reserve), (state_before, supply_before, vault_before));
}

#[test]
fn a_narrow_majority_passes() {
    let mut state = fresh_state();
    let (mut mint_state, mut reserve) = (supply(), vault());
    let mut proposal = proposal_with(&mut state, PolicyType::RebalanceVault, Vec::new(), 2601, 2600);
    assert_eq!((proposal.quadratic_yes, proposal.quadratic_no), (51, 50));
    let receipt =
        execute_proposal(&mut proposal, &mut state, &mut mint_state, &mut reserve, 13_600).unwrap();
    assert_eq!(receipt.resolution, ProposalStatus::Passed);
    assert_eq!(receipt.yes_share_bps, 5000);
    assert_eq!(proposal.status, ProposalStatus::Executed);

    let mut proposal = proposal_with(&mut state, PolicyType::RebalanceVault, Vec::new(), 2600, 2601);
    let receipt =
        execute_proposal(&mut proposal, &mut state, &mut mint_state, &mut reserve, 13_600).unwrap();
    assert_eq!(receipt.resolution, ProposalStatus::Rejected);
    assert_eq!(receipt.yes_share_bps, 4999);
    assert_eq!(proposal.status, ProposalStatus::Rejected);

    let mut proposal = proposal_with(&mut state, PolicyType::RebalanceVault, Vec::new(), 1, 0);
    let receipt =
        execute_proposal(&mut proposal, &mut state, &mut mint_state, &mut reserve, 13_600).unwrap();
    assert_eq!(receipt.resolution, ProposalStatus::Passed);
    assert_eq!(receipt.yes_share_bps, 10_000);
}

#[test]
fn totals_beyond_the_largest_number_still_resolve() {
    let mut state = fresh_state();
    let (mut mint_state, mut reserve) = (supply(), vault());
    let mut proposal = proposal_with(&mut state, PolicyType::RebalanceVault, Vec::new(), 700, 300);
    proposal.no_stake = u64::MAX;
    let receipt =
        execute_proposal(&mut proposal, &mut state, &mut mint_state, &mut reserve, 13_600).unwrap();
    assert_eq!(receipt.resolution, ProposalStatus::Rejected);
    assert_eq!(receipt.yes_share_bps, 0);
    assert_eq!(proposal.status, ProposalStatus::Rejected);

    let mut proposal = proposal_with(&mut state, PolicyType::RebalanceVault, Vec::new(), 700, 300);
    proposal.yes_stake = u64::MAX;
    proposal.no_stake = u64::MAX - 1;
    let receipt =
        execute_proposal(&mut proposal, &mut state, &mut mint_state, &mut reserve, 13_600).unwrap();
    assert_eq!(receipt.resolution, ProposalStatus::Passed);
    assert_eq!(receipt.yes_share_bps, 5000);
    assert_eq!(proposal.status, ProposalStatus::Executed);
}

#[test]
fn a_passed_mint_reaches_the_supply() {
    let mut state = fresh_state();
    let amount = 20_000u64.to_le_bytes().to_vec();
    let mut proposal = proposal_with(&mut state, PolicyType::MintARU, amount, 700, 300);
    let (mut mint_state, mut reserve) = (supply(), vault());
    let receipt =
        execute_proposal(&mut proposal, &mut state, &mut mint_state, &mut reserve, 13_600).unwrap();
    assert_eq!(receipt.failure, None);
    assert_eq!(receipt.applied, Some(PolicyAction::Mint { amount: 20_000 }));
    assert_eq!(receipt.archived_epoch, None);
    assert_eq!(mint_state.total_supply, 1_020_000);
    assert_eq!(mint_state.epoch_minted, 20_000);
    assert_eq!(proposal.status, ProposalStatus::Executed);
}

#[test]
fn a_passed_mint_over_the_cap_leaves_a_failure_receipt() {
    let mut state = fresh_state();
    let amount = 20_001u64.to_le_bytes().to_vec();
    let mut proposal = proposal_with(&mut state, PolicyType::MintARU, amount, 700, 300);
    let (mut mint_state, mut reserve) = (supply(), vault());
    let supply_before = mint_state;
    let receipt =
        execute_proposal(&mut proposal, &mut state, &mut mint_state, &mut reserve, 13_600).unwrap();
    assert_eq!(receipt.resolution, ProposalStatus::Passed);
    assert_eq!(receipt.failure, Some(ErrorCode::MintCapExceeded));
    assert_eq!(receipt.applied, None);
    assert_eq!(mint_state, supply_before);
    assert_eq!(proposal.status, ProposalStatus::Executed);
}

#[test]
fn a_passed_burn_after_the_epoch_archives_it() {
    let mut state = fresh_state();
    let amount = 5u64.to_le_bytes().to_vec();
    let mut proposal = proposal_with(&mut state, PolicyType::BurnARU, amount, 1, 0);
    let (mut mint_state, mut reserve) = (supply(), vault());
    let receipt =
        execute_proposal(&mut proposal, &mut state, &mut mint_state, &mut reserve, 90_000).unwrap();
    assert_eq!(receipt.yes_share_bps, 10_000);
    assert_eq!(receipt.failure, None);
    let record = receipt.archived_epoch.unwrap();
    assert_eq!(record.epoch_number, 0);
    assert_eq!(record.end_time, 90_000);
    assert_eq!(mint_state.current_epoch, 1);
    assert_eq!(mint_state.epoch_burned, 5);
    assert_eq!(mint_state.total_supply, 999_995);
}

#[test]
fn a_passed_update_replaces_the_parameters() {
    let mut state = fresh_state();
    let mut params = 7200i64.to_le_bytes().to_vec();
    params.extend_from_slice(&500u16.to_le_bytes());
    params.extend_from_slice(&9000u16.to_le_bytes());
    let mut proposal = proposal_with(&mut state, PolicyType::UpdateParameters, params, 700, 300);
    let (mut mint_state, mut reserve) = (supply(), vault());
    let receipt =
        execute_proposal(&mut proposal, &mut state, &mut mint_state, &mut reserve, 13_600).unwrap();
    assert_eq!(receipt.failure, None);
    assert_eq!(state.epoch_duration, 7200);
    assert_eq!(state.mint_burn_cap_bps, 500);
    assert_eq!(state.vhr_threshold, 9000);

    let mut params = (-1i64).to_le_bytes().to_vec();
    params.extend_from_slice(&500u16.to_le_bytes());
    params.extend_from_slice(&9000u16.to_le_bytes());
    let mut proposal = proposal_with(&mut state, PolicyType::UpdateParameters, params, 700, 300);
    let before = state;
    let receipt =
        execute_proposal(&mut proposal, &mut state, &mut mint_state, &mut reserve, 13_600).unwrap();
    assert_eq!(receipt.failure, Some(ErrorCode::InvalidEpochDuration));
    assert_eq!(state, before);
}

#[test]
fn a_passed_rebalance_reaches_the_vault() {
    let mut state = fresh_state();
    let mut proposal = proposal_with(&mut state, PolicyType::RebalanceVault, Vec::new(), 700, 300);
    let (mut mint_state, mut reserve) = (supply(), vault());
    reserve.total_value_usd = 900;
    reserve.liabilities_usd = 1_000;
    reserve.vhr = 9_000;
    let receipt =
        execute_proposal(&mut proposal, &mut state, &mut mint_state, &mut reserve, 13_600).unwrap();
    assert_eq!(receipt.failure, None);
    assert_eq!(reserve.last_rebalance, 13_600);

    let mut proposal = proposal_with(&mut state, PolicyType::RebalanceVault, Vec::new(), 700, 300);
    let mut healthy = vault();
    let receipt =
        execute_proposal(&mut proposal, &mut state, &mut mint_state, &mut healthy, 13_600).unwrap();
    assert_eq!(receipt.failure, Some(ErrorCode::RebalanceNotNeeded));
    assert_eq!(healthy, vault());
}

#[test]
fn a_malformed_payload_leaves_a_failure_receipt() {
    let mut state = fresh_state();
    let mut proposal = proposal_with(&mut state, PolicyType::MintARU, vec![1, 2, 3], 700, 300);
    let (mut mint_state, mut reserve) = (supply(), vault());
    let receipt =
        execute_proposal(&mut proposal, &mut state, &mut mint_state, &mut reserve, 13_600).unwrap();
    assert_eq!(receipt.failure, Some(ErrorCode::InvalidAmount));
    assert_eq!(proposal.status, ProposalStatus::Executed);
}

#[test]
fn payloads_decode_by_type() {
    let amount = 0x0102_0304_0506_0708u64;
    assert_eq!(
        decode_policy(PolicyType::MintARU, &vec![8, 7, 6, 5, 4, 3, 2, 1]),
        Some(PolicyAction::Mint { amount })
    );
    assert_eq!(
        decode_policy(PolicyType::BurnARU, &vec![255; 8]),
        Some(PolicyAction::Burn { amount: u64::MAX })
    );
    assert_eq!(decode_policy(PolicyType::BurnARU, &vec![255; 7]), None);
    assert_eq!(decode_policy(PolicyType::MintARU, &vec![255; 9]), None);
    assert_eq!(decode_policy(PolicyType::RebalanceVault, &Vec::new()), Some(PolicyAction::Rebalance));
    assert_eq!(decode_policy(PolicyType::RebalanceVault, &vec![0]), None);
    let mut params = i64::MIN.to_le_bytes().to_vec();
    params.extend_from_slice(&0xABCDu16.to_le_bytes());
    params.extend_from_slice(&1u16.to_le_bytes());
    assert_eq!(
        decode_policy(PolicyType::UpdateParameters, &params),
        Some(PolicyAction::UpdateParameters {
            epoch_duration: i64::MIN,
            mint_burn_cap_bps: 0xABCD,
            vhr_threshold: 1,
        })
    );
    assert_eq!(decode_policy(PolicyType::UpdateParameters, &vec![0; 11]), None);
}

#[test]
fn raw_stake_decides_even_where_quadratic_power_disagrees() {
    let mut state = fresh_state();
    let (mut proposal, _) =
        create_proposal(&mut state, key(7), PolicyType::RebalanceVault, Vec::new(), 3600, 10_000, 5)
            .unwrap();
    vote_on_proposal(&mut proposal, &mut voter(), &state, true, 10_000, 10_000).unwrap();
    for _ in 0..200 {
        vote_on_proposal(&mut proposal, &mut voter(), &state, false, 1, 10_001).unwrap();
    }
    assert_eq!((proposal.yes_stake, proposal.no_stake), (10_000, 200));
    assert_eq!((proposal.quadratic_yes, proposal.quadratic_no), (100, 200));
    let (mut mint_state, mut reserve) = (supply(), vault());
    let receipt =
        execute_proposal(&mut proposal, &mut state, &mut mint_state, &mut reserve, 13_600).unwrap();
    assert_eq!(receipt.resolution, ProposalStatus::Passed);
    assert_eq!(receipt.yes_share_bps, 9803);
}

#[test]
fn a_vote_shows_on_the_agent() {
    let mut state = fresh_state();
    let (mut proposal, _) =
        create_proposal(&mut state, key(7), PolicyType::MintARU, Vec::new(), 3600, 10_000, 5)
            .unwrap();
    let mut agent = voter();
    let registered = agent;
    vote_on_proposal(&mut proposal, &mut agent, &state, true, 5, 10_500).unwrap();
    assert_eq!(agent, AgentRegistry { last_active: 10_500, ..registered });
    let before = agent;
    assert!(vote_on_proposal(&mut proposal, &mut agent, &state, true, 5, 13_600).is_err());
    assert_eq!(agent, before);
}
