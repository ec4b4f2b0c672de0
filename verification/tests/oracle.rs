use ars_protocol::address::Address;
use ars_protocol::config::{initialize, GlobalState, ProtocolAccounts};
use ars_protocol::errors::ErrorCode;
use ars_protocol::oracle::{
    median_of, query_ili, sorted_copy, submit_ili_update, ILIOracle, MAX_PENDING_UPDATES,
};
use ars_protocol::registry::{register_agent, AgentRegistry};

fn key(n: u8) -> Address {
    Address::new([n; 32])
}

fn protocol() -> (GlobalState, ILIOracle) {
    let accounts = ProtocolAccounts {
        authority: key(1),
        ili_oracle: key(2),
        reserve_vault: key(3),
        aru_mint: key(4),
        global_state_bump: 255,
        ili_oracle_bump: 254,
    };
    let (state, oracle, _) = initialize(accounts, 86400, 200, 10000, 7, 1_000).unwrap();
    (state, oracle)
}

fn agent(n: u8) -> AgentRegistry {
    register_agent(key(n), 100_000_000, 0, 1).unwrap().0
}

#[test]
fn three_submissions_aggregate_to_the_median() {
    let (state, mut oracle) = protocol();
    assert_eq!(submit_ili_update(&mut oracle, &state, &mut agent(10), 100, 990, 1_000), Ok(None));
    assert_eq!(submit_ili_update(&mut oracle, &state, &mut agent(11), 200, 991, 1_001), Ok(None));
    assert_eq!(oracle.pending_updates.len(), 2);
    assert_eq!(oracle.pending_updates[0].agent, key(10));
    assert_eq!(oracle.pending_updates[0].ili_value, 100);
    assert_eq!(oracle.pending_updates[0].timestamp, 990);
    assert_eq!(oracle.pending_updates[0].signature, [0u8; 64]);
    assert_eq!(oracle.pending_updates[1].ili_value, 200);
    assert_eq!(query_ili(&oracle), 0);
    let event = submit_ili_update(&mut oracle, &state, &mut agent(12), 9000, 992, 1_002)
        .unwrap()
        .unwrap();
    assert_eq!(event.ili_value, 200);
    assert_eq!(event.consensus_agents, 3);
    assert_eq!(event.timestamp, 1_002);
    assert_eq!(oracle.current_ili, 200);
    assert_eq!(oracle.last_update, 1_002);
    assert!(oracle.pending_updates.is_empty());
    assert_eq!(query_ili(&oracle), 200);
}

#[test]
fn order_of_submission_does_not_matter() {
    let (state, mut oracle) = protocol();
    submit_ili_update(&mut oracle, &state, &mut agent(10), 9000, 0, 1_000).unwrap();
    submit_ili_update(&mut oracle, &state, &mut agent(11), 100, 0, 1_000).unwrap();
    submit_ili_update(&mut oracle, &state, &mut agent(12), 200, 0, 1_000).unwrap();
    assert_eq!(oracle.current_ili, 200);
}

#[test]
fn query_twice_gives_the_same_value() {
    let (state, mut oracle) = protocol();
    oracle.consensus_threshold = 1;
    submit_ili_update(&mut oracle, &state, &mut agent(10), 777, 0, 1_000).unwrap();
    let first = query_ili(&oracle);
    let second = query_ili(&oracle);
    assert_eq!(first, 777);
    assert_eq!(first, second);
}

#[test]
fn median_of_an_even_count_is_the_mean_of_the_middle_two() {
    assert_eq!(median_of(&vec![4, 1, 3, 2]), 2);
    assert_eq!(median_of(&vec![10, 20]), 15);
    assert_eq!(median_of(&vec![10, 21]), 15);
    assert_eq!(median_of(&vec![u64::MAX, u64::MAX]), u64::MAX);
    assert_eq!(median_of(&vec![u64::MAX, u64::MAX - 1]), u64::MAX - 1);
    assert_eq!(median_of(&vec![5]), 5);
    assert_eq!(median_of(&vec![7, 7, 1]), 7);
    assert_eq!(median_of(&vec![5, 3, 1, 4, 2]), 3);
}

#[test]
fn sorted_copy_sorts_and_keeps_duplicates() {
    assert_eq!(sorted_copy(&vec![3, 1, 2, 1, 3, 0]), vec![0, 1, 1, 2, 3, 3]);
    assert_eq!(sorted_copy(&Vec::new()), Vec::<u64>::new());
    assert_eq!(sorted_copy(&vec![u64::MAX, 0]), vec![0, u64::MAX]);
}

#[test]
fn even_quorum_takes_the_mean() {
    let (state, mut oracle) = protocol();
    oracle.consensus_threshold = 4;
    for (i, value) in [100u64, 400, 200, 300].iter().enumerate() {
        submit_ili_update(&mut oracle, &state, &mut agent(10 + i as u8), *value, 0, 1_000).unwrap();
    }
    assert_eq!(oracle.current_ili, 250);
    assert!(oracle.pending_updates.is_empty());
}

#[test]
fn inactive_agent_is_refused() {
    let (state, mut oracle) = protocol();
    let mut sleeper = agent(10);
    sleeper.is_active = false;
    let before = oracle.clone();
    assert_eq!(
        submit_ili_update(&mut oracle, &state, &mut sleeper, 100, 0, 1_000),
        Err(ErrorCode::AgentNotActive)
    );
    assert_eq!(oracle, before);
}

#[test]
fn tripped_breaker_refuses_submissions() {
    let (mut state, mut oracle) = protocol();
    state.circuit_breaker_active = true;
    let before = oracle.clone();
    assert_eq!(
        submit_ili_update(&mut oracle, &state, &mut agent(10), 100, 0, 1_000),
        Err(ErrorCode::CircuitBreakerActive)
    );
    assert_eq!(oracle, before);
    let mut sleeper = agent(10);
    sleeper.is_active = false;
    assert_eq!(
        submit_ili_update(&mut oracle, &state, &mut sleeper, 100, 0, 1_000),
        Err(ErrorCode::AgentNotActive)
    );
}

#[test]
fn quorum_before_the_interval_waits() {
    let (state, mut oracle) = protocol();
    for i in 0..3u8 {
        submit_ili_update(&mut oracle, &state, &mut agent(10 + i), 100, 0, 1_000).unwrap();
    }
    assert_eq!(oracle.last_update, 1_000);
    assert_eq!(oracle.current_ili, 100);
    // Quorum again, 299 seconds later: the submissions wait.
    for i in 0..3u8 {
        assert_eq!(
            submit_ili_update(&mut oracle, &state, &mut agent(20 + i), 500, 0, 1_299),
            Ok(None)
        );
    }
    assert_eq!(oracle.pending_updates.len(), 3);
    assert_eq!(oracle.current_ili, 100);
    assert_eq!(oracle.last_update, 1_000);
    // The next one, once the interval has passed, aggregates all four.
    let event = submit_ili_update(&mut oracle, &state, &mut agent(30), 900, 0, 1_300)
        .unwrap()
        .unwrap();
    assert_eq!(event.consensus_agents, 4);
    assert_eq!(event.ili_value, 500);
    assert_eq!(oracle.current_ili, 500);
    assert_eq!(oracle.last_update, 1_300);
    assert!(oracle.pending_updates.is_empty());
}

#[test]
fn full_pending_set_refuses_until_the_interval_has_passed() {
    let (state, mut oracle) = protocol();
    oracle.last_update = 1_000;
    for i in 0..MAX_PENDING_UPDATES {
        assert_eq!(
            submit_ili_update(&mut oracle, &state, &mut agent(i as u8), i as u64, 0, 1_100),
            Ok(None)
        );
    }
    assert_eq!(oracle.pending_updates.len(), 10);
    let before = oracle.clone();
    assert_eq!(
        submit_ili_update(&mut oracle, &state, &mut agent(50), 50, 0, 1_299),
        Err(ErrorCode::UpdateTooFrequent)
    );
    assert_eq!(oracle, before);
    let event = submit_ili_update(&mut oracle, &state, &mut agent(50), 50, 0, 1_300)
        .unwrap()
        .unwrap();
    assert_eq!(event.consensus_agents, 11);
    // 0..=9 and 50: the middle one of eleven is 5.
    assert_eq!(event.ili_value, 5);
    assert!(oracle.pending_updates.is_empty());
}

#[test]
fn a_minority_cannot_move_the_median_past_the_majority() {
    for outliers in [[0u64, 0], [0, u64::MAX], [u64::MAX, u64::MAX]] {
        let values = vec![outliers[0], 100, 105, outliers[1], 110];
        let median = median_of(&values);
        assert!(100 <= median && median <= 110);
    }
    assert_eq!(median_of(&vec![0, 100, 105, u64::MAX, 110]), 105);
    assert_eq!(median_of(&vec![0, 100, 0, 110]), 50);
}

#[test]
fn old_submissions_still_count() {
    let (state, mut oracle) = protocol();
    submit_ili_update(&mut oracle, &state, &mut agent(10), 100, 1_000, 1_000).unwrap();
    submit_ili_update(&mut oracle, &state, &mut agent(11), 300, 1_000, 1_000).unwrap();
    // The third comes in a day later, long after the update interval.
    let event = submit_ili_update(&mut oracle, &state, &mut agent(12), 200, 87_400, 87_400)
        .unwrap()
        .unwrap();
    assert_eq!(event.consensus_agents, 3);
    assert_eq!(event.ili_value, 200);
}

#[test]
fn a_submission_is_counted_on_the_agent() {
    let (mut state, mut oracle) = protocol();
    let mut reporter = agent(10);
    assert_eq!((reporter.total_ili_updates, reporter.last_active), (0, 0));
    submit_ili_update(&mut oracle, &state, &mut reporter, 100, 990, 1_000).unwrap();
    assert_eq!((reporter.total_ili_updates, reporter.last_active), (1, 1_000));
    submit_ili_update(&mut oracle, &state, &mut reporter, 100, 990, 1_007).unwrap();
    assert_eq!((reporter.total_ili_updates, reporter.last_active), (2, 1_007));
    assert_eq!(reporter.successful_updates, 0);
    // A refused submission is not counted.
    state.circuit_breaker_active = true;
    let before = reporter;
    assert!(submit_ili_update(&mut oracle, &state, &mut reporter, 100, 990, 2_000).is_err());
    assert_eq!(reporter, before);
    state.circuit_breaker_active = false;
    reporter.total_ili_updates = u64::MAX;
    let (before, waiting) = (reporter, oracle.clone());
    assert_eq!(
        submit_ili_update(&mut oracle, &state, &mut reporter, 100, 990, 2_000),
        Err(ErrorCode::ArithmeticOverflow)
    );
    assert_eq!((reporter, oracle), (before, waiting));
}
