use crate::address::Address;
use crate::config::GlobalState;
use crate::errors::ErrorCode;
use crate::events::ILIUpdated;
use crate::registry::AgentRegistry;
use vstd::prelude::*;
use vstd::relations::{sorted_by, total_ordering};
use vstd::seq_lib::{lemma_sorted_unique, to_multiset_build, to_multiset_insert};

verus! {

/// Number of submissions the pending set can hold between two aggregations.
pub const MAX_PENDING_UPDATES: usize = 10;

/// One agent's submission, waiting for quorum.
#[derive(Clone, Copy, Debug, PartialEq, Eq)]
pub struct ILIPendingUpdate {
    pub agent: Address,
    pub ili_value: u64,
    pub timestamp: i64,
    pub signature: [u8; 64],
}

/// The oracle: the index value agreed on last, and the submissions collected
/// since.
#[derive(Clone, Debug, PartialEq, Eq)]
pub struct ILIOracle {
    pub authority: Address,
    pub current_ili: u64,
    pub last_update: i64,
    pub update_interval: i64,
    pub pending_updates: Vec<ILIPendingUpdate>,
    pub consensus_threshold: u8,
    pub bump: u8,
}

/// The values of a run of submissions, in the order they came in.
pub open spec fn submitted_values(pending: Seq<ILIPendingUpdate>) -> Seq<u64> {
    Seq::new(pending.len(), |i: int| pending[i].ili_value)
}

/// No element of `s` is larger than one that follows it.
pub open spec fn ascending(s: Seq<u64>) -> bool {
    forall|i: int, j: int| 0 <= i <= j < s.len() ==> s[i] <= s[j]
}

/// `t` holds the elements of `s`, each as often as `s` does, in ascending
/// order.
pub open spec fn is_sorting_of(t: Seq<u64>, s: Seq<u64>) -> bool {
    ascending(t) && t.to_multiset() == s.to_multiset()
}

/// The elements of `s` in ascending order.
pub open spec fn sorted_values(s: Seq<u64>) -> Seq<u64> {
    s.sort_by(|a: u64, b: u64| a <= b)
}

/// The middle element of an ascending sequence of odd length, the mean of
/// the two middle elements, rounded down, of one of even length.
pub open spec fn middle_value(t: Seq<u64>) -> int {
    let n = t.len() as int;
    if n % 2 == 0 {
        (t[n / 2 - 1] + t[n / 2]) / 2
    } else {
        t[n / 2] as int
    }
}

/// The median of a non-empty sequence of values.
pub open spec fn median(s: Seq<u64>) -> int {
    middle_value(sorted_values(s))
}

/// `sorted_values(s)` holds the elements of `s`, each as often as `s` does,
/// in ascending order.
pub proof fn lemma_sorted_values_sorts(s: Seq<u64>)
    ensures
        is_sorting_of(sorted_values(s), s),
        sorted_values(s).len() == s.len(),
{
    let leq = |a: u64, b: u64| a <= b;
    assert(total_ordering(leq));
    s.lemma_sort_by_ensures(leq);
    let sorted = sorted_values(s);
    assert forall|i: int, j: int| 0 <= i <= j < sorted.len() implies sorted[i] <= sorted[j] by {
        if i < j {
            assert(leq(sorted[i], sorted[j]));
        }
    }
    s.to_multiset_ensures();
    sorted.to_multiset_ensures();
}

/// Only one sequence is the sorting of `s`: `sorted_values(s)`.
pub proof fn lemma_sorting_is_unique(t: Seq<u64>, s: Seq<u64>)
    requires
        is_sorting_of(t, s),
    ensures
        t == sorted_values(s),
{
    let leq = |a: u64, b: u64| a <= b;
    assert(total_ordering(leq));
    lemma_sorted_values_sorts(s);
    assert(sorted_by(t, leq));
    assert(sorted_by(sorted_values(s), leq));
    lemma_sorted_unique(t, sorted_values(s), leq);
}

/// The median of a non-empty sequence is a `u64`.
pub proof fn lemma_median_in_range(s: Seq<u64>)
    requires
        s.len() > 0,
    ensures
        0 <= median(s) <= u64::MAX,
{
    lemma_sorted_values_sorts(s);
}

/// `value` lies between `lo` and `hi`, both included.
pub open spec fn is_within(value: u64, lo: u64, hi: u64) -> bool {
    lo <= value <= hi
}

/// Adds one to a count for a value between `lo` and `hi`.
pub open spec fn within_counter(lo: u64, hi: u64) -> spec_fn(nat, u64) -> nat {
    |count: nat, value: u64|
        if is_within(value, lo, hi) {
            count + 1
        } else {
            count
        }
}

/// The number of elements of `s` between `lo` and `hi`, both included.
pub open spec fn count_within(s: Seq<u64>, lo: u64, hi: u64) -> nat {
    s.fold_left(0nat, within_counter(lo, hi))
}

proof fn lemma_count_at_most_len(s: Seq<u64>, lo: u64, hi: u64)
    ensures
        count_within(s, lo, hi) <= s.len(),
    decreases s.len(),
{
    if s.len() > 0 {
        lemma_count_at_most_len(s.drop_last(), lo, hi);
    }
}

proof fn lemma_count_without_tail(s: Seq<u64>, lo: u64, hi: u64, from: int)
    requires
        0 <= from <= s.len(),
        forall|k: int| from <= k < s.len() ==> !is_within(#[trigger] s[k], lo, hi),
    ensures
        count_within(s, lo, hi) <= from,
    decreases s.len(),
{
    if s.len() == from {
        lemma_count_at_most_len(s, lo, hi);
    } else {
        assert(!is_within(s.last(), lo, hi));
        lemma_count_without_tail(s.drop_last(), lo, hi, from);
    }
}

proof fn lemma_count_without_head(s: Seq<u64>, lo: u64, hi: u64, upto: int)
    requires
        0 <= upto <= s.len(),
        forall|k: int| 0 <= k < upto ==> !is_within(#[trigger] s[k], lo, hi),
    ensures
        count_within(s, lo, hi) <= s.len() - upto,
    decreases s.len(),
{
    if s.len() == upto {
        lemma_count_without_tail(s, lo, hi, 0);
    } else {
        lemma_count_without_head(s.drop_last(), lo, hi, upto);
    }
}

/// Whatever the other values are, the median lies within any range that
/// holds more than half of the values: no minority of submissions can move
/// the aggregate beyond what the majority submitted.
pub proof fn lemma_median_within_majority(s: Seq<u64>, lo: u64, hi: u64)
    requires
        2 * count_within(s, lo, hi) > s.len(),
    ensures
        lo <= median(s) <= hi,
{
    let t = sorted_values(s);
    let n = t.len() as int;
    let counter = within_counter(lo, hi);
    lemma_sorted_values_sorts(s);
    assert(vstd::seq_lib::commutative_foldl(counter));
    vstd::seq_lib::lemma_fold_left_permutation(t, s, counter, 0nat);
    assert(count_within(t, lo, hi) == count_within(s, lo, hi));
    lemma_count_at_most_len(s, lo, hi);
    let upper = n / 2;
    let lower = if n % 2 == 0 {
        n / 2 - 1
    } else {
        n / 2
    };
    if t[lower] < lo {
        assert forall|k: int| 0 <= k < lower + 1 implies !is_within(#[trigger] t[k], lo, hi) by {
            assert(t[k] <= t[lower]);
        }
        lemma_count_without_head(t, lo, hi, lower + 1);
    }
    if t[upper] > hi {
        assert forall|k: int| upper <= k < n implies !is_within(#[trigger] t[k], lo, hi) by {
            assert(t[upper] <= t[k]);
        }
        lemma_count_without_tail(t, lo, hi, upper);
    }
    assert(t[lower] <= t[upper]);
}

/// Copies `values` into ascending order by insertion.
pub fn sorted_copy(values: &Vec<u64>) -> (out: Vec<u64>)
    ensures
        is_sorting_of(out@, values@),
        out@ == sorted_values(values@),
        out@.len() == values@.len(),
{
    let mut out: Vec<u64> = Vec::new();
    let mut i: usize = 0;
    assert(values@.take(0) =~= Seq::<u64>::empty());
    while i < values.len()
        invariant
            i <= values.len(),
            out@.len() == i,
            ascending(out@),
            out@.to_multiset() == values@.take(i as int).to_multiset(),
        decreases values.len() - i,
    {
        let x: u64 = values[i];
        let mut pos: usize = 0;
        while pos < out.len() && out[pos] <= x
            invariant
                pos <= out.len(),
                forall|k: int| 0 <= k < pos ==> out@[k] <= x,
            decreases out.len() - pos,
        {
            pos = pos + 1;
        }
        let ghost before = out@;
        out.insert(pos, x);
        proof {
            let after = out@;
            assert(after == before.insert(pos as int, x));
            assert forall|a: int, b: int| 0 <= a <= b < after.len() implies after[a] <= after[b] by {
                if a < pos && b > pos {
                    assert(after[a] == before[a]);
                    assert(after[b] == before[b - 1]);
                } else if a < pos && b == pos {
                    assert(after[a] == before[a]);
                } else if a < pos {
                    assert(after[a] == before[a]);
                    assert(after[b] == before[b]);
                } else if a == pos && b > pos {
                    assert(after[b] == before[b - 1]);
                    assert(before[pos as int] <= before[b - 1]);
                } else if a > pos {
                    assert(after[a] == before[a - 1]);
                    assert(after[b] == before[b - 1]);
                }
            }
            to_multiset_insert(before, pos as int, x);
            assert(values@.take(i + 1) =~= values@.take(i as int).push(x));
            to_multiset_build(values@.take(i as int), x);
        }
        i = i + 1;
    }
    proof {
        assert(values@.take(i as int) =~= values@);
        lemma_sorting_is_unique(out@, values@);
        out@.to_multiset_ensures();
        values@.to_multiset_ensures();
    }
    out
}

/// The median of `values`: the middle one in ascending order or, where
/// their number is even, the mean of the two middle ones, rounded down.
pub fn median_of(values: &Vec<u64>) -> (m: u64)
    requires
        values.len() > 0,
    ensures
        m == median(values@),
{
    let sorted = sorted_copy(values);
    let n: usize = sorted.len();
    if n % 2 == 0 {
        let low: u128 = sorted[n / 2 - 1] as u128;
        let high: u128 = sorted[n / 2] as u128;
        ((low + high) / 2) as u64
    } else {
        sorted[n / 2]
    }
}

/// The oracle as a value: every field of it, the pending set as the
/// sequence of the submissions that wait.
pub ghost struct OracleModel {
    pub authority: Address,
    pub current_ili: u64,
    pub last_update: i64,
    pub update_interval: i64,
    pub consensus_threshold: u8,
    pub bump: u8,
    pub pending: Seq<ILIPendingUpdate>,
}

impl OracleModel {
    /// One more submission at `now` makes the oracle aggregate.
    pub open spec fn aggregates_at(self, now: i64) -> bool {
        &&& self.pending.len() + 1 >= self.consensus_threshold
        &&& now - self.last_update >= self.update_interval
    }

    /// The oracle after it has taken the submission `update` at `now`.
    pub open spec fn submit(self, update: ILIPendingUpdate, now: i64) -> OracleModel {
        if self.aggregates_at(now) {
            OracleModel {
                current_ili: median(submitted_values(self.pending.push(update))) as u64,
                last_update: now,
                pending: Seq::empty(),
                ..self
            }
        } else {
            OracleModel { pending: self.pending.push(update), ..self }
        }
    }

    /// The oracle after it has taken the submissions `updates`, one after
    /// the other, the one at position `k` at the time `times[k]`.
    pub open spec fn submit_all(self, updates: Seq<ILIPendingUpdate>, times: Seq<i64>) -> OracleModel
        decreases updates.len(),
    {
        if updates.len() == 0 {
            self
        } else {
            self.submit_all(updates.drop_last(), times.drop_last()).submit(
                updates.last(),
                times.last(),
            )
        }
    }
}

/// As long as no submission of a run makes the oracle aggregate, the run
/// only lengthens the pending set.
proof fn lemma_waiting_submissions_accumulate(
    start: OracleModel,
    updates: Seq<ILIPendingUpdate>,
    times: Seq<i64>,
)
    requires
        updates.len() == times.len(),
        forall|k: int|
            0 <= k < updates.len() ==> !(#[trigger] start.submit_all(
                updates.take(k),
                times.take(k),
            )).aggregates_at(times[k]),
    ensures
        start.submit_all(updates, times) == (OracleModel {
            pending: start.pending + updates,
            ..start
        }),
    decreases updates.len(),
{
    if updates.len() == 0 {
        assert(start.pending + updates =~= start.pending);
    } else {
        let n = updates.len() - 1;
        let head = updates.drop_last();
        let head_times = times.drop_last();
        assert forall|k: int| 0 <= k < head.len() implies !(#[trigger] start.submit_all(
            head.take(k),
            head_times.take(k),
        )).aggregates_at(head_times[k]) by {
            assert(head.take(k) =~= updates.take(k));
            assert(head_times.take(k) =~= times.take(k));
        }
        lemma_waiting_submissions_accumulate(start, head, head_times);
        assert(updates.take(n) =~= head);
        assert(times.take(n) =~= head_times);
        assert(!start.submit_all(updates.take(n), times.take(n)).aggregates_at(times[n]));
        assert((start.pending + head).push(updates.last()) =~= start.pending + updates);
    }
}

/// Whatever run of submissions leads up to an aggregation, the value the
/// oracle takes is the median of exactly the submissions collected since
/// the aggregation before: those that were waiting at the start and every
/// one of the run, the last included, and no other. The pending set is
/// empty afterwards, and nothing else of the oracle has changed but the
/// time of the aggregation.
pub proof fn lemma_aggregate_is_median_of_pending(
    start: OracleModel,
    updates: Seq<ILIPendingUpdate>,
    times: Seq<i64>,
)
    requires
        updates.len() == times.len(),
        updates.len() > 0,
        forall|k: int|
            0 <= k < updates.len() - 1 ==> !(#[trigger] start.submit_all(
                updates.take(k),
                times.take(k),
            )).aggregates_at(times[k]),
        start.submit_all(updates.drop_last(), times.drop_last()).aggregates_at(times.last()),
    ensures
        start.submit_all(updates, times) == (OracleModel {
            current_ili: median(submitted_values(start.pending + updates)) as u64,
            last_update: times.last(),
            pending: Seq::empty(),
            ..start
        }),
        start.submit_all(updates, times).current_ili == median(
            submitted_values(start.pending + updates),
        ),
{
    let head = updates.drop_last();
    let head_times = times.drop_last();
    assert forall|k: int| 0 <= k < head.len() implies !(#[trigger] start.submit_all(
        head.take(k),
        head_times.take(k),
    )).aggregates_at(head_times[k]) by {
        assert(head.take(k) =~= updates.take(k));
        assert(head_times.take(k) =~= times.take(k));
    }
    lemma_waiting_submissions_accumulate(start, head, head_times);
    assert((start.pending + head).push(updates.last()) =~= start.pending + updates);
    lemma_median_in_range(submitted_values(start.pending + updates));
}

impl ILIOracle {
    /// The oracle as a value.
    pub open spec fn model(&self) -> OracleModel {
        OracleModel {
            authority: self.authority,
            current_ili: self.current_ili,
            last_update: self.last_update,
            update_interval: self.update_interval,
            consensus_threshold: self.consensus_threshold,
            bump: self.bump,
            pending: self.pending_updates@,
        }
    }

    /// The pending set is within its capacity.
    pub open spec fn wf(&self) -> bool {
        self.pending_updates@.len() <= MAX_PENDING_UPDATES
    }

    /// The values waiting in the pending set, in the order they came in.
    pub open spec fn pending_values(&self) -> Seq<u64> {
        submitted_values(self.pending_updates@)
    }

    /// One more submission at `now` makes the oracle aggregate: it completes
    /// the quorum, and the update interval has passed since the last
    /// aggregation.
    pub open spec fn aggregates_at(&self, now: i64) -> bool {
        &&& self.pending_updates@.len() + 1 >= self.consensus_threshold
        &&& now - self.last_update >= self.update_interval
    }
}

/// Why a submission is refused, if it is. The checks come in this order.
pub open spec fn submit_error(
    oracle: ILIOracle,
    state: GlobalState,
    agent: AgentRegistry,
    now: i64,
) -> Option<ErrorCode> {
    if !agent.is_active {
        Some(ErrorCode::AgentNotActive)
    } else if state.circuit_breaker_active {
        Some(ErrorCode::CircuitBreakerActive)
    } else if !oracle.aggregates_at(now) && oracle.pending_updates@.len() >= MAX_PENDING_UPDATES {
        Some(ErrorCode::UpdateTooFrequent)
    } else if agent.total_ili_updates == u64::MAX {
        Some(ErrorCode::ArithmeticOverflow)
    } else {
        None
    }
}

/// The submission that `submit_ili_update` records for an agent.
pub open spec fn submission_of(agent: AgentRegistry, ili_value: u64, timestamp: i64) -> ILIPendingUpdate {
    ILIPendingUpdate {
        agent: agent.agent_pubkey,
        ili_value,
        timestamp,
        signature: vstd::array::spec_array_fill_for_copy_type::<u8, 64>(0u8),
    }
}

fn collect_values(pending: &Vec<ILIPendingUpdate>) -> (values: Vec<u64>)
    ensures
        values@ == submitted_values(pending@),
{
    let mut values: Vec<u64> = Vec::new();
    let mut i: usize = 0;
    while i < pending.len()
        invariant
            i <= pending.len(),
            values@ == submitted_values(pending@.take(i as int)),
        decreases pending.len() - i,
    {
        values.push(pending[i].ili_value);
        assert(values@ =~= submitted_values(pending@.take(i + 1)));
        i = i + 1;
    }
    assert(pending@.take(i as int) =~= pending@);
    values
}

/// Takes one agent's submission and aggregates once quorum is reached.
///
/// Fails as `submit_error` says and then leaves oracle and agent untouched:
/// the agent is inactive, the circuit breaker is tripped, the pending set
/// is full and cannot be aggregated yet, or the agent's count of
/// submissions is at its end.
///
/// Otherwise the agent's record counts one more submission and shows it
/// active at `now`, and the submission joins the pending set. If that completes the
/// quorum and the update interval has passed since the last aggregation, the
/// oracle's value becomes the median of all pending values, this one
/// included, the aggregation is stamped `now`, the pending set is emptied
/// and the event is returned. A submission that completes the quorum before
/// the interval has passed only waits with the others. No submission is
/// discarded for its age: whatever waits when the oracle aggregates counts.
pub fn submit_ili_update(
    oracle: &mut ILIOracle,
    state: &GlobalState,
    agent: &mut AgentRegistry,
    ili_value: u64,
    timestamp: i64,
    now: i64,
) -> (r: Result<Option<ILIUpdated>, ErrorCode>)
    requires
        old(oracle).wf(),
    ensures
        final(oracle).wf(),
        old(agent).wf() ==> final(agent).wf(),
        *final(agent) == if submit_error(*old(oracle), *state, *old(agent), now) is None {
            old(agent).after_submission(now)
        } else {
            *old(agent)
        },
        final(oracle).authority == old(oracle).authority,
        final(oracle).update_interval == old(oracle).update_interval,
        final(oracle).consensus_threshold == old(oracle).consensus_threshold,
        final(oracle).bump == old(oracle).bump,
        submit_error(*old(oracle), *state, *old(agent), now) is None ==> final(oracle).model() == old(
            oracle,
        ).model().submit(submission_of(*old(agent), ili_value, timestamp), now),
        match submit_error(*old(oracle), *state, *old(agent), now) {
            Some(e) => r == Err::<Option<ILIUpdated>, ErrorCode>(e) && *final(oracle) == *old(
                oracle,
            ),
            None => if old(oracle).aggregates_at(now) {
                let collected = old(oracle).pending_values().push(ili_value);
                &&& final(oracle).current_ili == median(collected)
                &&& final(oracle).last_update == now
                &&& final(oracle).pending_updates@.len() == 0
                &&& r == Ok::<Option<ILIUpdated>, ErrorCode>(
                    Some(
                        ILIUpdated {
                            ili_value: final(oracle).current_ili,
                            consensus_agents: collected.len() as u8,
                            timestamp: now,
                        },
                    ),
                )
            } else {
                &&& final(oracle).current_ili == old(oracle).current_ili
                &&& final(oracle).last_update == old(oracle).last_update
                &&& final(oracle).pending_updates@ == old(oracle).pending_updates@.push(
                    submission_of(*old(agent), ili_value, timestamp),
                )
                &&& r == Ok::<Option<ILIUpdated>, ErrorCode>(None)
            },
        },
{
    if !agent.is_active {
        return Err(ErrorCode::AgentNotActive);
    }
    if state.circuit_breaker_active {
        return Err(ErrorCode::CircuitBreakerActive);
    }
    let quorum: bool = oracle.pending_updates.len() + 1 >= oracle.consensus_threshold as usize;
    let elapsed: bool = now as i128 - oracle.last_update as i128 >= oracle.update_interval as i128;
    if !(quorum && elapsed) && oracle.pending_updates.len() >= MAX_PENDING_UPDATES {
        return Err(ErrorCode::UpdateTooFrequent);
    }
    let count: u64 = match agent.total_ili_updates.checked_add(1) {
        Some(count) => count,
        None => {
            return Err(ErrorCode::ArithmeticOverflow);
        },
    };
    agent.total_ili_updates = count;
    agent.last_active = now;
    let ghost waiting = oracle.pending_updates@;
    oracle.pending_updates.push(
        ILIPendingUpdate { agent: agent.agent_pubkey, ili_value, timestamp, signature: [0u8; 64] },
    );
    if quorum && elapsed {
        let values = collect_values(&oracle.pending_updates);
        assert(values@ =~= submitted_values(waiting).push(ili_value));
        let aggregated: u64 = median_of(&values);
        let agents: u8 = values.len() as u8;
        oracle.current_ili = aggregated;
        oracle.last_update = now;
        oracle.pending_updates.clear();
        assert(oracle.pending_values() =~= Seq::<u64>::empty());
        Ok(Some(ILIUpdated { ili_value: aggregated, consensus_agents: agents, timestamp: now }))
    } else {
        assert(oracle.pending_values() =~= submitted_values(waiting).push(ili_value));
        Ok(None)
    }
}

/// The index value the oracle agreed on last.
pub fn query_ili(oracle: &ILIOracle) -> (value: u64)
    ensures
        value == oracle.current_ili,
{
    oracle.current_ili
}

} // verus!
