use crate::address::Address;
use crate::errors::ErrorCode;
use crate::math::mul_div;
use vstd::prelude::*;

verus! {

/// Most a swap may fall short of its quoted output, in basis points: 0.5%.
pub const MAX_SLIPPAGE_BPS: u16 = 50;

/// Scale of a quoted rate: one million is one unit out per unit in.
pub const RATE_SCALE: u64 = 1_000_000;

/// Bound on what a swap may return.
#[derive(Clone, Copy, Debug, PartialEq, Eq, Structural)]
pub struct SlippageConfig {
    /// Most the output may fall short of the quote, in basis points.
    pub max_slippage_bps: u16,
    /// Least output that is accepted.
    pub min_output_amount: u64,
}

/// What `input_amount` is quoted to return at `expected_rate`, which is
/// scaled by `RATE_SCALE`.
pub open spec fn expected_output(input_amount: u64, expected_rate: u64) -> int {
    input_amount * expected_rate / 1_000_000
}

/// Least output accepted for a quote: the quote less the maximum slippage,
/// rounded down, and `u64::MAX` where that is no `u64`.
pub open spec fn min_output(input_amount: u64, expected_rate: u64) -> int {
    let least = expected_output(input_amount, expected_rate) * (10000 - MAX_SLIPPAGE_BPS) / 10000;
    if least > u64::MAX {
        u64::MAX as int
    } else {
        least
    }
}

impl SlippageConfig {
    /// The bound for a swap of `input_amount` quoted at `expected_rate`,
    /// with the maximum slippage of 0.5%.
    pub fn new(input_amount: u64, expected_rate: u64) -> (config: SlippageConfig)
        ensures
            config.max_slippage_bps == MAX_SLIPPAGE_BPS,
            config.min_output_amount == min_output(input_amount, expected_rate),
    {
        let expected: u128 = mul_div(input_amount, expected_rate, RATE_SCALE);
        let keep: u128 = (10000 - MAX_SLIPPAGE_BPS) as u128;
        assert(expected * keep <= u128::MAX) by (nonlinear_arith)
            requires
                expected == input_amount * expected_rate / 1_000_000,
                0 <= input_amount <= 0xffff_ffff_ffff_ffff,
                0 <= expected_rate <= 0xffff_ffff_ffff_ffff,
                keep == 9950,
        ;
        let least: u128 = expected * keep / 10000;
        let min_output_amount: u64 = if least > u64::MAX as u128 {
            u64::MAX
        } else {
            least as u64
        };
        SlippageConfig { max_slippage_bps: MAX_SLIPPAGE_BPS, min_output_amount }
    }

    /// Accepts an output that is at least the minimum.
    ///
    /// Fails with `SlippageExceeded` exactly when `actual_output` is below
    /// `min_output_amount`.
    pub fn validate_output(&self, actual_output: u64) -> (r: Result<(), ErrorCode>)
        ensures
            actual_output >= self.min_output_amount ==> r == Ok::<(), ErrorCode>(()),
            actual_output < self.min_output_amount ==> r == Err::<(), ErrorCode>(
                ErrorCode::SlippageExceeded,
            ),
    {
        if actual_output >= self.min_output_amount {
            Ok(())
        } else {
            Err(ErrorCode::SlippageExceeded)
        }
    }
}

/// Checks the target of an outbound call and the balances of the accounts
/// handed to it.
///
/// Fails with `InvalidAccountOwner` if the program is not the one expected,
/// else with `InvalidAmount` if one of the accounts holds no lamports.
pub fn validate_cpi_accounts(
    program_id: &Address,
    expected_program_id: &Address,
    account_lamports: &Vec<u64>,
) -> (r: Result<(), ErrorCode>)
    ensures
        *program_id != *expected_program_id ==> r == Err::<(), ErrorCode>(
            ErrorCode::InvalidAccountOwner,
        ),
        *program_id == *expected_program_id && account_lamports@.contains(0) ==> r == Err::<
            (),
            ErrorCode,
        >(ErrorCode::InvalidAmount),
        *program_id == *expected_program_id && !account_lamports@.contains(0) ==> r == Ok::<
            (),
            ErrorCode,
        >(()),
{
    if *program_id != *expected_program_id {
        return Err(ErrorCode::InvalidAccountOwner);
    }
    let mut i: usize = 0;
    while i < account_lamports.len()
        invariant
            i <= account_lamports.len(),
            *program_id == *expected_program_id,
            forall|k: int| 0 <= k < i ==> account_lamports@[k] != 0,
        decreases account_lamports.len() - i,
    {
        if account_lamports[i] == 0 {
            return Err(ErrorCode::InvalidAmount);
        }
        i = i + 1;
    }
    Ok(())
}

/// The weight listed for `mint` from position `from` on: that of its first
/// entry there, zero if it has none.
pub open spec fn weight_from(weights: Seq<(Address, u16)>, mint: Address, from: int) -> int
    decreases weights.len() - from,
{
    if from < 0 || from >= weights.len() {
        0
    } else if weights[from].0 == mint {
        weights[from].1 as int
    } else {
        weight_from(weights, mint, from + 1)
    }
}

/// The weight listed for `mint`: that of its first entry, zero if it has
/// none.
pub open spec fn weight_of(weights: Seq<(Address, u16)>, mint: Address) -> int {
    weight_from(weights, mint, 0)
}

/// The value of the share `weight_bps` of `total_value`, rounded down.
pub open spec fn value_at(total_value: u64, weight_bps: int) -> int {
    total_value * weight_bps / 10000
}

/// The asset listed at `at` holds more than its target.
pub open spec fn is_overweight(
    current_weights: Seq<(Address, u16)>,
    target_weights: Seq<(Address, u16)>,
    total_value: u64,
    at: int,
) -> bool {
    value_at(total_value, current_weights[at].1 as int) > value_at(
        total_value,
        weight_of(target_weights, current_weights[at].0),
    )
}

/// The first asset from position `from` on that holds more than its target.
pub open spec fn overweight_from(
    current_weights: Seq<(Address, u16)>,
    target_weights: Seq<(Address, u16)>,
    total_value: u64,
    from: int,
) -> Option<Address>
    decreases current_weights.len() - from,
{
    if from < 0 || from >= current_weights.len() {
        None
    } else if is_overweight(current_weights, target_weights, total_value, from) {
        Some(current_weights[from].0)
    } else {
        overweight_from(current_weights, target_weights, total_value, from + 1)
    }
}

/// By how much the target listed at `at` exceeds what the asset holds: zero
/// where it holds enough.
pub open spec fn shortfall(
    current_weights: Seq<(Address, u16)>,
    target_weights: Seq<(Address, u16)>,
    total_value: u64,
    at: int,
) -> int {
    let target = value_at(total_value, target_weights[at].1 as int);
    let held = value_at(total_value, weight_of(current_weights, target_weights[at].0));
    if target > held {
        target - held
    } else {
        0
    }
}

/// The swap that brings the asset listed at `at` up to its target: none
/// where it holds enough or no asset holds too much. The amount is held at
/// `u64::MAX` where it would pass it.
pub open spec fn swap_for(
    current_weights: Seq<(Address, u16)>,
    target_weights: Seq<(Address, u16)>,
    total_value: u64,
    at: int,
) -> Option<(Address, Address, u64)> {
    let needed = shortfall(current_weights, target_weights, total_value, at);
    let seller = overweight_from(current_weights, target_weights, total_value, 0);
    if needed > 0 && seller is Some {
        Some(
            (
                seller->0,
                target_weights[at].0,
                if needed > u64::MAX {
                    u64::MAX
                } else {
                    needed as u64
                },
            ),
        )
    } else {
        None
    }
}

/// The swaps for the first `upto` targets, in the order of the targets.
pub open spec fn swaps_upto(
    current_weights: Seq<(Address, u16)>,
    target_weights: Seq<(Address, u16)>,
    total_value: u64,
    upto: int,
) -> Seq<(Address, Address, u64)>
    decreases upto,
{
    if upto <= 0 {
        Seq::empty()
    } else {
        let earlier = swaps_upto(current_weights, target_weights, total_value, upto - 1);
        match swap_for(current_weights, target_weights, total_value, upto - 1) {
            Some(swap) => earlier.push(swap),
            None => earlier,
        }
    }
}

fn find_weight(weights: &Vec<(Address, u16)>, mint: &Address) -> (weight: u16)
    ensures
        weight == weight_of(weights@, *mint),
{
    let mut i: usize = 0;
    while i < weights.len()
        invariant
            i <= weights.len(),
            weight_of(weights@, *mint) == weight_from(weights@, *mint, i as int),
        decreases weights.len() - i,
    {
        if weights[i].0 == *mint {
            return weights[i].1;
        }
        i = i + 1;
    }
    0
}

fn find_overweight(
    current_weights: &Vec<(Address, u16)>,
    target_weights: &Vec<(Address, u16)>,
    total_value: u64,
) -> (seller: Option<Address>)
    ensures
        seller == overweight_from(current_weights@, target_weights@, total_value, 0),
{
    let mut i: usize = 0;
    while i < current_weights.len()
        invariant
            i <= current_weights.len(),
            overweight_from(current_weights@, target_weights@, total_value, 0) == overweight_from(
                current_weights@,
                target_weights@,
                total_value,
                i as int,
            ),
        decreases current_weights.len() - i,
    {
        let held: u128 = mul_div(total_value, current_weights[i].1 as u64, 10000);
        let target_weight: u16 = find_weight(target_weights, &current_weights[i].0);
        let target: u128 = mul_div(total_value, target_weight as u64, 10000);
        if held > target {
            return Some(current_weights[i].0);
        }
        i = i + 1;
    }
    None
}

/// Plans the swaps that bring a portfolio to its target weights.
///
/// For each target, in order, whose share of `total_value` exceeds what the
/// asset holds now, one swap of the difference into that asset, out of the
/// first asset that holds more than its target; none where no asset does.
/// Each swap is `(from, to, amount)`. An asset that is not listed holds, or
/// is to hold, nothing.
pub fn calculate_rebalance_swaps(
    current_weights: &Vec<(Address, u16)>,
    target_weights: &Vec<(Address, u16)>,
    total_value: u64,
) -> (swaps: Vec<(Address, Address, u64)>)
    ensures
        swaps@ == swaps_upto(
            current_weights@,
            target_weights@,
            total_value,
            target_weights@.len() as int,
        ),
{
    let mut swaps: Vec<(Address, Address, u64)> = Vec::new();
    let seller = find_overweight(current_weights, target_weights, total_value);
    let mut k: usize = 0;
    while k < target_weights.len()
        invariant
            k <= target_weights.len(),
            seller == overweight_from(current_weights@, target_weights@, total_value, 0),
            swaps@ == swaps_upto(current_weights@, target_weights@, total_value, k as int),
        decreases target_weights.len() - k,
    {
        let mint: Address = target_weights[k].0;
        let current_weight: u16 = find_weight(current_weights, &mint);
        let target: u128 = mul_div(total_value, target_weights[k].1 as u64, 10000);
        let held: u128 = mul_div(total_value, current_weight as u64, 10000);
        if target > held {
            let needed: u128 = target - held;
            let amount: u64 = if needed > u64::MAX as u128 {
                u64::MAX
            } else {
                needed as u64
            };
            match seller {
                Some(from) => {
                    swaps.push((from, mint, amount));
                },
                None => {},
            }
        }
        k = k + 1;
    }
    swaps
}

} // verus!
