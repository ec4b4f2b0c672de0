use crate::address::{find_program_address, program_address, Address, PERCOLATOR_PROGRAM_ID};
use crate::errors::ErrorCode;
use crate::math::{le_bytes, push_le_bytes};
use vstd::prelude::*;

verus! {

/// Tag of the venue's instruction that deposits collateral.
pub const DEPOSIT_COLLATERAL_TAG: u8 = 3;

/// Tag of the venue's instruction that withdraws collateral.
pub const WITHDRAW_COLLATERAL_TAG: u8 = 4;

/// Tag of the venue's instruction that trades without a matcher.
pub const TRADE_NO_CPI_TAG: u8 = 5;

/// Tag of the venue's instruction that publishes an oracle price.
pub const PUSH_ORACLE_PRICE_TAG: u8 = 14;

/// Factor between a price in whole units and one with six decimals.
pub const PRICE_SCALE: u64 = 1_000_000;

/// The 128-bit two's complement pattern of `size`.
pub open spec fn size_pattern(size: i128) -> nat {
    if size >= 0 {
        size as nat
    } else {
        (size + 0x1_0000_0000_0000_0000_0000_0000_0000_0000) as nat
    }
}

/// Data of a deposit or withdrawal of collateral: the tag, the user's index
/// in two bytes and the amount in eight, little-endian.
pub open spec fn collateral_data(tag: u8, user_idx: u16, amount: u64) -> Seq<u8> {
    seq![tag] + le_bytes(user_idx as nat, 2) + le_bytes(amount as nat, 8)
}

/// Data of a trade: the tag, the indices of user and liquidity provider in
/// two bytes each and the signed size in sixteen, little-endian.
pub open spec fn trade_data(user_idx: u16, lp_idx: u16, size: i128) -> Seq<u8> {
    seq![TRADE_NO_CPI_TAG] + le_bytes(user_idx as nat, 2) + le_bytes(lp_idx as nat, 2) + le_bytes(
        size_pattern(size),
        16,
    )
}

/// Data of a price update: the tag and the price with six decimals in eight
/// bytes, little-endian.
pub open spec fn price_data(price_e6: u64) -> Seq<u8> {
    seq![PUSH_ORACLE_PRICE_TAG] + le_bytes(price_e6 as nat, 8)
}

/// `program` is the perpetuals venue.
pub open spec fn is_percolator(program: Address) -> bool {
    program.bytes@ == PERCOLATOR_PROGRAM_ID@
}

fn check_percolator(program: &Address) -> (r: Result<(), ErrorCode>)
    ensures
        is_percolator(*program) ==> r == Ok::<(), ErrorCode>(()),
        !is_percolator(*program) ==> r == Err::<(), ErrorCode>(ErrorCode::InvalidPercolatorProgram),
{
    let venue = Address::new(PERCOLATOR_PROGRAM_ID);
    if *program != venue {
        assert(!is_percolator(*program)) by {
            if is_percolator(*program) {
                assert(program.bytes =~= PERCOLATOR_PROGRAM_ID);
            }
        }
        return Err(ErrorCode::InvalidPercolatorProgram);
    }
    Ok(())
}

fn encode_collateral(tag: u8, user_idx: u16, amount: u64) -> (data: Vec<u8>)
    ensures
        data@ == collateral_data(tag, user_idx, amount),
{
    let mut data: Vec<u8> = Vec::with_capacity(11);
    data.push(tag);
    assert(data@ =~= seq![tag]);
    push_le_bytes(&mut data, user_idx as u128, 2);
    push_le_bytes(&mut data, amount as u128, 8);
    data
}

/// Prepares the deposit of collateral with the venue.
///
/// Fails with `InvalidPercolatorProgram` exactly when the program handed in
/// is not the venue. Otherwise returns the data of the venue's deposit
/// instruction, `collateral_data`, to send once the tokens have been
/// transferred.
pub fn percolator_deposit_collateral(percolator_program: &Address, user_idx: u16, amount: u64) -> (r:
    Result<Vec<u8>, ErrorCode>)
    ensures
        !is_percolator(*percolator_program) ==> r == Err::<Vec<u8>, ErrorCode>(
            ErrorCode::InvalidPercolatorProgram,
        ),
        is_percolator(*percolator_program) ==> r is Ok && r->Ok_0@ == collateral_data(
            DEPOSIT_COLLATERAL_TAG,
            user_idx,
            amount,
        ),
{
    match check_percolator(percolator_program) {
        Err(e) => Err(e),
        Ok(()) => Ok(encode_collateral(DEPOSIT_COLLATERAL_TAG, user_idx, amount)),
    }
}

/// Prepares the withdrawal of collateral from the venue.
///
/// Fails with `InvalidPercolatorProgram` exactly when the program handed in
/// is not the venue. Otherwise returns the data of the venue's withdrawal
/// instruction, `collateral_data`.
pub fn percolator_withdraw_collateral(percolator_program: &Address, user_idx: u16, amount: u64) -> (r:
    Result<Vec<u8>, ErrorCode>)
    ensures
        !is_percolator(*percolator_program) ==> r == Err::<Vec<u8>, ErrorCode>(
            ErrorCode::InvalidPercolatorProgram,
        ),
        is_percolator(*percolator_program) ==> r is Ok && r->Ok_0@ == collateral_data(
            WITHDRAW_COLLATERAL_TAG,
            user_idx,
            amount,
        ),
{
    match check_percolator(percolator_program) {
        Err(e) => Err(e),
        Ok(()) => Ok(encode_collateral(WITHDRAW_COLLATERAL_TAG, user_idx, amount)),
    }
}

/// Prepares a trade on the venue.
///
/// Fails with `InvalidPercolatorProgram` exactly when the program handed in
/// is not the venue. Otherwise returns the data of the venue's trade
/// instruction, `trade_data`.
pub fn percolator_trade_nocpi(percolator_program: &Address, user_idx: u16, lp_idx: u16, size: i128) -> (r:
    Result<Vec<u8>, ErrorCode>)
    ensures
        !is_percolator(*percolator_program) ==> r == Err::<Vec<u8>, ErrorCode>(
            ErrorCode::InvalidPercolatorProgram,
        ),
        is_percolator(*percolator_program) ==> r is Ok && r->Ok_0@ == trade_data(
            user_idx,
            lp_idx,
            size,
        ),
{
    match check_percolator(percolator_program) {
        Err(e) => {
            return Err(e);
        },
        Ok(()) => {},
    }
    let pattern: u128 = if size >= 0 {
        size as u128
    } else {
        (size - i128::MIN) as u128 + 0x8000_0000_0000_0000_0000_0000_0000_0000
    };
    let mut data: Vec<u8> = Vec::with_capacity(21);
    data.push(TRADE_NO_CPI_TAG);
    assert(data@ =~= seq![TRADE_NO_CPI_TAG]);
    push_le_bytes(&mut data, user_idx as u128, 2);
    push_le_bytes(&mut data, lp_idx as u128, 2);
    push_le_bytes(&mut data, pattern, 16);
    Ok(data)
}

/// Why a price is not published, if it is not.
pub open spec fn push_price_error(percolator_program: Address, price_usd: u64) -> Option<ErrorCode> {
    if !is_percolator(percolator_program) {
        Some(ErrorCode::InvalidPercolatorProgram)
    } else if price_usd * PRICE_SCALE > u64::MAX {
        Some(ErrorCode::Overflow)
    } else {
        None
    }
}

/// Prepares the publication of a price, given in whole units, on the venue.
///
/// Fails as `push_price_error` says: the program is not the venue, or the
/// price with six decimals is no `u64`. Otherwise returns the data of the
/// venue's price instruction, `price_data`, for the scaled price.
pub fn percolator_push_oracle_price(percolator_program: &Address, price_usd: u64) -> (r: Result<
    Vec<u8>,
    ErrorCode,
>)
    ensures
        match push_price_error(*percolator_program, price_usd) {
            Some(e) => r == Err::<Vec<u8>, ErrorCode>(e),
            None => r is Ok && r->Ok_0@ == price_data((price_usd * PRICE_SCALE) as u64),
        },
{
    match check_percolator(percolator_program) {
        Err(e) => {
            return Err(e);
        },
        Ok(()) => {},
    }
    let price_e6: u64 = match price_usd.checked_mul(PRICE_SCALE) {
        Some(price) => price,
        None => {
            return Err(ErrorCode::Overflow);
        },
    };
    let mut data: Vec<u8> = Vec::with_capacity(9);
    data.push(PUSH_ORACLE_PRICE_TAG);
    assert(data@ =~= seq![PUSH_ORACLE_PRICE_TAG]);
    push_le_bytes(&mut data, price_e6 as u128, 8);
    Ok(data)
}

/// The price with six decimals of an index value in basis points: a
/// hundred times the value, held at `u64::MAX` where that is no `u64`.
pub fn ili_to_price_e6(ili_value: u64) -> (price_e6: u64)
    ensures
        ili_value * 100 <= u64::MAX ==> price_e6 == ili_value * 100,
        ili_value * 100 > u64::MAX ==> price_e6 == u64::MAX,
{
    match ili_value.checked_mul(100) {
        Some(price) => price,
        None => u64::MAX,
    }
}

/// Seeds of the venue's vault authority for a market.
pub open spec fn vault_authority_seeds(slab: Address) -> Seq<Seq<u8>> {
    seq![seq![118u8, 97u8, 117u8, 108u8, 116u8], slab.bytes@]
}

/// Seeds of a liquidity provider's account in a market.
pub open spec fn lp_seeds(slab: Address, lp_idx: u16) -> Seq<Seq<u8>> {
    seq![seq![108u8, 112u8], slab.bytes@, le_bytes(lp_idx as nat, 2)]
}

/// Derives the venue's vault authority for the market `slab`, from the
/// seeds `"vault"` and the market's address: the address and bump seed that
/// `program_address` names, or `None` where it names none.
pub fn derive_vault_authority_pda(slab: &Address) -> (r: Option<(Address, u8)>)
    ensures
        r matches Some(p) ==> program_address(vault_authority_seeds(*slab), PERCOLATOR_PROGRAM_ID@)
            == Some((p.0.bytes@, p.1)),
        r is None ==> program_address(vault_authority_seeds(*slab), PERCOLATOR_PROGRAM_ID@)
            is None,
{
    let mut label: Vec<u8> = Vec::new();
    label.push(118);
    label.push(97);
    label.push(117);
    label.push(108);
    label.push(116);
    let mut seeds: Vec<Vec<u8>> = Vec::new();
    seeds.push(label);
    seeds.push(slab.to_vec());
    assert(seeds.deep_view() =~~= vault_authority_seeds(*slab));
    let venue = Address::new(PERCOLATOR_PROGRAM_ID);
    find_program_address(&seeds, &venue)
}

/// Derives the account of liquidity provider `lp_idx` in the market
/// `slab`, from the seeds `"lp"`, the market's address and the index in two
/// little-endian bytes: the address and bump seed that `program_address`
/// names, or `None` where it names none.
pub fn derive_lp_pda(slab: &Address, lp_idx: u16) -> (r: Option<(Address, u8)>)
    ensures
        r matches Some(p) ==> program_address(lp_seeds(*slab, lp_idx), PERCOLATOR_PROGRAM_ID@)
            == Some((p.0.bytes@, p.1)),
        r is None ==> program_address(lp_seeds(*slab, lp_idx), PERCOLATOR_PROGRAM_ID@) is None,
{
    let mut label: Vec<u8> = Vec::new();
    label.push(108);
    label.push(112);
    let mut index: Vec<u8> = Vec::new();
    push_le_bytes(&mut index, lp_idx as u128, 2);
    assert(index@ =~= le_bytes(lp_idx as nat, 2));
    let mut seeds: Vec<Vec<u8>> = Vec::new();
    seeds.push(label);
    seeds.push(slab.to_vec());
    seeds.push(index);
    assert(seeds.deep_view() =~~= lp_seeds(*slab, lp_idx));
    let venue = Address::new(PERCOLATOR_PROGRAM_ID);
    find_program_address(&seeds, &venue)
}

} // verus!
