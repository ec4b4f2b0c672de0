use crate::address::{find_program_address, program_address, Address};
use crate::errors::ErrorCode;
use vstd::prelude::*;

verus! {

/// Token for the lock of a record: whoever holds it has taken the lock and
/// gives it back with `release`.
pub struct ReentrancyGuard {}

impl ReentrancyGuard {
    /// Takes the lock.
    ///
    /// Fails with `ReentrancyDetected` exactly when the lock is taken
    /// already, and then leaves it so. Otherwise the lock is taken.
    pub fn new(locked: &mut bool) -> (r: Result<ReentrancyGuard, ErrorCode>)
        ensures
            *old(locked) ==> r == Err::<ReentrancyGuard, ErrorCode>(ErrorCode::ReentrancyDetected),
            !*old(locked) ==> r is Ok,
            *final(locked),
    {
        if *locked {
            return Err(ErrorCode::ReentrancyDetected);
        }
        *locked = true;
        Ok(ReentrancyGuard {  })
    }

    /// Gives the lock back.
    pub fn release(self, locked: &mut bool)
        ensures
            !*final(locked),
    {
        *locked = false;
    }
}

/// Holds a derived address and bump seed against the ones an account came
/// with.
///
/// Fails with `InvalidPDA` unless an address was derived and it and its
/// bump seed are the ones expected.
pub fn check_derived_address(
    derived: Option<(Address, u8)>,
    actual_address: &Address,
    actual_bump: u8,
) -> (r: Result<(), ErrorCode>)
    ensures
        derived == Some((*actual_address, actual_bump)) ==> r == Ok::<(), ErrorCode>(()),
        derived != Some((*actual_address, actual_bump)) ==> r == Err::<(), ErrorCode>(
            ErrorCode::InvalidPDA,
        ),
{
    match derived {
        Some((address, bump)) => {
            if address != *actual_address {
                return Err(ErrorCode::InvalidPDA);
            }
            if bump != actual_bump {
                return Err(ErrorCode::InvalidPDA);
            }
            Ok(())
        },
        None => Err(ErrorCode::InvalidPDA),
    }
}

/// Checks that an account's address and bump seed are the ones derived from
/// `expected_seeds` for `expected_program_id`.
///
/// Succeeds exactly when the derivation yields `actual_address` and
/// `actual_bump`; fails with `InvalidPDA` otherwise, also where the seeds
/// admit no derived address.
pub fn validate_pda(
    expected_seeds: &Vec<Vec<u8>>,
    expected_program_id: &Address,
    actual_address: &Address,
    actual_bump: u8,
) -> (r: Result<(), ErrorCode>)
    ensures
        r is Ok <==> program_address(expected_seeds.deep_view(), expected_program_id.bytes@)
            == Some((actual_address.bytes@, actual_bump)),
        r is Err ==> r == Err::<(), ErrorCode>(ErrorCode::InvalidPDA),
{
    let derived = find_program_address(expected_seeds, expected_program_id);
    proof {
        if let Some((address, bump)) = derived {
            if actual_address.bytes@ == address.bytes@ {
                assert(actual_address.bytes =~= address.bytes);
            }
        }
    }
    check_derived_address(derived, actual_address, actual_bump)
}

/// Checks that an account belongs to the program expected.
///
/// Fails with `InvalidAccountOwner` exactly when `owner` is not
/// `expected_owner`.
pub fn validate_account_owner(owner: &Address, expected_owner: &Address) -> (r: Result<
    (),
    ErrorCode,
>)
    ensures
        *owner == *expected_owner ==> r == Ok::<(), ErrorCode>(()),
        *owner != *expected_owner ==> r == Err::<(), ErrorCode>(ErrorCode::InvalidAccountOwner),
{
    if *owner != *expected_owner {
        return Err(ErrorCode::InvalidAccountOwner);
    }
    Ok(())
}

} // verus!
