use vstd::prelude::*;

verus! {

/// A 32-byte account address.
#[derive(Clone, Copy, Debug, Eq)]
pub struct Address {
    pub bytes: [u8; 32],
}

impl PartialEq for Address {
    fn eq(&self, other: &Address) -> (r: bool) {
        let mut i: usize = 0;
        while i < 32
            invariant
                i <= 32,
                forall|j: int| 0 <= j < i ==> self.bytes[j] == other.bytes[j],
            decreases 32 - i,
        {
            if self.bytes[i] != other.bytes[i] {
                return false;
            }
            i = i + 1;
        }
        assert(self.bytes =~= other.bytes);
        true
    }
}

impl vstd::std_specs::cmp::PartialEqSpecImpl for Address {
    open spec fn obeys_eq_spec() -> bool {
        true
    }

    open spec fn eq_spec(&self, other: &Address) -> bool {
        *self == *other
    }
}

/// Address of the perpetuals venue the protocol allocates collateral to.
pub const PERCOLATOR_PROGRAM_ID: [u8; 32] = [
    46, 9, 133, 11, 139, 170, 40, 169, 180, 95, 85, 12, 124, 94, 180, 245,
    248, 102, 106, 92, 140, 138, 251, 81, 75, 74, 39, 50, 97, 222, 134, 22,
];

/// Address of the chain's program that verifies Ed25519 signatures.
pub const ED25519_PROGRAM_ID: [u8; 32] = [
    3, 125, 70, 214, 124, 147, 251, 190, 18, 249, 66, 143, 131, 141, 64, 255,
    5, 112, 116, 73, 39, 244, 138, 100, 252, 202, 112, 68, 128, 0, 0, 0,
];

impl Address {
    /// The address with the given bytes.
    pub fn new(bytes: [u8; 32]) -> (address: Address)
        ensures
            address.bytes == bytes,
    {
        Address { bytes }
    }

    /// The bytes of the address.
    pub fn to_vec(&self) -> (v: Vec<u8>)
        ensures
            v@ == self.bytes@,
    {
        let mut v: Vec<u8> = Vec::new();
        let mut i: usize = 0;
        while i < 32
            invariant
                i <= 32,
                v@ == self.bytes@.take(i as int),
            decreases 32 - i,
        {
            v.push(self.bytes[i]);
            assert(v@ =~= self.bytes@.take(i + 1));
            i = i + 1;
        }
        assert(self.bytes@.take(32) =~= self.bytes@);
        v
    }

    /// The address has exactly the bytes `bytes[start..start + 32]`.
    pub fn matches_bytes(&self, bytes: &[u8], start: usize) -> (same: bool)
        requires
            start + 32 <= bytes.len(),
        ensures
            same == (self.bytes@ == bytes@.subrange(start as int, start + 32)),
    {
        let mut i: usize = 0;
        while i < 32
            invariant
                i <= 32,
                start + 32 <= bytes.len(),
                forall|k: int| 0 <= k < i ==> self.bytes@[k] == bytes@[start + k],
            decreases 32 - i,
        {
            if self.bytes[i] != bytes[start + i] {
                assert(bytes@.subrange(start as int, start + 32)[i as int] == bytes@[start + i]);
                return false;
            }
            i = i + 1;
        }
        assert(self.bytes@ =~= bytes@.subrange(start as int, start + 32));
        true
    }
}

/// What the address derivation of the chain's SDK yields for a list of seeds
/// and a program id: the derived address and its bump seed, or `None` where
/// no bump seed gives an address off the curve or the seeds are out of bounds.
pub uninterp spec fn program_address(seeds: Seq<Seq<u8>>, program_id: Seq<u8>) -> Option<(Seq<u8>, u8)>;

/// Calls `Pubkey::try_find_program_address` of the chain's SDK, which hashes
/// the seeds, a bump seed and the program id until the hash is no point of
/// the curve. Its result depends on the seeds and the program id alone; the
/// contract gives it the name `program_address` and claims nothing else.
#[verifier::external_body]
fn try_find_program_address(seeds: &Vec<Vec<u8>>, program_id: &[u8; 32]) -> (r: Option<([u8; 32], u8)>)
    ensures
        r matches Some(p) ==> program_address(seeds.deep_view(), program_id@) == Some((p.0@, p.1)),
        r is None ==> program_address(seeds.deep_view(), program_id@) is None,
{
    let refs: Vec<&[u8]> = seeds.iter().map(|s| s.as_slice()).collect();
    let id = anchor_lang::prelude::Pubkey::new_from_array(*program_id);
    match anchor_lang::prelude::Pubkey::try_find_program_address(&refs, &id) {
        Some((a, b)) => Some((a.to_bytes(), b)),
        None => None,
    }
}

/// Derives the address that `program_id` controls under `seeds`, with its
/// bump seed: the result that `program_address` names.
pub fn find_program_address(seeds: &Vec<Vec<u8>>, program_id: &Address) -> (r: Option<
    (Address, u8),
>)
    ensures
        r matches Some(p) ==> program_address(seeds.deep_view(), program_id.bytes@) == Some(
            (p.0.bytes@, p.1),
        ),
        r is None ==> program_address(seeds.deep_view(), program_id.bytes@) is None,
{
    match try_find_program_address(seeds, &program_id.bytes) {
        Some((bytes, bump)) => Some((Address { bytes }, bump)),
        None => None,
    }
}

} // verus!
