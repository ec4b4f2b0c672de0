use vstd::prelude::*;

verus! {

/// Denominator of a value in basis points: 10000 is 100%.
pub const BPS_DENOMINATOR: u16 = 10000;

/// `floor(a * b / divisor)`, computed without overflow.
pub fn mul_div(a: u64, b: u64, divisor: u64) -> (q: u128)
    requires
        divisor > 0,
    ensures
        q == a * b / (divisor as int),
{
    assert(a * b <= 0xffff_ffff_ffff_ffff * 0xffff_ffff_ffff_ffff) by (nonlinear_arith)
        requires
            0 <= a <= 0xffff_ffff_ffff_ffff,
            0 <= b <= 0xffff_ffff_ffff_ffff,
    ;
    (a as u128 * b as u128) / (divisor as u128)
}

/// `r` is the integer part of the square root of `n`.
pub open spec fn is_floor_sqrt(n: int, r: int) -> bool {
    0 <= r && r * r <= n < (r + 1) * (r + 1)
}

/// The integer part of the square root of `n`.
pub open spec fn floor_sqrt(n: nat) -> nat {
    choose|r: nat| is_floor_sqrt(n as int, r as int)
}

proof fn lemma_floor_sqrt_exists(n: nat)
    ensures
        exists|r: nat| is_floor_sqrt(n as int, r as int),
    decreases n,
{
    if n == 0 {
        assert(is_floor_sqrt(0, 0nat as int));
    } else {
        lemma_floor_sqrt_exists((n - 1) as nat);
        let m: nat = (n - 1) as nat;
        let p: nat = choose|r: nat| is_floor_sqrt(m as int, r as int);
        if (p + 1) * (p + 1) <= n {
            assert((p + 2) * (p + 2) > (p + 1) * (p + 1)) by (nonlinear_arith);
            assert(is_floor_sqrt(n as int, (p + 1) as nat as int));
        } else {
            assert(is_floor_sqrt(n as int, p as int));
        }
    }
}

/// At most one number is the integer square root of `n`.
pub proof fn lemma_floor_sqrt_unique(n: int, a: int, b: int)
    requires
        is_floor_sqrt(n, a),
        is_floor_sqrt(n, b),
    ensures
        a == b,
{
    if a < b {
        assert((a + 1) * (a + 1) <= b * b) by (nonlinear_arith)
            requires
                0 <= a + 1 <= b,
        ;
    } else if b < a {
        assert((b + 1) * (b + 1) <= a * a) by (nonlinear_arith)
            requires
                0 <= b + 1 <= a,
        ;
    }
}

/// `floor_sqrt(n)` is the one `r` with `r * r <= n < (r + 1) * (r + 1)`.
pub proof fn lemma_floor_sqrt(n: nat)
    ensures
        is_floor_sqrt(n as int, floor_sqrt(n) as int),
{
    lemma_floor_sqrt_exists(n);
}

/// The integer square root never exceeds its argument.
pub proof fn lemma_floor_sqrt_at_most_self(n: nat)
    ensures
        floor_sqrt(n) <= n,
{
    lemma_floor_sqrt(n);
    let r = floor_sqrt(n) as int;
    assert(r <= r * r) by (nonlinear_arith)
        requires
            0 <= r,
    ;
}

/// Computes the integer part of the square root of `n` by bisection.
pub fn integer_sqrt(n: u64) -> (r: u64)
    ensures
        r == floor_sqrt(n as nat),
        r * r <= n < (r + 1) * (r + 1),
        r <= n,
{
    let mut lo: u64 = 0;
    let mut hi: u64 = 0x1_0000_0000;
    assert(0x1_0000_0000 * 0x1_0000_0000 > n) by (nonlinear_arith)
        requires
            n <= u64::MAX,
    ;
    while hi - lo > 1
        invariant
            lo < hi <= 0x1_0000_0000,
            lo * lo <= n < hi * hi,
        decreases hi - lo,
    {
        let mid: u64 = lo + (hi - lo) / 2;
        assert(mid * mid <= 0xffff_ffff * 0xffff_ffff) by (nonlinear_arith)
            requires
                0 <= mid <= 0xffff_ffff,
        ;
        if mid * mid <= n {
            lo = mid;
        } else {
            hi = mid;
        }
    }
    proof {
        assert(hi == lo + 1);
        lemma_floor_sqrt(n as nat);
        lemma_floor_sqrt_unique(n as int, lo as int, floor_sqrt(n as nat) as int);
        lemma_floor_sqrt_at_most_self(n as nat);
    }
    lo
}

/// The low `width` bytes of `value`, least significant first.
pub open spec fn le_bytes(value: nat, width: nat) -> Seq<u8>
    decreases width,
{
    if width == 0 {
        Seq::<u8>::empty()
    } else {
        seq![(value % 256) as u8] + le_bytes(value / 256, (width - 1) as nat)
    }
}

/// The number whose little-endian bytes are `bytes`.
pub open spec fn le_value(bytes: Seq<u8>) -> nat
    decreases bytes.len(),
{
    if bytes.len() == 0 {
        0
    } else {
        bytes[0] as nat + 256 * le_value(bytes.drop_first())
    }
}

/// The number a 64-bit two's complement pattern stands for.
pub open spec fn signed_value(pattern: nat) -> int {
    if pattern < 0x8000_0000_0000_0000 {
        pattern as int
    } else {
        pattern - 0x1_0000_0000_0000_0000
    }
}

/// Reads the two bytes at `start` as a little-endian number.
pub fn read_u16_le(bytes: &Vec<u8>, start: usize) -> (value: u16)
    requires
        start + 2 <= bytes.len(),
    ensures
        value == le_value(bytes@.subrange(start as int, start + 2)),
{
    let ghost s = bytes@.subrange(start as int, start + 2);
    proof {
        reveal_with_fuel(le_value, 3);
        assert(s.drop_first().len() == 1);
        assert(s.drop_first().drop_first().len() == 0);
        assert(s[0] == bytes@[start as int]);
        assert(s.drop_first()[0] == bytes@[start + 1]);
    }
    bytes[start] as u16 + 256 * (bytes[start + 1] as u16)
}

/// Reads the eight bytes at `start` as a little-endian number.
pub fn read_u64_le(bytes: &Vec<u8>, start: usize) -> (value: u64)
    requires
        start + 8 <= bytes.len(),
    ensures
        value == le_value(bytes@.subrange(start as int, start + 8)),
{
    let mut value: u64 = 0;
    let mut k: usize = 8;
    assert(bytes@.subrange(start + 8, start + 8) =~= Seq::<u8>::empty());
    while k > 0
        invariant
            k <= 8,
            start + 8 <= bytes.len(),
            value == le_value(bytes@.subrange(start + k, start + 8)),
            k == 8 ==> value == 0,
            k == 7 ==> value < 0x100,
            k == 6 ==> value < 0x1_0000,
            k == 5 ==> value < 0x100_0000,
            k == 4 ==> value < 0x1_0000_0000,
            k == 3 ==> value < 0x100_0000_0000,
            k == 2 ==> value < 0x1_0000_0000_0000,
            k == 1 ==> value < 0x100_0000_0000_0000,
        decreases k,
    {
        k = k - 1;
        proof {
            let longer = bytes@.subrange(start + k, start + 8);
            assert(longer.drop_first() =~= bytes@.subrange(start + k + 1, start + 8));
            assert(longer[0] == bytes@[start + k]);
        }
        value = bytes[start + k] as u64 + 256 * value;
    }
    value
}

/// Reads the eight bytes at `start` as a little-endian two's complement
/// number.
pub fn read_i64_le(bytes: &Vec<u8>, start: usize) -> (value: i64)
    requires
        start + 8 <= bytes.len(),
    ensures
        value == signed_value(le_value(bytes@.subrange(start as int, start + 8))),
{
    let pattern: u64 = read_u64_le(bytes, start);
    if pattern < 0x8000_0000_0000_0000 {
        pattern as i64
    } else {
        (pattern - 0x8000_0000_0000_0000) as i64 + i64::MIN
    }
}

/// A little-endian encoding has as many bytes as were asked for.
pub proof fn lemma_le_bytes_len(value: nat, width: nat)
    ensures
        le_bytes(value, width).len() == width,
    decreases width,
{
    if width > 0 {
        lemma_le_bytes_len(value / 256, (width - 1) as nat);
    }
}

/// The number of values that `width` bytes can tell apart.
pub open spec fn byte_range(width: nat) -> nat
    decreases width,
{
    if width == 0 {
        1
    } else {
        256 * byte_range((width - 1) as nat)
    }
}

/// Reading back the little-endian bytes of a value gives the value, less
/// whatever did not fit the width.
pub proof fn lemma_le_round_trip(value: nat, width: nat)
    ensures
        byte_range(width) > 0,
        le_value(le_bytes(value, width)) == value % byte_range(width),
    decreases width,
{
    if width > 0 {
        let rest = (width - 1) as nat;
        lemma_le_round_trip(value / 256, rest);
        let bytes = le_bytes(value, width);
        assert(bytes.drop_first() =~= le_bytes(value / 256, rest));
        assert(bytes[0] == (value % 256) as u8);
        vstd::arithmetic::div_mod::lemma_breakdown(
            value as int,
            256,
            byte_range(rest) as int,
        );
    }
}

/// Appends the low `width` bytes of `value` to `out`, least significant first.
pub fn push_le_bytes(out: &mut Vec<u8>, value: u128, width: usize)
    ensures
        final(out)@ == old(out)@ + le_bytes(value as nat, width as nat),
{
    let mut rest: u128 = value;
    let mut i: usize = 0;
    let ghost start = out@;
    while i < width
        invariant
            i <= width,
            out@ + le_bytes(rest as nat, (width - i) as nat) == start + le_bytes(
                value as nat,
                width as nat,
            ),
        decreases width - i,
    {
        let ghost before = out@;
        let byte: u8 = (rest % 256) as u8;
        out.push(byte);
        proof {
            let tail = le_bytes((rest / 256) as nat, (width - i - 1) as nat);
            assert(le_bytes(rest as nat, (width - i) as nat) == seq![byte] + tail);
            assert(before.push(byte) + tail =~= before + (seq![byte] + tail));
        }
        rest = rest / 256;
        i = i + 1;
    }
    assert(out@ + le_bytes(rest as nat, 0) =~= out@);
}

} // verus!
