//! Integers as they are laid out in bytes.
use crate::config::NativeByteOrder;
use vstd::prelude::*;

verus! {

/// `256` to the power `n`.
pub open spec fn pow256(n: nat) -> nat
    decreases n,
{
    if n == 0 {
        1
    } else {
        256 * pow256((n - 1) as nat)
    }
}

/// The unsigned value of `b`, least significant byte first.
pub open spec fn le_value(b: Seq<u8>) -> nat
    decreases b.len(),
{
    if b.len() == 0 {
        0
    } else {
        (b[0] + 256 * le_value(b.drop_first())) as nat
    }
}

/// The unsigned value of `b`, most significant byte first.
pub open spec fn be_value(b: Seq<u8>) -> nat
    decreases b.len(),
{
    if b.len() == 0 {
        0
    } else {
        (be_value(b.drop_last()) * 256 + b.last()) as nat
    }
}

/// The unsigned value of `b` in the byte order `order`.
pub open spec fn uint_of(b: Seq<u8>, order: NativeByteOrder) -> nat {
    match order {
        NativeByteOrder::LittleEndian => le_value(b),
        NativeByteOrder::BigEndian => be_value(b),
    }
}

/// The two's complement reading of the unsigned value `v` of `n` bytes.
pub open spec fn signed_of(v: nat, n: nat) -> int {
    if v >= pow256(n) / 2 {
        v - pow256(n)
    } else {
        v as int
    }
}

pub proof fn lemma_pow256_facts()
    ensures
        pow256(1) == 0x100,
        pow256(2) == 0x1_0000,
        pow256(4) == 0x1_0000_0000,
        pow256(8) == 0x1_0000_0000_0000_0000,
{
    reveal_with_fuel(pow256, 9);
}

proof fn lemma_pow256_mono(a: nat, b: nat)
    requires
        a <= b,
    ensures
        pow256(a) <= pow256(b),
    decreases b,
{
    if a < b {
        lemma_pow256_mono(a, (b - 1) as nat);
    }
}

proof fn lemma_shift_in(v: nat, p: nat, byte: u8)
    requires
        v < p,
    ensures
        v * 256 + byte < 256 * p,
{
    assert(v * 256 + byte < 256 * p) by (nonlinear_arith)
        requires
            v < p,
            byte < 256,
    ;
}

/// Decodes the unsigned integer held in `b` (at most 8 bytes).
pub fn decode_uint(b: &[u8], order: NativeByteOrder) -> (r: u64)
    requires
        b@.len() <= 8,
    ensures
        r == uint_of(b@, order),
        r < pow256(b@.len()),
{
    let n = b.len();
    let mut v: u64 = 0;
    proof {
        lemma_pow256_facts();
    }
    match order {
        NativeByteOrder::BigEndian => {
            let mut i: usize = 0;
            while i < n
                invariant
                    n == b@.len(),
                    n <= 8,
                    i <= n,
                    v == be_value(b@.take(i as int)),
                    v < pow256(i as nat),
                    pow256(8) == 0x1_0000_0000_0000_0000,
                decreases n - i,
            {
                assert(b@.take(i as int + 1).drop_last() =~= b@.take(i as int));
                proof {
                    lemma_shift_in(v as nat, pow256(i as nat), b@[i as int]);
                    lemma_pow256_mono(i as nat + 1, 8);
                }
                v = v * 256 + b[i] as u64;
                i = i + 1;
            }
            assert(b@.take(n as int) =~= b@);
        },
        NativeByteOrder::LittleEndian => {
            let mut i: usize = n;
            while i > 0
                invariant
                    n == b@.len(),
                    n <= 8,
                    i <= n,
                    v == le_value(b@.subrange(i as int, n as int)),
                    v < pow256((n - i) as nat),
                    pow256(8) == 0x1_0000_0000_0000_0000,
                decreases i,
            {
                assert(b@.subrange(i - 1, n as int).drop_first() =~= b@.subrange(i as int, n as int));
                proof {
                    lemma_shift_in(v as nat, pow256((n - i) as nat), b@[i - 1]);
                    lemma_pow256_mono((n - i + 1) as nat, 8);
                }
                v = v * 256 + b[i - 1] as u64;
                i = i - 1;
            }
            assert(b@.subrange(0, n as int) =~= b@);
        },
    }
    v
}

/// The two's complement reading of `v`, an unsigned value of `n` bytes.
pub fn to_signed(v: u64, n: usize) -> (r: i64)
    requires
        n == 1 || n == 2 || n == 4 || n == 8,
        v < pow256(n as nat),
    ensures
        r == signed_of(v as nat, n as nat),
{
    proof {
        lemma_pow256_facts();
    }
    if n == 8 {
        if v >= 0x8000_0000_0000_0000 {
            let d = (v - 0x8000_0000_0000_0000) as i64;
            d - 0x7fff_ffff_ffff_ffff - 1
        } else {
            v as i64
        }
    } else {
        let m: u64 = if n == 1 {
            0x100
        } else if n == 2 {
            0x1_0000
        } else {
            0x1_0000_0000
        };
        if v >= m / 2 {
            v as i64 - m as i64
        } else {
            v as i64
        }
    }
}

} // verus!
