use vstd::prelude::*;

verus! {

/// The bit pattern of 1.0 as a 64-bit float. Non-negative finite doubles
/// order by their bit patterns, so exactly the patterns below this one denote
/// values in the unit interval [0, 1).
pub const ONE_F64_BITS: u64 = 0x3FF0000000000000;

/// `b` is the bit pattern of a 64-bit float in [0, 1).
pub open spec fn unit_interval_bits(b: u64) -> bool {
    b < 0x3FF0000000000000u64
}

/// `b` is the bit pattern of a finite 64-bit float: its exponent field is not
/// all ones.
pub open spec fn finite_f64_bits(b: u64) -> bool {
    (b >> 52u64) & 0x7FFu64 != 0x7FFu64
}

/// Every unit-interval bit pattern denotes a finite value.
pub proof fn lemma_unit_bits_finite(b: u64)
    requires
        unit_interval_bits(b),
    ensures
        finite_f64_bits(b),
{
    assert((b >> 52u64) & 0x7FFu64 != 0x7FFu64) by (bit_vector)
        requires
            b < 0x3FF0000000000000u64,
    ;
}

/// Tests the exponent field of a 64-bit float's bit pattern.
pub fn is_finite_f64_bits(b: u64) -> (r: bool)
    ensures
        r == finite_f64_bits(b),
{
    ((b >> 52) & 0x7FF) != 0x7FF
}

/// Encodes k / 2^53, where k is the top 53 bits of `r`, as the bit pattern of
/// a 64-bit float. Over a uniformly random `r` this is the standard uniform
/// draw from [0, 1): every such quotient is exactly representable, and the
/// result is always a unit-interval pattern.
pub fn unit_float_bits(r: u64) -> (b: u64)
    ensures
        unit_interval_bits(b),
{
    let k: u64 = r >> 11;
    proof {
        assert(k < 1u64 << 53u64) by (bit_vector)
            requires
                k == r >> 11u64,
        ;
    }
    if k == 0 {
        return 0;
    }
    let mut p: u64 = 0;
    let mut m: u64 = k;
    proof {
        assert(k >> 0u64 == k) by (bit_vector);
    }
    while m > 1
        invariant
            m == k >> p,
            1 <= m,
            p <= 52,
            k < 1u64 << 53u64,
        decreases m,
    {
        proof {
            assert(p < 52) by (bit_vector)
                requires
                    m == k >> p,
                    m > 1,
                    p <= 52u64,
                    k < 1u64 << 53u64,
            ;
            assert((k >> p) >> 1u64 == k >> (p + 1)) by (bit_vector)
                requires
                    p < 52u64,
            ;
            assert(1 <= m >> 1u64 < m) by (bit_vector)
                requires
                    m > 1,
            ;
        }
        m = m >> 1;
        p = p + 1;
    }
    let e: u64 = 970 + p;
    let shifted: u64 = k << (52 - p);
    let mant: u64 = shifted & 0x000FFFFFFFFFFFFF;
    proof {
        assert(shifted & 0x000FFFFFFFFFFFFFu64 <= 0x000FFFFFFFFFFFFFu64) by (bit_vector);
        assert((e << 52u64) | mant < 0x3FF0000000000000u64) by (bit_vector)
            requires
                e <= 1022u64,
                mant <= 0x000FFFFFFFFFFFFFu64,
        ;
    }
    (e << 52) | mant
}

} // verus!
