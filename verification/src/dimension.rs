//! The rule on a texture's width and height: each is a power of two.
use vstd::prelude::*;
use vstd::arithmetic::power2::{lemma2_to64, lemma_pow2_strictly_increases, pow2};

verus! {

/// `n` is 1, 2, 4, 8, ...: two raised to some natural number.
pub open spec fn is_power_of_two(n: int) -> bool {
    exists|k: nat| n == pow2(k)
}

/// `n` is one of the thirty-two powers of two that a `u32` can hold.
pub open spec fn single_bit(n: u32) -> bool {
    ||| n == 0x1
    ||| n == 0x2
    ||| n == 0x4
    ||| n == 0x8
    ||| n == 0x10
    ||| n == 0x20
    ||| n == 0x40
    ||| n == 0x80
    ||| n == 0x100
    ||| n == 0x200
    ||| n == 0x400
    ||| n == 0x800
    ||| n == 0x1000
    ||| n == 0x2000
    ||| n == 0x4000
    ||| n == 0x8000
    ||| n == 0x10000
    ||| n == 0x20000
    ||| n == 0x40000
    ||| n == 0x80000
    ||| n == 0x100000
    ||| n == 0x200000
    ||| n == 0x400000
    ||| n == 0x800000
    ||| n == 0x1000000
    ||| n == 0x2000000
    ||| n == 0x4000000
    ||| n == 0x8000000
    ||| n == 0x10000000
    ||| n == 0x20000000
    ||| n == 0x40000000
    ||| n == 0x80000000
}

/// Clearing the lowest set bit of a non-zero `n` leaves nothing exactly when
/// `n` has a single bit set.
proof fn lemma_bit_trick(n: u32)
    by (bit_vector)
    requires
        n != 0,
    ensures
        (n & ((n - 1) as u32) == 0) <==> single_bit(n),
{
}

/// The powers of two that fit in a `u32` are the values with a single bit set.
pub proof fn lemma_power_of_two_u32(n: u32)
    ensures
        is_power_of_two(n as int) <==> single_bit(n),
{
    lemma2_to64();
    if is_power_of_two(n as int) {
        let k = choose|k: nat| n == pow2(k);
        if k >= 32 {
            if k > 32 {
                lemma_pow2_strictly_increases(32, k);
            }
            assert(false);
        }
        assert(single_bit(n));
    }
    if single_bit(n) {
        let k: nat = if n == 0x1 {
            0
        } else if n == 0x2 {
            1
        } else if n == 0x4 {
            2
        } else if n == 0x8 {
            3
        } else if n == 0x10 {
            4
        } else if n == 0x20 {
            5
        } else if n == 0x40 {
            6
        } else if n == 0x80 {
            7
        } else if n == 0x100 {
            8
        } else if n == 0x200 {
            9
        } else if n == 0x400 {
            10
        } else if n == 0x800 {
            11
        } else if n == 0x1000 {
            12
        } else if n == 0x2000 {
            13
        } else if n == 0x4000 {
            14
        } else if n == 0x8000 {
            15
        } else if n == 0x10000 {
            16
        } else if n == 0x20000 {
            17
        } else if n == 0x40000 {
            18
        } else if n == 0x80000 {
            19
        } else if n == 0x100000 {
            20
        } else if n == 0x200000 {
            21
        } else if n == 0x400000 {
            22
        } else if n == 0x800000 {
            23
        } else if n == 0x1000000 {
            24
        } else if n == 0x2000000 {
            25
        } else if n == 0x4000000 {
            26
        } else if n == 0x8000000 {
            27
        } else if n == 0x10000000 {
            28
        } else if n == 0x20000000 {
            29
        } else if n == 0x40000000 {
            30
        } else {
            31
        };
        assert(n == pow2(k));
    }
}

/// Zero is no power of two.
pub proof fn lemma_zero_is_no_power_of_two()
    ensures
        !is_power_of_two(0),
{
    lemma_power_of_two_u32(0);
}

/// Whether `n` is a power of two: non-zero, and `n & (n - 1)` is zero.
pub fn power_of_two(n: u32) -> (yes: bool)
    ensures
        yes == is_power_of_two(n as int),
{
    proof {
        lemma_power_of_two_u32(n);
    }
    if n == 0 {
        false
    } else {
        proof {
            lemma_bit_trick(n);
        }
        n & (n - 1) == 0
    }
}

} // verus!
