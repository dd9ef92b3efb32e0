//! Single-precision numbers as bit patterns.
//!
//! A measurement or a length reaches the library as the 32 bits of its
//! IEEE-754 single-precision encoding: one sign bit, eight exponent bits and
//! twenty-three fraction bits. The functions here say which number such a
//! pattern stands for, as an exact multiple of 2^-149, and compute with it in
//! integers.

use vstd::arithmetic::div_mod::*;
use vstd::arithmetic::mul::*;
use vstd::arithmetic::power2::*;
use vstd::prelude::*;

verus! {

/// The sign bit is set.
pub open spec fn is_negative(bits: u32) -> bool {
    bits >= 0x8000_0000
}

/// The eight exponent bits.
pub open spec fn exponent_field(bits: u32) -> nat {
    ((bits as nat) / 0x80_0000) % 0x100
}

/// The twenty-three fraction bits.
pub open spec fn fraction_field(bits: u32) -> nat {
    (bits as nat) % 0x80_0000
}

/// The pattern stands for no number.
pub open spec fn is_nan(bits: u32) -> bool {
    exponent_field(bits) == 255 && fraction_field(bits) != 0
}

/// The pattern stands for plus or minus infinity.
pub open spec fn is_infinite(bits: u32) -> bool {
    exponent_field(bits) == 255 && fraction_field(bits) == 0
}

/// The pattern stands for a number: zero, subnormal or normal.
pub open spec fn is_finite(bits: u32) -> bool {
    exponent_field(bits) < 255
}

/// The integer significand: the fraction bits, with the implicit leading bit
/// unless the number is zero or subnormal.
pub open spec fn significand(bits: u32) -> nat {
    if exponent_field(bits) == 0 {
        fraction_field(bits)
    } else {
        0x80_0000 + fraction_field(bits)
    }
}

/// The power of two by which the significand is multiplied, counted from
/// 2^-149, the smallest positive number of the format.
pub open spec fn scale(bits: u32) -> nat {
    if exponent_field(bits) == 0 {
        0
    } else {
        (exponent_field(bits) - 1) as nat
    }
}

/// The absolute value of a finite pattern, in units of 2^-149.
pub open spec fn magnitude(bits: u32) -> nat {
    significand(bits) * pow2(scale(bits))
}

/// The integer that a conversion to `u32` gives: the number rounded towards
/// zero, 0 below the range of `u32` and for what is no number, `u32::MAX`
/// above the range.
pub open spec fn truncation(bits: u32) -> nat {
    if is_nan(bits) || is_negative(bits) {
        0
    } else if is_infinite(bits) {
        u32::MAX as nat
    } else {
        let whole = magnitude(bits) / pow2(149);
        if whole > u32::MAX {
            u32::MAX as nat
        } else {
            whole
        }
    }
}

/// The number lies between 0 and 100, both included.
pub open spec fn is_percentage(bits: u32) -> bool {
    &&& !is_nan(bits)
    &&& {
        ||| magnitude(bits) == 0
        ||| (!is_negative(bits) && is_finite(bits) && magnitude(bits) <= 100 * pow2(149))
    }
}

/// Whole units of 2^-149: a scale of 149 and more multiplies the
/// significand, a smaller one divides it.
proof fn lemma_whole_part(sig: nat, scale: nat)
    ensures
        scale >= 149 ==> (sig * pow2(scale)) / pow2(149) == sig * pow2((scale - 149) as nat),
        scale < 149 ==> (sig * pow2(scale)) / pow2(149) == sig / pow2((149 - scale) as nat),
{
    lemma_pow2_pos(149);
    lemma_pow2_pos(scale);
    if scale >= 149 {
        let up = (scale - 149) as nat;
        lemma_pow2_adds(up, 149);
        assert(sig * pow2(scale) == pow2(149) * (sig * pow2(up))) by {
            lemma_mul_is_associative(sig as int, pow2(up) as int, pow2(149) as int);
            lemma_mul_is_commutative((sig * pow2(up)) as int, pow2(149) as int);
        }
        lemma_div_multiples_vanish((sig * pow2(up)) as int, pow2(149) as int);
    } else {
        let down = (149 - scale) as nat;
        lemma_pow2_adds(scale, down);
        lemma_pow2_pos(down);
        let x = sig * pow2(scale);
        lemma_div_denominator(x as int, pow2(scale) as int, pow2(down) as int);
        assert(x / pow2(scale) == sig) by {
            lemma_mul_is_commutative(sig as int, pow2(scale) as int);
            lemma_div_multiples_vanish(sig as int, pow2(scale) as int);
        }
    }
}

/// 2 to the power of `exponent`.
fn power_of_two(exponent: u32) -> (power: u32)
    requires
        exponent <= 31,
    ensures
        power == pow2(exponent as nat),
{
    let mut power: u32 = 1;
    let mut done: u32 = 0;
    proof {
        lemma2_to64();
    }
    while done < exponent
        invariant
            done <= exponent <= 31,
            power == pow2(done as nat),
        decreases exponent - done,
    {
        proof {
            lemma_pow2_unfold((done + 1) as nat);
            lemma_pow2_strictly_increases((done + 1) as nat, 32);
            lemma2_to64();
        }
        power = power * 2;
        done = done + 1;
    }
    power
}

/// Rounds the number with the given bit pattern towards zero and brings it
/// into the range of `u32`, as a conversion of the number to `u32` does.
pub fn truncate(bits: u32) -> (whole: u32)
    ensures
        whole == truncation(bits),
{
    let exponent: u32 = (bits / 0x80_0000) % 0x100;
    let fraction: u32 = bits % 0x80_0000;
    if bits >= 0x8000_0000 || (exponent == 255 && fraction != 0) {
        return 0;
    }
    if exponent == 255 {
        return u32::MAX;
    }
    proof {
        lemma_whole_part(significand(bits), scale(bits));
        lemma2_to64();
    }
    if exponent < 127 {
        proof {
            let down = (149 - scale(bits)) as nat;
            if down > 24 {
                lemma_pow2_strictly_increases(24, down);
            }
            lemma_basic_div(significand(bits) as int, pow2(down) as int);
        }
        return 0;
    }
    let sig: u32 = 0x80_0000 + fraction;
    if exponent >= 159 {
        proof {
            let up = (scale(bits) - 149) as nat;
            if up > 9 {
                lemma_pow2_strictly_increases(9, up);
            }
            lemma_mul_inequality(pow2(9) as int, pow2(up) as int, sig as int);
            lemma_mul_is_commutative(sig as int, pow2(up) as int);
            lemma_mul_is_commutative(sig as int, pow2(9) as int);
        }
        return u32::MAX;
    }
    if exponent >= 150 {
        let factor = power_of_two(exponent - 150);
        proof {
            let up = (exponent - 150) as nat;
            if up < 8 {
                lemma_pow2_strictly_increases(up, 8);
            }
            lemma_mul_upper_bound(sig as int, 0xff_ffff, factor as int, 0x100);
        }
        sig * factor
    } else {
        let divisor = power_of_two(150 - exponent);
        proof {
            lemma_pow2_pos((150 - exponent) as nat);
        }
        sig / divisor
    }
}

/// Says whether the number with the given bit pattern lies between 0 and
/// 100, both included. Among the patterns without a sign bit the numbers
/// grow with the patterns, so one comparison with the pattern of 100
/// decides; minus zero is the one pattern with a sign bit that qualifies.
pub fn in_percent_range(bits: u32) -> (inside: bool)
    ensures
        inside == is_percentage(bits),
{
    let exponent: u32 = (bits / 0x80_0000) % 0x100;
    proof {
        lemma2_to64();
        lemma_pow2_pos(scale(bits));
        lemma_pow2_pos(149);
        lemma_pow2_adds(17, 132);
        let sig = significand(bits);
        let unit = pow2(scale(bits));
        if bits >= 0x8000_0000 {
            if bits != 0x8000_0000 {
                lemma_mul_strictly_positive(sig as int, unit as int);
            }
        } else if exponent < 133 {
            // below 2^24 * 2^131 = 64 * 2^149
            if scale(bits) < 131 {
                lemma_pow2_strictly_increases(scale(bits), 131);
            }
            lemma_pow2_adds(6, 149);
            lemma_pow2_adds(24, 131);
            lemma_mul_upper_bound(sig as int, pow2(24) as int, unit as int, pow2(131) as int);
        } else if exponent == 133 {
            // 100 = 0xC8_0000 * 2^-17
            assert(100 * pow2(149) == 0xC8_0000 * pow2(132)) by {
                lemma_mul_is_associative(100, pow2(17) as int, pow2(132) as int);
            }
            if bits <= 0x42C8_0000 {
                lemma_mul_inequality(sig as int, 0xC8_0000, unit as int);
            } else {
                lemma_mul_strict_inequality(0xC8_0000, sig as int, unit as int);
            }
        } else if exponent < 255 {
            // at least 2^23 * 2^133 = 128 * 2^149
            if scale(bits) > 133 {
                lemma_pow2_strictly_increases(133, scale(bits));
            }
            lemma_pow2_adds(7, 149);
            lemma_pow2_adds(23, 133);
            lemma_mul_upper_bound(pow2(23) as int, sig as int, pow2(133) as int, unit as int);
        } else {
            lemma_mul_strictly_positive(sig as int, unit as int);
        }
    }
    bits <= 0x42C8_0000 || bits == 0x8000_0000
}

} // verus!
