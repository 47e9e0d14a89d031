use vstd::arithmetic::div_mod::{
    lemma_div_is_ordered, lemma_div_multiples_vanish_quotient, lemma_fundamental_div_mod_converse,
};
use vstd::arithmetic::power2::{
    lemma2_to64, lemma2_to64_rest, lemma_pow2_adds, lemma_pow2_pos, lemma_pow2_strictly_increases,
    pow2,
};
use vstd::bits::lemma_u64_shl_is_mul;
use vstd::prelude::*;

verus! {

/// Whether the single-precision number with the bits `bits` has its sign
/// bit set.
pub open spec fn is_negative(bits: u32) -> bool {
    bits >= 0x8000_0000
}

/// The eight exponent bits of a single-precision number.
pub open spec fn exponent_field(bits: u32) -> nat {
    ((bits / 0x80_0000) % 256) as nat
}

/// The twenty-three fraction bits of a single-precision number.
pub open spec fn fraction_field(bits: u32) -> nat {
    (bits % 0x80_0000) as nat
}

/// Whether the bits are those of a number, and not of an infinity or of
/// something that is not a number.
pub open spec fn is_finite(bits: u32) -> bool {
    exponent_field(bits) != 255
}

/// The significand of a finite single-precision number, as an integer:
/// the fraction bits, and above them the hidden one unless the number is
/// subnormal.
pub open spec fn significand(bits: u32) -> nat {
    if exponent_field(bits) == 0 {
        fraction_field(bits)
    } else {
        0x80_0000 + fraction_field(bits)
    }
}

/// The power of two that the significand of a finite single-precision
/// number is multiplied with, counted from the smallest there is: the
/// number's magnitude is `significand * 2^binade / 2^149`.
pub open spec fn binade(bits: u32) -> nat {
    if exponent_field(bits) == 0 {
        0
    } else {
        (exponent_field(bits) - 1) as nat
    }
}

/// The value of a finite single-precision number, times `2^149`. That
/// makes it a whole number.
pub open spec fn scaled_value(bits: u32) -> int {
    let magnitude = (significand(bits) * pow2(binade(bits))) as int;
    if is_negative(bits) {
        -magnitude
    } else {
        magnitude
    }
}

/// The byte for a stick axis that stands at the single-precision value
/// with the bits `bits`.
///
/// The range from -1 to 1 is laid over the bytes from 0 to 255: the byte
/// is `(value + 1) / 2 * 255`, rounded to the nearest whole number, a
/// half going up, and kept within 0 and 255 where the value lies outside
/// its range. What is no finite number counts as the axis at rest, 128.
pub open spec fn axis_position(bits: u32) -> int {
    if !is_finite(bits) {
        128
    } else {
        let one = pow2(149) as int;
        let rounded = (255 * (scaled_value(bits) + one) + one) / (2 * one);
        if rounded < 0 {
            0
        } else if rounded > 255 {
            255
        } else {
            rounded
        }
    }
}

/// What `axis_position` rounds, brought to lower terms: with `unit` for
/// one in the number's own binade, the sum `255 * (unit ± significand) +
/// unit`, to be divided by twice the unit.
pub open spec fn reduced_sum(bits: u32) -> int {
    let unit = pow2((149 - binade(bits)) as nat) as int;
    if is_negative(bits) {
        255 * (unit - significand(bits)) + unit
    } else {
        255 * (unit + significand(bits)) + unit
    }
}

/// For a number below one in magnitude, the quotient that `axis_position`
/// rounds can be taken in the number's own binade.
proof fn lemma_reduce(bits: u32)
    requires
        exponent_field(bits) <= 126,
    ensures
        significand(bits) < 0x100_0000,
        pow2((149 - binade(bits)) as nat) >= 0x100_0000,
        reduced_sum(bits) >= 0,
        (255 * (scaled_value(bits) + pow2(149)) + pow2(149)) / (2 * (pow2(149) as int))
            == reduced_sum(bits) / (2 * (pow2((149 - binade(bits)) as nat) as int)),
{
    let p = binade(bits);
    let k = (149 - p) as nat;
    let s = significand(bits) as int;
    let c = pow2(p) as int;
    let unit = pow2(k) as int;
    let one = pow2(149) as int;
    lemma2_to64();
    lemma_pow2_pos(p);
    lemma_pow2_adds(k, p);
    if k > 24 {
        lemma_pow2_strictly_increases(24, k);
    }
    let a = reduced_sum(bits);
    let v = scaled_value(bits);
    assert(255 * (v + one) + one == c * a) by (nonlinear_arith)
        requires
            one == unit * c,
            v == s * c && a == 255 * (unit + s) + unit || v == -(s * c) && a == 255 * (unit - s)
                + unit,
    ;
    assert(2 * one == c * (2 * unit)) by (nonlinear_arith)
        requires
            one == unit * c,
    ;
    lemma_div_multiples_vanish_quotient(c, a, 2 * unit);
}

/// A number of magnitude one or more stands at an end of the range.
proof fn lemma_beyond_range(bits: u32)
    requires
        127 <= exponent_field(bits) < 255,
    ensures
        axis_position(bits) == if is_negative(bits) {
            0int
        } else {
            255int
        },
{
    let p = binade(bits);
    let s = significand(bits) as int;
    let c = pow2(p) as int;
    let one = pow2(149) as int;
    let sum = 255 * (scaled_value(bits) + one) + one;
    lemma2_to64();
    lemma_pow2_pos(149);
    lemma_pow2_adds(23, 126);
    if p > 126 {
        lemma_pow2_strictly_increases(126, p);
    }
    assert(s * c >= one) by (nonlinear_arith)
        requires
            s >= 0x80_0000,
            c >= pow2(126),
            one == 0x80_0000 * pow2(126),
    ;
    if is_negative(bits) {
        lemma_div_is_ordered(sum, one, 2 * one);
        lemma_fundamental_div_mod_converse(one, 2 * one, 0, one);
    } else {
        lemma_div_is_ordered(510 * one, sum, 2 * one);
        lemma_fundamental_div_mod_converse(510 * one, 2 * one, 255, 0);
    }
}

/// A number too small to move the byte leaves the axis at rest, or just
/// below rest where it is negative.
proof fn lemma_near_rest(bits: u32)
    requires
        exponent_field(bits) < 96,
    ensures
        axis_position(bits) == if is_negative(bits) && significand(bits) > 0 {
            127int
        } else {
            128int
        },
{
    let k = (149 - binade(bits)) as nat;
    let s = significand(bits) as int;
    let unit = pow2(k) as int;
    lemma_reduce(bits);
    lemma2_to64();
    lemma_pow2_strictly_increases(32, k);
    if is_negative(bits) && s > 0 {
        lemma_fundamental_div_mod_converse(reduced_sum(bits), 2 * unit, 127, 2 * unit - 255 * s);
    } else {
        lemma_fundamental_div_mod_converse(reduced_sum(bits), 2 * unit, 128, 255 * s);
    }
}

/// The byte for a stick axis that stands at the single-precision value
/// with the bits `bits`: 0 at -1, 128 at rest, 255 at 1.
pub fn axis_byte(bits: u32) -> (byte: u8)
    ensures
        byte == axis_position(bits),
{
    let negative = bits >= 0x8000_0000;
    let exponent = (bits / 0x80_0000) % 256;
    let fraction = bits % 0x80_0000;
    if exponent == 255 {
        128
    } else if exponent >= 127 {
        proof {
            lemma_beyond_range(bits);
        }
        if negative {
            0
        } else {
            255
        }
    } else if exponent < 96 {
        proof {
            lemma_near_rest(bits);
        }
        if negative && (exponent != 0 || fraction != 0) {
            127
        } else {
            128
        }
    } else {
        let shift: u64 = 150 - exponent as u64;
        proof {
            lemma_reduce(bits);
            lemma2_to64();
            lemma2_to64_rest();
            if shift < 54 {
                lemma_pow2_strictly_increases(shift as nat, 54);
            }
            lemma_u64_shl_is_mul(1, shift);
        }
        let unit: u64 = 1u64 << shift;
        let significand: u64 = 0x80_0000 + fraction as u64;
        let centre = if negative {
            unit - significand
        } else {
            unit + significand
        };
        let sum = 255 * centre + unit;
        let twice = 2 * unit;
        assert(sum / twice <= 255) by (nonlinear_arith)
            requires
                0 <= sum < 256 * twice,
                twice > 0,
        ;
        (sum / twice) as u8
    }
}

} // verus!
