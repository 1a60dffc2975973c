//! Single-precision numbers as bit patterns. The font engine takes the values of
//! variable-font axes in the IEEE 754 binary32 format; this library carries such a value
//! as the 32 bits that encode it and reads from them only what its rules need.

use vstd::arithmetic::div_mod::lemma_basic_div;
use vstd::arithmetic::power2::{
    lemma2_to64, lemma_pow2_adds, lemma_pow2_pos, lemma_pow2_strictly_increases, pow2,
};
use vstd::bits::{lemma_u32_shl_is_mul, lemma_u32_shr_is_div};
use vstd::prelude::*;

verus! {

/// A single-precision number, held as the bit pattern that encodes it.
#[derive(Clone, Copy, Debug, PartialEq, Eq)]
pub struct Scalar {
    pub bits: u32,
}

/// The sign bit: set for negative numbers.
pub open spec fn sign_bit(bits: u32) -> bool {
    bits >= 0x8000_0000
}

/// The eight bits of the biased exponent.
pub open spec fn exponent_field(bits: u32) -> int {
    (bits as int / 0x80_0000) % 0x100
}

/// The twenty-three bits of the fraction.
pub open spec fn fraction_field(bits: u32) -> int {
    bits as int % 0x80_0000
}

/// Whether the pattern encodes no number at all.
pub open spec fn is_nan(bits: u32) -> bool {
    exponent_field(bits) == 0xff && fraction_field(bits) != 0
}

/// The integer `m` of a number written as `m` times a power of two: the fraction, with
/// the implicit leading bit where the number is normal.
pub open spec fn significand(bits: u32) -> int {
    if exponent_field(bits) == 0 {
        fraction_field(bits)
    } else {
        0x80_0000 + fraction_field(bits)
    }
}

/// The power of two by which the significand is multiplied. An infinity is read as the
/// number beyond the greatest finite one, which is enough for every bound below.
pub open spec fn scale(bits: u32) -> int {
    if exponent_field(bits) == 0 {
        -149
    } else {
        exponent_field(bits) - 150
    }
}

/// The magnitude of the number, rounded down to a whole number.
pub open spec fn whole_magnitude(bits: u32) -> int {
    if scale(bits) >= 0 {
        significand(bits) * pow2(scale(bits) as nat)
    } else {
        significand(bits) / (pow2((-scale(bits)) as nat) as int)
    }
}

/// The number rounded toward zero and held to the range of a signed 32-bit integer;
/// zero where the pattern encodes no number.
pub open spec fn truncated(bits: u32) -> int {
    if is_nan(bits) {
        0
    } else {
        let signed = if sign_bit(bits) {
            -whole_magnitude(bits)
        } else {
            whole_magnitude(bits)
        };
        if signed < i32::MIN {
            i32::MIN as int
        } else if signed > i32::MAX {
            i32::MAX as int
        } else {
            signed
        }
    }
}

/// The exponent of the greatest power of two that is not above `magnitude`.
pub open spec fn binade(magnitude: int) -> nat
    decreases magnitude,
{
    if magnitude < 2 {
        0
    } else {
        1 + binade(magnitude / 2)
    }
}

/// The bit pattern of the single-precision number nearest to a whole number; of two
/// that are equally near, the one whose significand is even. A whole number of up to
/// twenty-four bits is encoded exactly.
pub open spec fn nearest_bits(value: int) -> int {
    if value == 0 {
        0
    } else {
        let magnitude = if value < 0 {
            -value
        } else {
            value
        };
        let sign = if value < 0 {
            0x8000_0000int
        } else {
            0int
        };
        let k = binade(magnitude);
        if k <= 23 {
            sign + (127 + k) * 0x80_0000 + (magnitude * pow2((23 - k) as nat) - 0x80_0000)
        } else {
            let step = pow2((k - 23) as nat) as int;
            let quotient = magnitude / step;
            let rest = magnitude % step;
            let up = if 2 * rest > step || (2 * rest == step && quotient % 2 == 1) {
                1int
            } else {
                0int
            };
            sign + (127 + k) * 0x80_0000 + (quotient + up - 0x80_0000)
        }
    }
}

impl Scalar {
    /// The number one.
    pub open spec fn spec_one() -> Scalar {
        Scalar { bits: 0x3f80_0000 }
    }

    /// The number zero.
    pub open spec fn spec_zero() -> Scalar {
        Scalar { bits: 0 }
    }

    /// The number with this bit pattern.
    pub fn from_bits(bits: u32) -> (r: Scalar)
        ensures
            r.bits == bits,
    {
        Scalar { bits }
    }

    /// The bit pattern of this number.
    pub fn to_bits(&self) -> (r: u32)
        ensures
            r == self.bits,
    {
        self.bits
    }

    /// The number one.
    pub fn one() -> (r: Scalar)
        ensures
            r == Scalar::spec_one(),
            truncated(r.bits) == 1,
    {
        proof {
            lemma_one_is_one();
        }
        Scalar { bits: 0x3f80_0000 }
    }

    /// The number zero.
    pub fn zero() -> (r: Scalar)
        ensures
            r == Scalar::spec_zero(),
            truncated(r.bits) == 0,
    {
        proof {
            lemma2_to64();
            lemma_pow2_pos(149);
            lemma_basic_div(0, pow2(149) as int);
        }
        Scalar { bits: 0 }
    }

    /// The single-precision number nearest to a signed 32-bit integer; of two that are
    /// equally near, the one whose significand is even.
    pub fn from_i32(value: i32) -> (r: Scalar)
        ensures
            r.bits == nearest_bits(value as int),
    {
        if value == 0 {
            return Scalar { bits: 0 };
        }
        let negative: bool = value < 0;
        let magnitude: u32 = if negative {
            if value == i32::MIN {
                0x8000_0000
            } else {
                (-value) as u32
            }
        } else {
            value as u32
        };
        let sign: u32 = if negative {
            0x8000_0000
        } else {
            0
        };
        let mut k: u32 = 0;
        let mut rest: u32 = magnitude;
        proof {
            lemma_binade_bounds(magnitude as int);
            lemma2_to64();
            if binade(magnitude as int) > 32 {
                lemma_pow2_strictly_increases(32, binade(magnitude as int));
            }
        }
        while rest >= 2
            invariant
                1 <= rest,
                k + binade(rest as int) == binade(magnitude as int),
                binade(magnitude as int) <= 32,
            decreases rest,
        {
            rest = rest / 2;
            k = k + 1;
        }
        proof {
            lemma_pow2_adds(k as nat, 1);
            lemma_pow2_pos(k as nat);
        }
        assert(k == binade(magnitude as int));
        assert(pow2(k as nat) <= magnitude < 2 * pow2(k as nat));
        assert(k <= 31) by {
            if k >= 32 {
                if k > 32 {
                    lemma_pow2_strictly_increases(32, k as nat);
                }
            }
        }
        let biased: u32 = (127 + k) * 0x80_0000;
        if k <= 23 {
            let shift: u32 = 23 - k;
            proof {
                lemma_pow2_adds(k as nat, shift as nat);
                lemma_pow2_pos(shift as nat);
                assert(0x80_0000 <= magnitude * pow2(shift as nat) < 0x100_0000) by (nonlinear_arith)
                    requires
                        pow2(k as nat) <= magnitude < 2 * pow2(k as nat),
                        pow2(k as nat) * pow2(shift as nat) == 0x80_0000,
                        pow2(shift as nat) > 0,
                ;
                lemma_u32_shl_is_mul(magnitude, shift);
            }
            let full: u32 = magnitude << shift;
            Scalar { bits: sign + biased + (full - 0x80_0000) }
        } else {
            let shift: u32 = k - 23;
            proof {
                lemma_pow2_adds(23, shift as nat);
                lemma_pow2_pos(shift as nat);
                lemma_pow2_strictly_increases(shift as nat, 9);
                lemma_u32_shl_is_mul(1, shift);
            }
            let step: u32 = 1u32 << shift;
            let quotient: u32 = magnitude / step;
            let remainder: u32 = magnitude % step;
            proof {
                assert(0x80_0000 <= quotient < 0x100_0000) by (nonlinear_arith)
                    requires
                        0x80_0000 * step <= magnitude < 2 * (0x80_0000 * step),
                        step > 0,
                        quotient == magnitude as int / step as int,
                ;
            }
            let up: u32 = if 2 * remainder > step || (2 * remainder == step && quotient % 2 == 1) {
                1
            } else {
                0
            };
            Scalar { bits: sign + biased + (quotient + up - 0x80_0000) }
        }
    }

    /// Rounds toward zero to a signed 32-bit integer. A number beyond the integer's range
    /// gives the bound on its side; a pattern that encodes no number gives zero.
    pub fn to_i32(&self) -> (r: i32)
        ensures
            r == truncated(self.bits),
    {
        let bits: u32 = self.bits;
        let exponent: u32 = (bits >> 23) & 0xff;
        let fraction: u32 = bits & 0x7f_ffff;
        let negative: bool = bits >= 0x8000_0000;
        assert(exponent == (bits / 0x80_0000) % 0x100) by (bit_vector)
            requires
                exponent == (bits >> 23) & 0xff,
        ;
        assert(fraction == bits % 0x80_0000) by (bit_vector)
            requires
                fraction == bits & 0x7f_ffff,
        ;
        assert(exponent as int == exponent_field(bits));
        assert(fraction as int == fraction_field(bits));
        if exponent == 0xff && fraction != 0 {
            return 0;
        }
        if exponent < 127 {
            proof {
                lemma_small_magnitude(bits);
            }
            return 0;
        }
        if exponent >= 158 {
            proof {
                lemma_large_magnitude(bits);
            }
            if negative {
                return i32::MIN;
            } else {
                return i32::MAX;
            }
        }
        let whole: u32 = 0x80_0000 + fraction;
        let magnitude: u32 = if exponent >= 150 {
            let shift: u32 = exponent - 150;
            proof {
                lemma2_to64();
                if shift < 7 {
                    lemma_pow2_strictly_increases(shift as nat, 7);
                }
                assert(whole * pow2(shift as nat) <= 0x7fff_ff80) by (nonlinear_arith)
                    requires
                        whole <= 0xff_ffff,
                        pow2(shift as nat) <= 0x80,
                ;
                lemma_u32_shl_is_mul(whole, shift);
            }
            whole << shift
        } else {
            let shift: u32 = 150 - exponent;
            proof {
                lemma_u32_shr_is_div(whole, shift);
            }
            whole >> shift
        };
        assert(magnitude as int == whole_magnitude(bits));
        assert(magnitude <= 0x7fff_ff80) by {
            if exponent < 150 {
                lemma_pow2_pos((150 - exponent) as nat);
                vstd::arithmetic::div_mod::lemma_div_pos_is_pos(
                    whole as int,
                    pow2((150 - exponent) as nat) as int,
                );
                vstd::arithmetic::div_mod::lemma_div_is_ordered_by_denominator(
                    whole as int,
                    1,
                    pow2((150 - exponent) as nat) as int,
                );
            }
        }
        if negative {
            -(magnitude as i32)
        } else {
            magnitude as i32
        }
    }
}

/// A positive whole number lies between the power of two of its binade and the next.
pub proof fn lemma_binade_bounds(magnitude: int)
    requires
        magnitude >= 1,
    ensures
        pow2(binade(magnitude)) <= magnitude < pow2(binade(magnitude) + 1),
    decreases magnitude,
{
    lemma2_to64();
    if magnitude >= 2 {
        lemma_binade_bounds(magnitude / 2);
        let k = binade(magnitude / 2);
        lemma_pow2_adds(k, 1);
        lemma_pow2_adds(k + 1, 1);
    }
}

/// A whole number of up to twenty-four bits is encoded exactly: rounding its
/// single-precision number toward zero gives the whole number back.
pub proof fn lemma_whole_number_survives(value: int)
    requires
        -0x100_0000 <= value <= 0x100_0000,
    ensures
        0 <= nearest_bits(value) <= u32::MAX,
        !is_nan(nearest_bits(value) as u32),
        truncated(nearest_bits(value) as u32) == value,
{
    lemma2_to64();
    if value == 0 {
        lemma_pow2_pos(149);
        lemma_basic_div(0, pow2(149) as int);
    } else {
        let magnitude = if value < 0 {
            -value
        } else {
            value
        };
        let k = binade(magnitude);
        lemma_binade_bounds(magnitude);
        if k > 24 {
            lemma_pow2_strictly_increases(24, k);
        }
        lemma_pow2_adds(k, 1);
        if k <= 23 {
            let shift = (23 - k) as nat;
            let full = magnitude * pow2(shift);
            lemma_pow2_adds(k, shift);
            lemma_pow2_pos(shift);
            assert(0x80_0000 <= full < 0x100_0000) by (nonlinear_arith)
                requires
                    pow2(k) <= magnitude < 2 * pow2(k),
                    pow2(k) * pow2(shift) == 0x80_0000,
                    pow2(shift) > 0,
                    full == magnitude * pow2(shift),
            ;
            let bits = nearest_bits(value) as u32;
            assert(exponent_field(bits) == 127 + k);
            assert(fraction_field(bits) == full - 0x80_0000);
            assert(significand(bits) == full);
            if shift > 0 {
                vstd::arithmetic::div_mod::lemma_div_by_multiple(magnitude, pow2(shift) as int);
            } else {
                assert(full == magnitude) by (nonlinear_arith)
                    requires
                        full == magnitude * pow2(shift),
                        pow2(shift) == 1,
                ;
            }
            assert(whole_magnitude(bits) == magnitude);
        } else {
            assert(magnitude == 0x100_0000);
            let bits = nearest_bits(value) as u32;
            assert(exponent_field(bits) == 151);
            assert(fraction_field(bits) == 0);
            assert(whole_magnitude(bits) == magnitude);
        }
    }
}

/// A whole number of more than twenty-four bits is encoded by a multiple of its step,
/// the power of two that lies twenty-three binades below it: by one of the two
/// multiples next to it, the nearer one, and of two that are equally near the even
/// one.
pub proof fn lemma_rounding_is_nearest(value: int)
    requires
        i32::MIN <= value <= i32::MAX,
        value < -0x100_0000 || value > 0x100_0000,
    ensures
        0 <= nearest_bits(value) <= u32::MAX,
        !is_nan(nearest_bits(value) as u32),
        sign_bit(nearest_bits(value) as u32) == (value < 0),
        ({
            let magnitude = if value < 0 {
                -value
            } else {
                value
            };
            let step = pow2((binade(magnitude) - 23) as nat) as int;
            let whole = whole_magnitude(nearest_bits(value) as u32);
            let distance = if whole < magnitude {
                magnitude - whole
            } else {
                whole - magnitude
            };
            &&& binade(magnitude) > 23
            &&& step > 0
            &&& whole % step == 0
            &&& 2 * distance <= step
            &&& 2 * distance == step ==> (whole / step) % 2 == 0
        }),
{
    lemma2_to64();
    let magnitude = if value < 0 {
        -value
    } else {
        value
    };
    let sign = if value < 0 {
        0x8000_0000int
    } else {
        0int
    };
    let k = binade(magnitude);
    lemma_binade_bounds(magnitude);
    lemma_pow2_adds(k, 1);
    assert(23 < k <= 31) by {
        if k < 23 {
            lemma_pow2_strictly_increases(k + 1, 24);
        }
        if k > 31 {
            lemma_pow2_strictly_increases(31, k);
        }
    }
    let up_by = (k - 23) as nat;
    let step = pow2(up_by) as int;
    lemma_pow2_pos(up_by);
    lemma_pow2_adds(23, up_by);
    let quotient = magnitude / step;
    let rest = magnitude % step;
    let up = if 2 * rest > step || (2 * rest == step && quotient % 2 == 1) {
        1int
    } else {
        0int
    };
    vstd::arithmetic::div_mod::lemma_fundamental_div_mod(magnitude, step);
    vstd::arithmetic::div_mod::lemma_mod_bound(magnitude, step);
    assert(0x80_0000 <= quotient < 0x100_0000) by (nonlinear_arith)
        requires
            0x80_0000 * step <= magnitude < 2 * (0x80_0000 * step),
            step > 0,
            magnitude == step * quotient + rest,
            0 <= rest < step,
    ;
    let rounded = quotient + up;
    let bits = nearest_bits(value) as u32;
    assert(nearest_bits(value) == sign + (127 + k) * 0x80_0000 + (rounded - 0x80_0000));
    if rounded < 0x100_0000 {
        assert(exponent_field(bits) == 127 + k);
        assert(fraction_field(bits) == rounded - 0x80_0000);
        assert(significand(bits) == rounded);
        assert(scale(bits) == up_by);
        assert(whole_magnitude(bits) == rounded * step);
    } else {
        assert(rounded == 0x100_0000);
        assert(nearest_bits(value) == sign + (128 + k) * 0x80_0000);
        assert(exponent_field(bits) == 128 + k);
        assert(fraction_field(bits) == 0);
        assert(significand(bits) == 0x80_0000);
        assert(scale(bits) == up_by + 1);
        lemma_pow2_adds(up_by, 1);
        assert(whole_magnitude(bits) == rounded * step) by (nonlinear_arith)
            requires
                whole_magnitude(bits) == 0x80_0000 * pow2(up_by + 1),
                pow2(up_by + 1) == step * 2,
                rounded == 0x100_0000,
        ;
    }
    let whole = whole_magnitude(bits);
    assert(whole == quotient * step + up * step) by (nonlinear_arith)
        requires
            whole == (quotient + up) * step,
    ;
    assert(magnitude == quotient * step + rest) by (nonlinear_arith)
        requires
            magnitude == step * quotient + rest,
    ;
    assert(whole == rounded * step + 0);
    vstd::arithmetic::div_mod::lemma_fundamental_div_mod_converse(whole, step, rounded, 0);
}

/// A number whose exponent lies below that of one has no whole part.
proof fn lemma_small_magnitude(bits: u32)
    requires
        exponent_field(bits) < 127,
    ensures
        whole_magnitude(bits) == 0,
{
    let down = (-scale(bits)) as nat;
    lemma2_to64();
    if down > 24 {
        lemma_pow2_strictly_increases(24, down);
    }
    assert(significand(bits) < pow2(down));
    lemma_basic_div(significand(bits), pow2(down) as int);
}

/// A number whose exponent is that of two to the thirty-first or more lies beyond the
/// range of a signed 32-bit integer, or on its lower bound.
proof fn lemma_large_magnitude(bits: u32)
    requires
        exponent_field(bits) >= 158,
    ensures
        whole_magnitude(bits) >= 0x8000_0000,
{
    let up = scale(bits) as nat;
    lemma2_to64();
    if up > 8 {
        lemma_pow2_strictly_increases(8, up);
    }
    assert(significand(bits) * pow2(up) >= 0x8000_0000) by (nonlinear_arith)
        requires
            significand(bits) >= 0x80_0000,
            pow2(up) >= 0x100,
    ;
}

/// The pattern of one encodes one.
proof fn lemma_one_is_one()
    ensures
        truncated(0x3f80_0000) == 1,
{
    lemma2_to64();
    assert(pow2(23) == 0x80_0000);
    assert(0x80_0000int / 0x80_0000int == 1);
}

} // verus!
