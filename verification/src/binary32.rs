//! Single-precision bit patterns for fixed-point values.
//!
//! The kernel reads its scene and camera as IEEE 754 binary32 numbers. The host side keeps
//! every such quantity as a whole number of *half units* (one half unit is 0.5), and this
//! module turns half units into the 32-bit pattern of the same number and back, exactly.
//!
//! A pattern is `sign * 2^31 + exponent * 2^23 + fraction`. For a biased exponent between
//! 1 and 254 it stands for `(2^23 + fraction) * 2^(exponent - 150)`, that is for
//! `(2^23 + fraction) * 2^(exponent - 149)` half units.
use vstd::arithmetic::div_mod::{
    lemma_div_multiples_vanish, lemma_fundamental_div_mod_converse, lemma_mod_multiples_basic,
    lemma_small_mod,
};
use vstd::arithmetic::power2::{
    lemma2_to64, lemma_pow2_pos, lemma_pow2_strictly_increases, lemma_pow2_unfold, pow2,
};
use vstd::prelude::*;

verus! {

/// The largest magnitude, in half units, that has an exact pattern here: `2^24 - 1`.
pub const MAX_HALVES: i32 = 0xFF_FFFF;

/// The weight of the implicit leading bit of a significand, `2^23`.
pub const HIDDEN_BIT: u32 = 0x80_0000;

/// The weight of the sign bit, `2^31`.
pub const SIGN_BIT: u32 = 0x8000_0000;

/// The biased exponent at which a significand counts half units one for one.
pub const UNIT_EXPONENT: u32 = 149;

/// Whether `halves` lies in the range that this module encodes.
pub open spec fn representable(halves: int) -> bool {
    -MAX_HALVES <= halves <= MAX_HALVES
}

/// The sign bit of a pattern, 0 or 1.
pub open spec fn sign_field(bits: u32) -> int {
    bits as int / SIGN_BIT as int
}

/// The biased exponent of a pattern, 0 to 255.
pub open spec fn exponent_field(bits: u32) -> int {
    (bits as int / HIDDEN_BIT as int) % 256
}

/// The fraction of a pattern, below `2^23`.
pub open spec fn fraction_field(bits: u32) -> int {
    bits as int % HIDDEN_BIT as int
}

/// The magnitude that a pattern stands for, in half units, where that is a whole number.
/// Zero of either sign is 0; subnormal numbers, infinities and NaN have none.
#[verifier::opaque]
pub open spec fn magnitude_of(bits: u32) -> Option<int> {
    let exponent = exponent_field(bits);
    let significand = HIDDEN_BIT + fraction_field(bits);
    if exponent == 0 {
        if fraction_field(bits) == 0 {
            Some(0)
        } else {
            None
        }
    } else if exponent == 255 {
        None
    } else if exponent >= UNIT_EXPONENT {
        Some(significand * pow2((exponent - UNIT_EXPONENT) as nat))
    } else if significand % (pow2((UNIT_EXPONENT - exponent) as nat) as int) == 0 {
        Some(significand / (pow2((UNIT_EXPONENT - exponent) as nat) as int))
    } else {
        None
    }
}

/// The number that a pattern stands for, in half units, where that is a whole number.
pub open spec fn halves_of(bits: u32) -> Option<int> {
    match magnitude_of(bits) {
        Some(magnitude) => Some(
            if sign_field(bits) == 1 {
                -magnitude
            } else {
                magnitude
            },
        ),
        None => None,
    }
}

/// The number that a pattern stands for, where it is a whole number of half units in
/// range.
pub open spec fn value_of(bits: u32) -> Option<i32> {
    match halves_of(bits) {
        Some(halves) => if representable(halves) {
            Some(halves as i32)
        } else {
            None
        },
        None => None,
    }
}

/// How far a magnitude is below `2^23`, and 0 from there on.
pub open spec fn headroom(magnitude: int) -> nat {
    if magnitude < HIDDEN_BIT {
        (HIDDEN_BIT - magnitude) as nat
    } else {
        0
    }
}

/// How many times a magnitude below `2^23` is doubled until it reaches `2^23`.
pub open spec fn shift_of(magnitude: int) -> nat
    decreases headroom(magnitude),
{
    if magnitude <= 0 || magnitude >= HIDDEN_BIT {
        0
    } else {
        1 + shift_of(2 * magnitude)
    }
}

/// The pattern of `halves` half units: zero is the all-zero pattern; any other number has
/// its sign in the top bit, the exponent that normalising its magnitude leaves, and the
/// normalised magnitude without its leading bit as the fraction.
#[verifier::opaque]
pub open spec fn pattern_of(halves: int) -> u32 {
    if halves == 0 {
        0
    } else {
        let magnitude = if halves < 0 {
            -halves
        } else {
            halves
        };
        let shift = shift_of(magnitude);
        let sign = if halves < 0 {
            SIGN_BIT as int
        } else {
            0
        };
        (sign + (UNIT_EXPONENT - shift) * HIDDEN_BIT + (magnitude * pow2(shift) - HIDDEN_BIT)) as u32
    }
}

/// Normalising a positive magnitude below `2^24` takes at most 23 doublings and ends
/// between `2^23` and `2^24`.
pub proof fn lemma_shift_normalises(magnitude: int)
    requires
        0 < magnitude <= MAX_HALVES,
    ensures
        shift_of(magnitude) <= 23,
        HIDDEN_BIT <= magnitude * pow2(shift_of(magnitude)) <= MAX_HALVES,
        magnitude * pow2(shift_of(magnitude)) >= pow2(shift_of(magnitude)),
    decreases headroom(magnitude),
{
    lemma2_to64();
    if magnitude >= HIDDEN_BIT {
        assert(shift_of(magnitude) == 0);
        assert(magnitude * pow2(0) == magnitude);
    } else {
        lemma_shift_normalises(2 * magnitude);
        let inner = shift_of(2 * magnitude);
        assert(shift_of(magnitude) == inner + 1);
        lemma_pow2_unfold(inner + 1);
        let low = pow2(inner);
        let high = pow2(inner + 1);
        assert(magnitude * high == (2 * magnitude) * low) by (nonlinear_arith)
            requires
                high == 2 * low,
        ;
        assert(magnitude * high >= high) by (nonlinear_arith)
            requires
                magnitude >= 1,
                high >= 0,
        ;
        if inner == 23 {
            assert((2 * magnitude) * low >= 2 * low) by (nonlinear_arith)
                requires
                    magnitude >= 1,
                    low >= 0,
            ;
        }
    }
}

/// A pattern put together from a sign, a biased exponent and a fraction gives them back
/// as its three fields.
pub proof fn lemma_fields_of_parts(sign: int, exponent: int, fraction: int)
    requires
        0 <= sign <= 1,
        0 <= exponent <= 255,
        0 <= fraction < HIDDEN_BIT,
    ensures
        0 <= sign * SIGN_BIT + exponent * HIDDEN_BIT + fraction <= u32::MAX,
        sign_field((sign * SIGN_BIT + exponent * HIDDEN_BIT + fraction) as u32) == sign,
        exponent_field((sign * SIGN_BIT + exponent * HIDDEN_BIT + fraction) as u32) == exponent,
        fraction_field((sign * SIGN_BIT + exponent * HIDDEN_BIT + fraction) as u32) == fraction,
{
    let bits = sign * SIGN_BIT + exponent * HIDDEN_BIT + fraction;
    lemma_fundamental_div_mod_converse(bits, HIDDEN_BIT as int, sign * 256 + exponent, fraction);
    lemma_fundamental_div_mod_converse(sign * 256 + exponent, 256, sign, exponent);
    lemma_fundamental_div_mod_converse(
        bits,
        SIGN_BIT as int,
        sign,
        exponent * HIDDEN_BIT + fraction,
    );
}

/// Reading back the pattern of a number gives that number: for every `halves` in range,
/// `halves_of(pattern_of(halves))` is `halves`.
pub proof fn lemma_pattern_round_trip(halves: int)
    requires
        representable(halves),
    ensures
        halves_of(pattern_of(halves)) == Some(halves),
{
    reveal(pattern_of);
    reveal(magnitude_of);
    lemma2_to64();
    if halves == 0 {
        lemma_fields_of_parts(0, 0, 0);
    } else {
        let magnitude = if halves < 0 {
            -halves
        } else {
            halves
        };
        let sign: int = if halves < 0 {
            1
        } else {
            0
        };
        let shift = shift_of(magnitude);
        lemma_shift_normalises(magnitude);
        let significand = magnitude * pow2(shift);
        let exponent = UNIT_EXPONENT - shift;
        let fraction = significand - HIDDEN_BIT;
        lemma_fields_of_parts(sign, exponent, fraction);
        let bits = pattern_of(halves);
        assert(bits == (sign * SIGN_BIT + exponent * HIDDEN_BIT + fraction) as u32);
        assert(HIDDEN_BIT + fraction_field(bits) == significand);
        lemma_pow2_pos(shift);
        if shift == 0 {
            assert(pow2(shift) == 1);
            assert(significand == magnitude) by (nonlinear_arith)
                requires
                    significand == magnitude * pow2(shift),
                    pow2(shift) == 1,
            ;
            assert(significand * pow2(0) == significand) by (nonlinear_arith)
                requires
                    pow2(0) == 1,
            ;
        } else {
            assert(significand == pow2(shift) * magnitude) by (nonlinear_arith)
                requires
                    significand == magnitude * pow2(shift),
            ;
            lemma_mod_multiples_basic(magnitude, pow2(shift) as int);
            lemma_div_multiples_vanish(magnitude, pow2(shift) as int);
        }
        assert(magnitude_of(bits) == Some(magnitude));
    }
}

/// A magnitude that `shift` doublings bring between `2^23` and `2^24` is normalised by
/// exactly that many.
pub proof fn lemma_shift_of_scaled(magnitude: int, shift: nat)
    requires
        0 < magnitude,
        HIDDEN_BIT <= magnitude * pow2(shift) <= MAX_HALVES,
    ensures
        shift_of(magnitude) == shift,
    decreases shift,
{
    lemma2_to64();
    if shift == 0 {
        assert(magnitude * pow2(0) == magnitude);
    } else {
        lemma_pow2_unfold(shift);
        lemma_pow2_pos((shift - 1) as nat);
        let low = pow2((shift - 1) as nat);
        let high = pow2(shift);
        assert(magnitude * high == (2 * magnitude) * low && magnitude * high >= 2 * magnitude)
            by (nonlinear_arith)
            requires
                high == 2 * low,
                low >= 1,
                magnitude > 0,
        ;
        lemma_shift_of_scaled(2 * magnitude, (shift - 1) as nat);
    }
}

/// A number other than zero has one pattern only, and zero has two, one of each sign:
/// a pattern that reads as a number in range is the pattern of that number, or it is
/// negative zero.
pub proof fn lemma_value_has_one_pattern(bits: u32)
    requires
        value_of(bits) is Some,
    ensures
        bits == pattern_of(value_of(bits)->0 as int) || (bits == SIGN_BIT && value_of(bits)
            == Some(0i32)),
{
    reveal(pattern_of);
    reveal(magnitude_of);
    lemma2_to64();
    let sign = sign_field(bits);
    let exponent = exponent_field(bits);
    let fraction = fraction_field(bits);
    let significand: int = HIDDEN_BIT + fraction;
    let halves = halves_of(bits)->0;
    let magnitude = magnitude_of(bits)->0;
    assert(bits == sign * SIGN_BIT + exponent * HIDDEN_BIT + fraction && 0 <= sign <= 1) by {
        let upper = bits as int / HIDDEN_BIT as int;
        assert(upper / 256 == sign);
    }
    if exponent == 0 {
        assert(bits == 0 || bits == SIGN_BIT);
    } else if exponent >= UNIT_EXPONENT {
        let above = (exponent - UNIT_EXPONENT) as nat;
        if above > 0 {
            lemma_pow2_unfold(above);
            lemma_pow2_pos((above - 1) as nat);
            let factor = pow2(above);
            assert(significand * factor >= 2 * HIDDEN_BIT) by (nonlinear_arith)
                requires
                    significand >= HIDDEN_BIT,
                    factor >= 2,
            ;
        }
        assert(significand * pow2(0) == significand) by (nonlinear_arith)
            requires
                pow2(0) == 1,
        ;
        assert(magnitude == significand);
        assert(shift_of(magnitude) == 0);
        assert(magnitude * pow2(0) == magnitude) by (nonlinear_arith)
            requires
                pow2(0) == 1,
        ;
    } else {
        let below = (UNIT_EXPONENT - exponent) as nat;
        let divisor = pow2(below) as int;
        lemma_pow2_pos(below);
        vstd::arithmetic::div_mod::lemma_fundamental_div_mod(significand, divisor);
        assert(magnitude * divisor == significand) by (nonlinear_arith)
            requires
                significand == divisor * magnitude + 0,
        ;
        assert(magnitude > 0) by (nonlinear_arith)
            requires
                magnitude * divisor == significand,
                significand > 0,
                divisor > 0,
                magnitude >= 0,
        ;
        lemma_shift_of_scaled(magnitude, below);
    }
}

/// The pattern of a number in range is read back as that number.
pub proof fn lemma_word_round_trip(halves: i32)
    requires
        representable(halves as int),
    ensures
        value_of(pattern_of(halves as int)) == Some(halves),
{
    lemma_pattern_round_trip(halves as int);
}

/// The pattern of `halves` half units, or `None` where `halves` is out of range.
pub fn encode_halves(halves: i32) -> (bits: Option<u32>)
    ensures
        bits is Some <==> representable(halves as int),
        bits matches Some(pattern) ==> pattern == pattern_of(halves as int),
{
    proof {
        reveal(pattern_of);
    }
    if halves == 0 {
        return Some(0);
    }
    if halves < -MAX_HALVES || halves > MAX_HALVES {
        return None;
    }
    let negative = halves < 0;
    let magnitude: u32 = if negative {
        (-halves) as u32
    } else {
        halves as u32
    };
    let mut significand: u32 = magnitude;
    let mut exponent: u32 = UNIT_EXPONENT;
    proof {
        lemma2_to64();
        assert(magnitude * pow2(0) == magnitude);
    }
    while significand < HIDDEN_BIT
        invariant
            0 < magnitude <= MAX_HALVES,
            0 < significand <= MAX_HALVES,
            126 <= exponent <= UNIT_EXPONENT,
            significand == magnitude * pow2((UNIT_EXPONENT - exponent) as nat),
            significand >= pow2((UNIT_EXPONENT - exponent) as nat),
            shift_of(magnitude as int) == (UNIT_EXPONENT - exponent) + shift_of(significand as int),
        decreases headroom(significand as int),
    {
        proof {
            let done = (UNIT_EXPONENT - exponent) as nat;
            lemma2_to64();
            lemma_pow2_unfold(done + 1);
            let low = pow2(done);
            let high = pow2(done + 1);
            assert(magnitude * high == 2 * (magnitude * low)) by (nonlinear_arith)
                requires
                    high == 2 * low,
            ;
        }
        significand = significand * 2;
        exponent = exponent - 1;
    }
    let sign: u32 = if negative {
        SIGN_BIT
    } else {
        0
    };
    Some(sign + exponent * HIDDEN_BIT + (significand - HIDDEN_BIT))
}

/// The number that `bits` stands for, in half units, where that is a whole number in
/// range; `None` for every other pattern.
pub fn decode_halves(bits: u32) -> (halves: Option<i32>)
    ensures
        halves == value_of(bits),
{
    proof {
        reveal(magnitude_of);
    }
    let negative = bits / SIGN_BIT == 1;
    let exponent: u32 = (bits / HIDDEN_BIT) % 256;
    let fraction: u32 = bits % HIDDEN_BIT;
    if exponent == 0 {
        return if fraction == 0 {
            Some(0)
        } else {
            None
        };
    }
    if exponent == 255 {
        return None;
    }
    let significand: u32 = HIDDEN_BIT + fraction;
    if exponent > UNIT_EXPONENT {
        proof {
            let above = (exponent - UNIT_EXPONENT) as nat;
            lemma_pow2_unfold(above);
            lemma_pow2_pos((above - 1) as nat);
            let factor = pow2(above);
            assert(significand * factor >= 2 * HIDDEN_BIT) by (nonlinear_arith)
                requires
                    significand >= HIDDEN_BIT,
                    factor >= 2,
            ;
        }
        return None;
    }
    let below: u32 = UNIT_EXPONENT - exponent;
    if below > 23 {
        proof {
            lemma2_to64();
            if below > 24 {
                lemma_pow2_strictly_increases(24, below as nat);
            }
            lemma_small_mod(significand as nat, pow2(below as nat));
        }
        return None;
    }
    let mut divisor: u32 = 1;
    let mut doubled: u32 = 0;
    proof {
        lemma2_to64();
    }
    while doubled < below
        invariant
            doubled <= below <= 23,
            divisor == pow2(doubled as nat),
            divisor <= HIDDEN_BIT,
        decreases below - doubled,
    {
        proof {
            lemma2_to64();
            lemma_pow2_unfold((doubled + 1) as nat);
            if doubled + 1 < 23 {
                lemma_pow2_strictly_increases((doubled + 1) as nat, 23);
            }
        }
        divisor = divisor * 2;
        doubled = doubled + 1;
    }
    if significand % divisor != 0 {
        return None;
    }
    let magnitude: u32 = significand / divisor;
    proof {
        lemma2_to64();
        let width = (UNIT_EXPONENT - exponent_field(bits)) as nat;
        let whole: int = HIDDEN_BIT + fraction_field(bits);
        assert(width == doubled && whole == significand);
        if below == 0 {
            let factor = pow2((exponent_field(bits) - UNIT_EXPONENT) as nat);
            assert(whole * factor == whole) by (nonlinear_arith)
                requires
                    factor == 1,
            ;
        }
        assert(magnitude_of(bits) == Some(magnitude as int));
    }
    if negative {
        Some(-(magnitude as i32))
    } else {
        Some(magnitude as i32)
    }
}

} // verus!
