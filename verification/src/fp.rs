//! IEEE 754 single-precision values, held as their bit patterns.
//!
//! Coordinates travel through the library as `u32` bit patterns. This module
//! gives them their numeric meaning: a finite pattern with mantissa `m` and
//! biased exponent `E` stands for `m * 2^(E' - 150)` where `E'` is `E`
//! clamped to at least 1. On top of that it proves a renderer for the fixed
//! eight-fractional-digit numeral the code generator emits.
//!
//! The renderer rounds the scaled value to the nearest integer, ties to
//! even, and prints a negative sign exactly when the sign bit is set (so a
//! negative zero prints as "-0.00000000", a positive one as "0.00000000");
//! an infinity prints as "inf" or "-inf", a NaN as "NaN".

use vstd::prelude::*;
use vstd::arithmetic::power2::pow2;
use vstd::arithmetic::power2::lemma_pow2_pos;
use vstd::arithmetic::power2::lemma_pow2_unfold;
use vstd::arithmetic::power2::lemma_pow2_adds;
use vstd::arithmetic::power2::lemma_pow2_strictly_increases;
use vstd::arithmetic::power2::lemma2_to64;
use vstd::arithmetic::div_mod::lemma_basic_div;
use vstd::arithmetic::div_mod::lemma_div_multiples_vanish;
use vstd::arithmetic::div_mod::lemma_mod_multiples_basic;
use vstd::arithmetic::div_mod::lemma_fundamental_div_mod;
use vstd::arithmetic::div_mod::lemma_div_is_ordered;
use vstd::arithmetic::div_mod::lemma_div_is_ordered_by_denominator;
use vstd::arithmetic::div_mod::lemma_multiply_divide_lt;
use vstd::bits::low_bits_mask;
use vstd::bits::lemma_u64_shr_is_div;
use vstd::bits::lemma_u64_shl_is_mul;
use vstd::bits::lemma_u64_pow2_no_overflow;
use vstd::bits::lemma_u64_low_bits_mask_is_mod;

use crate::decimal::pow10;
use crate::decimal::digit_char;
use crate::decimal::dec_str;
use crate::decimal::digits_val;
use crate::decimal::lemma_pow10_pos;
use crate::decimal::u64_to_digits;
use crate::decimal::double_digits;
use crate::decimal::render_digits;
use crate::decimal::u64_to_dec_string;
use crate::decimal::digit_str;

verus! {

/// The sign bit of a single-precision pattern.
pub open spec fn f32_sign(b: u32) -> bool {
    b >> 31u32 == 1u32
}

/// The biased exponent field of a single-precision pattern.
pub open spec fn f32_biased_exp(b: u32) -> u32 {
    (b >> 23u32) & 0xffu32
}

/// The fraction field of a single-precision pattern.
pub open spec fn f32_frac(b: u32) -> u32 {
    b & 0x7fffffu32
}

pub open spec fn f32_is_nan(b: u32) -> bool {
    f32_biased_exp(b) == 255 && f32_frac(b) != 0
}

pub open spec fn f32_is_infinite(b: u32) -> bool {
    f32_biased_exp(b) == 255 && f32_frac(b) == 0
}

/// The integer significand: the fraction field, with the hidden bit added
/// for a normal pattern.
pub open spec fn f32_mantissa(b: u32) -> nat {
    if f32_biased_exp(b) == 0 {
        f32_frac(b) as nat
    } else {
        (f32_frac(b) + 0x800000) as nat
    }
}

/// The magnitude of a finite pattern is `f32_mantissa(b) / 2^f32_shift(b)`
/// when the biased exponent is below 150, and
/// `f32_mantissa(b) * 2^(E - 150)` otherwise.
pub open spec fn f32_shift(b: u32) -> nat {
    if f32_biased_exp(b) == 0 {
        149nat
    } else {
        (150 - f32_biased_exp(b)) as nat
    }
}

/// `a / b` rounded to the nearest integer, ties to even.
pub open spec fn round_half_even(a: nat, b: nat) -> nat
    recommends
        b > 0,
{
    let q = a / b;
    let r = a % b;
    if 2 * r > b || (2 * r == b && q % 2 == 1) {
        q + 1
    } else {
        q
    }
}

/// The magnitude of a finite pattern, scaled by `10^8` and rounded to the
/// nearest integer, ties to even.
pub open spec fn f32_scaled8(b: u32) -> nat {
    let m = f32_mantissa(b);
    if f32_biased_exp(b) >= 150 {
        m * pow2((f32_biased_exp(b) - 150) as nat) * pow10(8)
    } else {
        round_half_even(m * pow10(8), pow2(f32_shift(b)))
    }
}

/// Exactly eight fractional digits of `x < 10^8`, most significant first,
/// padded with leading zeros.
pub open spec fn frac8_str(x: nat) -> Seq<char> {
    Seq::new(8, |i: int| digit_char((x / pow10((7 - i) as nat)) % 10))
}

/// The numeral of a scaled magnitude: the integer part, a point, and eight
/// fractional digits.
pub open spec fn fixed8_chars(n: nat) -> Seq<char> {
    dec_str(n / pow10(8)) + seq!['.'] + frac8_str(n % pow10(8))
}

/// The full rendering of a single-precision pattern with eight fractional
/// digits.
pub open spec fn f32_fixed8(b: u32) -> Seq<char> {
    if f32_is_nan(b) {
        seq!['N', 'a', 'N']
    } else {
        let sign: Seq<char> = if f32_sign(b) { seq!['-'] } else { Seq::empty() };
        if f32_is_infinite(b) {
            sign + seq!['i', 'n', 'f']
        } else {
            sign + fixed8_chars(f32_scaled8(b))
        }
    }
}

proof fn lemma_pow10_values()
    ensures
        pow10(0) == 1,
        pow10(1) == 10,
        pow10(2) == 100,
        pow10(3) == 1000,
        pow10(4) == 10000,
        pow10(5) == 100000,
        pow10(6) == 1000000,
        pow10(7) == 10000000,
        pow10(8) == 100000000,
{
    crate::decimal::lemma_pow10_zero();
    crate::decimal::lemma_pow10_unfold(0);
    crate::decimal::lemma_pow10_unfold(1);
    crate::decimal::lemma_pow10_unfold(2);
    crate::decimal::lemma_pow10_unfold(3);
    crate::decimal::lemma_pow10_unfold(4);
    crate::decimal::lemma_pow10_unfold(5);
    crate::decimal::lemma_pow10_unfold(6);
    crate::decimal::lemma_pow10_unfold(7);
}

/// Eight fractional digits of `x`, with leading zeros.
fn render_frac8(x: u64) -> (r: String)
    requires
        x < 100000000,
    ensures
        r@ == frac8_str(x as nat),
{
    let mut s = String::new();
    let mut d: u64 = 10000000;
    let mut i: usize = 0;
    proof {
        lemma_pow10_values();
        assert(s@ =~= frac8_str(x as nat).take(0));
    }
    while i < 8
        invariant
            i <= 8,
            x < 100000000,
            d == pow10((7 - i) as nat) || (i == 8 && d == 0),
            i < 8 ==> d >= 1,
            s@ =~= frac8_str(x as nat).take(i as int),
        decreases 8 - i,
    {
        proof {
            lemma_pow10_values();
            lemma_pow10_pos((7 - i) as nat);
        }
        let digit = ((x / d) % 10) as u8;
        let c = digit_str(digit);
        s.append(c);
        proof {
            assert(frac8_str(x as nat)[i as int]
                == digit_char(((x as nat) / pow10((7 - i) as nat)) % 10));
            assert(s@ =~= frac8_str(x as nat).take(i + 1));
            if i < 7 {
                crate::decimal::lemma_pow10_unfold((6 - i) as nat);
            }
        }
        d = d / 10;
        i = i + 1;
    }
    proof {
        assert(frac8_str(x as nat).take(8) =~= frac8_str(x as nat));
    }
    s
}

/// `q` rounded by the dropped low `k` bits of `x`, ties to even.
fn round_half_even_u64(x: u64, k: u64) -> (r: u64)
    requires
        1 <= k < 64,
    ensures
        r == round_half_even(x as nat, pow2(k as nat)),
{
    let q = x >> k;
    proof {
        lemma_u64_shr_is_div(x, k);
        lemma_pow2_pos(k as nat);
        if k > 1 {
            lemma_pow2_strictly_increases(1, k as nat);
        }
        lemma2_to64();
        lemma_fundamental_div_mod(x as int, pow2(k as nat) as int);
        assert(2 * (x as nat / pow2(k as nat)) <= pow2(k as nat) * (x as nat / pow2(k as nat)))
            by (nonlinear_arith)
            requires
                pow2(k as nat) >= 2,
        ;
        assert(q < 0x8000000000000000);
    }
    let shl = 1u64 << k;
    proof {
        lemma2_to64();
        lemma_u64_pow2_no_overflow(k as nat);
        lemma_u64_pow2_no_overflow((k - 1) as nat);
        lemma_u64_shr_is_div(x, k);
        lemma_u64_shl_is_mul(1u64, k);
        lemma_u64_shl_is_mul(1u64, (k - 1) as u64);
        lemma_pow2_pos(k as nat);
        lemma_pow2_unfold(k as nat);
        assert(shl == pow2(k as nat));
    }
    let mask = shl - 1;
    let rem = x & mask;
    let half = 1u64 << (k - 1);
    proof {
        assert(mask == low_bits_mask(k as nat));
        lemma_u64_low_bits_mask_is_mod(x, k as nat);
        assert(q == x as nat / pow2(k as nat));
        assert(rem == x as nat % pow2(k as nat));
        assert(2 * half == pow2(k as nat));
        lemma_u64_low_bits_mask_is_mod(q, 1);
        assert(low_bits_mask(1) == 1);
        assert(q & 1 == q % 2);
    }
    if rem > half || (rem == half && q & 1 == 1) {
        q + 1
    } else {
        q
    }
}

/// Renders a single-precision bit pattern with exactly eight digits after
/// the decimal point, rounding the true binary value to the nearest
/// decimal, ties to even.
pub fn format_f32_bits(b: u32) -> (r: String)
    ensures
        r@ == f32_fixed8(b),
{
    let exp = (b >> 23) & 0xff;
    let frac = b & 0x7fffff;
    let neg = (b >> 31) == 1;
    proof {
        assert(exp == f32_biased_exp(b));
        assert(frac == f32_frac(b));
        assert(neg == f32_sign(b));
        assert(b & 0x7fffff < 0x800000) by (bit_vector);
    }
    if exp == 255 {
        if frac != 0 {
            let r = String::from_str("NaN");
            proof {
                reveal_strlit("NaN");
                assert(r@ =~= f32_fixed8(b));
            }
            return r;
        }
        let mut s = String::new();
        if neg {
            s.append("-");
        }
        s.append("inf");
        proof {
            reveal_strlit("-");
            reveal_strlit("inf");
            assert(s@ =~= f32_fixed8(b));
        }
        return s;
    }
    let m: u64 = if exp == 0 { frac as u64 } else { (frac + 0x800000) as u64 };
    proof {
        assert(m == f32_mantissa(b));
        assert(m < 0x1000000);
    }
    let (int_str, frac_str): (String, String) = if exp >= 150 {
        // The scaled value is m * 2^(exp-150) * 10^8: an integer, possibly
        // far beyond 64 bits, so it is carried as a decimal digit vector.
        let e = exp - 150;
        let mut ds = u64_to_digits(m);
        let mut j: u32 = 0;
        proof {
            lemma2_to64();
            assert(m >= 0x800000);
        }
        while j < e
            invariant
                j <= e,
                crate::decimal::digits_ok(ds@),
                ds@.len() > 0,
                ds@.last() != 0,
                digits_val(ds@) == m * pow2(j as nat),
            decreases e - j,
        {
            double_digits(&mut ds);
            proof {
                lemma_pow2_unfold((j + 1) as nat);
                assert(2 * (m * pow2(j as nat)) == m * (2 * pow2(j as nat)))
                    by (nonlinear_arith);
            }
            j = j + 1;
        }
        let int_str = render_digits(&ds);
        let frac_str = String::from_str("00000000");
        proof {
            let scaled = f32_scaled8(b);
            let whole = m * pow2((exp - 150) as nat);
            lemma_pow10_values();
            lemma_pow10_pos(8);
            assert(scaled == whole * pow10(8));
            lemma_div_multiples_vanish(whole as int, pow10(8) as int);
            assert((pow10(8) * whole) as int == (whole * pow10(8)) as int)
                by (nonlinear_arith);
            lemma_mod_multiples_basic(whole as int, pow10(8) as int);
            assert(scaled / pow10(8) == whole);
            assert(scaled % pow10(8) == 0);
            reveal_strlit("00000000");
            assert forall|i: int| 0 <= i < 8 implies frac8_str(0)[i] == '0' by {
                lemma_pow10_pos((7 - i) as nat);
                lemma_basic_div(0, pow10((7 - i) as nat) as int);
            }
            assert(frac_str@ =~= frac8_str(scaled % pow10(8)));
            assert(int_str@ == dec_str(scaled / pow10(8)));
        }
        (int_str, frac_str)
    } else {
        // The scaled value is (m * 10^8) / 2^k, rounded; it fits in a word.
        let k: u32 = if exp == 0 { 149 } else { 150 - exp };
        let x: u64 = m * 100000000;
        proof {
            lemma_pow10_values();
            assert(x == f32_mantissa(b) * pow10(8));
            assert(k == f32_shift(b));
            assert(x < 0x8000000000000);
        }
        let n: u64 = if k >= 52 {
            proof {
                lemma2_to64();
                vstd::arithmetic::power2::lemma2_to64_rest();
                if k > 52 {
                    lemma_pow2_strictly_increases(52, k as nat);
                }
                lemma_pow2_pos(k as nat);
                assert(pow2(k as nat) >= pow2(52));
                lemma_basic_div(x as int, pow2(k as nat) as int);
                vstd::arithmetic::div_mod::lemma_small_mod(x as nat, pow2(k as nat));
                assert(2 * (x as nat % pow2(k as nat)) < pow2(k as nat));
                assert(round_half_even(x as nat, pow2(k as nat)) == 0);
            }
            0
        } else {
            round_half_even_u64(x, k as u64)
        };
        proof {
            assert(n == f32_scaled8(b));
        }
        let int_part = n / 100000000;
        let frac_part = n % 100000000;
        proof {
            lemma_pow10_values();
        }
        let int_str = u64_to_dec_string(int_part);
        let frac_str = render_frac8(frac_part);
        (int_str, frac_str)
    };
    let mut s = String::new();
    if neg {
        s.append("-");
    }
    s.append(int_str.as_str());
    s.append(".");
    s.append(frac_str.as_str());
    proof {
        reveal_strlit("-");
        reveal_strlit(".");
        assert(s@ =~= f32_fixed8(b));
    }
    s
}

/// The sign bit of a double-precision pattern.
pub open spec fn f64_sign(b: u64) -> bool {
    b >> 63u64 == 1u64
}

/// The biased exponent field of a double-precision pattern.
pub open spec fn f64_biased_exp(b: u64) -> u64 {
    (b >> 52u64) & 0x7ffu64
}

/// The fraction field of a double-precision pattern.
pub open spec fn f64_frac(b: u64) -> u64 {
    b & 0xfffffffffffffu64
}

/// The integer significand of a finite double-precision pattern; its
/// magnitude is `f64_mantissa(b) * 2^(E' - 1075)` with `E'` the biased
/// exponent clamped to at least 1.
pub open spec fn f64_mantissa(b: u64) -> nat {
    if f64_biased_exp(b) == 0 {
        f64_frac(b) as nat
    } else {
        (f64_frac(b) + 0x10000000000000) as nat
    }
}

/// Single-precision infinity with the given sign.
pub open spec fn f32_bits_inf(sign: bool) -> u32 {
    if sign { 0xff800000u32 } else { 0x7f800000u32 }
}

/// The canonical quiet single-precision NaN with the given sign.
pub open spec fn f32_bits_nan(sign: bool) -> u32 {
    if sign { 0xffc00000u32 } else { 0x7fc00000u32 }
}

/// Conversion of a double-precision pattern to the nearest single-precision
/// pattern, ties to even; magnitudes at least `2^128 - 2^103` become
/// infinity, and a NaN becomes the canonical quiet NaN with the same sign.
///
/// A finite double is `m * 2^(E' - 1075)`; the target grid has quantum
/// `2^(q - 149)` with `q = max(E - 897, 0)`, so the grid significand is `m`
/// divided by `2^(q + 926 - E')`, rounded half to even.
pub open spec fn demote_spec(b: u64) -> u32 {
    let sign = f64_sign(b);
    let sign_bits: u32 = if sign { 0x80000000u32 } else { 0u32 };
    let ee = f64_biased_exp(b);
    if ee == 0x7ff {
        if f64_frac(b) == 0 { f32_bits_inf(sign) } else { f32_bits_nan(sign) }
    } else {
        let m = f64_mantissa(b);
        if ee >= 897 {
            let n = round_half_even(m, pow2(29));
            if n == pow2(24) {
                if ee - 895 > 254 {
                    f32_bits_inf(sign)
                } else {
                    sign_bits | (((ee - 895) as u32) << 23u32)
                }
            } else if ee - 896 > 254 {
                f32_bits_inf(sign)
            } else {
                sign_bits | (((ee - 896) as u32) << 23u32) | ((n - pow2(23)) as u32)
            }
        } else {
            let k = (926 - (if ee == 0 { 1int } else { ee as int })) as nat;
            let n = round_half_even(m, pow2(k));
            sign_bits | (n as u32)
        }
    }
}

/// Rounds a double-precision bit pattern to the nearest single-precision
/// pattern, ties to even.
pub fn demote_f64_bits(b: u64) -> (r: u32)
    ensures
        r == demote_spec(b),
{
    let sign = (b >> 63) == 1;
    let sign_bits: u32 = if sign { 0x80000000 } else { 0 };
    let ee = (b >> 52) & 0x7ff;
    let ff = b & 0xfffffffffffff;
    proof {
        assert(sign == f64_sign(b));
        assert(ee == f64_biased_exp(b));
        assert(ff == f64_frac(b));
        assert(b & 0xfffffffffffff < 0x10000000000000) by (bit_vector);
        assert((b >> 52) & 0x7ff < 0x800) by (bit_vector);
    }
    if ee == 0x7ff {
        if ff == 0 {
            if sign { 0xff800000 } else { 0x7f800000 }
        } else {
            if sign { 0xffc00000 } else { 0x7fc00000 }
        }
    } else {
        let m: u64 = if ee == 0 { ff } else { ff | 0x10000000000000 };
        proof {
            assert(ff | 0x10000000000000 == ff + 0x10000000000000) by (bit_vector)
                requires
                    ff < 0x10000000000000,
            ;
            assert(m == f64_mantissa(b));
            assert(m < 0x20000000000000);
        }
        if ee >= 897 {
            // The target grid is the normal single-precision one: drop 29
            // significand bits.
            let n = round_half_even_u64(m, 29);
            proof {
                lemma2_to64();
                vstd::arithmetic::power2::lemma2_to64_rest();
                lemma_pow2_adds(23, 29);
                lemma_pow2_adds(24, 29);
                assert(pow2(52) == pow2(29) * pow2(23) && pow2(53) == pow2(29) * pow2(24))
                    by (nonlinear_arith)
                    requires
                        pow2(52) == pow2(23) * pow2(29),
                        pow2(53) == pow2(24) * pow2(29),
                ;
                lemma_div_is_ordered(pow2(52) as int, m as int, pow2(29) as int);
                lemma_div_multiples_vanish(pow2(23) as int, pow2(29) as int);
                assert(m as nat / pow2(29) >= pow2(23));
                lemma_multiply_divide_lt(m as int, pow2(29) as int, pow2(24) as int);
                assert(m as nat / pow2(29) < pow2(24));
                assert(n >= 0x800000 && n <= 0x1000000);
            }
            if n == 0x1000000 {
                // Rounding carried into the next binade.
                let e32 = ee - 895;
                if e32 > 254 {
                    if sign { 0xff800000 } else { 0x7f800000 }
                } else {
                    sign_bits | ((e32 as u32) << 23)
                }
            } else {
                let e32 = ee - 896;
                if e32 > 254 {
                    if sign { 0xff800000 } else { 0x7f800000 }
                } else {
                    sign_bits | ((e32 as u32) << 23) | ((n - 0x800000) as u32)
                }
            }
        } else {
            // The target grid is the subnormal single-precision one, quantum
            // 2^-149.
            let k: u64 = 926 - (if ee == 0 { 1 } else { ee });
            let n: u64 = if k >= 54 {
                // The magnitude is below a quarter of the smallest positive
                // target value: it rounds to zero.
                proof {
                    lemma2_to64();
                    vstd::arithmetic::power2::lemma2_to64_rest();
                    if k > 54 {
                        lemma_pow2_strictly_increases(54, k as nat);
                    }
                    lemma_pow2_pos(k as nat);
                    lemma_basic_div(m as int, pow2(k as nat) as int);
                    vstd::arithmetic::div_mod::lemma_small_mod(m as nat, pow2(k as nat));
                    assert(2 * (m as nat % pow2(k as nat)) < pow2(k as nat));
                    assert(round_half_even(m as nat, pow2(k as nat)) == 0);
                }
                0
            } else {
                round_half_even_u64(m, k)
            };
            proof {
                lemma2_to64();
                vstd::arithmetic::power2::lemma2_to64_rest();
                lemma_pow2_pos(k as nat);
                if k < 54 {
                    if k > 30 {
                        lemma_pow2_strictly_increases(30, k as nat);
                    }
                    lemma_pow2_adds(23, 30);
                    lemma_multiply_divide_lt(m as int, pow2(30) as int, pow2(23) as int);
                    lemma_div_is_ordered_by_denominator(m as int, pow2(30) as int, pow2(k as nat) as int);
                    assert(m as nat / pow2(k as nat) <= m as nat / pow2(30));
                    assert(m as nat / pow2(30) < pow2(23));
                }
                assert(n <= 0x800000);
            }
            sign_bits | (n as u32)
        }
    }
}

} // verus!
