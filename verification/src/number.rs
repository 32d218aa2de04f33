//! Classification of wire numbers.
//!
//! A JSON number arrives as a sign, a decimal mantissa and a decimal
//! exponent, meaning `±mantissa · 10^exponent`. The fixed, deterministic
//! rule of this server: a number whose value is whole and fits a 64-bit
//! signed integer becomes an integer `Value`, every other number becomes a
//! float `Value`. The rule is decided here in exact integer arithmetic, so
//! a whole number near the 64-bit boundary (beyond the 53-bit range that a
//! float can hold exactly) is never pushed through a float on the way in.
//! A number that stays a float keeps its decimal parts unchanged.

use vstd::prelude::*;
use vstd::arithmetic::div_mod::*;
use vstd::arithmetic::mul::*;
use crate::value::Value;

verus! {

/// Ten to the power `e`.
pub open spec fn pow10(e: nat) -> int
    decreases e,
{
    if e == 0 {
        1
    } else {
        10 * pow10((e - 1) as nat)
    }
}

pub proof fn lemma_pow10_pos(e: nat)
    ensures
        pow10(e) >= 1,
    decreases e,
{
    if e > 0 {
        lemma_pow10_pos((e - 1) as nat);
    }
}

pub proof fn lemma_pow10_increases(a: nat, b: nat)
    requires
        a <= b,
    ensures
        pow10(a) <= pow10(b),
    decreases b,
{
    if a < b {
        lemma_pow10_increases(a, (b - 1) as nat);
        lemma_pow10_pos((b - 1) as nat);
    }
}

/// Whether `mantissa · 10^exponent` is a whole number.
pub open spec fn num_is_whole(mantissa: u64, exponent: int) -> bool {
    exponent >= 0 || (mantissa as int) % pow10((-exponent) as nat) == 0
}

/// The magnitude `mantissa · 10^exponent` as an integer, exact whenever the
/// number is whole.
pub open spec fn num_magnitude(mantissa: u64, exponent: int) -> int {
    if exponent >= 0 {
        (mantissa as int) * pow10(exponent as nat)
    } else {
        (mantissa as int) / pow10((-exponent) as nat)
    }
}

/// Whether the signed value fits a 64-bit signed integer.
pub open spec fn num_fits_i64(positive: bool, mantissa: u64, exponent: int) -> bool {
    if positive {
        num_magnitude(mantissa, exponent) <= i64::MAX as int
    } else {
        num_magnitude(mantissa, exponent) <= 0x8000_0000_0000_0000
    }
}

/// The value a wire number becomes: an integer exactly when it is whole and
/// in the signed 64-bit range, a float otherwise.
pub open spec fn number_value(positive: bool, mantissa: u64, exponent: i16) -> Value {
    if num_is_whole(mantissa, exponent as int) && num_fits_i64(positive, mantissa, exponent as int) {
        Value::Int(
            (if positive {
                num_magnitude(mantissa, exponent as int)
            } else {
                -num_magnitude(mantissa, exponent as int)
            }) as i64,
        )
    } else {
        Value::Float(positive, mantissa, exponent)
    }
}

/// Ten to the power `e` as a 64-bit machine integer.
fn pow10_u64(e: u32) -> (r: u64)
    requires
        e <= 19,
    ensures
        r as int == pow10(e as nat),
{
    let mut p: u64 = 1;
    let mut i: u32 = 0;
    while i < e
        invariant
            i <= e <= 19,
            p as int == pow10(i as nat),
        decreases e - i,
    {
        proof {
            reveal_with_fuel(pow10, 19);
            lemma_pow10_increases(i as nat, 18);
        }
        p = p * 10;
        i = i + 1;
    }
    p
}

/// Attaches the sign to a magnitude, if the signed value fits.
fn signed_of_magnitude(positive: bool, mag: u64) -> (r: Option<i64>)
    ensures
        positive && mag <= i64::MAX as u64 ==> (r matches Some(x) && x as int == mag as int),
        positive && mag > i64::MAX as u64 ==> r is None,
        !positive && mag <= 0x8000_0000_0000_0000u64 ==> (r matches Some(x) && x as int == -(mag as int)),
        !positive && mag > 0x8000_0000_0000_0000u64 ==> r is None,
{
    if positive {
        if mag <= i64::MAX as u64 {
            Some(mag as i64)
        } else {
            None
        }
    } else {
        if mag < 0x8000_0000_0000_0000u64 {
            Some(-(mag as i64))
        } else if mag == 0x8000_0000_0000_0000u64 {
            Some(i64::MIN)
        } else {
            None
        }
    }
}

/// Classifies one wire number: whole and within the 64-bit signed range
/// becomes an integer, everything else a float. Decided exactly, whatever
/// the mantissa and exponent.
pub fn number_to_value(positive: bool, mantissa: u64, exponent: i16) -> (r: Value)
    ensures
        r == number_value(positive, mantissa, exponent),
{
    if exponent >= 0 {
        let e: u32 = exponent as u32;
        if mantissa == 0 {
            proof {
                lemma_mul_basics(pow10(e as nat));
            }
            return Value::Int(0);
        }
        if e > 19 {
            proof {
                reveal_with_fuel(pow10, 21);
                lemma_pow10_increases(20, e as nat);
                lemma_mul_inequality(1, mantissa as int, pow10(e as nat));
                lemma_mul_basics(pow10(e as nat));
            }
            return Value::Float(positive, mantissa, exponent);
        }
        let p = pow10_u64(e);
        proof {
            lemma_pow10_pos(e as nat);
        }
        if mantissa > u64::MAX / p {
            proof {
                lemma_fundamental_div_mod(u64::MAX as int, p as int);
                lemma_mod_bound(u64::MAX as int, p as int);
                lemma_mul_inequality((u64::MAX / p) as int + 1, mantissa as int, p as int);
                lemma_mul_is_distributive_add_other_way(p as int, (u64::MAX / p) as int, 1);
                lemma_mul_is_commutative((u64::MAX / p) as int, p as int);
            }
            return Value::Float(positive, mantissa, exponent);
        }
        proof {
            lemma_fundamental_div_mod(u64::MAX as int, p as int);
            lemma_mod_bound(u64::MAX as int, p as int);
            lemma_mul_inequality(mantissa as int, (u64::MAX / p) as int, p as int);
            lemma_mul_is_commutative((u64::MAX / p) as int, p as int);
        }
        let mag = mantissa * p;
        match signed_of_magnitude(positive, mag) {
            Some(x) => Value::Int(x),
            None => Value::Float(positive, mantissa, exponent),
        }
    } else {
        let k: u32 = (-(exponent as i32)) as u32;
        if k > 19 {
            if mantissa == 0 {
                proof {
                    lemma_pow10_pos(k as nat);
                    lemma_mod_multiples_basic(0, pow10(k as nat));
                }
                return Value::Int(0);
            }
            proof {
                reveal_with_fuel(pow10, 21);
                lemma_pow10_increases(20, k as nat);
                lemma_small_mod(mantissa as nat, pow10(k as nat) as nat);
            }
            return Value::Float(positive, mantissa, exponent);
        }
        let d = pow10_u64(k);
        proof {
            lemma_pow10_pos(k as nat);
        }
        if mantissa % d != 0 {
            return Value::Float(positive, mantissa, exponent);
        }
        let mag = mantissa / d;
        match signed_of_magnitude(positive, mag) {
            Some(x) => Value::Int(x),
            None => Value::Float(positive, mantissa, exponent),
        }
    }
}

} // verus!
