//! Decimal scaling and the constant-product pricing engine.
//!
//! `decimals` brings a raw reserve amount into a common fixed-point basis;
//! `calc_dy` prices a swap against the scaled reserves. Both are pure: all
//! arithmetic is checked, and overflow is reported, never wrapped.

use vstd::prelude::*;
use vstd::arithmetic::div_mod::{
    lemma_div_is_ordered, lemma_div_is_ordered_by_denominator, lemma_div_multiples_vanish,
    lemma_div_non_zero, lemma_fundamental_div_mod,
    lemma_mod_division_less_than_divisor,
};
use vstd::arithmetic::mul::{
    lemma_mul_inequality, lemma_mul_is_commutative, lemma_mul_strictly_positive,
};
use crate::errors::AmmError;

verus! {

/// `10^d` as a mathematical integer.
pub open spec fn pow10(d: nat) -> nat
    decreases d,
{
    if d == 0 {
        1
    } else {
        10 * pow10((d - 1) as nat)
    }
}

/// A raw amount brought to the common fixed-point basis: `v * 10^d`.
pub open spec fn scaled(v: u128, d: u8) -> int {
    v * pow10(d as nat)
}

/// A raw amount shifted down to whole token units: `v / 10^d`.
pub open spec fn whole_units(v: u128, d: u8) -> int {
    (v as int) / (pow10(d as nat) as int)
}

/// The constant-product output amount: `dy = y - x*y/(x + dx)`,
/// with integer (floor) division.
pub open spec fn dy_int(x: int, y: int, dx: int) -> int {
    y - (x * y) / (x + dx)
}

/// Exactly what `calc_dy` returns, error precedence included.
pub open spec fn quote(x: u128, y: u128, dx: u128) -> Result<u128, AmmError> {
    if dx == 0 {
        Err(AmmError::ZeroAmount)
    } else if x == 0 || y == 0 {
        Err(AmmError::DivisionByZero)
    } else if x + dx > u128::MAX {
        Err(AmmError::Overflow)
    } else if x * y > u128::MAX {
        Err(AmmError::Overflow)
    } else {
        Ok(dy_int(x as int, y as int, dx as int) as u128)
    }
}

pub proof fn lemma_pow10_pos(d: nat)
    ensures
        pow10(d) >= 1,
    decreases d,
{
    if d > 0 {
        lemma_pow10_pos((d - 1) as nat);
    }
}

pub proof fn lemma_pow10_mono(a: nat, b: nat)
    requires
        a <= b,
    ensures
        pow10(a) <= pow10(b),
    decreases b,
{
    if a < b {
        lemma_pow10_mono(a, (b - 1) as nat);
        lemma_pow10_pos((b - 1) as nat);
    }
}

/// `10^d`, or `None` where that exceeds the representable range.
pub fn pow10_checked(d: u8) -> (r: Option<u128>)
    ensures
        r matches Some(p) ==> p == pow10(d as nat),
        r is None <==> pow10(d as nat) > u128::MAX,
{
    let mut acc: u128 = 1;
    let mut i: u8 = 0;
    while i < d
        invariant
            i <= d,
            acc == pow10(i as nat),
        decreases d - i,
    {
        match acc.checked_mul(10) {
            Some(next) => {
                acc = next;
                i = i + 1;
            },
            None => {
                proof {
                    assert(pow10((i + 1) as nat) == 10 * pow10(i as nat));
                    lemma_pow10_mono((i + 1) as nat, d as nat);
                }
                return None;
            },
        }
    }
    Some(acc)
}

/// Scales a raw integer amount by the declared number of decimal places,
/// reporting overflow instead of wrapping.
pub fn decimals(value: u128, dec: u8) -> (r: Result<u128, AmmError>)
    ensures
        r matches Ok(v) ==> v == scaled(value, dec),
        r is Ok <==> scaled(value, dec) <= u128::MAX,
        r is Err ==> r == Err::<u128, AmmError>(AmmError::Overflow),
{
    if value == 0 {
        return Ok(0);
    }
    match pow10_checked(dec) {
        Some(p) => match value.checked_mul(p) {
            Some(v) => Ok(v),
            None => Err(AmmError::Overflow),
        },
        None => {
            proof {
                lemma_mul_inequality(1, value as int, pow10(dec as nat) as int);
            }
            Err(AmmError::Overflow)
        },
    }
}

/// The pricing engine: how much `dy` of the output-side token leaves the
/// pool for `dx` of the input-side token, both on the scaled basis.
///
/// Rejects a zero input, a zero reserve on either side, and any
/// intermediate value that exceeds the representable range.
pub fn calc_dy(x: u128, y: u128, dx: u128) -> (r: Result<u128, AmmError>)
    ensures
        r == quote(x, y, dx),
        r matches Ok(dy) ==> dy == dy_int(x as int, y as int, dx as int) && dy <= y,
        r matches Ok(dy) ==> (x + dx) * (y - dy) <= x * y,
{
    if dx == 0 {
        return Err(AmmError::ZeroAmount);
    }
    if x == 0 || y == 0 {
        return Err(AmmError::DivisionByZero);
    }
    let s = match x.checked_add(dx) {
        Some(s) => s,
        None => {
            return Err(AmmError::Overflow);
        },
    };
    let p = match x.checked_mul(y) {
        Some(p) => p,
        None => {
            return Err(AmmError::Overflow);
        },
    };
    let q = p / s;
    proof {
        lemma_mul_inequality(x as int, s as int, y as int);
        lemma_div_is_ordered(p as int, (s as int) * (y as int), s as int);
        lemma_div_multiples_vanish(y as int, s as int);
        lemma_fundamental_div_mod(p as int, s as int);
        lemma_mod_division_less_than_divisor(p as int, s as int);
        assert((s as int) * (q as int) <= p);
    }
    Ok(y - q)
}

/// The output amount is bounded: for positive reserves and a positive
/// input whose product clears the denominator, `0 <= dy < y`, and the
/// reserve product never increases across the swap:
/// `(x + dx) * (y - dy) <= x * y`.
///
/// (Where `x * y < x + dx`, the subtracted quotient floors to zero and
/// `dy` equals `y`; such inputs are left out.)
pub proof fn lemma_quote_bounds(x: int, y: int, dx: int)
    requires
        x > 0,
        y > 0,
        dx > 0,
        x * y >= x + dx,
    ensures
        0 <= dy_int(x, y, dx) < y,
        (x + dx) * (y - dy_int(x, y, dx)) <= x * y,
{
    let s = x + dx;
    let p = x * y;
    let q = p / s;
    lemma_div_non_zero(p, s);
    lemma_mul_inequality(x, s, y);
    lemma_div_is_ordered(p, s * y, s);
    lemma_div_multiples_vanish(y, s);
    assert(1 <= q <= y);
    lemma_fundamental_div_mod(p, s);
    lemma_mod_division_less_than_divisor(p, s);
    assert(s * q == p - (p % s));
    assert((x + dx) * (y - dy_int(x, y, dx)) == s * q);
}

/// The quote is monotonic in the input amount: increasing `dx` never
/// decreases `dy`.
pub proof fn lemma_quote_monotonic(x: int, y: int, dx1: int, dx2: int)
    requires
        x > 0,
        y > 0,
        0 < dx1 <= dx2,
    ensures
        dy_int(x, y, dx1) <= dy_int(x, y, dx2),
{
    lemma_mul_strictly_positive(x, y);
    lemma_div_is_ordered_by_denominator(x * y, x + dx1, x + dx2);
}

/// Round trip: swapping `dx` of the input token and then immediately
/// swapping the resulting `dy` back yields at most `dx`.
///
/// (Where `x + dx` does not divide `x * y`, the first swap's floor
/// rounding moves the price in the trader's favor and the round trip can
/// exceed `dx`; such inputs are left out.)
pub proof fn lemma_quote_round_trip(x: int, y: int, dx: int)
    requires
        x > 0,
        y > 0,
        dx > 0,
        (x * y) % (x + dx) == 0,
    ensures
        ({
            let dy = dy_int(x, y, dx);
            dy_int(y - dy, x + dx, dy) <= dx
        }),
{
    let s = x + dx;
    let p = x * y;
    let q = p / s;
    let dy = dy_int(x, y, dx);
    lemma_fundamental_div_mod(p, s);
    assert(s * q == p);
    assert(y - dy == q);
    assert(q + dy == y);
    assert(dy_int(y - dy, x + dx, dy) == s - (q * s) / y);
    lemma_mul_is_commutative(q, s);
    assert(q * s == x * y);
    lemma_div_multiples_vanish(x, y);
    assert((y * x) / y == x);
    lemma_mul_is_commutative(x, y);
    assert((q * s) / y == x);
}

} // verus!
