//! Integer arithmetic of the machine: 32-bit wraparound, the unsigned reading
//! of a register, and division truncated toward zero.

use vstd::prelude::*;
use vstd::arithmetic::div_mod::{lemma_fundamental_div_mod, lemma_mod_bound};

verus! {

/// The signed 32-bit integer that is congruent to `x` modulo 2^32: what a
/// 32-bit two's-complement register holds after `x` is stored in it.
pub open spec fn wrap_i32(x: int) -> i32 {
    let low = x % 0x1_0000_0000;
    if low >= 0x8000_0000 {
        (low - 0x1_0000_0000) as i32
    } else {
        low as i32
    }
}

/// The unsigned 32-bit integer that is congruent to `x` modulo 2^32: the same
/// 32 bits as `wrap_i32(x)`, read without a sign.
pub open spec fn unsigned32(x: int) -> u32 {
    (x % 0x1_0000_0000) as u32
}

/// The absolute value of an integer.
pub open spec fn magnitude(x: int) -> int {
    if x < 0 {
        -x
    } else {
        x
    }
}

/// The quotient of `n` by `d`, truncated toward zero: the quotient of the
/// magnitudes, negative where exactly one of `n` and `d` is.
pub open spec fn trunc_div(n: int, d: int) -> int
    recommends
        d != 0,
{
    let quotient = magnitude(n) / magnitude(d);
    if (n >= 0) == (d > 0) {
        quotient
    } else {
        -quotient
    }
}

/// What truncated division of `n` by `d` leaves: the remainder of the
/// magnitudes, with the sign of `n`.
pub open spec fn trunc_rem(n: int, d: int) -> int
    recommends
        d != 0,
{
    let remainder = magnitude(n) % magnitude(d);
    if n >= 0 {
        remainder
    } else {
        -remainder
    }
}

/// A wrapped value differs from the exact one by a multiple of 2^32.
pub proof fn lemma_wrap_congruent(x: int)
    ensures
        (x - wrap_i32(x)) % 0x1_0000_0000 == 0,
        (x - unsigned32(x)) % 0x1_0000_0000 == 0,
        unsigned32(x) == unsigned32(wrap_i32(x) as int),
{
    lemma_fundamental_div_mod(x, 0x1_0000_0000);
    lemma_mod_bound(x, 0x1_0000_0000);
}

/// The unsigned reading of a register: the value itself where it is not
/// negative, and 2^32 more where it is.
pub proof fn lemma_unsigned_of_register(value: i32)
    ensures
        value >= 0 ==> unsigned32(value as int) == value,
        value < 0 ==> unsigned32(value as int) == value + 0x1_0000_0000,
{
}

/// Wrapped addition is the addition that the hardware performs.
pub proof fn lemma_wrap_add(a: i32, b: i32)
    ensures
        wrap_i32(a + b) == vstd::wrapping::i32_specs::wrapping_add(a, b),
{
}

/// Wrapped multiplication is the multiplication that the hardware performs.
pub proof fn lemma_wrap_mul(a: i32, b: i32)
    ensures
        wrap_i32(a * b) == vstd::wrapping::i32_specs::wrapping_mul(a, b),
{
}

/// Truncated division splits the dividend exactly; the remainder is smaller
/// than the divisor in magnitude and never has the sign opposite to the
/// dividend's; the quotient is the largest in magnitude whose product with the
/// divisor does not pass the dividend, and has the sign that the signs of
/// dividend and divisor give it.
pub proof fn lemma_trunc_division(n: int, d: int)
    requires
        d != 0,
    ensures
        n == trunc_div(n, d) * d + trunc_rem(n, d),
        magnitude(trunc_rem(n, d)) < magnitude(d),
        n >= 0 ==> trunc_rem(n, d) >= 0,
        n <= 0 ==> trunc_rem(n, d) <= 0,
        magnitude(trunc_div(n, d)) == magnitude(n) / magnitude(d),
        magnitude(trunc_rem(n, d)) == magnitude(n) % magnitude(d),
        magnitude(trunc_div(n, d)) * magnitude(d) <= magnitude(n),
        magnitude(n) < (magnitude(trunc_div(n, d)) + 1) * magnitude(d),
        magnitude(trunc_div(n, d)) <= magnitude(n),
        (n >= 0) == (d > 0) ==> trunc_div(n, d) >= 0,
        (n >= 0) != (d > 0) ==> trunc_div(n, d) <= 0,
{
    let a = magnitude(n);
    let b = magnitude(d);
    let q = a / b;
    let r = a % b;
    lemma_fundamental_div_mod(a, b);
    lemma_mod_bound(a, b);
    assert(0 <= q <= a && q * b == b * q && a < (q + 1) * b) by (nonlinear_arith)
        requires
            a == b * q + r,
            0 <= r < b,
            0 <= a,
    ;
    assert((-q) * d == -(q * d) && q * (-d) == -(q * d) && (-q) * (-d) == q * d)
        by (nonlinear_arith);
}

/// Quotient and remainder of two register values are stored without loss,
/// but for the quotient of the least integer by -1.
pub proof fn lemma_division_fits(n: i32, d: i32)
    requires
        d != 0,
    ensures
        i32::MIN < trunc_rem(n as int, d as int) <= i32::MAX,
        wrap_i32(unsigned32(trunc_rem(n as int, d as int)) as int) == trunc_rem(n as int, d as int),
        i32::MIN <= trunc_div(n as int, d as int) <= i32::MAX + 1,
        trunc_div(n as int, d as int) == i32::MAX + 1 <==> n == i32::MIN && d == -1,
        !(n == i32::MIN && d == -1) ==> wrap_i32(trunc_div(n as int, d as int)) == trunc_div(
            n as int,
            d as int,
        ),
{
    lemma_trunc_division(n as int, d as int);
    let q = magnitude(trunc_div(n as int, d as int));
    let b = magnitude(d as int);
    if q == 0x8000_0000 {
        assert(b == 1) by (nonlinear_arith)
            requires
                q * b <= 0x8000_0000,
                q == 0x8000_0000,
                b >= 1,
        ;
    }
}

/// The unsigned 32-bit reading of a register.
pub fn unsigned_value(value: i32) -> (bits: u32)
    ensures
        bits == unsigned32(value as int),
{
    if value >= 0 {
        value as u32
    } else {
        (value as i64 + 0x1_0000_0000i64) as u32
    }
}

/// Divides `n` by `d`, truncating toward zero. Returns the quotient as a
/// register holds it and the remainder as the remainder register holds it, or
/// `None` when `d` is zero.
pub fn checked_divide(n: i32, d: i32) -> (result: Option<(i32, u32)>)
    ensures
        d == 0 <==> result is None,
        d != 0 ==> result == Some(
            (wrap_i32(trunc_div(n as int, d as int)), unsigned32(trunc_rem(n as int, d as int))),
        ),
{
    if d == 0 {
        return None;
    }
    proof {
        lemma_division_fits(n, d);
        assert((n as int) * -1 == -(n as int) && (d as int) * -1 == -(d as int));
        assert(0int / magnitude(d as int) == 0 && 0int % magnitude(d as int) == 0);
    }
    // Only the least integer divided by -1 has no exact quotient in 32 bits:
    // the quotient 2^31 wraps to the least integer, and nothing is left.
    let quotient = match n.checked_div(d) {
        Some(exact) => exact,
        None => i32::MIN,
    };
    let remainder = match n.checked_rem(d) {
        Some(exact) => exact,
        None => 0i32,
    };
    assert(quotient == wrap_i32(trunc_div(n as int, d as int)));
    assert(remainder == trunc_rem(n as int, d as int));
    Some((quotient, unsigned_value(remainder)))
}

} // verus!
