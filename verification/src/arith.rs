//! Integer division helpers shared by the compensation pipeline.
//!
//! The device's reference algorithm mixes two division flavours: arithmetic
//! right shifts (floor division by a power of two) and C `/` (truncating
//! division).  Both are provided here as verified functions whose contracts
//! speak the language of Verus's mathematical (Euclidean) `/`.

use vstd::arithmetic::div_mod::lemma_div_nonincreasing;
use vstd::arithmetic::div_mod::lemma_div_pos_is_pos;
use vstd::arithmetic::div_mod::lemma_fundamental_div_mod;
use vstd::arithmetic::div_mod::lemma_fundamental_div_mod_converse_div;
use vstd::arithmetic::div_mod::lemma_mod_division_less_than_divisor;
use vstd::prelude::*;

verus! {

/// Truncating division (the semantics of Rust's and C's `/` operator, used by
/// the device's reference algorithm): the quotient is rounded toward zero.
/// Division by zero is defined here as zero so that the model stays total.
pub open spec fn tdiv(a: int, b: int) -> int {
    if b == 0 {
        0
    } else {
        let an = if a < 0 {
            -a
        } else {
            a
        };
        let bn = if b < 0 {
            -b
        } else {
            b
        };
        let q = an / bn;
        if (a < 0) == (b < 0) {
            q
        } else {
            -q
        }
    }
}

/// Floor division by a positive divisor, the meaning of an arithmetic right
/// shift by a power of two.  The extra `ensures` clauses restate the
/// Euclidean decomposition so that callers can bound the quotient by plain
/// linear arithmetic when `d` is a literal.
pub fn fdiv_i64(a: i64, d: i64) -> (r: i64)
    requires
        1 <= d <= 0x1_0000_0000,
        -0x4000_0000_0000_0000 <= a <= 0x4000_0000_0000_0000,
    ensures
        r == a as int / d as int,
        d * r <= a < d * r + d,
{
    proof {
        lemma_fundamental_div_mod(a as int, d as int);
        lemma_mod_division_less_than_divisor(a as int, d as int);
    }
    if a >= 0 {
        a / d
    } else {
        let t = (-a + d - 1) / d;
        proof {
            let ai = a as int;
            let di = d as int;
            let q = ai / di;
            let m = ai % di;
            assert(di * (-q) == -(di * q)) by (nonlinear_arith);
            lemma_fundamental_div_mod_converse_div(-ai + di - 1, di, -q, di - 1 - m);
        }
        -t
    }
}

/// Truncating division on machine integers: returns `tdiv(a, b)`, rounding
/// toward zero as C does, with a zero divisor yielding zero.  The quotient
/// never exceeds the dividend in magnitude.
pub fn tdiv_i64(a: i64, b: i64) -> (r: i64)
    requires
        a != i64::MIN,
        b != i64::MIN,
    ensures
        r == tdiv(a as int, b as int),
        a >= 0 ==> -a <= r <= a,
        a < 0 ==> a <= r <= -a,
        a >= 0 && b > 0 ==> b * r <= a < b * r + b,
{
    if b == 0 {
        0
    } else {
        let an: i64 = if a < 0 {
            -a
        } else {
            a
        };
        let bn: i64 = if b < 0 {
            -b
        } else {
            b
        };
        let q: i64 = an / bn;
        proof {
            lemma_div_pos_is_pos(an as int, bn as int);
            lemma_div_nonincreasing(an as int, bn as int);
            lemma_fundamental_div_mod(an as int, bn as int);
            lemma_mod_division_less_than_divisor(an as int, bn as int);
        }
        if (a < 0) == (b < 0) {
            q
        } else {
            -q
        }
    }
}

} // verus!
