//! The manufacturer's fixed-point compensation algorithm.
//!
//! Raw conversion counts become physical units only through this arithmetic,
//! which must be transcribed term for term from the device's documentation:
//! its accuracy claims assume this exact integer path.  Arithmetic right
//! shifts in the reference algorithm are floor divisions by powers of two
//! (`/` on `int` here), and C's `/` is truncating division (`tdiv` here).
//!
//! The functions are total over their stated input ranges and are defined for
//! every calibration value: a zero divisor (possible only for degenerate
//! coefficients that no working sensor produces) yields a zero quotient, and
//! a pressure quotient outside the guard range, likewise impossible for
//! genuine data, yields a zero pressure.

use crate::arith::fdiv_i64;
use crate::arith::tdiv;
use crate::arith::tdiv_i64;
use crate::calibration::CalibrationData;
use crate::oversampling::Oversampling;
use vstd::prelude::*;

verus! {

/// Lower bound on the intermediate `B5` that temperature compensation of a
/// 16-bit raw count can produce, whatever the coefficients.
pub const B5_MIN: i32 = -67239933;

/// Upper bound on the intermediate `B5` that temperature compensation of a
/// 16-bit raw count can produce, whatever the coefficients.
pub const B5_MAX: i32 = 67239932;

/// Pressure quotients beyond this magnitude (far outside the device's
/// physical range) arise only from degenerate coefficients and are reported
/// as zero pressure.
pub const PRESSURE_GUARD: i32 = 0x200_0000;

/// Datasheet step `X1 = (UT - AC6) * AC5 / 2^15`.
pub open spec fn spec_tx1(ut: int, c: CalibrationData) -> int {
    ((ut - c.ac6) * c.ac5) / 32768
}

/// Datasheet step `X2 = MC * 2^11 / (X1 + MD)`, a truncating C division.
pub open spec fn spec_tx2(ut: int, c: CalibrationData) -> int {
    tdiv(c.mc * 2048, spec_tx1(ut, c) + c.md)
}

/// Datasheet step `B5 = X1 + X2`, the byproduct that links temperature and
/// pressure compensation.
pub open spec fn spec_b5(ut: int, c: CalibrationData) -> int {
    spec_tx1(ut, c) + spec_tx2(ut, c)
}

/// Datasheet step `T = (B5 + 8) / 2^4`, in tenths of a degree Celsius.
pub open spec fn temperature_from_b5(b5: int) -> int {
    (b5 + 8) / 16
}

/// True temperature in tenths of a degree Celsius for a raw temperature
/// count and a calibration block.
pub open spec fn spec_temperature(ut: int, c: CalibrationData) -> int {
    temperature_from_b5(spec_b5(ut, c))
}

/// Datasheet step `B6 = B5 - 4000`.
pub open spec fn spec_b6(b5: int) -> int {
    b5 - 4000
}

/// Datasheet step `X1 = (B2 * (B6 * B6 / 2^12)) / 2^11`.
pub open spec fn spec_px1(b5: int, c: CalibrationData) -> int {
    (c.b2 * ((spec_b6(b5) * spec_b6(b5)) / 4096)) / 2048
}

/// Datasheet step `X2 = AC2 * B6 / 2^11`.
pub open spec fn spec_px2(b5: int, c: CalibrationData) -> int {
    (c.ac2 * spec_b6(b5)) / 2048
}

/// Datasheet step `B3 = (((AC1 * 4 + X1 + X2) << oss) + 2) / 4`.
pub open spec fn spec_b3(oss: Oversampling, b5: int, c: CalibrationData) -> int {
    ((c.ac1 * 4 + spec_px1(b5, c) + spec_px2(b5, c)) * oss.spec_scale() + 2) / 4
}

/// Datasheet step `X1 = AC3 * B6 / 2^13` (second use of the name `X1`).
pub open spec fn spec_px3(b5: int, c: CalibrationData) -> int {
    (c.ac3 * spec_b6(b5)) / 8192
}

/// Datasheet step `X2 = (B1 * (B6 * B6 / 2^12)) / 2^16` (second `X2`).
pub open spec fn spec_px4(b5: int, c: CalibrationData) -> int {
    (c.b1 * ((spec_b6(b5) * spec_b6(b5)) / 4096)) / 65536
}

/// Datasheet step `X3 = (X1 + X2 + 2) / 2^2` (second `X3`).
pub open spec fn spec_px5(b5: int, c: CalibrationData) -> int {
    (spec_px3(b5, c) + spec_px4(b5, c) + 2) / 4
}

/// Datasheet step `B4 = AC4 * (X3 + 32768) / 2^15`.
pub open spec fn spec_b4(b5: int, c: CalibrationData) -> int {
    (c.ac4 * (spec_px5(b5, c) + 32768)) / 32768
}

/// Datasheet step `B7 = (UP - B3) * (50000 >> oss)`.
pub open spec fn spec_b7(up: int, oss: Oversampling, b5: int, c: CalibrationData) -> int {
    (up - spec_b3(oss, b5, c)) * (50000int / oss.spec_scale())
}

/// The uncorrected pressure quotient: `B7 * 2 / B4` when `B7` fits below
/// `2^31`, else `B7 / B4 * 2`, both truncating.  A non-positive `B4`
/// (degenerate coefficients) yields zero.
pub open spec fn spec_pressure_quotient(
    up: int,
    oss: Oversampling,
    b5: int,
    c: CalibrationData,
) -> int {
    let b4 = spec_b4(b5, c);
    let b7 = spec_b7(up, oss, b5, c);
    if b4 <= 0 {
        0
    } else if 0 <= b7 < 0x8000_0000 {
        tdiv(b7 * 2, b4)
    } else {
        tdiv(b7, b4) * 2
    }
}

/// True pressure in Pascals: the quotient plus the datasheet's final
/// correction `p + (X1 + X2 + 3791) / 2^4` with `X1 = ((p/2^8)^2 * 3038) /
/// 2^16` and `X2 = -7357 * p / 2^16`.  A quotient beyond the guard range is
/// reported as zero.
pub open spec fn spec_pressure(up: int, oss: Oversampling, b5: int, c: CalibrationData) -> int {
    let p = spec_pressure_quotient(up, oss, b5, c);
    if p < -PRESSURE_GUARD || p > PRESSURE_GUARD {
        0
    } else {
        let q = p / 256;
        let x1 = (q * q * 3038) / 65536;
        let x2 = (-7357 * p) / 65536;
        p + (x1 + x2 + 3791) / 16
    }
}

/// Turns a raw temperature count into true temperature, returning the
/// temperature in tenths of a degree Celsius together with the intermediate
/// `B5` that pressure compensation consumes.
pub fn compensate_temperature(ut: i32, c: &CalibrationData) -> (r: (i32, i32))
    requires
        0 <= ut < 65536,
    ensures
        r.0 == spec_temperature(ut as int, *c),
        r.1 == spec_b5(ut as int, *c),
        B5_MIN <= r.1 <= B5_MAX,
{
    let diff: i64 = ut as i64 - c.ac6 as i64;
    proof {
        assert(-4294836225 <= diff * (c.ac5 as i64) <= 4294836225) by (nonlinear_arith)
            requires
                -65535 <= diff <= 65535,
                0 <= c.ac5 as i64 <= 65535,
        ;
    }
    let prod: i64 = diff * (c.ac5 as i64);
    let x1: i64 = fdiv_i64(prod, 32768);
    assert(-131069 <= x1 <= 131068);
    let denom: i64 = x1 + c.md as i64;
    let x2: i64 = tdiv_i64((c.mc as i64) * 2048, denom);
    assert(-67108864 <= x2 <= 67108864);
    let b5: i64 = x1 + x2;
    let t: i64 = fdiv_i64(b5 + 8, 16);
    proof {
        assert(x1 == spec_tx1(ut as int, *c));
        assert(x2 == spec_tx2(ut as int, *c));
        assert(b5 == spec_b5(ut as int, *c));
    }
    (t as i32, b5 as i32)
}

/// Turns a raw pressure count into true pressure in Pascals, given the `B5`
/// produced by temperature compensation of the same measurement cycle.
pub fn compensate_pressure(up: i32, oss: Oversampling, b5: i32, c: &CalibrationData) -> (r: i32)
    requires
        0 <= up < 0x80000,
        B5_MIN <= b5 <= B5_MAX,
    ensures
        r == spec_pressure(up as int, oss, b5 as int, *c),
{
    let upl: i64 = up as i64;
    let b5l: i64 = b5 as i64;
    let b6: i64 = b5l - 4000;
    proof {
        assert(0 <= b6 * b6 <= 4521746525308489) by (nonlinear_arith)
            requires
                -67243933 <= b6 <= 67243933,
        ;
    }
    let b6sq: i64 = b6 * b6;
    let t2: i64 = fdiv_i64(b6sq, 4096);
    assert(0 <= t2 <= 1103942022780);
    let b2l: i64 = c.b2 as i64;
    proof {
        assert(-32768i64 * 1103942022780 <= b2l * t2 <= 32768i64 * 1103942022780) by (nonlinear_arith)
            requires
                -32768 <= b2l <= 32768,
                0 <= t2 <= 1103942022780,
        ;
    }
    let x1: i64 = fdiv_i64(b2l * t2, 2048);
    assert(-17663072364480 <= x1 <= 17663072364480);
    let ac2l: i64 = c.ac2 as i64;
    proof {
        assert(-32768i64 * 67243933 <= ac2l * b6 <= 32768i64 * 67243933) by (nonlinear_arith)
            requires
                -32768 <= ac2l <= 32768,
                -67243933 <= b6 <= 67243933,
        ;
    }
    let x2: i64 = fdiv_i64(ac2l * b6, 2048);
    assert(-1075902928 <= x2 <= 1075902928);
    let sum: i64 = (c.ac1 as i64) * 4 + x1 + x2;
    assert(-17664148398480 <= sum <= 17664148398480);
    let scale: i64 = oss.scale() as i64;
    proof {
        assert(-8i64 * 17664148398480 <= sum * scale <= 8i64 * 17664148398480) by (
        nonlinear_arith)
            requires
                -17664148398480 <= sum <= 17664148398480,
                1 <= scale <= 8,
        ;
    }
    let b3: i64 = fdiv_i64(sum * scale + 2, 4);
    assert(-35328296796961 <= b3 <= 35328296796960);
    let ac3l: i64 = c.ac3 as i64;
    proof {
        assert(-32768i64 * 67243933 <= ac3l * b6 <= 32768i64 * 67243933) by (nonlinear_arith)
            requires
                -32768 <= ac3l <= 32768,
                -67243933 <= b6 <= 67243933,
        ;
    }
    let x1b: i64 = fdiv_i64(ac3l * b6, 8192);
    let b1l: i64 = c.b1 as i64;
    proof {
        assert(-32768i64 * 1103942022780 <= b1l * t2 <= 32768i64 * 1103942022780) by (nonlinear_arith)
            requires
                -32768 <= b1l <= 32768,
                0 <= t2 <= 1103942022780,
        ;
    }
    let x2b: i64 = fdiv_i64(b1l * t2, 65536);
    assert(-551971011390 <= x2b <= 551971011390);
    let x3b: i64 = fdiv_i64(x1b + x2b + 2, 4);
    assert(-138059996781 <= x3b <= 138059996781);
    let ac4l: i64 = c.ac4 as i64;
    proof {
        assert(-65535i64 * 138060029549 <= ac4l * (x3b + 32768) <= 65535i64 * 138060029549) by (
        nonlinear_arith)
            requires
                0 <= ac4l <= 65535,
                -138060029549 <= x3b + 32768 <= 138060029549,
        ;
    }
    let b4: i64 = fdiv_i64(ac4l * (x3b + 32768), 32768);
    let factor: i64 = 50000 / scale;
    let diffp: i64 = upl - b3;
    proof {
        assert(-50000i64 * 35328297321248 <= diffp * factor <= 50000i64 * 35328297321248) by (
        nonlinear_arith)
            requires
                -35328297321248 <= diffp <= 35328297321248,
                1 <= factor <= 50000,
        ;
    }
    let b7: i64 = diffp * factor;
    let pq: i64 = if b4 <= 0 {
        0
    } else if b7 >= 0 && b7 < 0x8000_0000 {
        tdiv_i64(b7 * 2, b4)
    } else {
        let half: i64 = tdiv_i64(b7, b4);
        half * 2
    };
    proof {
        assert(b6 == spec_b6(b5 as int));
        assert(x1 == spec_px1(b5 as int, *c));
        assert(x2 == spec_px2(b5 as int, *c));
        assert(b3 == spec_b3(oss, b5 as int, *c));
        assert(x1b == spec_px3(b5 as int, *c));
        assert(x2b == spec_px4(b5 as int, *c));
        assert(x3b == spec_px5(b5 as int, *c));
        assert(b4 == spec_b4(b5 as int, *c));
        assert(b7 == spec_b7(up as int, oss, b5 as int, *c));
        assert(pq == spec_pressure_quotient(up as int, oss, b5 as int, *c));
    }
    if pq < -(PRESSURE_GUARD as i64) || pq > PRESSURE_GUARD as i64 {
        proof {
            assert(spec_pressure(up as int, oss, b5 as int, *c) == 0);
        }
        return 0;
    }
    assert(-33554432 <= pq <= 33554432);
    let q: i64 = fdiv_i64(pq, 256);
    assert(-131072 <= q <= 131072);
    proof {
        assert(0 <= q * q <= 17179869184) by (nonlinear_arith)
            requires
                -131072 <= q <= 131072,
        ;
    }
    let qq: i64 = q * q;
    let x1t: i64 = fdiv_i64(qq * 3038, 65536);
    let x2t: i64 = fdiv_i64((-7357) * pq, 65536);
    let corr: i64 = fdiv_i64(x1t + x2t + 3791, 16);
    let pfin: i64 = pq + corr;
    proof {
        assert(-2147483648 <= pfin <= 2147483647);
        assert(pfin == spec_pressure(up as int, oss, b5 as int, *c));
    }
    pfin as i32
}

/// Law: temperature compensation is a pure function of the raw count and the
/// calibration block.  Any two results that satisfy its contract for the same
/// inputs, in whatever order the calls happen, are identical.
pub proof fn lemma_temperature_deterministic(
    ut: int,
    c: CalibrationData,
    t1: int,
    b51: int,
    t2: int,
    b52: int,
)
    requires
        t1 == spec_temperature(ut, c),
        b51 == spec_b5(ut, c),
        t2 == spec_temperature(ut, c),
        b52 == spec_b5(ut, c),
    ensures
        t1 == t2,
        b51 == b52,
{
}

/// Law: the final temperature step truncates instead of rounding.  A `B5`
/// exactly divisible by sixteen maps to exactly `B5 / 16` tenths of a degree
/// (the added 8 never rounds the result up), and `B5` one below a multiple of
/// sixteen maps to that same multiple's quotient.
pub proof fn lemma_temperature_truncates(k: int)
    ensures
        temperature_from_b5(16 * k) == k,
        temperature_from_b5(16 * k - 1) == k,
{
    vstd::arithmetic::div_mod::lemma_div_multiples_vanish_fancy(k, 8, 16);
    vstd::arithmetic::div_mod::lemma_div_multiples_vanish_fancy(k, 7, 16);
}

} // verus!
