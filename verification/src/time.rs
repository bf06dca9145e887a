//! Rational time-base arithmetic.
//!
//! A stream expresses its timestamps in ticks of a rational time base
//! (seconds per tick). Converting a tick count between two bases is exact
//! rational arithmetic followed by a rounding step; two rounding policies are
//! offered: truncation toward zero, and nearest with ties away from zero (so
//! that successive timestamps do not collapse onto one tick).

use vstd::arithmetic::div_mod::{
    lemma_div_is_ordered, lemma_div_pos_is_pos, lemma_fundamental_div_mod,
    lemma_div_multiples_vanish, lemma_mod_division_less_than_divisor,
};
use vstd::arithmetic::mul::lemma_mul_is_commutative;
use vstd::prelude::*;

verus! {

/// The rational unit (seconds per tick) in which a stream's timestamps are
/// expressed: `num / den` seconds per tick.
#[derive(Clone, Copy, PartialEq, Eq, Structural, Debug)]
pub struct TimeBase {
    pub num: u32,
    pub den: u32,
}

impl TimeBase {
    /// A time base is meaningful only with a positive numerator and
    /// denominator.
    pub open spec fn valid(self) -> bool {
        self.num >= 1 && self.den >= 1
    }

    pub fn new(num: u32, den: u32) -> (r: TimeBase)
        requires
            num >= 1,
            den >= 1,
        ensures
            r == (TimeBase { num, den }),
            r.valid(),
    {
        TimeBase { num, den }
    }
}

/// A nominal rate: `num / den` frames (or ticks) per second.
#[derive(Clone, Copy, PartialEq, Eq, Structural, Debug)]
pub struct Rate {
    pub num: u32,
    pub den: u32,
}

impl Rate {
    pub open spec fn valid(self) -> bool {
        self.num >= 1 && self.den >= 1
    }

    pub fn new(num: u32, den: u32) -> (r: Rate)
        requires
            num >= 1,
            den >= 1,
        ensures
            r == (Rate { num, den }),
            r.valid(),
    {
        Rate { num, den }
    }

    /// The duration of one frame at this rate, as a time base (seconds per
    /// frame).
    pub fn frame_base(self) -> (r: TimeBase)
        requires
            self.valid(),
        ensures
            r == (TimeBase { num: self.den, den: self.num }),
            r.valid(),
    {
        TimeBase { num: self.den, den: self.num }
    }
}

/// An exact instant, `num / den` seconds, kept as a rational so that no
/// precision is lost when timestamps move between time bases.
#[derive(Clone, Copy, PartialEq, Eq, Structural, Debug)]
pub struct TimeVal {
    pub num: i128,
    pub den: i128,
}

impl TimeVal {
    /// The bounds keep every product formed by the conversions below inside
    /// 128 bits: the numerator is at most a 64-bit tick count times a 32-bit
    /// time-base numerator, the denominator a 32-bit time-base denominator.
    pub open spec fn wf(self) -> bool {
        1 <= self.den <= 0xFFFF_FFFFi128
            && -0x8000_0000_0000_0000_0000_0000i128 <= self.num
            <= 0x8000_0000_0000_0000_0000_0000i128
    }

    pub fn zero() -> (r: TimeVal)
        ensures
            r.num == 0,
            r.den == 1,
            r.wf(),
    {
        TimeVal { num: 0, den: 1 }
    }
}

/// The exact instant reached by `t` ticks of time base `tb`.
pub fn ticks_to_time(t: i64, tb: TimeBase) -> (r: TimeVal)
    requires
        tb.valid(),
    ensures
        r.num == t * tb.num,
        r.den == tb.den,
        r.wf(),
{
    assert(-0x8000_0000_0000_0000_0000_0000i128 <= (t as i128) * (tb.num as i128)
        <= 0x8000_0000_0000_0000_0000_0000i128) by (nonlinear_arith)
        requires
            -0x8000_0000_0000_0000i128 <= t as i128 <= 0x7FFF_FFFF_FFFF_FFFFi128,
            0 <= tb.num as i128 <= 0xFFFF_FFFFi128,
    ;
    TimeVal { num: (t as i128) * (tb.num as i128), den: tb.den as i128 }
}

/// The exact tick count of instant `v` in time base `tb`, truncated toward
/// zero: `v / tb` ticks.
pub open spec fn time_ticks_spec(v: TimeVal, tb: TimeBase) -> int {
    div_trunc(v.num * tb.den, v.den * tb.num)
}

/// Converts an instant back into ticks of `tb`, truncating toward zero;
/// `None` when the tick count does not fit 64 bits.
pub fn time_to_ticks(v: TimeVal, tb: TimeBase) -> (r: Option<i64>)
    requires
        v.wf(),
        tb.valid(),
    ensures
        ({
            let t = time_ticks_spec(v, tb);
            match r {
                Some(x) => x == t && i64::MIN <= t <= i64::MAX,
                None => !(i64::MIN <= t <= i64::MAX),
            }
        }),
{
    assert(v.den * tb.num >= 1 && v.den * tb.num <= 0xFFFF_FFFFi128 * 0xFFFF_FFFFi128)
        by (nonlinear_arith)
        requires
            1 <= v.den <= 0xFFFF_FFFFi128,
            1 <= tb.num as i128 <= 0xFFFF_FFFFi128,
    ;
    let d: i128 = v.den * (tb.num as i128);
    let neg: bool = v.num < 0;
    assert(v.num * tb.den <= 0x8000_0000_0000_0000_0000_0000i128 * 0xFFFF_FFFFi128
        && v.num * tb.den >= -0x8000_0000_0000_0000_0000_0000i128 * 0xFFFF_FFFFi128)
        by (nonlinear_arith)
        requires
            -0x8000_0000_0000_0000_0000_0000i128 <= v.num <= 0x8000_0000_0000_0000_0000_0000i128,
            1 <= tb.den as i128 <= 0xFFFF_FFFFi128,
    ;
    let mag: u128 = if neg {
        assert((-v.num) * tb.den == -(v.num * tb.den)) by (nonlinear_arith);
        assert((-v.num) * tb.den >= 0) by (nonlinear_arith)
            requires
                v.num < 0,
                tb.den >= 1,
        ;
        ((-v.num) as u128) * (tb.den as u128)
    } else {
        assert(v.num * tb.den >= 0) by (nonlinear_arith)
            requires
                v.num >= 0,
                tb.den >= 1,
        ;
        (v.num as u128) * (tb.den as u128)
    };
    let q: u128 = mag / (d as u128);
    proof {
        if neg {
            assert(v.num * tb.den < 0) by (nonlinear_arith)
                requires
                    v.num < 0,
                    tb.den >= 1,
            ;
            assert(time_ticks_spec(v, tb) == -(q as int));
        } else {
            assert(time_ticks_spec(v, tb) == q as int);
        }
    }
    if neg {
        if q > 0x8000_0000_0000_0000u128 {
            None
        } else {
            Some((-(q as i128)) as i64)
        }
    } else {
        if q > i64::MAX as u128 {
            None
        } else {
            Some(q as i64)
        }
    }
}

/// How the exact rational result of a conversion is taken to an integer tick.
#[derive(Clone, Copy, PartialEq, Eq, Structural, Debug)]
pub enum Rounding {
    /// Discard fractional ticks (round toward zero).
    Truncate,
    /// Round to the nearest tick, ties away from zero.
    Nearest,
}

/// Numerator of the exact conversion factor from `from`-ticks to `to`-ticks.
pub open spec fn factor_num(from: TimeBase, to: TimeBase) -> int {
    from.num * to.den
}

/// Denominator of the exact conversion factor from `from`-ticks to `to`-ticks.
pub open spec fn factor_den(from: TimeBase, to: TimeBase) -> int {
    from.den * to.num
}

/// Division rounding toward zero, for a positive divisor.
pub open spec fn div_trunc(n: int, d: int) -> int {
    if n >= 0 {
        n / d
    } else {
        -((-n) / d)
    }
}

/// Division rounded to the nearest integer, ties away from zero, for a
/// positive divisor.
pub open spec fn div_near(n: int, d: int) -> int {
    if n >= 0 {
        (n + d / 2) / d
    } else {
        -(((-n) + d / 2) / d)
    }
}

/// The exact mathematical value of rescaling `t` ticks of `from` into ticks
/// of `to` under rounding policy `mode`.
pub open spec fn rescale_spec(t: int, from: TimeBase, to: TimeBase, mode: Rounding) -> int {
    match mode {
        Rounding::Truncate => div_trunc(t * factor_num(from, to), factor_den(from, to)),
        Rounding::Nearest => div_near(t * factor_num(from, to), factor_den(from, to)),
    }
}

/// Rescales `t` from time base `from` to time base `to`, rounding per `mode`.
///
/// The computation is exact rational arithmetic; the only way it can fail is
/// the rounded result not fitting a 64-bit tick count, reported as `None`
/// rather than a panic.
pub fn rescale(t: i64, from: TimeBase, to: TimeBase, mode: Rounding) -> (r: Option<i64>)
    requires
        from.valid(),
        to.valid(),
    ensures
        ({
            let v = rescale_spec(t as int, from, to, mode);
            match r {
                Some(x) => x == v && i64::MIN <= v <= i64::MAX,
                None => !(i64::MIN <= v <= i64::MAX),
            }
        }),
{
    assert(from.num * to.den <= 0xFFFF_FFFFu64 * 0xFFFF_FFFFu64) by (nonlinear_arith)
        requires
            from.num <= 0xFFFF_FFFFu64,
            to.den <= 0xFFFF_FFFFu64,
    ;
    assert(from.den * to.num <= 0xFFFF_FFFFu64 * 0xFFFF_FFFFu64) by (nonlinear_arith)
        requires
            from.den <= 0xFFFF_FFFFu64,
            to.num <= 0xFFFF_FFFFu64,
    ;
    assert(from.den * to.num >= 1) by (nonlinear_arith)
        requires
            from.den >= 1,
            to.num >= 1,
    ;
    assert(from.num * to.den >= 1) by (nonlinear_arith)
        requires
            from.num >= 1,
            to.den >= 1,
    ;
    let n: u64 = (from.num as u64) * (to.den as u64);
    let d: u64 = (from.den as u64) * (to.num as u64);
    let neg: bool = t < 0;
    let mag: u128 = if neg {
        (-(t as i128)) as u128
    } else {
        t as u128
    };
    assert(mag <= 0x8000_0000_0000_0000u128);
    assert(mag * n <= 0x8000_0000_0000_0000u128 * 0xFFFF_FFFF_FFFF_FFFFu128)
        by (nonlinear_arith)
        requires
            mag <= 0x8000_0000_0000_0000u128,
            n <= 0xFFFF_FFFF_FFFF_FFFFu128,
    ;
    let prod: u128 = mag * (n as u128);
    let adj: u128 = match mode {
        Rounding::Truncate => prod,
        Rounding::Nearest => prod + (d as u128) / 2,
    };
    let q: u128 = adj / (d as u128);
    proof {
        lemma_mag_quotient(t as int, mag as int, n as int, d as int, adj as int, q as int, mode);
    }
    if neg {
        if q > 0x8000_0000_0000_0000u128 {
            None
        } else {
            Some((-(q as i128)) as i64)
        }
    } else {
        if q > i64::MAX as u128 {
            None
        } else {
            Some(q as i64)
        }
    }
}

/// Relates the magnitude computation inside `rescale` to the signed
/// specification value.
proof fn lemma_mag_quotient(t: int, mag: int, n: int, d: int, adj: int, q: int, mode: Rounding)
    requires
        n >= 1,
        d >= 1,
        mag == if t >= 0 { t } else { -t },
        adj == match mode {
            Rounding::Truncate => mag * n,
            Rounding::Nearest => mag * n + d / 2,
        },
        q == adj / d,
    ensures
        ({
            let v = match mode {
                Rounding::Truncate => div_trunc(t * n, d),
                Rounding::Nearest => div_near(t * n, d),
            };
            v == if t >= 0 { q } else { -q }
        }),
{
    if t >= 0 {
        assert(t * n == mag * n);
        assert(t * n >= 0) by (nonlinear_arith)
            requires
                t >= 0,
                n >= 1,
        ;
    } else {
        assert(-(t * n) == mag * n) by (nonlinear_arith)
            requires
                mag == -t,
        ;
        assert(t * n < 0) by (nonlinear_arith)
            requires
                t < 0,
                n >= 1,
        ;
    }
}

/// Truncating a nonnegative value through a coarse-to-fine conversion and
/// back loses less than one source tick.
proof fn lemma_round_trip_nonneg(t: int, p: int, q: int)
    requires
        t >= 0,
        1 <= q,
        q <= p,
    ensures
        t - 1 <= ((t * p) / q) * q / p,
        ((t * p) / q) * q / p <= t,
{
    let u = (t * p) / q;
    assert(t * p >= 0) by (nonlinear_arith)
        requires
            t >= 0,
            p >= 1,
    ;
    lemma_div_pos_is_pos(t * p, q);
    lemma_fundamental_div_mod(t * p, q);
    lemma_mod_division_less_than_divisor(t * p, q);
    let r = (t * p) % q;
    lemma_mul_is_commutative(u, q);
    assert(u * q == t * p - r);
    lemma_div_is_ordered(u * q, t * p, p);
    lemma_mul_is_commutative(t, p);
    lemma_div_multiples_vanish(t, p);
    assert(u * q / p <= t);
    assert(t * p - q + 1 > (t - 1) * p) by (nonlinear_arith)
        requires
            q <= p,
    ;
    assert(u * q >= (t - 1) * p);
    lemma_div_is_ordered((t - 1) * p, u * q, p);
    lemma_mul_is_commutative(t - 1, p);
    lemma_div_multiples_vanish(t - 1, p);
    assert(u * q / p >= t - 1);
}

/// Round-trip bound for truncating rescale: converting `t` from base `a` into
/// a base `b` that is at least as fine (one `b` tick is no longer than one
/// `a` tick), and back, lands within one tick of `t`.
///
/// The fineness condition is needed: converting into a coarser base merges
/// source ticks, and the merged distinction cannot be recovered.
pub proof fn lemma_rescale_round_trip(t: int, a: TimeBase, b: TimeBase)
    requires
        a.valid(),
        b.valid(),
        factor_num(a, b) >= factor_den(a, b),
    ensures
        ({
            let back = rescale_spec(
                rescale_spec(t, a, b, Rounding::Truncate),
                b,
                a,
                Rounding::Truncate,
            );
            -1 <= back - t <= 1
        }),
{
    let p = factor_num(a, b);
    let q = factor_den(a, b);
    assert(p >= 1) by (nonlinear_arith)
        requires
            a.num >= 1,
            b.den >= 1,
            p == a.num * b.den,
    ;
    assert(q >= 1) by (nonlinear_arith)
        requires
            a.den >= 1,
            b.num >= 1,
            q == a.den * b.num,
    ;
    lemma_mul_is_commutative(b.num as int, a.den as int);
    lemma_mul_is_commutative(b.den as int, a.num as int);
    assert(factor_num(b, a) == q);
    assert(factor_den(b, a) == p);
    if t >= 0 {
        assert(t * p >= 0) by (nonlinear_arith)
            requires
                t >= 0,
                p >= 1,
        ;
        let u = (t * p) / q;
        lemma_div_pos_is_pos(t * p, q);
        assert(rescale_spec(t, a, b, Rounding::Truncate) == u);
        assert(u * q >= 0) by (nonlinear_arith)
            requires
                u >= 0,
                q >= 1,
        ;
        lemma_round_trip_nonneg(t, p, q);
    } else {
        let s = -t;
        assert(t * p < 0 && (-(t * p)) == s * p) by (nonlinear_arith)
            requires
                t < 0,
                p >= 1,
                s == -t,
        ;
        let u = (s * p) / q;
        assert(rescale_spec(t, a, b, Rounding::Truncate) == -u);
        assert(s * p >= 0) by (nonlinear_arith)
            requires
                s >= 0,
                p >= 1,
        ;
        lemma_div_pos_is_pos(s * p, q);
        assert((-u) * q == -(u * q) && u * q >= 0) by (nonlinear_arith)
            requires
                u >= 0,
                q >= 1,
        ;
        lemma_round_trip_nonneg(s, p, q);
        if u * q == 0 {
            assert(rescale_spec(-u, b, a, Rounding::Truncate) == 0int / p);
            assert(0int / p == 0) by { lemma_div_multiples_vanish(0, p) };
        } else {
            assert(rescale_spec(-u, b, a, Rounding::Truncate) == -(u * q / p));
        }
    }
}

/// Error bound for division to the nearest integer: the rounded quotient
/// times the divisor stays within half a divisor of the dividend.
proof fn lemma_div_near_error(n: int, d: int)
    requires
        d >= 1,
    ensures
        2 * (div_near(n, d) * d - n) <= d,
        2 * (n - div_near(n, d) * d) <= d,
{
    lemma_fundamental_div_mod(d, 2);
    assert(2 * (d / 2) >= d - 1);
    if n >= 0 {
        let r = (n + d / 2) / d;
        lemma_fundamental_div_mod(n + d / 2, d);
        lemma_mod_division_less_than_divisor(n + d / 2, d);
        let rem = (n + d / 2) % d;
        lemma_mul_is_commutative(r, d);
        assert(r * d - n == d / 2 - rem);
    } else {
        let m = -n;
        let r = (m + d / 2) / d;
        assert(div_near(n, d) == -r);
        lemma_fundamental_div_mod(m + d / 2, d);
        lemma_mod_division_less_than_divisor(m + d / 2, d);
        let rem = (m + d / 2) % d;
        lemma_mul_is_commutative(r, d);
        assert(r * d - m == d / 2 - rem);
        assert((-r) * d == -(r * d)) by (nonlinear_arith);
    }
}

/// Error bound for nearest-rounding rescale, stated exactly over the
/// conversion factor: the result differs from the exact rational value by at
/// most half a destination tick.
pub proof fn lemma_rescale_nearest_error(t: int, from: TimeBase, to: TimeBase)
    requires
        from.valid(),
        to.valid(),
    ensures
        ({
            let r = rescale_spec(t, from, to, Rounding::Nearest);
            let fnum = factor_num(from, to);
            let fden = factor_den(from, to);
            2 * (r * fden - t * fnum) <= fden && 2 * (t * fnum - r * fden) <= fden
        }),
{
    let fden = factor_den(from, to);
    assert(fden >= 1) by (nonlinear_arith)
        requires
            from.den >= 1,
            to.num >= 1,
            fden == from.den * to.num,
    ;
    lemma_div_near_error(t * factor_num(from, to), fden);
}

} // verus!
