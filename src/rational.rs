use vstd::prelude::*;

verus! {

/// The reserved "no timestamp" value; it is never rescaled.
pub const NOPTS_VALUE: i64 = -0x7fff_ffff_ffff_ffff - 1;

/// A rational number: the length of one tick of a clock, in seconds.
#[derive(Debug, Clone, Copy, PartialEq, Eq, Structural)]
pub struct Rational {
    pub num: i32,
    pub den: i32,
}

impl Rational {
    /// A usable clock: both parts are positive.
    pub open spec fn is_clock(self) -> bool {
        self.num > 0 && self.den > 0
    }

    pub fn new(num: i32, den: i32) -> (r: Rational)
        ensures
            r.num == num,
            r.den == den,
    {
        Rational { num, den }
    }

    pub fn num(&self) -> (r: i32)
        ensures
            r == self.num,
    {
        self.num
    }

    pub fn den(&self) -> (r: i32)
        ensures
            r == self.den,
    {
        self.den
    }
}

/// How a quotient that is not whole is rounded.
#[derive(Debug, Clone, Copy, PartialEq, Eq, Structural)]
pub enum Rounding {
    /// Toward zero.
    Zero,
    /// Away from zero.
    Inf,
    /// Toward minus infinity.
    Down,
    /// Toward plus infinity.
    Up,
    /// To the nearest integer, halves away from zero.
    NearInf,
}

/// `n / d` rounded as `rnd` says, for a positive `d`.
pub open spec fn div_round(n: int, d: int, rnd: Rounding) -> int {
    match rnd {
        Rounding::Zero => if n >= 0 { n / d } else { -((-n) / d) },
        Rounding::Inf => if n >= 0 { (n + d - 1) / d } else { -((-n + d - 1) / d) },
        Rounding::Down => n / d,
        Rounding::Up => -((-n) / d),
        Rounding::NearInf => if n >= 0 { (n + d / 2) / d } else { -((-n + d / 2) / d) },
    }
}

/// Whether `v` is a value of `i64`.
pub open spec fn fits_i64(v: int) -> bool {
    i64::MIN <= v <= i64::MAX
}

/// `a * b / c`, rounded as `rnd` says, where it is a value of `i64`.
pub open spec fn spec_rescale_rnd(a: int, b: int, c: int, rnd: Rounding) -> Option<i64> {
    let v = div_round(a * b, c, rnd);
    if fits_i64(v) {
        Some(v as i64)
    } else {
        None
    }
}

/// A timestamp of clock `from` expressed in ticks of clock `to`, rounded to the
/// nearest tick; the "no timestamp" value passes unchanged, and a result that
/// would not fit (or would read as "no timestamp") is `None`.
pub open spec fn spec_rescale(ts: i64, from: Rational, to: Rational) -> Option<i64> {
    if ts == NOPTS_VALUE {
        Some(NOPTS_VALUE)
    } else {
        let v = div_round(
            ts * (from.num * to.den),
            from.den * to.num,
            Rounding::NearInf,
        );
        if NOPTS_VALUE < v <= i64::MAX {
            Some(v as i64)
        } else {
            None
        }
    }
}

fn div_round_i128(n: i128, d: i128, rnd: Rounding) -> (r: i128)
    requires
        d > 0,
        d <= 0x8000_0000_0000_0000,
        -0x4000_0000_0000_0000_0000_0000_0000_0000 <= n <= 0x4000_0000_0000_0000_0000_0000_0000_0000,
    ensures
        r == div_round(n as int, d as int, rnd),
{
    let half = d / 2;
    if n >= 0 {
        proof {
            if n > 0 {
                lemma_floor_of_negative(-n as int, d as int);
            } else {
                vstd::arithmetic::div_mod::lemma_basic_div(d as int - 1, d as int);
                vstd::arithmetic::div_mod::lemma_div_basics(d as int);
            }
        }
        match rnd {
            Rounding::Zero | Rounding::Down => n / d,
            Rounding::Inf | Rounding::Up => (n + d - 1) / d,
            Rounding::NearInf => (n + half) / d,
        }
    } else {
        let m = -n;
        proof {
            assert((m as int + d as int - 1) / (d as int) == -((n as int) / (d as int))) by {
                lemma_floor_of_negative(n as int, d as int);
            }
        }
        match rnd {
            Rounding::Zero | Rounding::Up => -(m / d),
            Rounding::Inf | Rounding::Down => -((m + d - 1) / d),
            Rounding::NearInf => -((m + half) / d),
        }
    }
}

proof fn lemma_floor_of_negative(n: int, d: int)
    requires
        n < 0,
        d > 0,
    ensures
        (-n + d - 1) / d == -(n / d),
{
    let q = n / d;
    let r = n % d;
    vstd::arithmetic::div_mod::lemma_fundamental_div_mod(n, d);
    assert(-n + d - 1 == (-q) * d + (d - 1 - r)) by (nonlinear_arith)
        requires n == d * q + r;
    vstd::arithmetic::div_mod::lemma_fundamental_div_mod_converse(-n + d - 1, d, -q, d - 1 - r);
}

/// `a * b / c` with the rounding that `rnd` names, computed without overflow;
/// `None` where the result is not a value of `i64`.
pub fn rescale_rnd(a: i64, b: i64, c: i64, rnd: Rounding) -> (r: Option<i64>)
    requires
        b >= 0,
        c > 0,
    ensures
        r == spec_rescale_rnd(a as int, b as int, c as int, rnd),
{
    proof {
        assert(-0x4000_0000_0000_0000_0000_0000_0000_0000 <= (a as int) * (b as int)
            <= 0x4000_0000_0000_0000_0000_0000_0000_0000) by (nonlinear_arith)
            requires
                i64::MIN <= a <= i64::MAX,
                0 <= b <= i64::MAX,
        ;
    }
    let n: i128 = (a as i128) * (b as i128);
    let v = div_round_i128(n, c as i128, rnd);
    if v >= i64::MIN as i128 && v <= i64::MAX as i128 {
        Some(v as i64)
    } else {
        None
    }
}

/// Converts timestamp `ts` from clock `from` to clock `to`, rounding to the
/// nearest tick of `to`. The "no timestamp" value is returned unchanged.
pub fn rescale(ts: i64, from: Rational, to: Rational) -> (r: Option<i64>)
    requires
        from.is_clock(),
        to.is_clock(),
    ensures
        r == spec_rescale(ts, from, to),
{
    if ts == NOPTS_VALUE {
        return Some(NOPTS_VALUE);
    }
    proof {
        assert(0 < (from.num as int) * (to.den as int) <= 0x4000_0000_0000_0000) by (nonlinear_arith)
            requires 0 < from.num <= i32::MAX, 0 < to.den <= i32::MAX;
        assert(0 < (from.den as int) * (to.num as int) <= 0x4000_0000_0000_0000) by (nonlinear_arith)
            requires 0 < from.den <= i32::MAX, 0 < to.num <= i32::MAX;
    }
    let b: i64 = (from.num as i64) * (to.den as i64);
    let c: i64 = (from.den as i64) * (to.num as i64);
    match rescale_rnd(ts, b, c, Rounding::NearInf) {
        Some(v) => if v == NOPTS_VALUE {
            None
        } else {
            Some(v)
        },
        None => None,
    }
}

/// A rescaled timestamp, or the "no timestamp" value where it does not fit,
/// as the codec library's packet rescaling gives it.
pub open spec fn spec_rescale_or_unset(ts: i64, from: Rational, to: Rational) -> i64 {
    match spec_rescale(ts, from, to) {
        Some(v) => v,
        None => NOPTS_VALUE,
    }
}

/// Converts `ts` from clock `from` to clock `to`; a result out of range reads
/// as "no timestamp".
pub fn rescale_or_unset(ts: i64, from: Rational, to: Rational) -> (r: i64)
    requires
        from.is_clock(),
        to.is_clock(),
    ensures
        r == spec_rescale_or_unset(ts, from, to),
{
    match rescale(ts, from, to) {
        Some(v) => v,
        None => NOPTS_VALUE,
    }
}

/// The nearest multiple: `div_round(n, d, NearInf) * d` is within half of `d` of `n`.
proof fn lemma_near_bound(n: int, d: int)
    requires
        d > 0,
    ensures
        2 * (div_round(n, d, Rounding::NearInf) * d - n) <= d,
        2 * (n - div_round(n, d, Rounding::NearInf) * d) <= d,
{
    let h = d / 2;
    vstd::arithmetic::div_mod::lemma_fundamental_div_mod(d, 2);
    if n >= 0 {
        let m = n + h;
        let q = m / d;
        vstd::arithmetic::div_mod::lemma_fundamental_div_mod(m, d);
        assert(0 <= m % d < d);
        assert(div_round(n, d, Rounding::NearInf) == q);
        assert(2 * (q * d - n) <= d) by (nonlinear_arith)
            requires m == d * q + m % d, 0 <= m % d, m == n + h, d == 2 * h + d % 2, 0 <= d % 2 < 2;
        assert(2 * (n - q * d) <= d) by (nonlinear_arith)
            requires m == d * q + m % d, m % d < d, m == n + h, d == 2 * h + d % 2, 0 <= d % 2 < 2;
    } else {
        let m = -n + h;
        let q = m / d;
        vstd::arithmetic::div_mod::lemma_fundamental_div_mod(m, d);
        assert(0 <= m % d < d);
        assert(div_round(n, d, Rounding::NearInf) == -q);
        assert(2 * ((-q) * d - n) <= d) by (nonlinear_arith)
            requires m == d * q + m % d, m % d < d, m == -n + h, d == 2 * h + d % 2, 0 <= d % 2 < 2;
        assert(2 * (n - (-q) * d) <= d) by (nonlinear_arith)
            requires m == d * q + m % d, 0 <= m % d, m == -n + h, d == 2 * h + d % 2, 0 <= d % 2 < 2;
    }
}

/// A multiple of `d` closer than half of `d` to `n` is the rounded quotient.
proof fn lemma_near_unique(n: int, d: int, x: int)
    requires
        d > 0,
        2 * (x * d - n) < d,
        2 * (n - x * d) < d,
    ensures
        div_round(n, d, Rounding::NearInf) == x,
{
    let h = d / 2;
    vstd::arithmetic::div_mod::lemma_fundamental_div_mod(d, 2);
    if n >= 0 {
        let m = n + h;
        assert(0 <= m - x * d < d) by (nonlinear_arith)
            requires
                m == n + h,
                d == 2 * h + d % 2,
                0 <= d % 2 < 2,
                2 * (x * d - n) < d,
                2 * (n - x * d) < d,
        ;
        vstd::arithmetic::div_mod::lemma_fundamental_div_mod_converse(m, d, x, m - x * d);
    } else {
        let m = -n + h;
        assert(0 <= m - (-x) * d < d) by (nonlinear_arith)
            requires
                m == -n + h,
                d == 2 * h + d % 2,
                0 <= d % 2 < 2,
                2 * (x * d - n) < d,
                2 * (n - x * d) < d,
        ;
        vstd::arithmetic::div_mod::lemma_fundamental_div_mod_converse(m, d, -x, m - (-x) * d);
    }
}

/// Rescaling a timestamp into a clock that ticks at least as finely and back
/// gives the timestamp again. Where the target clock is coarser this fails
/// (1/1000 to 1/10 and back turns 5 into 0), so such clocks are left out; the
/// forward result must fit in a timestamp.
pub proof fn lemma_rescale_round_trip(ts: i64, a: Rational, b: Rational)
    requires
        a.is_clock(),
        b.is_clock(),
        (a.num as int) * (b.den as int) >= (a.den as int) * (b.num as int),
        spec_rescale(ts, a, b) is Some,
    ensures
        spec_rescale(spec_rescale(ts, a, b)->Some_0, b, a) == Some(ts),
{
    if ts != NOPTS_VALUE {
        let p = (a.num as int) * (b.den as int);
        let q = (a.den as int) * (b.num as int);
        assert(q > 0) by (nonlinear_arith)
            requires a.den > 0, b.num > 0, q == (a.den as int) * (b.num as int);
        let x = div_round(ts * p, q, Rounding::NearInf);
        lemma_near_bound(ts * p, q);
        assert(2 * (ts * p - x * q) < p && 2 * (x * q - ts * p) < p) by {
            if q < p {
            } else {
                assert(p == q);
                assert(x == ts) by (nonlinear_arith)
                    requires
                        2 * (x * q - ts * p) <= q,
                        2 * (ts * p - x * q) <= q,
                        p == q,
                        q > 0,
                ;
                assert(x * q - ts * p == 0) by (nonlinear_arith)
                    requires x == ts, p == q;
            }
        }
        assert((b.num as int) * (a.den as int) == q) by (nonlinear_arith)
            requires q == (a.den as int) * (b.num as int);
        assert((b.den as int) * (a.num as int) == p) by (nonlinear_arith)
            requires p == (a.num as int) * (b.den as int);
        let xs = spec_rescale(ts, a, b)->Some_0;
        assert(xs as int == x);
        assert(xs * ((b.num as int) * (a.den as int)) == x * q);
        lemma_near_unique(x * q, p, ts as int);
    }
}

} // verus!
