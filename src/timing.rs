use vstd::prelude::*;

verus! {

/// The shortest delay a frame is given, in milliseconds. Players treat a zero or
/// near-zero delay inconsistently, so every delay is raised to at least this.
pub const MIN_FRAME_DELAY_MS: u32 = 10;

/// `n / d` rounded to the nearest integer, halves rounded up.
pub open spec fn round_div(n: nat, d: nat) -> nat
    recommends
        d > 0,
{
    ((2 * n + d) / (2 * d)) as nat
}

/// The duration `ticks_numerator / ticks_denominator` ticks, at a rate of
/// `tps_numerator / tps_denominator` ticks per second, in whole milliseconds;
/// zero where either denominator of the division is zero.
pub open spec fn raw_ms(tps_numerator: nat, tps_denominator: nat, ticks_numerator: nat, ticks_denominator: nat) -> nat {
    if tps_numerator == 0 || ticks_denominator == 0 {
        0
    } else {
        round_div(ticks_numerator * tps_denominator * 1000, ticks_denominator * tps_numerator)
    }
}

/// `x`, saturated to the range of `u32`.
pub open spec fn saturate_u32(x: nat) -> u32 {
    if x > u32::MAX {
        u32::MAX
    } else {
        x as u32
    }
}

/// A delay raised to the floor.
pub open spec fn floored(ms: u32) -> u32 {
    if ms < MIN_FRAME_DELAY_MS {
        MIN_FRAME_DELAY_MS
    } else {
        ms
    }
}

/// The delay of a frame: zero before the floor for a stream without animation,
/// else its duration in ticks (one tick where the frame gives none) converted.
pub open spec fn delay_of(animation: Option<(u32, u32)>, duration_ticks: Option<u32>) -> u32 {
    floored(
        match animation {
            None => 0u32,
            Some(tps) => saturate_u32(
                raw_ms(
                    tps.0 as nat,
                    tps.1 as nat,
                    match duration_ticks {
                        Some(t) => t as nat,
                        None => 1nat,
                    },
                    1,
                ),
            ),
        },
    )
}

/// Converts a duration of `ticks_numerator / ticks_denominator` ticks at
/// `tps_numerator / tps_denominator` ticks per second into milliseconds,
/// rounded to the nearest one and saturated at `u32::MAX`.
pub fn ticks_to_ms(tps_numerator: u32, tps_denominator: u32, ticks_numerator: u32, ticks_denominator: u32) -> (r: u32)
    ensures
        r == saturate_u32(raw_ms(tps_numerator as nat, tps_denominator as nat, ticks_numerator as nat, ticks_denominator as nat)),
{
    if tps_numerator == 0 || ticks_denominator == 0 {
        return 0;
    }
    let tn = ticks_numerator as u128;
    let td = tps_denominator as u128;
    let a = ticks_denominator as u128;
    let b = tps_numerator as u128;
    proof {
        assert(a * b <= 0xffff_ffffu128 * 0xffff_ffffu128) by (nonlinear_arith)
            requires a <= 0xffff_ffffu128, b <= 0xffff_ffffu128;
    }
    let d = a * b;
    proof {
        assert(tn * td <= 0xffff_ffffu128 * 0xffff_ffffu128) by (nonlinear_arith)
            requires tn <= 0xffff_ffffu128, td <= 0xffff_ffffu128;
        assert(d <= 0xffff_ffffu128 * 0xffff_ffffu128) by (nonlinear_arith)
            requires d == a * b, a <= 0xffff_ffffu128, b <= 0xffff_ffffu128;
        assert(d > 0) by (nonlinear_arith)
            requires d == a * b, a > 0, b > 0;
    }
    let n = tn * td * 1000;
    let q = (2 * n + d) / (2 * d);
    if q > u32::MAX as u128 {
        u32::MAX
    } else {
        q as u32
    }
}

/// Raises a delay to at least `MIN_FRAME_DELAY_MS`.
pub fn apply_delay_floor(ms: u32) -> (r: u32)
    ensures
        r == floored(ms),
        r >= MIN_FRAME_DELAY_MS,
        ms >= MIN_FRAME_DELAY_MS ==> r == ms,
{
    if ms < MIN_FRAME_DELAY_MS {
        MIN_FRAME_DELAY_MS
    } else {
        ms
    }
}

/// The delay of one frame, given the stream's ticks per second (`None` where
/// the stream is not animated) and the frame's duration in ticks.
pub fn frame_delay_ms(animation: Option<(u32, u32)>, duration_ticks: Option<u32>) -> (r: u32)
    ensures
        r == delay_of(animation, duration_ticks),
        r >= MIN_FRAME_DELAY_MS,
{
    let raw: u32 = match animation {
        None => 0,
        Some(tps) => {
            let ticks: u32 = match duration_ticks {
                Some(t) => t,
                None => 1,
            };
            ticks_to_ms(tps.0, tps.1, ticks, 1)
        },
    };
    apply_delay_floor(raw)
}

/// The greatest common divisor of `a` and `b`.
pub open spec fn gcd(a: nat, b: nat) -> nat
    decreases b,
{
    if b == 0 {
        a
    } else {
        gcd(b, a % b)
    }
}

/// The greatest common divisor divides both numbers, and is positive unless
/// both are zero.
pub proof fn lemma_gcd_divides(a: nat, b: nat)
    requires
        a > 0 || b > 0,
    ensures
        gcd(a, b) > 0,
        a % gcd(a, b) == 0,
        b % gcd(a, b) == 0,
    decreases b,
{
    if b > 0 {
        lemma_gcd_divides(b, a % b);
        let g = gcd(b, a % b);
        let r = a % b;
        assert(b == (b / g) * g) by (nonlinear_arith)
            requires b % g == 0, g > 0;
        assert(r == (r / g) * g) by (nonlinear_arith)
            requires r % g == 0, g > 0;
        assert(a == (a / b) * b + r) by (nonlinear_arith)
            requires b > 0, r == a % b;
        let q = (a / b) * (b / g) + r / g;
        assert(a == q * g) by (nonlinear_arith)
            requires a == (a / b) * b + r, b == (b / g) * g, r == (r / g) * g, q == (a / b) * (b / g) + r / g;
        assert(a % g == 0) by (nonlinear_arith)
            requires a == q * g, g > 0, q >= 0;
    }
}

/// The APNG delay fraction (numerator, denominator in seconds) for a delay in
/// milliseconds: `ms / 1000` where `ms` fits in 16 bits, else that fraction
/// reduced to lowest terms where it fits, else none.
pub open spec fn apng_delay_of(ms: u32) -> Option<(u16, u16)> {
    if ms <= u16::MAX {
        Some((ms as u16, 1000u16))
    } else if (ms as nat) / gcd(ms as nat, 1000) <= u16::MAX {
        Some((((ms as nat) / gcd(ms as nat, 1000)) as u16, (1000nat / gcd(ms as nat, 1000)) as u16))
    } else {
        None
    }
}

/// Expresses a delay in milliseconds as an APNG delay fraction of exactly the
/// same value, or `None` where no such fraction fits in 16 bits.
pub fn apng_delay(ms: u32) -> (r: Option<(u16, u16)>)
    ensures
        r == apng_delay_of(ms),
        ms <= u16::MAX ==> r == Some((ms as u16, 1000u16)),
        r is Some ==> r->Some_0.1 > 0 && r->Some_0.0 * 1000 == ms * r->Some_0.1,
{
    if ms <= u16::MAX as u32 {
        return Some((ms as u16, 1000));
    }
    let mut x: u32 = ms;
    let mut y: u32 = 1000;
    while y != 0
        invariant
            gcd(x as nat, y as nat) == gcd(ms as nat, 1000),
        decreases y,
    {
        let t = x % y;
        x = y;
        y = t;
    }
    let g = x;
    proof {
        lemma_gcd_divides(ms as nat, 1000);
    }
    assert(g > 0 && ms % g == 0 && 1000u32 % g == 0);
    assert(g as nat == gcd(ms as nat, 1000));
    let n = ms / g;
    let d = 1000 / g;
    if n > u16::MAX as u32 {
        return None;
    }
    proof {
        assert(n * g == ms) by (nonlinear_arith)
            requires n == ms / g, ms % g == 0, g > 0;
        assert(d * g == 1000) by (nonlinear_arith)
            requires d == 1000u32 / g, 1000u32 % g == 0, g > 0;
        assert(n * 1000 == ms * d) by (nonlinear_arith)
            requires n * g == ms, d * g == 1000;
        assert(d > 0) by (nonlinear_arith)
            requires d * g == 1000;
    }
    Some((n as u16, d as u16))
}

} // verus!
