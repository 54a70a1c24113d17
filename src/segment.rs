use vstd::prelude::*;

verus! {

/// The value of one lobe at one tick, as the exact fraction `num / den` of the
/// lobe's peak amplitude. `den` is never zero.
#[derive(Clone, Copy, Debug, PartialEq, Eq, Structural)]
pub struct Lobe {
    pub num: i128,
    pub den: u128,
}

impl View for Lobe {
    type V = (int, int);

    open spec fn view(&self) -> (int, int) {
        (self.num as int, self.den as int)
    }
}

/// Distance between two ticks.
pub open spec fn dist(a: int, b: int) -> int {
    if a >= b {
        a - b
    } else {
        b - a
    }
}

/// Whether tick `t` lies in the closed window `[b, b + d]`.
pub open spec fn in_window(t: int, b: int, d: int) -> bool {
    b <= t <= b + d
}

/// The lobe that contributes nothing.
pub open spec fn silent() -> (int, int) {
    (0, 1)
}

/// A linear tent over `[b, b + d]` that reaches its peak at `b + d / 2`.
/// A window too short to have a peak tick contributes nothing.
pub open spec fn triangle_lobe(t: int, b: int, d: int) -> (int, int) {
    let peak = d / 2;
    if peak == 0 || !in_window(t, b, d) {
        silent()
    } else {
        (peak - dist(t, b + peak), peak)
    }
}

/// A downward parabola over `[b, b + d]` centred on `b + d / 2`, scaled by
/// `d * d / 4`. A window whose scale is zero contributes nothing.
pub open spec fn parabola_lobe(t: int, b: int, d: int) -> (int, int) {
    let a = d * d / 4;
    if a == 0 || !in_window(t, b, d) {
        silent()
    } else {
        (a - dist(t, b + d / 2) * dist(t, b + d / 2), a)
    }
}

impl Lobe {
    pub fn zero() -> (r: Lobe)
        ensures
            r@ == silent(),
    {
        Lobe { num: 0, den: 1 }
    }
}

/// The triangle segment at tick `tick_now` for a segment that starts at
/// `tick_begin` and lasts `duration` ticks.
pub fn triangle(tick_now: u64, tick_begin: u128, duration: u64) -> (r: Lobe)
    requires
        tick_begin + duration <= u128::MAX,
    ensures
        r@ == triangle_lobe(tick_now as int, tick_begin as int, duration as int),
        r.den > 0,
        !in_window(tick_now as int, tick_begin as int, duration as int) ==> r.num == 0,
        duration >= 2 && tick_now == tick_begin + duration / 2 ==> r.num == r.den,
{
    let peak: u64 = duration / 2;
    let now = tick_now as u128;
    if peak == 0 || now < tick_begin || now > tick_begin + duration as u128 {
        return Lobe::zero();
    }
    let peak_tick: u128 = tick_begin + peak as u128;
    let d: u128 = if now >= peak_tick {
        now - peak_tick
    } else {
        peak_tick - now
    };
    Lobe { num: peak as i128 - d as i128, den: peak as u128 }
}

/// The parabolic segment at tick `tick_now` for a segment that starts at
/// `tick_begin` and lasts `duration` ticks.
pub fn second_order(tick_now: u64, tick_begin: u128, duration: u64) -> (r: Lobe)
    requires
        tick_begin + duration <= u128::MAX,
    ensures
        r@ == parabola_lobe(tick_now as int, tick_begin as int, duration as int),
        r.den > 0,
        !in_window(tick_now as int, tick_begin as int, duration as int) ==> r.num == 0,
        duration >= 2 && tick_now == tick_begin + duration / 2 ==> r.num == r.den,
{
    let dur = duration as u128;
    assert(dur * dur <= u64::MAX * u64::MAX) by (nonlinear_arith)
        requires
            dur <= u64::MAX,
    ;
    let a: u128 = dur * dur / 4;
    proof {
        if duration >= 2 {
            assert(dur * dur >= 4) by (nonlinear_arith)
                requires
                    dur >= 2,
            ;
        }
    }
    let now = tick_now as u128;
    if a == 0 || now < tick_begin || now > tick_begin + dur {
        return Lobe::zero();
    }
    let center: u128 = tick_begin + dur / 2;
    let d: u128 = if now >= center {
        now - center
    } else {
        center - now
    };
    assert(d * d <= 0x8000_0000_0000_0000u128 * 0x8000_0000_0000_0000u128) by (nonlinear_arith)
        requires
            d <= 0x8000_0000_0000_0000u128,
    ;
    assert(a < 0x4000_0000_0000_0000_0000_0000_0000_0000u128);
    let sq: u128 = d * d;
    assert(d == 0 ==> sq == 0) by (nonlinear_arith)
        requires
            sq == d * d,
    ;
    Lobe { num: a as i128 - sq as i128, den: a }
}

} // verus!
