use vstd::prelude::*;
use vstd::arithmetic::div_mod::{
    lemma_fundamental_div_mod,
    lemma_fundamental_div_mod_converse_mod,
    lemma_mod_add_multiples_vanish,
    lemma_mod_bound,
};

use crate::segment::{parabola_lobe, second_order, triangle, triangle_lobe, Lobe};
use crate::timing::MAX_RATE;

verus! {

/// Peak amplitudes of the five lobes of a beat, relative to the R wave, in
/// ten-thousandths (`PWAVE / SCALE` is the P wave's peak).
pub struct WaveAmps;

impl WaveAmps {
    pub const SCALE: i64 = 10000;
    pub const PWAVE: i64 = 1500;
    pub const QWAVE: i64 = 156;
    pub const RWAVE: i64 = 10000;
    pub const SWAVE: i64 = 1563;
    pub const TWAVE: i64 = 2188;
}

/// Number of ticks in one beat at `rate` ticks per second and `bpm` beats per
/// minute: the beat period `60 / bpm` seconds times the rate, rounded down.
pub open spec fn beat_ticks(bpm: nat, rate: nat) -> nat {
    60 * rate / bpm
}

/// Ticks per beat for a heart at `bpm` sampled at `rate` ticks per second.
pub fn ticks_per_beat(bpm: u64, rate: u64) -> (r: u64)
    requires
        bpm > 0,
        rate <= MAX_RATE,
    ensures
        r == beat_ticks(bpm as nat, rate as nat),
{
    60 * rate / bpm
}

/// The durations of a beat's parts, in ticks at a fixed sampling rate.
#[derive(Clone, Copy, Debug, PartialEq, Eq, Structural)]
pub struct TickProfile {
    pub ticks_per_beat: u64,
    pub p_duration: u64,
    pub p_to_q_interval: u64,
    pub q_duration: u64,
    pub r_duration: u64,
    pub s_duration: u64,
    pub s_to_t_interval: u64,
    pub t_duration: u64,
}

/// Offset of the Q wave from the start of the beat.
pub open spec fn q_offset(p: TickProfile) -> int {
    p.p_duration + p.p_to_q_interval
}

/// Offset of the R wave from the start of the beat.
pub open spec fn r_offset(p: TickProfile) -> int {
    q_offset(p) + p.q_duration
}

/// Offset of the S wave from the start of the beat.
pub open spec fn s_offset(p: TickProfile) -> int {
    r_offset(p) + p.r_duration
}

/// Offset of the T wave from the start of the beat.
pub open spec fn t_offset(p: TickProfile) -> int {
    s_offset(p) + p.s_duration + p.s_to_t_interval
}

/// The five lobes P, Q, R, S, T at tick `now` of a beat that started at `start`.
pub open spec fn composite(p: TickProfile, now: int, start: int) -> Seq<(int, int)> {
    seq![
        parabola_lobe(now, start, p.p_duration as int),
        triangle_lobe(now, start + q_offset(p), p.q_duration as int),
        triangle_lobe(now, start + r_offset(p), p.r_duration as int),
        triangle_lobe(now, start + s_offset(p), p.s_duration as int),
        parabola_lobe(now, start + t_offset(p), p.t_duration as int),
    ]
}

/// The tick on which the beat that holds tick `c` started, when the first beat
/// starts at tick 0 and a new one every `tpb` ticks (every tick if `tpb` is 0).
pub open spec fn beat_start(tpb: int, c: int) -> int {
    if tpb <= 0 {
        c
    } else {
        c - c % tpb
    }
}

/// The lobes of the signal at tick `c` of a run that starts at tick 0.
pub open spec fn waveform(p: TickProfile, c: int) -> Seq<(int, int)> {
    composite(p, c, beat_start(p.ticks_per_beat as int, c))
}

/// The lobes of one tick. Lobe `i` contributes `amp_i * num / den` times the
/// heart's amplitude, where `amp_i` is the lobe's entry of `WaveAmps` with the
/// Q and S waves negative.
#[derive(Clone, Copy, Debug)]
pub struct Wave {
    pub p: Lobe,
    pub q: Lobe,
    pub r: Lobe,
    pub s: Lobe,
    pub t: Lobe,
}

impl View for Wave {
    type V = Seq<(int, int)>;

    open spec fn view(&self) -> Seq<(int, int)> {
        seq![self.p@, self.q@, self.r@, self.s@, self.t@]
    }
}

impl Wave {
    /// Each lobe with its signed peak amplitude in ten-thousandths of the R
    /// wave's, in the order P, Q, R, S, T; the Q and S waves point down.
    pub fn weighted(&self) -> (r: Vec<(i64, Lobe)>)
        ensures
            r@ == seq![
                (WaveAmps::PWAVE, self.p),
                ((-WaveAmps::QWAVE) as i64, self.q),
                (WaveAmps::RWAVE, self.r),
                ((-WaveAmps::SWAVE) as i64, self.s),
                (WaveAmps::TWAVE, self.t),
            ],
    {
        let mut r: Vec<(i64, Lobe)> = Vec::new();
        r.push((WaveAmps::PWAVE, self.p));
        r.push((-WaveAmps::QWAVE, self.q));
        r.push((WaveAmps::RWAVE, self.r));
        r.push((-WaveAmps::SWAVE, self.s));
        r.push((WaveAmps::TWAVE, self.t));
        assert(r@ =~= seq![
            (WaveAmps::PWAVE, self.p),
            ((-WaveAmps::QWAVE) as i64, self.q),
            (WaveAmps::RWAVE, self.r),
            ((-WaveAmps::SWAVE) as i64, self.s),
            (WaveAmps::TWAVE, self.t),
        ]);
        r
    }
}

impl TickProfile {
    /// The five lobes at tick `tick_now` of a beat that started at `beat_start`.
    pub fn wave(&self, tick_now: u64, beat_start: u64) -> (r: Wave)
        ensures
            r@ == composite(*self, tick_now as int, beat_start as int),
    {
        let start = beat_start as u128;
        let q_begin: u128 = start + self.p_duration as u128 + self.p_to_q_interval as u128;
        let r_begin: u128 = q_begin + self.q_duration as u128;
        let s_begin: u128 = r_begin + self.r_duration as u128;
        let t_begin: u128 = s_begin + self.s_duration as u128 + self.s_to_t_interval as u128;
        Wave {
            p: second_order(tick_now, start, self.p_duration),
            q: triangle(tick_now, q_begin, self.q_duration),
            r: triangle(tick_now, r_begin, self.r_duration),
            s: triangle(tick_now, s_begin, self.s_duration),
            t: second_order(tick_now, t_begin, self.t_duration),
        }
    }
}

proof fn lemma_beat_step(tpb: int, c: int)
    requires
        tpb > 0,
        c >= 1,
    ensures
        (c - 1) % tpb == tpb - 1 ==> c % tpb == 0,
        (c - 1) % tpb < tpb - 1 ==> c % tpb == (c - 1) % tpb + 1,
        0 <= (c - 1) % tpb < tpb,
{
    let m = (c - 1) % tpb;
    let q = (c - 1) / tpb;
    lemma_fundamental_div_mod(c - 1, tpb);
    lemma_mod_bound(c - 1, tpb);
    assert(tpb * q == q * tpb) by (nonlinear_arith);
    if m == tpb - 1 {
        assert((q + 1) * tpb == q * tpb + tpb) by (nonlinear_arith);
        lemma_fundamental_div_mod_converse_mod(c, tpb, q + 1, 0);
    } else {
        lemma_fundamental_div_mod_converse_mod(c, tpb, q, m + 1);
    }
}

/// The signal repeats every beat: for a fixed profile, the lobes at tick
/// `c + ticks_per_beat` are those at tick `c`.
pub proof fn lemma_waveform_periodic(p: TickProfile, c: nat)
    ensures
        waveform(p, c + p.ticks_per_beat) == waveform(p, c as int),
{
    let tpb = p.ticks_per_beat as int;
    if tpb > 0 {
        lemma_mod_add_multiples_vanish(c as int, tpb);
        assert(beat_start(tpb, c + tpb) == beat_start(tpb, c as int) + tpb);
        assert(waveform(p, c + tpb) =~= waveform(p, c as int));
    }
}

/// The tick loop's position: the tick about to be produced and the tick on which
/// the current beat started.
pub struct BeatClock {
    pub profile: TickProfile,
    pub current_tick: u64,
    pub beat_start_tick: u64,
}

impl BeatClock {
    /// The beat start is the one that tick `current_tick - 1` had.
    pub open spec fn wf(&self) -> bool {
        self.beat_start_tick == if self.current_tick == 0 {
            0
        } else {
            beat_start(self.profile.ticks_per_beat as int, self.current_tick - 1)
        }
    }

    pub fn new(profile: TickProfile) -> (r: BeatClock)
        ensures
            r.wf(),
            r.profile == profile,
            r.current_tick == 0,
    {
        BeatClock { profile, current_tick: 0, beat_start_tick: 0 }
    }

    /// Produces the lobes of the current tick and moves to the next one. A new
    /// beat starts once a whole beat's ticks have passed since the last start.
    pub fn tick(&mut self) -> (r: Wave)
        requires
            old(self).wf(),
            old(self).current_tick < u64::MAX,
        ensures
            final(self).wf(),
            final(self).profile == old(self).profile,
            final(self).current_tick == old(self).current_tick + 1,
            r@ == waveform(old(self).profile, old(self).current_tick as int),
    {
        let c = self.current_tick;
        let ghost tpb = self.profile.ticks_per_beat as int;
        proof {
            if tpb > 0 && c >= 1 {
                lemma_beat_step(tpb, c as int);
            }
            if tpb > 0 && c == 0 {
                assert(0int % tpb == 0);
            }
        }
        if c - self.beat_start_tick >= self.profile.ticks_per_beat {
            self.beat_start_tick = c;
        }
        assert(self.beat_start_tick == beat_start(tpb, c as int));
        let w = self.profile.wave(c, self.beat_start_tick);
        self.current_tick = c + 1;
        w
    }
}

} // verus!
