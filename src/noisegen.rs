use vstd::prelude::*;

verus! {

/// The kinds of noise that can be attached to a heart.
#[derive(Clone, Copy, Debug, PartialEq, Eq, Structural)]
pub enum NoiseTypes {
    MainsNoise,
    RandomNoise,
}

/// A mains hum: a sine of `frequency` hertz, shifted by `tick_shift` ticks.
/// `A` is the type of the hum's amplitude.
#[derive(Clone, Copy, Debug)]
pub struct MainsNoise<A> {
    pub amplitude: A,
    pub frequency: u64,
    pub tick_shift: u64,
}

/// Uniform random jitter in `[0, amplitude)`, drawn afresh on every tick.
#[derive(Clone, Copy, Debug)]
pub struct RandomNoise<A> {
    pub amplitude: A,
}

/// A noise source attached to a heart.
#[derive(Clone, Copy, Debug)]
pub enum NoiseSource<A> {
    Mains(MainsNoise<A>),
    Random(RandomNoise<A>),
}

/// What one noise source adds at one tick.
///
/// `Hum` adds `sin(2 * pi * point / wave_len) * amplitude`, with
/// `point < wave_len`; `Draw` adds a uniform draw in `[0, amplitude)`.
#[derive(Clone, Copy, Debug)]
pub enum NoiseTerm<A> {
    Silent,
    Hum { amplitude: A, point: u64, wave_len: u64 },
    Draw { amplitude: A },
}

/// The length in ticks of one period of a hum of `frequency` hertz at `rate`
/// ticks per second; 0 where a period is shorter than a tick.
pub open spec fn wave_len(frequency: nat, rate: nat) -> nat {
    if frequency == 0 {
        0
    } else {
        rate / frequency
    }
}

/// The term of a hum at tick `tick`: its position within the period, shift
/// included, or nothing where a period is shorter than a tick.
pub open spec fn hum_term<A>(n: MainsNoise<A>, tick: nat, rate: nat) -> NoiseTerm<A> {
    let len = wave_len(n.frequency as nat, rate);
    if len == 0 {
        NoiseTerm::Silent
    } else {
        NoiseTerm::Hum {
            amplitude: n.amplitude,
            point: ((tick % len + n.tick_shift as nat) % len) as u64,
            wave_len: len as u64,
        }
    }
}

/// The term of any source at tick `tick`.
pub open spec fn source_term<A>(s: NoiseSource<A>, tick: nat, rate: nat) -> NoiseTerm<A> {
    match s {
        NoiseSource::Mains(n) => hum_term(n, tick, rate),
        NoiseSource::Random(n) => NoiseTerm::Draw { amplitude: n.amplitude },
    }
}

/// Whether a term adds exactly zero whatever the amplitude: no term, or a sine
/// taken at the start of its period.
pub open spec fn adds_nothing<A>(t: NoiseTerm<A>) -> bool {
    match t {
        NoiseTerm::Silent => true,
        NoiseTerm::Hum { point, .. } => point == 0,
        NoiseTerm::Draw { .. } => false,
    }
}

/// The source that `add_noise` attaches for a kind, an amplitude and a frequency.
pub open spec fn source_of_kind<A>(kind: NoiseTypes, amplitude: A, frequency: u64) -> NoiseSource<A> {
    match kind {
        NoiseTypes::MainsNoise => NoiseSource::Mains(
            MainsNoise { amplitude, frequency, tick_shift: 0 },
        ),
        NoiseTypes::RandomNoise => NoiseSource::Random(RandomNoise { amplitude }),
    }
}

impl<A: Copy> MainsNoise<A> {
    pub fn new(amplitude: A, frequency: u64) -> (r: MainsNoise<A>)
        ensures
            r.amplitude == amplitude,
            r.frequency == frequency,
            r.tick_shift == 0,
    {
        MainsNoise { amplitude, frequency, tick_shift: 0 }
    }

    pub fn set_tick_shift(&mut self, new_shift: u64)
        ensures
            *final(self) == (MainsNoise { tick_shift: new_shift, ..*old(self) }),
    {
        self.tick_shift = new_shift;
    }

    /// The hum's term at tick `current_tick` for a sampling rate of `tick_freq`.
    /// A hum at or above the sampling rate adds exactly zero on every tick.
    pub fn get_tick_noise(&self, current_tick: u64, tick_freq: u64) -> (r: NoiseTerm<A>)
        ensures
            r == hum_term(*self, current_tick as nat, tick_freq as nat),
            self.frequency >= tick_freq ==> adds_nothing(r),
    {
        if self.frequency == 0 {
            return NoiseTerm::Silent;
        }
        let len = tick_freq / self.frequency;
        if len == 0 {
            return NoiseTerm::Silent;
        }
        let a = current_tick % len;
        let b = self.tick_shift % len;
        let point = if a >= len - b {
            a - (len - b)
        } else {
            a + b
        };
        proof {
            let t = current_tick as int;
            let s = self.tick_shift as int;
            let l = len as int;
            vstd::arithmetic::div_mod::lemma_add_mod_noop(t % l, s, l);
            vstd::arithmetic::div_mod::lemma_mod_twice(t, l);
            vstd::arithmetic::div_mod::lemma_add_mod_noop(t, s, l);
            vstd::arithmetic::div_mod::lemma_mod_bound(t, l);
            vstd::arithmetic::div_mod::lemma_mod_bound(s, l);
            if a >= len - b {
                vstd::arithmetic::div_mod::lemma_fundamental_div_mod_converse_mod(a + b, l, 1, point as int);
            } else {
                vstd::arithmetic::div_mod::lemma_fundamental_div_mod_converse_mod(a + b, l, 0, point as int);
            }
            assert((t % l + s) % l == point);
            if self.frequency >= tick_freq {
                assert(l <= 1) by (nonlinear_arith)
                    requires
                        l == tick_freq as int / self.frequency as int,
                        self.frequency >= tick_freq,
                        self.frequency > 0,
                ;
            }
        }
        NoiseTerm::Hum { amplitude: self.amplitude, point, wave_len: len }
    }
}

impl<A: Copy> RandomNoise<A> {
    pub fn new(amplitude: A) -> (r: RandomNoise<A>)
        ensures
            r.amplitude == amplitude,
    {
        RandomNoise { amplitude }
    }

    /// A fresh uniform draw in `[0, amplitude)` on every tick.
    pub fn get_tick_noise(&self, _current_tick: u64, _tick_freq: u64) -> (r: NoiseTerm<A>)
        ensures
            r == (NoiseTerm::Draw { amplitude: self.amplitude }),
    {
        NoiseTerm::Draw { amplitude: self.amplitude }
    }
}

impl<A: Copy> NoiseSource<A> {
    /// A source of the given kind. The frequency is that of a hum and is
    /// ignored for random jitter.
    pub fn of_kind(kind: NoiseTypes, amplitude: A, frequency: u64) -> (r: NoiseSource<A>)
        ensures
            r == source_of_kind(kind, amplitude, frequency),
    {
        match kind {
            NoiseTypes::MainsNoise => NoiseSource::Mains(MainsNoise::new(amplitude, frequency)),
            NoiseTypes::RandomNoise => NoiseSource::Random(RandomNoise::new(amplitude)),
        }
    }

    pub fn get_tick_noise(&self, current_tick: u64, tick_freq: u64) -> (r: NoiseTerm<A>)
        ensures
            r == source_term(*self, current_tick as nat, tick_freq as nat),
    {
        match self {
            NoiseSource::Mains(n) => n.get_tick_noise(current_tick, tick_freq),
            NoiseSource::Random(n) => n.get_tick_noise(current_tick, tick_freq),
        }
    }
}

} // verus!
