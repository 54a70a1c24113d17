use vstd::prelude::*;

use crate::noisegen::{source_of_kind, source_term, NoiseSource, NoiseTerm, NoiseTypes};
use crate::timing::{actual_rate, actual_thread_wait_time, sleep_interval_ms};

verus! {

/// The most samples an output buffer holds between two reads.
pub const BUFFER_CAPACITY: usize = 5000;

/// `buf` after appending `sample`: kept while there is room, dropped once full.
pub open spec fn bounded_push<T>(buf: Seq<T>, sample: T) -> Seq<T> {
    if buf.len() < BUFFER_CAPACITY {
        buf.push(sample)
    } else {
        buf
    }
}

/// `buf` after appending each of `samples` in turn.
pub open spec fn bounded_push_all<T>(buf: Seq<T>, samples: Seq<T>) -> Seq<T>
    decreases samples.len(),
{
    if samples.len() == 0 {
        buf
    } else {
        bounded_push(bounded_push_all(buf, samples.drop_last()), samples.last())
    }
}

/// Generated samples in production order, at most `BUFFER_CAPACITY` of them.
/// Samples that arrive while the buffer is full are dropped.
pub struct SampleBuffer<T> {
    samples: Vec<T>,
}

impl<T> View for SampleBuffer<T> {
    type V = Seq<T>;

    closed spec fn view(&self) -> Seq<T> {
        self.samples@
    }
}

impl<T> SampleBuffer<T> {
    pub open spec fn wf(&self) -> bool {
        self@.len() <= BUFFER_CAPACITY
    }

    pub fn new() -> (r: SampleBuffer<T>)
        ensures
            r@ == Seq::<T>::empty(),
            r.wf(),
    {
        SampleBuffer { samples: Vec::new() }
    }

    /// Appends `sample` if there is room; returns whether it was kept.
    pub fn push(&mut self, sample: T) -> (r: bool)
        requires
            old(self).wf(),
        ensures
            final(self)@ == bounded_push(old(self)@, sample),
            r == (old(self)@.len() < BUFFER_CAPACITY),
            final(self).wf(),
    {
        if self.samples.len() < BUFFER_CAPACITY {
            self.samples.push(sample);
            true
        } else {
            false
        }
    }

    /// Hands out every sample held, in production order, and empties the buffer.
    pub fn drain(&mut self) -> (r: Vec<T>)
        ensures
            r@ == old(self)@,
            final(self)@ == Seq::<T>::empty(),
            final(self).wf(),
    {
        let mut out: Vec<T> = Vec::new();
        std::mem::swap(&mut out, &mut self.samples);
        out
    }

    pub fn len(&self) -> (r: usize)
        ensures
            r == self@.len(),
    {
        self.samples.len()
    }
}

/// From a buffer within its capacity, a run of appends leaves the buffer's
/// samples followed by the appended ones, cut at the capacity: the buffer
/// never outgrows its capacity and keeps what it holds in order.
pub proof fn lemma_bounded_push_all<T>(buf: Seq<T>, samples: Seq<T>)
    requires
        buf.len() <= BUFFER_CAPACITY,
    ensures
        bounded_push_all(buf, samples).len() <= BUFFER_CAPACITY,
        bounded_push_all(buf, samples) == (buf + samples).take(
            if buf.len() + samples.len() < BUFFER_CAPACITY {
                (buf.len() + samples.len()) as int
            } else {
                BUFFER_CAPACITY as int
            },
        ),
    decreases samples.len(),
{
    if samples.len() == 0 {
        assert((buf + samples).take(buf.len() as int) =~= buf);
    } else {
        let init = samples.drop_last();
        lemma_bounded_push_all(buf, init);
        let prev = bounded_push_all(buf, init);
        if buf.len() + init.len() < BUFFER_CAPACITY {
            assert(prev =~= buf + init);
            assert(bounded_push(prev, samples.last()) =~= (buf + samples).take(
                (buf.len() + samples.len()) as int,
            ));
        } else {
            assert(prev =~= (buf + samples).take(BUFFER_CAPACITY as int));
        }
    }
}

/// The timing of a running tick loop: the pause between ticks in milliseconds
/// and the sampling rate actually used.
#[derive(Clone, Copy, Debug, PartialEq, Eq, Structural)]
pub struct Schedule {
    pub interval_ms: u64,
    pub rate: u64,
}

/// The schedule of a tick loop asked to run at `freq` ticks per second.
pub open spec fn schedule_for(freq: nat) -> Schedule {
    Schedule { interval_ms: sleep_interval_ms(freq) as u64, rate: actual_rate(freq) as u64 }
}

/// The state of a heart as its users see it.
pub struct HeartView<A, T> {
    pub active: bool,
    pub bpm: u64,
    pub amplitude: A,
    pub noises: Seq<NoiseSource<A>>,
    pub samples: Seq<T>,
}

/// A heart after `start_beat(freq)`, and the schedule of the loop to run, if
/// one is to run: only the first start of a heart runs a loop, and a rate of
/// zero ticks per second runs none.
pub open spec fn start_step<A, T>(h: HeartView<A, T>, freq: u64) -> (HeartView<A, T>, Option<Schedule>) {
    if h.active {
        (h, None)
    } else {
        (
            HeartView { active: true, ..h },
            if freq == 0 {
                None
            } else {
                Some(schedule_for(freq as nat))
            },
        )
    }
}

/// Of two starts of one heart, the second never runs a loop, so a heart runs at
/// most one.
pub proof fn lemma_start_once<A, T>(h: HeartView<A, T>, first: u64, second: u64)
    ensures
        start_step(h, first).0.active,
        start_step(start_step(h, first).0, second).1 is None,
        start_step(start_step(h, first).0, second).0 == start_step(h, first).0,
{
}

/// A single-lead ECG generator. It holds the heart rate, the amplitude of the R
/// wave, the attached noise sources in the order they were attached, a bounded
/// buffer of generated samples of type `T`, and whether its tick loop has been
/// started.
pub struct SimpleHeart<A, T> {
    active: bool,
    bpm: u64,
    amplitude: A,
    attached_noises: Vec<NoiseSource<A>>,
    output_value: SampleBuffer<T>,
}

impl<A, T> View for SimpleHeart<A, T> {
    type V = HeartView<A, T>;

    closed spec fn view(&self) -> HeartView<A, T> {
        HeartView {
            active: self.active,
            bpm: self.bpm,
            amplitude: self.amplitude,
            noises: self.attached_noises@,
            samples: self.output_value@,
        }
    }
}

impl<A: Copy, T> SimpleHeart<A, T> {
    pub open spec fn wf(&self) -> bool {
        self@.samples.len() <= BUFFER_CAPACITY && self@.bpm > 0
    }

    /// A heart at `bpm` beats per minute whose R wave peaks at `amplitude`.
    /// A rate of 0 is taken as 1 beat per minute, so that the beat period is
    /// finite.
    pub fn new(bpm: u64, amplitude: A) -> (r: SimpleHeart<A, T>)
        ensures
            r@ == (HeartView {
                active: false,
                bpm: if bpm == 0 {
                    1
                } else {
                    bpm
                },
                amplitude,
                noises: Seq::<NoiseSource<A>>::empty(),
                samples: Seq::<T>::empty(),
            }),
            r.wf(),
    {
        SimpleHeart {
            active: false,
            bpm: if bpm == 0 {
                1
            } else {
                bpm
            },
            amplitude,
            attached_noises: Vec::new(),
            output_value: SampleBuffer::new(),
        }
    }

    /// Marks the heart as started and returns the schedule of the tick loop to
    /// run, on the first call only; later calls change nothing.
    pub fn start_beat(&mut self, freq: u64) -> (r: Option<Schedule>)
        requires
            old(self).wf(),
        ensures
            (final(self)@, r) == start_step(old(self)@, freq),
            final(self).wf(),
    {
        if self.active {
            return None;
        }
        self.active = true;
        if freq == 0 {
            return None;
        }
        let timings = actual_thread_wait_time(freq);
        Some(Schedule { interval_ms: timings[0], rate: timings[1] })
    }

    /// Returns the samples generated since the last read, in production order,
    /// and empties the buffer.
    pub fn return_values(&mut self) -> (r: Vec<T>)
        requires
            old(self).wf(),
        ensures
            r@ == old(self)@.samples,
            final(self)@ == (HeartView { samples: Seq::<T>::empty(), ..old(self)@ }),
            final(self).wf(),
    {
        self.output_value.drain()
    }

    /// Appends a generated sample, or drops it if the buffer is full; returns
    /// whether it was kept.
    pub fn record(&mut self, sample: T) -> (r: bool)
        requires
            old(self).wf(),
        ensures
            final(self)@ == (HeartView {
                samples: bounded_push(old(self)@.samples, sample),
                ..old(self)@
            }),
            r == (old(self)@.samples.len() < BUFFER_CAPACITY),
            final(self).wf(),
    {
        self.output_value.push(sample)
    }

    /// The terms that the attached noise sources add at tick `current_tick` for
    /// a sampling rate of `tick_freq`, in the order the sources were attached.
    pub fn calculate_noise(&self, current_tick: u64, tick_freq: u64) -> (r: Vec<NoiseTerm<A>>)
        ensures
            r@.len() == self@.noises.len(),
            forall|i: int|
                0 <= i < r@.len() ==> r@[i] == source_term(
                    #[trigger] self@.noises[i],
                    current_tick as nat,
                    tick_freq as nat,
                ),
    {
        let mut terms: Vec<NoiseTerm<A>> = Vec::new();
        let mut i: usize = 0;
        while i < self.attached_noises.len()
            invariant
                i <= self.attached_noises@.len(),
                terms@.len() == i,
                forall|j: int|
                    0 <= j < i ==> terms@[j] == source_term(
                        #[trigger] self.attached_noises@[j],
                        current_tick as nat,
                        tick_freq as nat,
                    ),
            decreases self.attached_noises@.len() - i,
        {
            terms.push(self.attached_noises[i].get_tick_noise(current_tick, tick_freq));
            i = i + 1;
        }
        terms
    }

    /// Attaches a noise source after those already attached.
    pub fn attach_noise(&mut self, noise: NoiseSource<A>)
        requires
            old(self).wf(),
        ensures
            final(self)@ == (HeartView { noises: old(self)@.noises.push(noise), ..old(self)@ }),
            final(self).wf(),
    {
        self.attached_noises.push(noise);
    }

    /// Attaches a noise source of the given kind.
    pub fn add_noise(&mut self, kind: NoiseTypes, amplitude: A, frequency: u64)
        requires
            old(self).wf(),
        ensures
            final(self)@ == (HeartView {
                noises: old(self)@.noises.push(source_of_kind(kind, amplitude, frequency)),
                ..old(self)@
            }),
            final(self).wf(),
    {
        let noise = NoiseSource::of_kind(kind, amplitude, frequency);
        self.attach_noise(noise);
    }

    /// Removes every attached noise source.
    pub fn reset_noise(&mut self)
        requires
            old(self).wf(),
        ensures
            final(self)@ == (HeartView {
                noises: Seq::<NoiseSource<A>>::empty(),
                ..old(self)@
            }),
            final(self).wf(),
    {
        self.attached_noises = Vec::new();
    }

    pub fn is_active(&self) -> (r: bool)
        ensures
            r == self@.active,
    {
        self.active
    }

    pub fn bpm(&self) -> (r: u64)
        ensures
            r == self@.bpm,
    {
        self.bpm
    }

    pub fn amplitude(&self) -> (r: A)
        ensures
            r == self@.amplitude,
    {
        self.amplitude
    }

    /// The number of samples waiting to be read.
    pub fn pending(&self) -> (r: usize)
        ensures
            r == self@.samples.len(),
    {
        self.output_value.len()
    }
}

} // verus!
