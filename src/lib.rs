//! Real-time synthesis of a single-lead ECG signal.
//!
//! The library holds the exact, integer side of the generator: how a requested
//! sampling rate is quantised, where each of the five lobes of a beat lies in
//! ticks, the shape of each lobe as an exact ratio, how the beat cycle restarts,
//! the phase of a mains hum, the start-once gate of an engine and its bounded
//! output buffer. The host evaluates the ratios in floating point.
pub mod heart;
pub mod noisegen;
pub mod segment;
pub mod timing;
pub mod waveform;

pub use heart::{SampleBuffer, Schedule, SimpleHeart, BUFFER_CAPACITY};
pub use noisegen::{MainsNoise, NoiseSource, NoiseTerm, NoiseTypes, RandomNoise};
pub use segment::{second_order, triangle, Lobe};
pub use timing::{actual_thread_wait_time, MAX_RATE};
pub use waveform::{ticks_per_beat, BeatClock, TickProfile, Wave, WaveAmps};
