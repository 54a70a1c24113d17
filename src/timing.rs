use vstd::prelude::*;

verus! {

/// The highest sampling rate the tick loop can keep: one tick per millisecond.
pub const MAX_RATE: u64 = 1000;

/// The sampling rate actually used for a requested rate `freq`.
pub open spec fn actual_rate(freq: nat) -> nat {
    if freq > MAX_RATE {
        MAX_RATE as nat
    } else {
        freq
    }
}

/// The pause between two ticks, in whole milliseconds, at rate `freq`.
pub open spec fn sleep_interval_ms(freq: nat) -> nat {
    1000nat / actual_rate(freq)
}

/// Returns the sleep interval between ticks in milliseconds, then the sampling
/// rate actually used, for a requested rate `freq`.
///
/// The rate is capped at one tick per millisecond; the interval is rounded down,
/// so the rate achieved is `1000 / interval`, which differs from `freq` whenever
/// `freq` does not divide 1000.
pub fn actual_thread_wait_time(freq: u64) -> (r: Vec<u64>)
    requires
        freq > 0,
    ensures
        r@ == seq![sleep_interval_ms(freq as nat) as u64, actual_rate(freq as nat) as u64],
{
    let mut actual_baud = freq;
    if actual_baud > MAX_RATE {
        actual_baud = MAX_RATE;
    }
    let mut return_vec: Vec<u64> = Vec::new();
    return_vec.push(1000 / actual_baud);
    return_vec.push(actual_baud);
    return_vec
}

} // verus!
