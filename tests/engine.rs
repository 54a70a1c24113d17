use rust_heart::{
    BeatClock, NoiseTerm, NoiseTypes, Schedule, SimpleHeart, TickProfile, Wave, WaveAmps,
    BUFFER_CAPACITY,
};

fn profile(bpm: u64, rate: u64) -> TickProfile {
    let rr = 60.0 / bpm as f64;
    let root = rr.sqrt();
    let qrs = 0.25 * root - 0.16 * rr - 0.02;
    let ticks = |seconds: f64| (seconds * rate as f64) as u64;
    TickProfile {
        ticks_per_beat: rust_heart::ticks_per_beat(bpm, rate),
        p_duration: ticks(0.37 * root - 0.22 * rr - 0.06),
        p_to_q_interval: ticks(0.33 * root - 0.18 * rr - 0.08),
        q_duration: ticks(qrs * 0.23),
        r_duration: ticks(qrs * 0.42),
        s_duration: ticks(qrs * 0.35),
        s_to_t_interval: ticks(-0.09 * root + 0.13 * rr + 0.04),
        t_duration: ticks(1.06 * root - 0.51 * rr - 0.33),
    }
}

fn lobe_values(w: &Wave) -> Vec<f64> {
    w.weighted()
        .iter()
        .map(|(amp, l)| *amp as f64 / WaveAmps::SCALE as f64 * l.num as f64 / l.den as f64)
        .collect()
}

fn run(heart: &mut SimpleHeart<f64, f64>, clock: &mut BeatClock, rate: u64, ticks: u64) {
    for _ in 0..ticks {
        let noise: f64 = heart
            .calculate_noise(clock.current_tick, rate)
            .iter()
            .map(|t| match t {
                NoiseTerm::Hum { amplitude, point, wave_len } => {
                    (*point as f64 / *wave_len as f64 * 2.0 * std::f64::consts::PI).sin() * amplitude
                },
                _ => 0.0,
            })
            .sum();
        let w = clock.tick();
        let v: f64 = lobe_values(&w).iter().sum::<f64>() * heart.amplitude() + noise;
        heart.record(v);
    }
}

#[test]
fn read_on_a_fresh_heart_is_empty() {
    let mut h: SimpleHeart<f64, f64> = SimpleHeart::new(60, 1.0);
    assert!(h.return_values().is_empty());
    assert!(!h.is_active());
}

#[test]
fn zero_bpm_is_taken_as_one() {
    let h: SimpleHeart<f64, f64> = SimpleHeart::new(0, 1.0);
    assert_eq!(h.bpm(), 1);
}

#[test]
fn only_the_first_start_runs_a_loop() {
    let mut h: SimpleHeart<f64, f64> = SimpleHeart::new(60, 1.0);
    assert_eq!(h.start_beat(500), Some(Schedule { interval_ms: 2, rate: 500 }));
    assert!(h.is_active());
    assert_eq!(h.start_beat(500), None);
    assert_eq!(h.start_beat(250), None);
    assert!(h.is_active());
}

#[test]
fn start_at_zero_hertz_runs_no_loop() {
    let mut h: SimpleHeart<f64, f64> = SimpleHeart::new(60, 1.0);
    assert_eq!(h.start_beat(0), None);
    assert!(h.is_active());
    assert_eq!(h.start_beat(500), None);
}

#[test]
fn start_quantises_the_rate() {
    let mut h: SimpleHeart<f64, f64> = SimpleHeart::new(60, 1.0);
    assert_eq!(h.start_beat(3000), Some(Schedule { interval_ms: 1, rate: 1000 }));
}

#[test]
fn buffer_stops_at_its_capacity() {
    let mut h: SimpleHeart<f64, u64> = SimpleHeart::new(60, 1.0);
    for i in 0..(BUFFER_CAPACITY as u64 + 100) {
        let kept = h.record(i);
        assert_eq!(kept, i < BUFFER_CAPACITY as u64);
        assert!(h.pending() <= BUFFER_CAPACITY);
    }
    let out = h.return_values();
    assert_eq!(out.len(), BUFFER_CAPACITY);
    assert_eq!(out, (0..BUFFER_CAPACITY as u64).collect::<Vec<u64>>());
    assert_eq!(h.pending(), 0);
    assert!(h.return_values().is_empty());
}

#[test]
fn read_returns_what_was_appended_since_the_last_read() {
    let mut h: SimpleHeart<f64, u64> = SimpleHeart::new(60, 1.0);
    h.record(1);
    h.record(2);
    assert_eq!(h.return_values(), vec![1, 2]);
    h.record(3);
    assert_eq!(h.return_values(), vec![3]);
    assert_eq!(h.return_values(), Vec::<u64>::new());
}

#[test]
fn noise_terms_follow_the_attach_order_and_reset_clears_them() {
    let mut h: SimpleHeart<f64, f64> = SimpleHeart::new(60, 1.0);
    h.add_noise(NoiseTypes::RandomNoise, 0.1, 0);
    h.add_noise(NoiseTypes::MainsNoise, 0.2, 50);
    let terms = h.calculate_noise(3, 1000);
    assert_eq!(terms.len(), 2);
    assert!(matches!(terms[0], NoiseTerm::Draw { amplitude } if amplitude == 0.1));
    assert!(matches!(terms[1], NoiseTerm::Hum { amplitude, point: 3, wave_len: 20 } if amplitude == 0.2));
    h.reset_noise();
    assert!(h.calculate_noise(3, 1000).is_empty());
}

#[test]
fn beat_clock_restarts_every_beat() {
    let p = TickProfile {
        ticks_per_beat: 10,
        p_duration: 2,
        p_to_q_interval: 1,
        q_duration: 2,
        r_duration: 2,
        s_duration: 2,
        s_to_t_interval: 0,
        t_duration: 2,
    };
    let mut clock = BeatClock::new(p);
    let waves: Vec<Vec<f64>> = (0..40).map(|_| lobe_values(&clock.tick())).collect();
    for c in 0..30 {
        assert_eq!(waves[c], waves[c + 10]);
    }
    assert_eq!(clock.current_tick, 40);
    assert_eq!(clock.beat_start_tick, 30);
    // the R wave peaks at tick 6 of each beat
    assert_eq!(waves[6][2], 1.0);
    assert_eq!(waves[16][2], 1.0);
}

#[test]
fn waveform_is_periodic_for_a_physiological_profile() {
    let p = profile(75, 1000);
    assert_eq!(p.ticks_per_beat, 800);
    let mut clock = BeatClock::new(p);
    let waves: Vec<Vec<f64>> = (0..2400).map(|_| lobe_values(&clock.tick())).collect();
    for c in 0..1600 {
        assert_eq!(waves[c], waves[c + 800]);
    }
}

#[test]
fn one_second_at_sixty_bpm_shows_five_lobes_in_order() {
    let mut h: SimpleHeart<f64, f64> = SimpleHeart::new(60, 1.0);
    let sched = h.start_beat(500).unwrap();
    assert_eq!(sched, Schedule { interval_ms: 2, rate: 500 });
    let p = profile(h.bpm(), sched.rate);
    let mut clock = BeatClock::new(p);
    run(&mut h, &mut clock, sched.rate, 500);
    let out = h.return_values();
    assert_eq!(out.len(), 500);
    assert!(out.len() <= 1000);

    // where each lobe is non-zero, over one beat
    let mut clock = BeatClock::new(p);
    let lobes: Vec<Vec<f64>> = (0..500).map(|_| lobe_values(&clock.tick())).collect();
    let first = |i: usize| lobes.iter().position(|l| l[i] != 0.0).unwrap();
    let (fp, fq, fr, fs, ft) = (first(0), first(1), first(2), first(3), first(4));
    assert!(fp < fq && fq < fr && fr < fs && fs < ft);
    assert!(lobes.iter().any(|l| l[0] > 0.0));
    assert!(lobes.iter().any(|l| l[1] < 0.0));
    assert!(lobes.iter().any(|l| l[3] < 0.0));
    assert!(lobes.iter().any(|l| l[4] > 0.0));

    // R is the largest deflection of the signal
    let peak = out
        .iter()
        .enumerate()
        .max_by(|a, b| a.1.abs().partial_cmp(&b.1.abs()).unwrap())
        .unwrap();
    assert!(lobes[peak.0][2] > 0.0);
    assert!((peak.1 - 1.0).abs() < 1e-9);
}

#[test]
fn hum_at_the_sampling_rate_leaves_the_signal_unchanged() {
    let p = profile(60, 500);
    let mut clean: SimpleHeart<f64, f64> = SimpleHeart::new(60, 1.0);
    let mut noisy: SimpleHeart<f64, f64> = SimpleHeart::new(60, 1.0);
    noisy.add_noise(NoiseTypes::MainsNoise, 3.0, 500);
    noisy.add_noise(NoiseTypes::MainsNoise, 3.0, 800);
    run(&mut clean, &mut BeatClock::new(p), 500, 600);
    run(&mut noisy, &mut BeatClock::new(p), 500, 600);
    assert_eq!(clean.return_values(), noisy.return_values());
}
