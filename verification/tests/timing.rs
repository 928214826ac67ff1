use rgbp::{interval_nanos, Due, Timer, Timing, NANOS_PER_SECOND};

#[test]
fn a_second_has_a_billion_nanoseconds() {
    assert_eq!(NANOS_PER_SECOND, 1_000_000_000);
}

#[test]
fn interval_of_the_default_rates() {
    assert_eq!(interval_nanos(60), Some(16_666_666));
    assert_eq!(interval_nanos(20), Some(50_000_000));
}

#[test]
fn interval_of_rate_zero_is_none() {
    assert_eq!(interval_nanos(0), None);
}

#[test]
fn interval_at_the_edges() {
    assert_eq!(interval_nanos(1), Some(1_000_000_000));
    assert_eq!(interval_nanos(3), Some(333_333_333));
    assert_eq!(interval_nanos(1_000_000_000), Some(1));
    assert_eq!(interval_nanos(1_000_000_001), Some(0));
    assert_eq!(interval_nanos(u32::MAX), Some(0));
}

#[test]
fn timer_is_due_at_the_deadline_and_not_before() {
    let timer = Timer { previous: 1_000, interval: 50 };
    assert!(!timer.is_due(0));
    assert!(!timer.is_due(1_000));
    assert!(!timer.is_due(1_049));
    assert!(timer.is_due(1_050));
    assert!(timer.is_due(u64::MAX));
}

#[test]
fn timer_near_the_end_of_time_does_not_wrap() {
    let timer = Timer { previous: u64::MAX - 10, interval: 50 };
    assert!(!timer.is_due(u64::MAX));
    assert!(!timer.is_due(20));
    let timer = Timer { previous: u64::MAX - 50, interval: 50 };
    assert!(timer.is_due(u64::MAX));
}

#[test]
fn timer_with_interval_zero_is_due_at_once() {
    let timer = Timer { previous: 7, interval: 0 };
    assert!(timer.is_due(7));
    assert!(!timer.is_due(6));
}

#[test]
fn poll_restarts_a_due_timer_from_now() {
    let mut timer = Timer { previous: 100, interval: 50 };
    assert!(timer.poll(170));
    assert_eq!(timer, Timer { previous: 170, interval: 50 });
}

#[test]
fn poll_leaves_an_idle_timer_alone() {
    let mut timer = Timer { previous: 100, interval: 50 };
    assert!(!timer.poll(149));
    assert_eq!(timer, Timer { previous: 100, interval: 50 });
}

#[test]
fn late_timer_fires_once_and_does_not_catch_up() {
    let mut timer = Timer { previous: 0, interval: 50 };
    assert!(timer.poll(1_000_000));
    assert!(!timer.poll(1_000_000));
    assert!(!timer.poll(1_000_049));
    assert!(timer.poll(1_000_050));
}

#[test]
fn start_counts_both_timers_from_now() {
    assert_eq!(
        Timing::start(5, 60, 20),
        Some(Timing {
            tick: Timer { previous: 5, interval: 50_000_000 },
            frame: Timer { previous: 5, interval: 16_666_666 },
        })
    );
}

#[test]
fn start_with_a_rate_of_zero_is_none() {
    assert_eq!(Timing::start(5, 0, 20), None);
    assert_eq!(Timing::start(5, 60, 0), None);
    assert_eq!(Timing::start(5, 0, 0), None);
}

#[test]
fn advance_fires_each_timer_on_its_own() {
    let mut timing = Timing::start(0, 60, 20).unwrap();
    assert_eq!(timing.advance(16_666_665), Due { tick: false, render: false });
    assert_eq!(timing.advance(16_666_666), Due { tick: false, render: true });
    assert_eq!(timing.tick.previous, 0);
    assert_eq!(timing.frame.previous, 16_666_666);
    assert_eq!(timing.advance(50_000_000), Due { tick: true, render: true });
    assert_eq!(timing.tick.previous, 50_000_000);
    assert_eq!(timing.frame.previous, 50_000_000);
    assert_eq!(timing.advance(50_000_001), Due { tick: false, render: false });
}

#[test]
fn tick_timer_does_not_depend_on_the_frame_rate() {
    let readings: Vec<u64> = (1..=400).map(|i| i * 1_000_000).collect();
    let mut slow = Timing::start(0, 1, 20).unwrap();
    let mut fast = Timing::start(0, 240, 20).unwrap();
    for now in readings {
        assert_eq!(slow.advance(now).tick, fast.advance(now).tick);
        assert_eq!(slow.tick, fast.tick);
    }
}

fn firings(timer: &mut Timer, readings: &[u64]) -> u64 {
    let mut count = 0;
    for now in readings {
        if timer.poll(*now) {
            count += 1;
        }
    }
    count
}

#[test]
fn firings_never_exceed_the_rate() {
    let readings: Vec<u64> = (1..=10_000).map(|i| i * 100_000).collect();
    let mut timer = Timer { previous: 0, interval: 16_666_666 };
    let count = firings(&mut timer, &readings);
    assert_eq!(count, 59);
    assert!(count * 16_666_666 <= *readings.last().unwrap());
}

#[test]
fn firings_keep_up_with_the_rate() {
    let gap: u64 = 100_000;
    let readings: Vec<u64> = (1..=10_000).map(|i| i * gap).collect();
    let mut timer = Timer { previous: 0, interval: 50_000_000 };
    let count = firings(&mut timer, &readings);
    assert_eq!(count, 20);
    assert!(*readings.last().unwrap() <= count * (50_000_000 + gap) + 50_000_000);
}

#[test]
fn coarse_readings_lose_firings() {
    let readings: Vec<u64> = (1..=10).map(|i| i * 100_000_000).collect();
    let mut timer = Timer { previous: 0, interval: 16_666_666 };
    assert_eq!(firings(&mut timer, &readings), 10);
}

#[test]
fn period_is_the_whole_part_of_a_second_over_the_rate() {
    for rate in [1u64, 2, 3, 7, 20, 24, 60, 144, 999, 1_000_000_007, 4_294_967_295] {
        let period = u64::from(interval_nanos(rate as u32).unwrap());
        assert!(period * rate <= 1_000_000_000);
        assert!(1_000_000_000 < (period + 1) * rate);
    }
}

#[test]
fn uneven_readings_stay_within_both_bounds() {
    let mut readings: Vec<u64> = Vec::new();
    let mut now: u64 = 0;
    let gaps: [u64; 5] = [3_000_000, 700_000, 9_000_000, 1, 12_345_678];
    for i in 0..500 {
        now += gaps[i % gaps.len()];
        readings.push(now);
    }
    let gap: u64 = 12_345_678;
    let interval: u64 = 16_666_666;
    let mut timer = Timer { previous: 0, interval: 16_666_666 };
    let count = firings(&mut timer, &readings);
    assert_eq!(count, 100);
    assert_eq!(now, 2_504_567_900);
    assert!(count * interval <= now);
    assert!(now <= count * (interval + gap) + interval);
}
