use vxl::pacer::{FramePacer, FrameTick};

fn run(pacer: &mut FramePacer, samples: &[u32]) -> Vec<FrameTick> {
    samples.iter().map(|&e| pacer.tick(e)).collect()
}

#[test]
fn first_tick_is_never_due() {
    let mut pacer = FramePacer::new(120);
    assert!(!pacer.tick(0).due);
    assert!(!pacer.tick(0).due);
}

#[test]
fn due_once_accumulator_reaches_period() {
    // 1000 frames per second: one frame every 1000 microseconds.
    let mut pacer = FramePacer::new(1000);
    let ticks = run(&mut pacer, &[250, 250, 250, 250, 250, 250]);
    let dues: Vec<bool> = ticks.iter().map(|t| t.due).collect();
    assert_eq!(dues, vec![false, false, false, false, true, false]);
}

#[test]
fn accumulator_resets_after_due_tick() {
    let mut pacer = FramePacer::new(1000);
    assert!(!pacer.tick(5000).due);
    assert!(pacer.tick(5000).due);
    // The due tick emptied the accumulator, so the next one is not due,
    // however long the due tick took.
    assert!(!pacer.tick(10).due);
    assert!(!pacer.tick(990).due);
    assert!(pacer.tick(0).due);
}

#[test]
fn period_rounds_up_for_rates_that_do_not_divide_a_second() {
    // 120 frames per second: 8333.3 microseconds per frame.
    let mut pacer = FramePacer::new(120);
    assert!(!pacer.tick(8333).due);
    assert!(!pacer.tick(0).due);
    let mut pacer = FramePacer::new(120);
    assert!(!pacer.tick(8334).due);
    assert!(pacer.tick(0).due);
}

#[test]
fn rate_above_a_million_is_due_after_any_time() {
    let mut pacer = FramePacer::new(2_000_000);
    assert!(!pacer.tick(1).due);
    assert!(pacer.tick(0).due);
    assert!(!pacer.tick(0).due);
}

#[test]
fn report_fires_when_a_second_is_reached() {
    let mut pacer = FramePacer::new(120);
    let ticks = run(&mut pacer, &[100_000; 10]);
    for t in &ticks[..9] {
        assert_eq!(t.achieved_rate, None);
    }
    // Due on every second tick: the 2nd, 4th, 6th, 8th and 10th.
    assert_eq!(ticks[9].achieved_rate, Some(5));
    assert!(ticks[9].due);
}

#[test]
fn report_counts_only_dues_since_last_report() {
    let mut pacer = FramePacer::new(120);
    run(&mut pacer, &[100_000; 10]);
    let ticks = run(&mut pacer, &[500_000, 499_999, 1]);
    assert_eq!(ticks[0].achieved_rate, None);
    assert_eq!(ticks[1].achieved_rate, None);
    assert_eq!(ticks[2].achieved_rate, Some(1));
}

#[test]
fn report_of_a_second_without_dues_is_zero() {
    let mut pacer = FramePacer::new(1);
    let t = pacer.tick(1_000_000);
    assert!(!t.due);
    assert_eq!(t.achieved_rate, Some(0));
}

#[test]
fn long_run_tracks_target_rate() {
    let rate: u64 = 60;
    let mut pacer = FramePacer::new(rate as u32);
    let samples = vec![1000u32; 10_000];
    let dues = run(&mut pacer, &samples).iter().filter(|t| t.due).count() as u64;
    let total: u64 = samples.iter().map(|&s| s as u64).sum();
    let longest: u64 = 1000;
    assert!(dues * 1_000_000 <= rate * total);
    assert!(rate * total < (dues + 1) * (1_000_000 + 2 * rate * longest));
    // Each frame costs 17 ticks of accumulation and the due tick itself.
    assert_eq!(dues, 555);
}

#[test]
fn due_ticks_do_not_accumulate_their_own_time() {
    // One frame every 1000 microseconds, ticks as long as a frame: the due
    // tick's time is dropped, so only every second tick is due.
    let mut pacer = FramePacer::new(1000);
    let ticks = run(&mut pacer, &[1000, 1000]);
    assert_eq!(ticks.iter().filter(|t| t.due).count(), 1);
}

#[test]
fn is_due_announces_the_next_tick() {
    let mut pacer = FramePacer::new(1000);
    assert!(!pacer.is_due());
    assert!(!pacer.tick(999).due);
    assert!(!pacer.is_due());
    assert!(!pacer.tick(1).due);
    assert!(pacer.is_due());
    assert!(pacer.tick(0).due);
    assert!(!pacer.is_due());
}

#[test]
fn rate_is_kept() {
    assert_eq!(FramePacer::new(144).rate(), 144);
}
