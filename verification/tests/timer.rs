use asteroids_sim::timer::{Mode, Timer};

#[test]
fn new_timer_is_at_zero() {
    let t = Timer::new(2_500_000_000, Mode::Repeating);
    assert_eq!(
        t,
        Timer { elapsed: 0, period: 2_500_000_000, mode: Mode::Repeating, finished: false, completions: 0 }
    );
    assert!(!t.finished());
    assert!(!t.just_finished());
}

#[test]
fn repeating_timer_completes_and_starts_over() {
    let mut t = Timer::new(2_500_000_000, Mode::Repeating);
    t.tick(1_000_000_000);
    assert_eq!(t.elapsed, 1_000_000_000);
    assert!(!t.just_finished());
    t.tick(1_500_000_000);
    assert!(t.just_finished());
    assert!(t.finished());
    assert_eq!(t.elapsed, 0);
    assert_eq!(t.completions, 1);
    t.tick(1);
    assert!(!t.just_finished());
    assert!(!t.finished());
    assert_eq!(t.elapsed, 1);
}

#[test]
fn repeating_timer_counts_every_period_of_a_long_tick() {
    let mut t = Timer::new(200_000_000, Mode::Repeating);
    t.tick(700_000_000);
    assert_eq!(t.completions, 3);
    assert_eq!(t.elapsed, 100_000_000);
}

#[test]
fn timer_that_runs_once_stops_at_its_period() {
    let mut t = Timer::new(1_000, Mode::Once);
    t.tick(400);
    assert_eq!((t.elapsed, t.finished, t.completions), (400, false, 0));
    t.tick(5_000);
    assert_eq!((t.elapsed, t.finished, t.completions), (1_000, true, 1));
    assert!(t.just_finished());
    t.tick(5_000);
    assert_eq!((t.elapsed, t.finished, t.completions), (1_000, true, 0));
    assert!(!t.just_finished());
    assert!(t.finished());
}

#[test]
fn timer_without_period_completes_at_once() {
    let mut t = Timer::new(0, Mode::Repeating);
    t.tick(5);
    assert_eq!((t.elapsed, t.finished, t.completions), (0, true, u32::MAX));
    let mut t = Timer::new(0, Mode::Once);
    t.tick(0);
    assert_eq!((t.elapsed, t.finished, t.completions), (0, true, 1));
}

#[test]
fn timer_takes_the_longest_tick() {
    let mut t = Timer::new(u64::MAX, Mode::Repeating);
    t.tick(u64::MAX - 1);
    assert_eq!((t.elapsed, t.finished, t.completions), (u64::MAX - 1, false, 0));
    t.tick(u64::MAX);
    assert_eq!((t.elapsed, t.finished, t.completions), (u64::MAX - 1, true, 1));
}

#[test]
fn frames_that_add_up_to_the_period_complete_it_once() {
    let mut t = Timer::new(2_500_000_000, Mode::Repeating);
    let deltas = [16_000_000u64; 156];
    let mut completed = 0;
    for d in deltas {
        t.tick(d);
        completed += t.completions;
    }
    assert_eq!(completed, 0);
    t.tick(2_500_000_000 - 156 * 16_000_000);
    assert_eq!((t.elapsed, t.completions), (0, 1));
}
