use blappy_birb::timer::RepeatingTimer;

#[test]
fn new_timer_has_counted_nothing() {
    let timer = RepeatingTimer::new(2_000_000_000);
    assert_eq!(timer.duration, 2_000_000_000);
    assert_eq!(timer.elapsed, 0);
    assert_eq!(timer.times_finished_this_tick, 0);
    assert!(!timer.just_finished());
}

#[test]
fn tick_below_the_period_only_counts() {
    let mut timer = RepeatingTimer::new(2_000_000_000);
    timer.tick(1_500_000_000);
    assert_eq!(timer.elapsed, 1_500_000_000);
    assert_eq!(timer.times_finished_this_tick, 0);
    assert!(!timer.just_finished());
}

#[test]
fn tick_wraps_around_the_period() {
    let mut timer = RepeatingTimer::new(2_000_000_000);
    timer.tick(1_500_000_000);
    timer.tick(1_500_000_000);
    assert!(timer.just_finished());
    assert_eq!(timer.elapsed, 1_000_000_000);
    assert_eq!(timer.times_finished_this_tick, 1);
}

#[test]
fn tick_that_lands_on_the_period_finishes_with_nothing_left() {
    let mut timer = RepeatingTimer::new(2_000_000_000);
    timer.tick(2_000_000_000);
    assert!(timer.just_finished());
    assert_eq!(timer.elapsed, 0);
}

#[test]
fn finished_lasts_one_tick() {
    let mut timer = RepeatingTimer::new(1_000_000_000);
    timer.tick(1_100_000_000);
    assert!(timer.just_finished());
    timer.tick(800_000_000);
    assert!(!timer.just_finished());
    assert_eq!(timer.elapsed, 900_000_000);
    timer.tick(600_000_000);
    assert!(timer.just_finished());
    assert_eq!(timer.elapsed, 500_000_000);
}

#[test]
fn long_tick_counts_every_period() {
    let mut timer = RepeatingTimer::new(1_000_000_000);
    timer.tick(6_500_000_000);
    assert_eq!(timer.times_finished_this_tick, 6);
    assert_eq!(timer.elapsed, 500_000_000);
    timer.tick(2_000_000_000);
    assert_eq!(timer.times_finished_this_tick, 2);
    timer.tick(100_000_000);
    assert_eq!(timer.times_finished_this_tick, 0);
}

#[test]
fn timer_without_a_period_finishes_on_every_tick() {
    let mut timer = RepeatingTimer::new(0);
    timer.tick(5);
    assert!(timer.just_finished());
    assert_eq!(timer.elapsed, 0);
    assert_eq!(timer.times_finished_this_tick, u32::MAX);
    timer.tick(0);
    assert!(timer.just_finished());
}

#[test]
fn completion_count_is_cut_to_32_bits() {
    let mut timer = RepeatingTimer::new(1);
    timer.tick(1 << 32);
    assert_eq!(timer.times_finished_this_tick, 0);
    assert!(!timer.just_finished());
    assert_eq!(timer.elapsed, 0);
    timer.tick((1 << 32) + 3);
    assert_eq!(timer.times_finished_this_tick, 3);
}

#[test]
fn largest_times_do_not_overflow() {
    let mut timer = RepeatingTimer {
        duration: u64::MAX,
        elapsed: u64::MAX - 1,
        times_finished_this_tick: 0,
    };
    timer.tick(u64::MAX);
    assert_eq!(timer.times_finished_this_tick, 1);
    assert_eq!(timer.elapsed, u64::MAX - 1);
}

#[test]
fn reset_starts_the_period_over() {
    let mut timer = RepeatingTimer::new(2_000_000_000);
    timer.tick(2_500_000_000);
    timer.reset();
    assert_eq!(timer.elapsed, 0);
    assert_eq!(timer.duration, 2_000_000_000);
    assert!(!timer.just_finished());
}
