use pi_collisions::meter::{RateMeter, FRAMES_PER_SECOND};

#[test]
fn a_new_meter_shows_nothing() {
    assert_eq!(RateMeter::new().collisions_per_second(), 0);
    assert_eq!(FRAMES_PER_SECOND, 60);
}

#[test]
fn the_rate_is_the_count_of_the_last_full_second() {
    let mut meter = RateMeter::new();
    for _ in 0..60 {
        meter.record(2);
        assert_eq!(meter.collisions_per_second(), 0);
    }
    // The sixty-first frame begins the next second.
    meter.record(5);
    assert_eq!(meter.collisions_per_second(), 120);
    for _ in 0..59 {
        meter.record(1);
        assert_eq!(meter.collisions_per_second(), 120);
    }
    meter.record(0);
    assert_eq!(meter.collisions_per_second(), 64);
    for _ in 0..60 {
        meter.record(0);
    }
    assert_eq!(meter.collisions_per_second(), 0);
}

#[test]
fn the_largest_counts_fit() {
    let mut meter = RateMeter::new();
    for _ in 0..61 {
        meter.record(u32::MAX);
    }
    assert_eq!(meter.collisions_per_second(), 60 * (u32::MAX as u64));
}
