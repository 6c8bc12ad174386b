use pi_collisions::ticks::{tick_mask, tick_samples};

fn marks(mask: &[bool]) -> Vec<usize> {
    let mut at = Vec::new();
    for (i, on) in mask.iter().enumerate() {
        if *on {
            at.push(i);
        }
    }
    at
}

#[test]
fn a_tick_is_at_most_half_a_slot_long() {
    assert_eq!(tick_samples(10, 2, 1), 1);
    assert_eq!(tick_samples(10, 2, 10), 2);
    assert_eq!(tick_samples(735, 3, 10), 10);
    assert_eq!(tick_samples(735, 100, 10), 3);
    assert_eq!(tick_samples(735, 367, 10), 1);
    assert_eq!(tick_samples(735, 368, 10), 0);
    assert_eq!(tick_samples(0, 3, 10), 0);
    assert_eq!(tick_samples(735, 3, 0), 0);
}

#[test]
fn a_frequency_of_zero_does_not_divide() {
    assert_eq!(tick_samples(735, 0, 10), 10);
    assert_eq!(tick_samples(5, 0, 10), 5);
    assert_eq!(tick_samples(735, usize::MAX, 10), 0);
    assert_eq!(tick_samples(usize::MAX, usize::MAX / 2 + 1, 10), 0);
    assert_eq!(tick_samples(usize::MAX, usize::MAX / 2, 10), 1);
}

#[test]
fn ticks_are_evenly_spaced() {
    assert_eq!(marks(&tick_mask(10, 2, 1)), vec![0, 5]);
    assert_eq!(marks(&tick_mask(10, 2, 10)), vec![0, 1, 5, 6]);
    assert_eq!(marks(&tick_mask(7, 3, 5)), vec![0, 2, 4]);
    assert_eq!(marks(&tick_mask(10, 1, 3)), vec![0, 1, 2]);
    assert_eq!(marks(&tick_mask(10, 5, 3)), vec![0, 2, 4, 6, 8]);
}

#[test]
fn a_frame_of_audio_with_three_collisions() {
    let mask = tick_mask(735, 3, 10);
    assert_eq!(mask.len(), 735);
    let mut expected: Vec<usize> = Vec::new();
    for slot in 0..3 {
        for sample in 0..10 {
            expected.push(slot * 245 + sample);
        }
    }
    assert_eq!(marks(&mask), expected);
}

#[test]
fn no_collision_is_silence() {
    let mask = tick_mask(735, 0, 10);
    assert_eq!(mask.len(), 735);
    assert!(marks(&mask).is_empty());
}

#[test]
fn too_many_collisions_are_silence() {
    assert!(marks(&tick_mask(735, 368, 10)).is_empty());
    assert!(marks(&tick_mask(735, 900_000, 10)).is_empty());
    assert_eq!(tick_mask(735, 900_000, 10).len(), 735);
    assert_eq!(marks(&tick_mask(735, 367, 10)).len(), 367);
}

#[test]
fn an_empty_buffer_stays_empty() {
    assert!(tick_mask(0, 0, 10).is_empty());
    assert!(tick_mask(0, 5, 10).is_empty());
}

#[test]
fn a_length_of_zero_is_silence() {
    assert!(marks(&tick_mask(735, 3, 0)).is_empty());
}
