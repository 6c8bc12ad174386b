use pi_collisions::config::initial_state;
use pi_collisions::scheduler::{run_frame, run_frame_traced};
use pi_collisions::simulation::{advance, advance_with_trail};
use pi_collisions::trail::{trail_color, trail_shown};
use pi_collisions::vector::Vector2;

#[test]
fn the_trail_brightens_over_the_frame() {
    assert_eq!(trail_color(0, 100), (100, 55, 0));
    assert_eq!(trail_color(50, 100), (177, 149, 127));
    assert_eq!(trail_color(99, 100), (253, 252, 252));
    assert_eq!(trail_color(5, 1000), (100, 55, 1));
    assert_eq!(trail_color(999, 1000), (254, 254, 254));
    assert_eq!(trail_color(99_999, 100_000), (254, 254, 254));
}

#[test]
fn the_green_part_waits_for_the_sixth_substep() {
    for step in 0..6 {
        assert_eq!(trail_color(step, 100).1, 55);
    }
    assert_eq!(trail_color(6, 100).1, 57);
    assert_eq!(trail_color(0, 6), (100, 55, 0));
    assert_eq!(trail_color(5, 6), (229, 55, 212));
    assert_eq!(trail_color(4, 5), (224, 55, 204));
    assert_eq!(trail_color(0, 1), (100, 55, 0));
    assert_eq!(trail_color(u32::MAX - 1, u32::MAX), (254, 254, 254));
}

#[test]
fn the_trail_is_shown_where_the_hundredth_part_divides() {
    assert!(trail_shown(100));
    assert!(trail_shown(199));
    assert!(trail_shown(1000));
    assert!(trail_shown(10_000));
    assert!(trail_shown(100_000));
    assert!(trail_shown(250));
    assert!(!trail_shown(301));
    assert!(!trail_shown(1001));
    assert!(trail_shown(99));
    assert!(trail_shown(0));
}

#[test]
fn the_trail_has_a_mark_for_every_substep() {
    let mut state = initial_state(4).unwrap();
    let bounds = Vector2::from_ints(400, 400);
    let (count, marks) = advance_with_trail(&mut state, bounds);
    assert_eq!(count, 0);
    assert_eq!(marks.len(), 1000);
    assert!(marks.iter().all(|mark| *mark == (15, 370)));
}

#[test]
fn a_traced_frame_is_the_same_frame() {
    let bounds = Vector2::from_ints(400, 400);
    let mut plain = initial_state(1).unwrap();
    let mut traced = initial_state(1).unwrap();
    for _ in 0..300 {
        let count = advance(&mut plain, bounds);
        let (same, marks) = advance_with_trail(&mut traced, bounds);
        assert_eq!(count, same);
        assert_eq!(plain, traced);
        assert_eq!(marks.len(), 100);
        assert_eq!(marks[99], traced.light().position().to_pixels());
    }
    assert_eq!(traced.lifetime_collision_count(), 31);

    let mut light = plain.light();
    let mut heavy = plain.heavy();
    let mut light_twin = light;
    let mut heavy_twin = heavy;
    let events = run_frame(&mut light, &mut heavy, bounds);
    let (events_twin, marks) = run_frame_traced(&mut light_twin, &mut heavy_twin, bounds);
    assert_eq!(events, events_twin);
    assert_eq!(light, light_twin);
    assert_eq!(heavy, heavy_twin);
    assert_eq!(marks.len(), 100);
}

#[test]
fn the_trail_follows_the_light_body() {
    let mut state = initial_state(0).unwrap();
    let bounds = Vector2::from_ints(400, 400);
    for _ in 0..12 {
        advance(&mut state, bounds);
    }
    // The light body now moves left at a hair more than one pixel a frame: a
    // hundredth of a pixel is rounded up. It has moved for two frames.
    assert_eq!(state.light().position().to_pixels(), (12, 370));
    let (count, marks) = advance_with_trail(&mut state, bounds);
    assert_eq!(count, 0);
    assert_eq!(marks.len(), 100);
    assert_eq!(marks[0], (12, 370));
    assert_eq!(marks[98], (12, 370));
    assert_eq!(marks[99], (11, 370));
    assert_eq!(marks[99], state.light().position().to_pixels());
}
