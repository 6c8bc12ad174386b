use pi_collisions::body::{Body, MASS_LIMIT};
use pi_collisions::fixed::Fixed;
use pi_collisions::vector::Vector2;

fn unit() -> Vector2 {
    Vector2::from_ints(1, 1)
}

#[test]
fn a_body_keeps_what_it_was_made_with() {
    let body = Body::new(
        Vector2::from_ints(15, 370),
        Vector2::from_ints(30, 20),
        Vector2::from_ints(-1, 2),
        100,
        true,
    )
    .unwrap();
    assert_eq!(body.position(), Vector2::from_ints(15, 370));
    assert_eq!(body.size(), Vector2::from_ints(30, 20));
    assert_eq!(body.velocity(), Vector2::from_ints(-1, 2));
    assert_eq!(body.mass(), 100);
    assert!(body.bounces_off_walls());
}

#[test]
fn a_body_needs_a_positive_size() {
    let zero = Vector2::zero();
    assert!(Body::new(zero, Vector2::from_ints(0, 5), zero, 1, true).is_none());
    assert!(Body::new(zero, Vector2::from_ints(5, 0), zero, 1, true).is_none());
    assert!(Body::new(zero, Vector2::from_ints(-5, 5), zero, 1, true).is_none());
    assert!(Body::new(zero, Vector2::from_ints(5, -5), zero, 1, true).is_none());
    let sliver = Vector2::new(Fixed::from_raw(1), Fixed::from_raw(1));
    assert!(Body::new(zero, sliver, zero, 1, false).is_some());
}

#[test]
fn a_body_needs_a_mass_in_range() {
    let zero = Vector2::zero();
    assert!(Body::new(zero, unit(), zero, 0, true).is_none());
    assert!(Body::new(zero, unit(), zero, 1, true).is_some());
    assert!(Body::new(zero, unit(), zero, MASS_LIMIT, true).is_some());
    assert!(Body::new(zero, unit(), zero, MASS_LIMIT + 1, true).is_none());
    assert!(Body::new(zero, unit(), zero, u64::MAX, true).is_none());
    assert_eq!(MASS_LIMIT, 100u64.pow(7));
}

#[test]
fn place_and_velocity_can_be_set() {
    let mut body = Body::new(Vector2::zero(), unit(), Vector2::zero(), 7, false).unwrap();
    body.set_position(Vector2::from_ints(3, -4));
    assert_eq!(body.position(), Vector2::from_ints(3, -4));
    assert_eq!(body.velocity(), Vector2::zero());
    body.set_velocity(Vector2::from_ints(-9, 9));
    assert_eq!(body.velocity(), Vector2::from_ints(-9, 9));
    assert_eq!(body.position(), Vector2::from_ints(3, -4));
    assert_eq!(body.size(), unit());
    assert_eq!(body.mass(), 7);
    assert!(!body.bounces_off_walls());
}
