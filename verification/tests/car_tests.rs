use car_sim::car::{Car, Command};
use car_sim::geometry::DIR_SCALE;

/// Reads the current speed (in speed units) by advancing one tick along the
/// positive x axis and looking at how far the vehicle moved.
fn observe_speed(car: &mut Car) -> i64 {
    let (x0, _, _) = car.get_position();
    car.update_car_position(DIR_SCALE, 0);
    let (x1, _, _) = car.get_position();
    (x1 - x0) / DIR_SCALE
}

#[test]
fn test_default_pose() {
    let car = Car::default();
    assert_eq!(car.get_position(), (5_000_000_000, 5_000_000_000, 0));
}

#[test]
fn test_forward_accelerate_from_rest() {
    let mut car = Car::default();
    car.forward_accelerate();
    assert_eq!(observe_speed(&mut car), 2);
}

#[test]
fn test_forward_speed_wraps_at_cap() {
    let mut car = Car::default();
    for _ in 0..25 {
        car.forward_accelerate();
    }
    assert_eq!(observe_speed(&mut car), 50);
    car.forward_accelerate();
    assert_eq!(observe_speed(&mut car), 30);
}

#[test]
fn test_forward_speed_monotonic_below_cap() {
    let mut car = Car::default();
    let mut previous = observe_speed(&mut car);
    for _ in 0..25 {
        car.forward_accelerate();
        let current = observe_speed(&mut car);
        assert!(current >= previous);
        previous = current;
    }
}

#[test]
fn test_backward_speed_clamps_at_cap() {
    let mut car = Car::default();
    for _ in 0..15 {
        car.backward_acceleration();
    }
    assert_eq!(observe_speed(&mut car), -30);
    car.backward_acceleration();
    assert_eq!(observe_speed(&mut car), -30);
}

#[test]
fn test_backward_speed_monotonic() {
    let mut car = Car::default();
    let mut previous = observe_speed(&mut car);
    for _ in 0..20 {
        car.backward_acceleration();
        let current = observe_speed(&mut car);
        assert!(current <= previous);
        previous = current;
    }
}

#[test]
fn test_backward_snap_from_small_forward_speed() {
    let mut car = Car::default();
    for _ in 0..4 {
        car.forward_accelerate();
    }
    assert_eq!(observe_speed(&mut car), 8);
    car.backward_acceleration();
    assert_eq!(observe_speed(&mut car), 0);
}

#[test]
fn test_zero_crossing_snap() {
    let mut car = Car::default();
    for _ in 0..5 {
        car.backward_acceleration();
    }
    assert_eq!(observe_speed(&mut car), -10);
    car.forward_accelerate();
    assert_eq!(observe_speed(&mut car), 0);
}

#[test]
fn test_no_snap_at_minimum_magnitude() {
    let mut car = Car::default();
    for _ in 0..6 {
        car.backward_acceleration();
    }
    assert_eq!(observe_speed(&mut car), -12);
    car.forward_accelerate();
    assert_eq!(observe_speed(&mut car), -10);
}

#[test]
fn test_steering_at_rest_keeps_orientation() {
    let mut car = Car::default();
    car.steer_left();
    car.steer_right();
    car.steer_left();
    let (_, _, orientation) = car.get_position();
    assert_eq!(orientation, 0);
}

#[test]
fn test_steering_scales_with_speed() {
    let mut car = Car::default();
    for _ in 0..10 {
        car.forward_accelerate();
    }
    car.steer_right();
    let (_, _, orientation) = car.get_position();
    assert_eq!(orientation, 20);
    car.steer_left();
    car.steer_left();
    let (_, _, orientation) = car.get_position();
    assert_eq!(orientation, -20);
}

#[test]
fn test_advance_moves_along_heading() {
    let mut car = Car::default();
    for _ in 0..10 {
        car.forward_accelerate();
    }
    // speed is 0.002 world units per tick, heading along +x
    car.update_car_position(DIR_SCALE, 0);
    assert_eq!(car.get_position(), (5_020_000_000, 5_000_000_000, 0));
}

#[test]
fn test_advance_along_negative_heading() {
    let mut car = Car::default();
    car.forward_accelerate();
    car.update_car_position(0, -DIR_SCALE);
    assert_eq!(car.get_position(), (5_000_000_000, 4_998_000_000, 0));
}

#[test]
fn test_end_to_end_single_tick() {
    let mut car = Car::default();
    car.forward_accelerate();
    car.update_car_position(DIR_SCALE, 0);
    // one acceleration from rest is 0.0002 world units per tick, so the
    // vehicle ends at (0.5 + 0.0002, 0.5) with an unchanged heading
    assert_eq!(car.get_position(), (5_002_000_000, 5_000_000_000, 0));
}

#[test]
fn test_apply_dispatches_commands() {
    let mut left = Car::default();
    left.apply(Command::Accelerate);
    let mut right = Car::default();
    right.forward_accelerate();
    assert_eq!(observe_speed(&mut left), observe_speed(&mut right));

    let mut car = Car::default();
    car.apply(Command::Accelerate);
    car.apply(Command::SteerRight);
    let (_, _, orientation) = car.get_position();
    assert_eq!(orientation, 2);
    car.apply(Command::Decelerate);
    car.apply(Command::SteerLeft);
    let (_, _, orientation) = car.get_position();
    assert_eq!(orientation, 2);
}
