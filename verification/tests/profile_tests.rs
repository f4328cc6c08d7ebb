use micromouse_control::{ControlError, Gain, MotionConfig, MotionControl, Phase, Target};

fn gain(value: f64) -> Gain {
    Gain::from_bits(value.to_bits())
}

fn axis(acc: u32) -> MotionControl {
    let config = MotionConfig { p: gain(1.0), i: gain(0.0), d: gain(0.0), acc };
    match MotionControl::new(config) {
        Ok(axis) => axis,
        Err(_) => panic!("finite gains must be accepted"),
    }
}

/// Runs the ticks and records phase, position, velocity and queue length
/// after each.
fn trace(axis: &mut MotionControl, ticks: &[u32]) -> Vec<(Phase, i32, i64, usize)> {
    let mut seen = Vec::new();
    for dt in ticks {
        let before = axis.velocity();
        let phase = axis.advance(*dt);
        let change = (axis.velocity() - before).unsigned_abs();
        assert!(change <= axis.acc() as u64 * *dt as u64);
        seen.push((phase, axis.position(), axis.velocity(), axis.queued()));
    }
    seen
}

#[test]
fn new_axis_rests_at_zero() {
    let config = MotionConfig { p: gain(1.5), i: gain(0.25), d: gain(-3.0), acc: 7 };
    let axis = MotionControl::new(config).ok().unwrap();
    assert_eq!(axis.position(), 0);
    assert_eq!(axis.speed(), 0);
    assert_eq!(axis.velocity(), 0);
    assert_eq!(axis.acc(), 7);
    assert_eq!(axis.p(), gain(1.5));
    assert_eq!(axis.i(), gain(0.25));
    assert_eq!(axis.d(), gain(-3.0));
    assert_eq!(axis.queued(), 0);
    assert!(axis.is_idle());
    assert!(!axis.is_engaged());
    assert_eq!(axis.target_at(0), None);
}

#[test]
fn axis_with_non_finite_gain_is_a_configuration_error() {
    let good = gain(1.0);
    for bad in [f64::NAN, f64::INFINITY, f64::NEG_INFINITY] {
        let bad = gain(bad);
        let configs = [
            MotionConfig { p: bad, i: good, d: good, acc: 1 },
            MotionConfig { p: good, i: bad, d: good, acc: 1 },
            MotionConfig { p: good, i: good, d: bad, acc: 1 },
        ];
        for config in configs {
            assert_eq!(MotionControl::new(config).err(), Some(ControlError::ConfigurationError));
        }
    }
}

#[test]
fn empty_queue_holds_position() {
    let mut axis = axis(5);
    axis.set_position(-321);
    for dt in [0u32, 1, 2, 1000, u32::MAX, 1, 0, 7] {
        assert_eq!(axis.advance(dt), Phase::Idle);
        assert_eq!(axis.position(), -321);
        assert_eq!(axis.speed(), 0);
        assert!(axis.is_idle());
    }
}

#[test]
fn more_than_eight_targets_exceed_capacity() {
    let mut axis = axis(1);
    for n in 1..=8u32 {
        assert_eq!(axis.queue_target(Target { velocity: n, distance: n as i32 }), Ok(()));
    }
    assert_eq!(
        axis.queue_target(Target { velocity: 9, distance: 9 }),
        Err(ControlError::CapacityExceeded)
    );
    assert_eq!(axis.queued(), 8);
    for n in 1..=8u32 {
        assert_eq!(axis.target_at(n as usize - 1), Some(Target { velocity: n, distance: n as i32 }));
    }
    assert_eq!(axis.target_at(8), None);
    assert_eq!(axis.position(), 0);
}

#[test]
fn draining_reproduces_the_targets_in_fifo_order() {
    let mut axis = axis(4);
    let targets: Vec<Target> =
        (1..=8u32).map(|n| Target { velocity: n, distance: 3 * n as i32 }).collect();
    for target in &targets {
        assert_eq!(axis.queue_target(*target), Ok(()));
    }
    assert_eq!(
        axis.queue_target(Target { velocity: 1, distance: 1 }),
        Err(ControlError::CapacityExceeded)
    );
    let mut drained = Vec::new();
    let mut ticks = 0;
    while !axis.is_idle() {
        let oldest = axis.target_at(0).unwrap();
        let before = axis.queued();
        axis.advance(1);
        if axis.queued() < before {
            assert_eq!(axis.queued(), before - 1);
            drained.push(oldest);
        }
        ticks += 1;
        assert!(ticks < 1000);
    }
    assert_eq!(drained, targets);
    assert_eq!(axis.position(), 3 * (1 + 2 + 3 + 4 + 5 + 6 + 7 + 8));
}

#[test]
fn unit_speed_segment_reaches_ten() {
    for acc in [1u32, 2, 3, 10, 1000] {
        let mut axis = axis(acc);
        assert_eq!(axis.queue_target(Target { velocity: 1, distance: 10 }), Ok(()));
        let seen = trace(&mut axis, &[1; 13]);
        let mut expected = vec![(Phase::Accelerating, 1, 1, 1)];
        for position in 2..=10 {
            expected.push((Phase::Cruising, position, 1, 1));
        }
        expected.push((Phase::Decelerating, 10, 0, 0));
        expected.push((Phase::Idle, 10, 0, 0));
        expected.push((Phase::Idle, 10, 0, 0));
        assert_eq!(seen, expected);
        assert!(axis.is_idle());
    }
}

#[test]
fn long_segment_follows_a_trapezoid() {
    let mut axis = axis(1);
    assert_eq!(axis.queue_target(Target { velocity: 10, distance: 100 }), Ok(()));
    let seen = trace(&mut axis, &[1; 22]);
    let positions: Vec<i32> = seen.iter().map(|s| s.1).collect();
    let velocities: Vec<i64> = seen.iter().map(|s| s.2).collect();
    assert_eq!(
        positions,
        vec![1, 3, 6, 10, 15, 21, 28, 36, 45, 55, 64, 72, 79, 85, 90, 94, 97, 99, 100, 100, 100, 100]
    );
    assert_eq!(
        velocities,
        vec![1, 2, 3, 4, 5, 6, 7, 8, 9, 10, 9, 8, 7, 6, 5, 4, 3, 2, 1, 0, 0, 0]
    );
    for (k, step) in seen.iter().enumerate() {
        let phase = if k < 10 {
            Phase::Accelerating
        } else if k < 20 {
            Phase::Decelerating
        } else {
            Phase::Idle
        };
        assert_eq!(step.0, phase);
        assert_eq!(step.3, if k < 19 { 1 } else { 0 });
    }
}

#[test]
fn short_segment_follows_a_triangle() {
    let mut axis = axis(2);
    assert_eq!(axis.queue_target(Target { velocity: 10, distance: 9 }), Ok(()));
    let seen = trace(&mut axis, &[1; 6]);
    assert_eq!(
        seen,
        vec![
            (Phase::Accelerating, 2, 2, 1),
            (Phase::Accelerating, 6, 4, 1),
            (Phase::Decelerating, 8, 2, 1),
            (Phase::Decelerating, 9, 1, 1),
            (Phase::Decelerating, 9, 0, 0),
            (Phase::Idle, 9, 0, 0),
        ]
    );
}

#[test]
fn negative_distance_travels_backwards() {
    let mut axis = axis(1);
    assert_eq!(axis.queue_target(Target { velocity: 3, distance: -12 }), Ok(()));
    let seen = trace(&mut axis, &[1; 8]);
    assert_eq!(
        seen,
        vec![
            (Phase::Accelerating, -1, -1, 1),
            (Phase::Accelerating, -3, -2, 1),
            (Phase::Accelerating, -6, -3, 1),
            (Phase::Cruising, -9, -3, 1),
            (Phase::Decelerating, -11, -2, 1),
            (Phase::Decelerating, -12, -1, 1),
            (Phase::Decelerating, -12, 0, 0),
            (Phase::Idle, -12, 0, 0),
        ]
    );
}

#[test]
fn next_segment_starts_after_the_first_has_come_to_rest() {
    let mut axis = axis(3);
    assert_eq!(axis.queue_target(Target { velocity: 5, distance: 40 }), Ok(()));
    assert_eq!(axis.queue_target(Target { velocity: 2, distance: -6 }), Ok(()));
    let seen = trace(&mut axis, &[2; 9]);
    assert_eq!(
        seen,
        vec![
            (Phase::Accelerating, 10, 5, 2),
            (Phase::Cruising, 20, 5, 2),
            (Phase::Cruising, 30, 5, 2),
            (Phase::Cruising, 40, 5, 2),
            (Phase::Decelerating, 40, 0, 1),
            (Phase::Accelerating, 36, -2, 1),
            (Phase::Cruising, 34, -2, 1),
            (Phase::Decelerating, 34, 0, 0),
            (Phase::Idle, 34, 0, 0),
        ]
    );
}

#[test]
fn ticks_of_uneven_length_keep_the_speed_change_within_the_limit() {
    let mut axis = axis(1);
    assert_eq!(axis.queue_target(Target { velocity: 4, distance: 20 }), Ok(()));
    let seen = trace(&mut axis, &[1, 0, 3, 1, 2, 1, 1, 1, 1]);
    assert_eq!(
        seen,
        vec![
            (Phase::Accelerating, 1, 1, 1),
            (Phase::Cruising, 1, 1, 1),
            (Phase::Accelerating, 13, 4, 1),
            (Phase::Decelerating, 16, 3, 1),
            (Phase::Decelerating, 18, 1, 1),
            (Phase::Accelerating, 20, 2, 1),
            (Phase::Decelerating, 20, 1, 1),
            (Phase::Decelerating, 20, 0, 0),
            (Phase::Idle, 20, 0, 0),
        ]
    );
}

#[test]
fn zero_length_tick_changes_nothing() {
    let mut axis = axis(2);
    assert_eq!(axis.queue_target(Target { velocity: 6, distance: 50 }), Ok(()));
    axis.advance(1);
    axis.advance(1);
    let position = axis.position();
    let speed = axis.speed();
    for _ in 0..5 {
        assert_eq!(axis.advance(0), Phase::Cruising);
        assert_eq!(axis.position(), position);
        assert_eq!(axis.speed(), speed);
        assert_eq!(axis.queued(), 1);
    }
}

#[test]
fn zero_distance_segment_leaves_at_once() {
    let mut axis = axis(1);
    assert_eq!(axis.queue_target(Target { velocity: 5, distance: 0 }), Ok(()));
    assert_eq!(axis.queue_target(Target { velocity: 1, distance: 2 }), Ok(()));
    assert_eq!(axis.advance(1), Phase::Idle);
    assert_eq!(axis.queued(), 1);
    assert_eq!(axis.position(), 0);
    assert_eq!(axis.advance(1), Phase::Accelerating);
    assert_eq!(axis.position(), 1);
}

#[test]
fn zero_speed_segment_never_moves() {
    let mut axis = axis(3);
    assert_eq!(axis.queue_target(Target { velocity: 0, distance: 5 }), Ok(()));
    for _ in 0..20 {
        assert_eq!(axis.advance(1), Phase::Idle);
        assert_eq!(axis.position(), 0);
        assert_eq!(axis.queued(), 1);
    }
    axis.set_position(0);
    assert!(axis.is_idle());
}

#[test]
fn zero_acceleration_limit_never_moves() {
    let mut axis = axis(0);
    assert_eq!(axis.queue_target(Target { velocity: 4, distance: 5 }), Ok(()));
    for _ in 0..20 {
        assert_eq!(axis.advance(1000), Phase::Idle);
        assert_eq!(axis.position(), 0);
        assert_eq!(axis.speed(), 0);
    }
    axis.set_acc(2);
    assert_eq!(axis.advance(1), Phase::Accelerating);
    assert_eq!(axis.position(), 2);
}

#[test]
fn set_position_reports_the_new_position_at_once() {
    let mut axis = axis(1);
    axis.set_position(5);
    assert_eq!(axis.position(), 5);
    axis.set_position(i32::MIN);
    assert_eq!(axis.position(), i32::MIN);
    axis.set_position(i32::MAX);
    assert_eq!(axis.position(), i32::MAX);
    assert_eq!(axis.speed(), 0);
    assert!(axis.is_idle());
}

#[test]
fn set_position_leaves_pending_segments_queued() {
    let mut axis = axis(1);
    let first = Target { velocity: 2, distance: 10 };
    let second = Target { velocity: 3, distance: -4 };
    assert_eq!(axis.queue_target(first), Ok(()));
    assert_eq!(axis.queue_target(second), Ok(()));
    // Nothing has started: both stay.
    axis.set_position(100);
    assert_eq!(axis.position(), 100);
    assert_eq!(axis.queued(), 2);
    assert_eq!(axis.target_at(0), Some(first));
    assert_eq!(axis.target_at(1), Some(second));
    // The first starts from the new base.
    assert_eq!(axis.advance(1), Phase::Accelerating);
    assert_eq!(axis.position(), 101);
    assert!(axis.is_engaged());
    // The segment in flight is abandoned; the one behind it stays.
    axis.set_position(-50);
    assert_eq!(axis.position(), -50);
    assert_eq!(axis.speed(), 0);
    assert!(!axis.is_engaged());
    assert_eq!(axis.queued(), 1);
    assert_eq!(axis.target_at(0), Some(second));
    let seen = trace(&mut axis, &[1; 5]);
    assert_eq!(
        seen,
        vec![
            (Phase::Accelerating, -51, -1, 1),
            (Phase::Accelerating, -53, -2, 1),
            (Phase::Decelerating, -54, -1, 1),
            (Phase::Decelerating, -54, 0, 0),
            (Phase::Idle, -54, 0, 0),
        ]
    );
}

#[test]
fn goal_is_held_to_the_position_range() {
    let mut axis = axis(1000);
    axis.set_position(i32::MAX - 5);
    assert_eq!(axis.queue_target(Target { velocity: 100, distance: 10 }), Ok(()));
    let mut ticks = 0;
    while !axis.is_idle() {
        axis.advance(1);
        ticks += 1;
        assert!(ticks < 100);
    }
    assert_eq!(axis.position(), i32::MAX);
    axis.set_position(i32::MIN + 3);
    assert_eq!(axis.queue_target(Target { velocity: 100, distance: i32::MIN }), Ok(()));
    while !axis.is_idle() {
        axis.advance(1);
        ticks += 1;
        assert!(ticks < 100);
    }
    assert_eq!(axis.position(), i32::MIN);
}

#[test]
fn largest_values_do_not_overflow() {
    let mut axis = axis(u32::MAX);
    axis.set_position(i32::MIN);
    assert_eq!(axis.queue_target(Target { velocity: u32::MAX, distance: i32::MAX }), Ok(()));
    assert_eq!(axis.advance(u32::MAX), Phase::Accelerating);
    assert_eq!(axis.position(), -1);
    assert_eq!(axis.speed(), u32::MAX);
    assert_eq!(axis.advance(u32::MAX), Phase::Decelerating);
    assert_eq!(axis.position(), -1);
    assert_eq!(axis.speed(), 0);
    assert!(axis.is_idle());
}

#[test]
fn setters_change_one_setting_each() {
    let mut axis = axis(1);
    assert_eq!(axis.queue_target(Target { velocity: 2, distance: 10 }), Ok(()));
    axis.advance(1);
    axis.set_p(gain(9.0));
    assert_eq!((axis.p(), axis.i(), axis.d(), axis.acc()), (gain(9.0), gain(0.0), gain(0.0), 1));
    axis.set_i(gain(8.0));
    assert_eq!((axis.p(), axis.i(), axis.d(), axis.acc()), (gain(9.0), gain(8.0), gain(0.0), 1));
    axis.set_d(gain(f64::NAN));
    assert_eq!(axis.d().to_bits(), f64::NAN.to_bits());
    axis.set_acc(6);
    assert_eq!(axis.acc(), 6);
    assert_eq!(axis.position(), 1);
    assert_eq!(axis.speed(), 1);
    assert_eq!(axis.queued(), 1);
    assert!(axis.is_engaged());
}

#[test]
fn new_acceleration_limit_takes_effect_on_the_next_tick() {
    let mut axis = axis(1);
    assert_eq!(axis.queue_target(Target { velocity: 10, distance: 1000 }), Ok(()));
    axis.advance(1);
    assert_eq!((axis.position(), axis.speed()), (1, 1));
    axis.set_acc(4);
    assert_eq!((axis.position(), axis.speed()), (1, 1));
    axis.advance(1);
    assert_eq!((axis.position(), axis.speed()), (6, 5));
    axis.advance(1);
    assert_eq!((axis.position(), axis.speed()), (15, 9));
    axis.advance(1);
    assert_eq!((axis.position(), axis.speed()), (25, 10));
}
