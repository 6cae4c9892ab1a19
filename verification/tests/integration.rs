use mason::integration::{
    accelerate, cap, damp, exceeds, integrate_momentum, integrate_velocity, phase_of, Phase,
    DIRECT_SCALE, K_ACCEL, K_DRAG, V_FLOOR, V_MAX,
};
use mason::root::{ceil_sqrt_of, ROOT_LIMIT};
use mason::rounding::scale_quot;
use mason::vector::{Vector3, COORDINATE_LIMIT, SECOND, UNIT};

fn square_of_length(v: &Vector3) -> i128 {
    let (x, y, z) = (v.x as i128, v.y as i128, v.z as i128);
    x * x + y * y + z * z
}

#[test]
fn reference_constants() {
    assert_eq!(K_ACCEL, 150);
    assert_eq!(V_MAX, 150 * UNIT);
    assert_eq!(V_FLOOR, 25 * UNIT);
    assert_eq!(K_DRAG, 4);
    assert_eq!(DIRECT_SCALE, 4 * SECOND as i64);
    assert_eq!(UNIT, 1_000_000);
    assert_eq!(SECOND, 1_000_000);
    assert_eq!(COORDINATE_LIMIT, 1 << 40);
}

#[test]
fn quotients_round_toward_zero() {
    assert_eq!(scale_quot(7, 1, 2), 3);
    assert_eq!(scale_quot(-7, 1, 2), -3);
    assert_eq!(scale_quot(7, -1, 2), -3);
    assert_eq!(scale_quot(-7, -1, 2), 3);
    assert_eq!(scale_quot(6, 1, 2), 3);
    assert_eq!(scale_quot(1, 1, 2), 0);
    assert_eq!(scale_quot(-1, 1, 2), 0);
    assert_eq!(scale_quot(i64::MAX, i64::MAX, 1), (i64::MAX as i128) * (i64::MAX as i128));
    assert_eq!(scale_quot(i64::MIN, i64::MIN, 1), 1i128 << 126);
    assert_eq!(scale_quot(i64::MIN, i64::MAX, i64::MAX), i64::MIN as i128);
}

#[test]
fn roots_round_up() {
    assert_eq!(ceil_sqrt_of(0), 0);
    assert_eq!(ceil_sqrt_of(1), 1);
    assert_eq!(ceil_sqrt_of(2), 2);
    assert_eq!(ceil_sqrt_of(3), 2);
    assert_eq!(ceil_sqrt_of(4), 2);
    assert_eq!(ceil_sqrt_of(5), 3);
    assert_eq!(ceil_sqrt_of(1_000_000_000_000), 1_000_000);
    assert_eq!(ceil_sqrt_of(1_000_000_000_001), 1_000_001);
    assert_eq!(ceil_sqrt_of(80_000_000_000_000_000), 282_842_713);
    assert_eq!(ceil_sqrt_of(ROOT_LIMIT), 1 << 63);
    assert_eq!(ceil_sqrt_of(ROOT_LIMIT - 1), 1 << 63);
}

#[test]
fn exceeds_compares_lengths_exactly() {
    let v = Vector3::new(3 * UNIT, 4 * UNIT, 0);
    assert!(!exceeds(&v, 5 * UNIT));
    assert!(exceeds(&v, 5 * UNIT - 1));
    assert!(exceeds(&Vector3::new(3 * UNIT, 4 * UNIT, 1), 5 * UNIT));
    assert!(!exceeds(&Vector3::zeros(), 0));
    assert!(exceeds(&Vector3::new(0, -1, 0), 0));
    assert!(exceeds(&Vector3::new(i64::MIN, i64::MIN, i64::MIN), i64::MAX));
}

#[test]
fn phases() {
    let thrust = Vector3::new(0, 0, UNIT);
    let none = Vector3::zeros();
    let fast = Vector3::new(30 * UNIT, 0, 0);
    let slow = Vector3::new(25 * UNIT, 0, 0);
    assert_eq!(phase_of(&slow, &thrust, 1), Phase::Thrusting);
    assert_eq!(phase_of(&fast, &thrust, 16_667), Phase::Thrusting);
    assert_eq!(phase_of(&fast, &thrust, 0), Phase::Coasting);
    assert_eq!(phase_of(&fast, &none, 16_667), Phase::Coasting);
    assert_eq!(phase_of(&slow, &none, 16_667), Phase::Idle);
    assert_eq!(phase_of(&slow, &thrust, 0), Phase::Idle);
    assert_eq!(phase_of(&Vector3::new(25 * UNIT, 1, 0), &none, 16_667), Phase::Coasting);
}

#[test]
fn acceleration_formula() {
    let rest = Vector3::zeros();
    let forward = Vector3::new(0, 0, UNIT);
    assert_eq!(accelerate(&rest, &forward, 16_667), Vector3::new(0, 0, 2_500_050));
    assert_eq!(accelerate(&rest, &forward, SECOND), Vector3::new(0, 0, 150 * UNIT));
    assert_eq!(
        accelerate(&Vector3::new(UNIT, 0, 0), &Vector3::new(960_000, 0, -280_000), 16_667),
        Vector3::new(3_400_048, 0, -700_014)
    );
    assert_eq!(accelerate(&forward, &forward, 0), forward);
}

#[test]
fn cap_leaves_what_is_within() {
    let v = Vector3::new(0, 0, 150 * UNIT);
    assert_eq!(cap(&v, V_MAX), v);
    let w = Vector3::new(100 * UNIT, -100 * UNIT, 50 * UNIT);
    assert_eq!(cap(&w, V_MAX), w);
    assert_eq!(cap(&Vector3::zeros(), 0), Vector3::zeros());
}

#[test]
fn cap_cuts_back_along_the_direction() {
    assert_eq!(
        cap(&Vector3::new(200 * UNIT, 200 * UNIT, 0), V_MAX),
        Vector3::new(106_066_016, 106_066_016, 0)
    );
    assert_eq!(
        cap(&Vector3::new(-300 * UNIT, 400 * UNIT, 1200 * UNIT), V_MAX),
        Vector3::new(-34_615_384, 46_153_846, 138_461_538)
    );
    assert_eq!(cap(&Vector3::new(0, 0, 150 * UNIT + 1), V_MAX), Vector3::new(0, 0, 150 * UNIT));
    assert_eq!(cap(&Vector3::new(5, -7, 9), 0), Vector3::zeros());
}

#[test]
fn capped_speed_is_within_the_cap() {
    let limit = (V_MAX as i128) * (V_MAX as i128);
    let far: i64 = 1 << 60;
    let vectors = [
        Vector3::new(200 * UNIT, 200 * UNIT, 0),
        Vector3::new(far, far, far),
        Vector3::new(-far, 1, 0),
        Vector3::new(150 * UNIT, 1, 1),
        Vector3::new(86_602_541, 86_602_541, 86_602_541),
        Vector3::new(-123_456_789_012, 98_765_432_109, 5),
    ];
    for v in vectors {
        let c = cap(&v, V_MAX);
        assert!(square_of_length(&c) <= limit);
        assert!(c.x.signum() * v.x.signum() >= 0);
        assert!(c.y.signum() * v.y.signum() >= 0);
        assert!(c.z.signum() * v.z.signum() >= 0);
    }
}

#[test]
fn drag_formula() {
    assert_eq!(damp(&Vector3::new(30 * UNIT, 0, 0), 16_667), Vector3::new(27_999_960, 0, 0));
    assert_eq!(
        damp(&Vector3::new(-30 * UNIT, 40 * UNIT, 7), 16_667),
        Vector3::new(-27_999_960, 37_333_280, 7)
    );
    assert_eq!(damp(&Vector3::new(30 * UNIT, 0, 0), 0), Vector3::new(30 * UNIT, 0, 0));
    assert_eq!(damp(&Vector3::new(30 * UNIT, 0, 0), 250_000), Vector3::zeros());
    assert_eq!(damp(&Vector3::new(30 * UNIT, 0, 0), 500_000), Vector3::new(-30 * UNIT, 0, 0));
}

#[test]
fn thrust_from_rest_for_one_second() {
    let next = integrate_velocity(&Vector3::zeros(), &Vector3::new(0, 0, UNIT), SECOND);
    assert_eq!(next, Vector3::new(0, 0, 150 * UNIT));
}

#[test]
fn thrust_is_capped() {
    let next = integrate_velocity(&Vector3::zeros(), &Vector3::new(0, 0, UNIT), 2 * SECOND);
    assert_eq!(next, Vector3::new(0, 0, 150 * UNIT));
    let next = integrate_velocity(
        &Vector3::new(0, 0, 140 * UNIT),
        &Vector3::new(UNIT, 0, UNIT),
        100_000,
    );
    assert_eq!(next, Vector3::new(14_448_629, 0, 149_302_501));
}

#[test]
fn sustained_thrust_stays_within_the_speed_limit() {
    let limit = (V_MAX as i128) * (V_MAX as i128);
    let thrust = Vector3::new(577_350, -577_350, 577_350);
    let mut velocity = Vector3::new(COORDINATE_LIMIT, -COORDINATE_LIMIT, 0);
    for tick in 0..500u32 {
        velocity = integrate_velocity(&velocity, &thrust, 1 + 1_000 * tick);
        assert!(square_of_length(&velocity) <= limit);
    }
    velocity = integrate_velocity(&velocity, &thrust, u32::MAX);
    assert!(square_of_length(&velocity) <= limit);
}

#[test]
fn coasting_slows_down_to_the_floor_and_rests() {
    let floor = (V_FLOOR as i128) * (V_FLOOR as i128);
    let none = Vector3::zeros();
    let mut velocity = Vector3::new(90 * UNIT, -80 * UNIT, 70 * UNIT);
    let mut ticks = 0;
    while square_of_length(&velocity) > floor {
        let next = integrate_velocity(&velocity, &none, 16_667);
        assert!(square_of_length(&next) < square_of_length(&velocity));
        velocity = next;
        ticks += 1;
        assert!(ticks < 1_000);
    }
    assert!(ticks > 0);
    let rest = velocity;
    for _ in 0..10 {
        velocity = integrate_velocity(&velocity, &none, 16_667);
        assert_eq!(velocity, rest);
    }
    assert_ne!(rest, Vector3::zeros());
}

#[test]
fn slow_body_without_thrust_is_left_alone() {
    let none = Vector3::zeros();
    let at_floor = Vector3::new(0, 25 * UNIT, 0);
    assert_eq!(integrate_velocity(&at_floor, &none, 16_667), at_floor);
    let slow = Vector3::new(UNIT, -2 * UNIT, 3);
    assert_eq!(integrate_velocity(&slow, &none, u32::MAX), slow);
    let above = Vector3::new(0, 25 * UNIT + 1, 0);
    assert_eq!(integrate_velocity(&above, &none, 16_667), Vector3::new(0, 23_333_301, 0));
}

#[test]
fn no_time_no_change_of_velocity() {
    let thrust = Vector3::new(0, UNIT, 0);
    for v in [
        Vector3::zeros(),
        Vector3::new(30 * UNIT, 0, 0),
        Vector3::new(UNIT, 2, -3),
        Vector3::new(COORDINATE_LIMIT, COORDINATE_LIMIT, COORDINATE_LIMIT),
    ] {
        assert_eq!(integrate_velocity(&v, &thrust, 0), v);
        assert_eq!(integrate_velocity(&v, &Vector3::zeros(), 0), v);
        assert_eq!(integrate_momentum(&v, &thrust, 0), v);
    }
}

#[test]
fn direct_policy_takes_a_quarter_of_the_thrust() {
    let forward = Vector3::new(0, 0, UNIT);
    assert_eq!(
        integrate_momentum(&Vector3::zeros(), &forward, SECOND),
        Vector3::new(0, 0, 250_000)
    );
    assert_eq!(
        integrate_momentum(&Vector3::new(5, 6, 7), &Vector3::new(-UNIT, 0, UNIT), 16_667),
        Vector3::new(5 - 4_166, 6, 7 + 4_166)
    );
    assert_eq!(integrate_momentum(&forward, &Vector3::zeros(), SECOND), forward);
}

#[test]
fn direct_policy_has_no_limit_and_no_drag() {
    let forward = Vector3::new(0, 0, UNIT);
    let mut momentum = Vector3::zeros();
    for _ in 0..1_000 {
        momentum = integrate_momentum(&momentum, &forward, SECOND);
    }
    assert_eq!(momentum, Vector3::new(0, 0, 250 * UNIT));
    for _ in 0..10 {
        momentum = integrate_momentum(&momentum, &Vector3::zeros(), SECOND);
    }
    assert_eq!(momentum, Vector3::new(0, 0, 250 * UNIT));
}

#[test]
fn extreme_inputs_are_integrated() {
    let far = Vector3::new(COORDINATE_LIMIT, -COORDINATE_LIMIT, COORDINATE_LIMIT);
    let next = integrate_velocity(&far, &far, u32::MAX);
    assert!(square_of_length(&next) <= (V_MAX as i128) * (V_MAX as i128));
    let next = integrate_velocity(&far, &Vector3::zeros(), u32::MAX);
    assert_eq!(next.x, COORDINATE_LIMIT - 18_889_465_927_080_534);
    let next = integrate_momentum(&far, &far, u32::MAX);
    assert_eq!(next.x, COORDINATE_LIMIT + 1_180_591_620_442_533);
}
