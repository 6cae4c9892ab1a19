use mason::input::VirtualKeyCode;
use mason::quaternion::Quaternion;
use mason::thrust::{Direction, Thrust};
use mason::vector::{Vector3, UNIT};

fn norm2(v: &Vector3) -> i128 {
    let (x, y, z) = (v.x as i128, v.y as i128, v.z as i128);
    x * x + y * y + z * z
}

#[test]
fn no_key_no_thrust() {
    assert_eq!(Thrust::new().to_vector(), Vector3::zeros());
    assert_eq!(Thrust::default().to_vector(), Vector3::new(0, 0, 0));
}

#[test]
fn each_direction_alone() {
    let cases = [
        (Direction::Forward, Vector3::new(0, 0, UNIT)),
        (Direction::Back, Vector3::new(0, 0, -UNIT)),
        (Direction::Up, Vector3::new(0, UNIT, 0)),
        (Direction::Down, Vector3::new(0, -UNIT, 0)),
        (Direction::Left, Vector3::new(UNIT, 0, 0)),
        (Direction::Right, Vector3::new(-UNIT, 0, 0)),
    ];
    for (direction, expected) in cases {
        let mut thrust = Thrust::new();
        thrust.set_direction(direction, true);
        assert_eq!(thrust.to_vector(), expected);
        thrust.set_direction(direction, false);
        assert_eq!(thrust.to_vector(), Vector3::zeros());
    }
}

#[test]
fn forward_and_back_cancel() {
    let mut thrust = Thrust::new();
    thrust.set_direction(Direction::Forward, true);
    thrust.set_direction(Direction::Back, true);
    assert_eq!(thrust.to_vector(), Vector3::zeros());
    thrust.set_direction(Direction::Up, true);
    assert_eq!(thrust.to_vector(), Vector3::new(0, UNIT, 0));
}

#[test]
fn diagonal_thrust_is_not_normalised() {
    let mut thrust = Thrust::new();
    thrust.set_direction(Direction::Forward, true);
    thrust.set_direction(Direction::Left, true);
    let v = thrust.to_vector();
    assert_eq!(v, Vector3::new(UNIT, 0, UNIT));
    assert_eq!(norm2(&v), 2 * (UNIT as i128) * (UNIT as i128));
    thrust.set_direction(Direction::Down, true);
    assert_eq!(norm2(&thrust.to_vector()), 3 * (UNIT as i128) * (UNIT as i128));
}

#[test]
fn set_direction_twice_is_once() {
    let mut once = Thrust::new();
    once.set_direction(Direction::Left, true);
    let mut twice = once;
    twice.set_direction(Direction::Left, true);
    assert_eq!(once, twice);
    twice.set_direction(Direction::Left, false);
    twice.set_direction(Direction::Left, false);
    assert_eq!(twice, Thrust::new());
}

#[test]
fn set_direction_leaves_the_others() {
    let mut thrust = Thrust::new();
    thrust.set_direction(Direction::Right, true);
    thrust.set_direction(Direction::Up, true);
    thrust.set_direction(Direction::Right, false);
    assert_eq!(
        thrust,
        Thrust { forward: false, back: false, up: true, down: false, left: false, right: false }
    );
}

#[test]
fn keys_stand_for_directions() {
    assert_eq!(Thrust::direction_of(VirtualKeyCode::W), Some(Direction::Forward));
    assert_eq!(Thrust::direction_of(VirtualKeyCode::S), Some(Direction::Back));
    assert_eq!(Thrust::direction_of(VirtualKeyCode::A), Some(Direction::Left));
    assert_eq!(Thrust::direction_of(VirtualKeyCode::D), Some(Direction::Right));
    assert_eq!(Thrust::direction_of(VirtualKeyCode::LShift), Some(Direction::Up));
    assert_eq!(Thrust::direction_of(VirtualKeyCode::LControl), Some(Direction::Down));
    assert_eq!(Thrust::direction_of(VirtualKeyCode::Other), None);
}

#[test]
fn rotated_thrust_follows_the_camera() {
    let mut thrust = Thrust::new();
    thrust.set_direction(Direction::Forward, true);
    assert_eq!(thrust.to_rotated_vector(Quaternion::identity()), Vector3::new(0, 0, UNIT));
    let turned = Quaternion::new(600_000_000, 0, 800_000_000, 0);
    assert_eq!(thrust.to_rotated_vector(turned), Vector3::new(960_000, 0, -280_000));
    assert_eq!(Thrust::new().to_rotated_vector(turned), Vector3::zeros());
}
