use mason::quaternion::{Quaternion, QUATERNION_ONE};
use mason::rotation::{rotate, ROTATION_SCALE};
use mason::vector::{Vector3, COORDINATE_LIMIT, UNIT};

fn length2(v: &Vector3) -> i128 {
    let (x, y, z) = (v.x as i128, v.y as i128, v.z as i128);
    x * x + y * y + z * z
}

fn taxicab(v: &Vector3) -> i128 {
    (v.x as i128).abs() + (v.y as i128).abs() + (v.z as i128).abs()
}

fn quaternion_length2(q: &Quaternion) -> i128 {
    let (w, x, y, z) = (q.w as i128, q.x as i128, q.y as i128, q.z as i128);
    w * w + x * x + y * y + z * z
}

#[test]
fn scale_is_the_square_of_one() {
    assert_eq!(ROTATION_SCALE, (QUATERNION_ONE as i128) * (QUATERNION_ONE as i128));
    assert_eq!(quaternion_length2(&Quaternion::identity()), ROTATION_SCALE);
}

#[test]
fn identity_turns_nothing() {
    let v = Vector3::new(123_456_789, -987_654_321, 555);
    assert_eq!(rotate(&v, &Quaternion::identity()), v);
    let far = Vector3::new(COORDINATE_LIMIT, -COORDINATE_LIMIT, COORDINATE_LIMIT);
    assert_eq!(rotate(&far, &Quaternion::identity()), far);
}

#[test]
fn half_turn_about_the_vertical() {
    let q = Quaternion::new(0, 0, QUATERNION_ONE, 0);
    let v = Vector3::new(UNIT, 2 * UNIT, 3 * UNIT);
    assert_eq!(rotate(&v, &q), Vector3::new(-UNIT, 2 * UNIT, -3 * UNIT));
}

#[test]
fn turn_about_the_vertical_by_exact_angle() {
    // Half-angle cosine 0.6 and sine 0.8: a quaternion of exactly unit length.
    let q = Quaternion::new(600_000_000, 0, 800_000_000, 0);
    assert_eq!(quaternion_length2(&q), ROTATION_SCALE);
    let r = rotate(&Vector3::new(0, 0, UNIT), &q);
    assert_eq!(r, Vector3::new(960_000, 0, -280_000));
    assert_eq!(length2(&r), (UNIT as i128) * (UNIT as i128));
}

#[test]
fn third_of_a_turn_about_the_diagonal() {
    let q = Quaternion::new(500_000_000, 500_000_000, 500_000_000, 500_000_000);
    assert_eq!(quaternion_length2(&q), ROTATION_SCALE);
    assert_eq!(rotate(&Vector3::new(UNIT, UNIT, UNIT), &q), Vector3::new(UNIT, UNIT, UNIT));
    assert_eq!(rotate(&Vector3::new(UNIT, 0, 0), &q), Vector3::new(0, UNIT, 0));
    assert_eq!(rotate(&Vector3::new(0, UNIT, 0), &q), Vector3::new(0, 0, UNIT));
}

#[test]
fn rounding_is_toward_zero() {
    // A quarter turn whose half-angle sine and cosine are rounded down: the quaternion is a
    // little short of unit length and so is the result.
    let q = Quaternion::new(707_106_781, 0, 707_106_781, 0);
    assert_eq!(rotate(&Vector3::new(UNIT, -UNIT, 0), &q), Vector3::new(0, -999_999, -999_999));
}

#[test]
fn orientation_is_not_normalised() {
    let twice = Quaternion::new(2_000_000_000, 0, 0, 0);
    assert_eq!(rotate(&Vector3::new(0, 0, UNIT), &twice), Vector3::new(0, 0, 4 * UNIT));
    let nothing = Quaternion::new(0, 0, 0, 0);
    assert_eq!(rotate(&Vector3::new(UNIT, UNIT, UNIT), &nothing), Vector3::zeros());
}

#[test]
fn rotation_keeps_length_within_rounding() {
    let unit = [
        Quaternion::new(600_000_000, 0, 800_000_000, 0),
        Quaternion::new(500_000_000, 500_000_000, 500_000_000, 500_000_000),
        Quaternion::new(0, 280_000_000, 0, 960_000_000),
        Quaternion::new(-600_000_000, 0, 0, 800_000_000),
        Quaternion::new(200_000_000, 400_000_000, 400_000_000, 800_000_000),
    ];
    let vectors = [
        Vector3::new(123_456_789, -987_654_321, 555),
        Vector3::new(1, 0, 0),
        Vector3::new(-7, 11, 13),
        Vector3::new(COORDINATE_LIMIT, COORDINATE_LIMIT, -COORDINATE_LIMIT),
        Vector3::new(0, 0, 0),
    ];
    for q in unit {
        assert_eq!(quaternion_length2(&q), ROTATION_SCALE);
        for v in vectors {
            let r = rotate(&v, &q);
            assert!(length2(&r) <= length2(&v));
            assert!(length2(&v) < length2(&r) + 2 * taxicab(&r) + 3);
        }
    }
}

#[test]
fn nearly_unit_orientation() {
    let q = Quaternion::new(182_574_186, 365_148_372, 547_722_558, 730_296_743);
    let v = Vector3::new(123_456_789, -987_654_321, 555);
    assert_eq!(rotate(&v, &q), Vector3::new(-213_991_362, 411_523_002, -880_658_363));
}
