use mason::collision::{
    first_boundary_contact, is_moving_outward, resolve, Collider, Contact, Resolution,
};
use mason::scene::Handle;
use mason::vector::{Vector3, COORDINATE_LIMIT, UNIT};

fn contact(first_is_boundary: bool, second_is_boundary: bool, active: bool) -> Contact {
    Contact {
        collider1: Collider { handle: Handle::new(1, 1), boundary: first_is_boundary },
        collider2: Collider { handle: Handle::new(2, 1), boundary: second_is_boundary },
        active,
    }
}

#[test]
fn bounce_off_the_boundary() {
    let position = Vector3::new(10 * UNIT, 0, 0);
    let momentum = Vector3::new(UNIT, 0, 0);
    let before = position;
    let resolution = resolve(&momentum, &position, &vec![contact(false, true, true)]);
    assert_eq!(resolution, Resolution { momentum: Vector3::new(-UNIT, 0, 0), bounced: true });
    assert_eq!(position, before);
}

#[test]
fn boundary_may_be_either_collider() {
    let position = Vector3::new(10 * UNIT, 0, 0);
    let momentum = Vector3::new(UNIT, 2, -3);
    let resolution = resolve(&momentum, &position, &vec![contact(true, false, true)]);
    assert_eq!(resolution, Resolution { momentum: Vector3::new(-UNIT, -2, 3), bounced: true });
}

#[test]
fn no_bounce_for_a_body_that_moves_inward() {
    let position = Vector3::new(10 * UNIT, 0, 0);
    let inward = Vector3::new(-UNIT, 0, 0);
    let contacts = vec![contact(false, true, true)];
    assert_eq!(
        resolve(&inward, &position, &contacts),
        Resolution { momentum: inward, bounced: false }
    );
    let sideways = Vector3::new(0, UNIT, 0);
    assert_eq!(
        resolve(&sideways, &position, &contacts),
        Resolution { momentum: sideways, bounced: false }
    );
    let at_origin = Vector3::zeros();
    assert!(!resolve(&Vector3::new(UNIT, 0, 0), &at_origin, &contacts).bounced);
}

#[test]
fn no_bounce_without_a_live_boundary_contact() {
    let position = Vector3::new(10 * UNIT, 0, 0);
    let momentum = Vector3::new(UNIT, 0, 0);
    let still = Resolution { momentum, bounced: false };
    assert_eq!(resolve(&momentum, &position, &vec![]), still);
    assert_eq!(resolve(&momentum, &position, &vec![contact(false, true, false)]), still);
    assert_eq!(resolve(&momentum, &position, &vec![contact(false, false, true)]), still);
    assert_eq!(
        resolve(
            &momentum,
            &position,
            &vec![contact(false, false, true), contact(true, true, false)]
        ),
        still
    );
}

#[test]
fn bounce_is_the_same_whichever_contact_matches() {
    let position = Vector3::new(0, -3 * UNIT, 4 * UNIT);
    let momentum = Vector3::new(7, -UNIT, 0);
    let one = resolve(&momentum, &position, &vec![contact(false, true, true)]);
    let many = resolve(
        &momentum,
        &position,
        &vec![
            contact(false, false, true),
            contact(true, false, false),
            contact(true, false, true),
            contact(false, true, true),
        ],
    );
    assert!(one.bounced);
    assert_eq!(one, many);
}

#[test]
fn first_match_in_order() {
    let contacts = vec![
        contact(false, false, true),
        contact(true, false, false),
        contact(true, false, true),
        contact(false, true, true),
    ];
    assert_eq!(first_boundary_contact(&contacts), Some(2));
    assert_eq!(first_boundary_contact(&vec![]), None);
    assert_eq!(first_boundary_contact(&vec![contact(true, true, false)]), None);
    assert_eq!(first_boundary_contact(&vec![contact(false, true, true)]), Some(0));
}

#[test]
fn outward_is_the_sign_of_the_dot_product() {
    let position = Vector3::new(3 * UNIT, -4 * UNIT, 0);
    assert!(is_moving_outward(&Vector3::new(4, -3, 0), &position));
    assert!(!is_moving_outward(&Vector3::new(4, 3, 100), &position));
    assert!(!is_moving_outward(&Vector3::new(-4, 3, 0), &position));
    assert!(is_moving_outward(&Vector3::new(4, 3, 0), &Vector3::new(1, 0, 0)));
    let far = Vector3::new(COORDINATE_LIMIT, COORDINATE_LIMIT, COORDINATE_LIMIT);
    assert!(is_moving_outward(&far, &far));
    let back = Vector3::new(-COORDINATE_LIMIT, -COORDINATE_LIMIT, -COORDINATE_LIMIT);
    assert!(!is_moving_outward(&back, &far));
}

#[test]
fn second_resolution_changes_nothing() {
    let position = Vector3::new(10 * UNIT, 0, 0);
    let contacts = vec![contact(false, true, true)];
    let once = resolve(&Vector3::new(UNIT, 5, 0), &position, &contacts);
    assert!(once.bounced);
    let twice = resolve(&once.momentum, &position, &contacts);
    assert_eq!(twice, Resolution { momentum: once.momentum, bounced: false });
}
