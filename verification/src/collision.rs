//! The bounce at the edge of the world.
//!
//! The host reports the contacts of the collider of the player. Where one of them is live
//! and involves a collider that carries the boundary tag, and the body moves away from the
//! origin, the momentum is turned round. "Away from the origin" is judged by the sign of
//! the dot product of momentum and position: that is right for a boundary centred on the
//! origin and an approximation for any other.

use vstd::prelude::*;
use crate::algebra::Vec3;
use crate::rounding::lemma_product_bounded;
use crate::scene::Handle;
use crate::vector::Vector3;

verus! {

/// One of the two colliders of a contact, with what the host found when it looked up its
/// tag.
#[derive(Clone, Copy, Debug, PartialEq, Eq, Structural)]
pub struct Collider {
    pub handle: Handle,
    /// Whether the collider carries the tag of the boundary of the world.
    pub boundary: bool,
}

/// A contact between two colliders.
#[derive(Clone, Copy, Debug, PartialEq, Eq, Structural)]
pub struct Contact {
    pub collider1: Collider,
    pub collider2: Collider,
    /// Whether the two colliders touch at the moment.
    pub active: bool,
}

/// What the resolver made of the contacts of a tick.
#[derive(Clone, Copy, Debug, PartialEq, Eq, Structural)]
pub struct Resolution {
    /// The momentum after the tick's contacts: turned round on a bounce, else as it was.
    pub momentum: Vector3,
    /// Whether the body bounced.
    pub bounced: bool,
}

/// Whether a contact is live and involves the boundary.
pub open spec fn touches_boundary(contact: Contact) -> bool {
    contact.active && (contact.collider1.boundary || contact.collider2.boundary)
}

/// Whether any of the contacts is live and involves the boundary.
pub open spec fn boundary_touched(contacts: Seq<Contact>) -> bool {
    exists|i: int| 0 <= i < contacts.len() && touches_boundary(#[trigger] contacts[i])
}

/// Whether a body at `position` with `momentum` moves away from the origin.
pub open spec fn moving_outward(momentum: Vec3, position: Vec3) -> bool {
    momentum.dot(position) > 0
}

/// Whether the body bounces in a tick with these contacts.
pub open spec fn bounces(momentum: Vec3, position: Vec3, contacts: Seq<Contact>) -> bool {
    boundary_touched(contacts) && moving_outward(momentum, position)
}

/// The momentum after the contacts of a tick.
pub open spec fn resolved(momentum: Vec3, position: Vec3, contacts: Seq<Contact>) -> Vec3 {
    if bounces(momentum, position, contacts) {
        momentum.negated()
    } else {
        momentum
    }
}

/// The place of the first contact that is live and involves the boundary, if there is one.
pub fn first_boundary_contact(contacts: &Vec<Contact>) -> (found: Option<usize>)
    ensures
        found is Some <==> boundary_touched(contacts@),
        found matches Some(i) ==> {
            &&& i < contacts.len()
            &&& touches_boundary(contacts[i as int])
            &&& forall|j: int| 0 <= j < i ==> !touches_boundary(#[trigger] contacts[j])
        },
{
    let mut i: usize = 0;
    while i < contacts.len()
        invariant
            i <= contacts.len(),
            forall|j: int| 0 <= j < i ==> !touches_boundary(#[trigger] contacts[j]),
        decreases contacts.len() - i,
    {
        let contact = &contacts[i];
        if contact.active && (contact.collider1.boundary || contact.collider2.boundary) {
            return Some(i);
        }
        i += 1;
    }
    None
}

/// Whether a body at `position` with `momentum` moves away from the origin.
pub fn is_moving_outward(momentum: &Vector3, position: &Vector3) -> (outward: bool)
    requires
        momentum.in_range(),
        position.in_range(),
    ensures
        outward == moving_outward(momentum@, position@),
{
    proof {
        lemma_product_bounded(
            momentum.x as int,
            position.x as int,
            0x100_0000_0000,
            0x100_0000_0000,
        );
        lemma_product_bounded(
            momentum.y as int,
            position.y as int,
            0x100_0000_0000,
            0x100_0000_0000,
        );
        lemma_product_bounded(
            momentum.z as int,
            position.z as int,
            0x100_0000_0000,
            0x100_0000_0000,
        );
    }
    let dot: i128 = (momentum.x as i128) * (position.x as i128) + (momentum.y as i128) * (
    position.y as i128) + (momentum.z as i128) * (position.z as i128);
    dot > 0
}

/// Resolves the contacts of a tick: on a live contact with the boundary, a body that moves
/// away from the origin has its momentum turned round. Every other contact changes
/// nothing. The position is read and not written.
pub fn resolve(momentum: &Vector3, position: &Vector3, contacts: &Vec<Contact>) -> (resolution:
    Resolution)
    requires
        momentum.in_range(),
        position.in_range(),
    ensures
        resolution.bounced == bounces(momentum@, position@, contacts@),
        resolution.momentum@ == resolved(momentum@, position@, contacts@),
        resolution.momentum.in_range(),
{
    if first_boundary_contact(contacts).is_some() && is_moving_outward(momentum, position) {
        Resolution {
            momentum: Vector3 { x: -momentum.x, y: -momentum.y, z: -momentum.z },
            bounced: true,
        }
    } else {
        Resolution { momentum: *momentum, bounced: false }
    }
}

/// A bounce keeps the speed, and after it the body no longer moves outward: a second
/// resolution in the same place changes nothing.
pub proof fn lemma_bounce_turns_inward(momentum: Vec3, position: Vec3, contacts: Seq<Contact>)
    requires
        bounces(momentum, position, contacts),
    ensures
        resolved(momentum, position, contacts).norm2() == momentum.norm2(),
        !bounces(resolved(momentum, position, contacts), position, contacts),
{
    let m = momentum;
    let p = position;
    assert((-m.x) * (-m.x) == m.x * m.x && (-m.y) * (-m.y) == m.y * m.y && (-m.z) * (-m.z) == m.z
        * m.z) by (nonlinear_arith);
    assert((-m.x) * p.x == -(m.x * p.x) && (-m.y) * p.y == -(m.y * p.y) && (-m.z) * p.z == -(m.z
        * p.z)) by (nonlinear_arith);
}

} // verus!
