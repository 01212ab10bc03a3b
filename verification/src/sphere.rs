//! Which of a sphere's two intersections with a ray counts.
//!
//! A ray meets a sphere where a quadratic in the ray's parameter has a root.
//! The caller works out the discriminant and the two roots; which root is the
//! hit, if any, is decided here.
use vstd::prelude::*;
use crate::scalar::Scalar;

verus! {

/// The discriminant and the two roots of a ray and one sphere, the root
/// nearer to the ray's origin first.
#[derive(Debug, PartialEq, Eq, Clone, Copy, Structural)]
pub struct Roots {
    pub discriminant: Scalar,
    pub near: Scalar,
    pub far: Scalar,
}

/// Whether `t` lies strictly between `t_min` and `t_max`.
pub open spec fn inside(t: Scalar, t_min: Scalar, t_max: Scalar) -> bool {
    t.less(t_max) && t_min.less(t)
}

impl Roots {
    /// The parameter of the hit: with a discriminant above zero, the nearer
    /// root where it lies inside the interval, else the farther root where
    /// that one does; in every other case none.
    pub open spec fn hit(self, t_min: Scalar, t_max: Scalar) -> Option<Scalar> {
        if !(Scalar { bits: 0 }).less(self.discriminant) {
            None
        } else if inside(self.near, t_min, t_max) {
            Some(self.near)
        } else if inside(self.far, t_min, t_max) {
            Some(self.far)
        } else {
            None
        }
    }

    /// Whether the roots are numbers and stand in their order.
    pub open spec fn ordered(self) -> bool {
        !self.near.nan() && !self.far.nan() && !self.far.less(self.near)
    }

    pub fn new(discriminant: Scalar, near: Scalar, far: Scalar) -> (r: Roots)
        ensures
            r == (Roots { discriminant, near, far }),
    {
        Roots { discriminant, near, far }
    }
}

/// Picks the hit among the two roots of a ray and a sphere.
///
/// A discriminant that is zero, negative or NaN means that the ray passes the
/// sphere by, whatever the roots hold.
pub fn select_root(roots: Roots, t_min: Scalar, t_max: Scalar) -> (r: Option<Scalar>)
    ensures
        r == roots.hit(t_min, t_max),
        !(Scalar { bits: 0 }).less(roots.discriminant) ==> r is None,
        r matches Some(t) ==> inside(t, t_min, t_max) && (t == roots.near || t == roots.far),
{
    if !roots.discriminant.gt(Scalar::zero()) {
        return None;
    }
    if roots.near.lt(t_max) && roots.near.gt(t_min) {
        return Some(roots.near);
    }
    if roots.far.lt(t_max) && roots.far.gt(t_min) {
        return Some(roots.far);
    }
    None
}

/// Whether the ray meets the surface from outside: the dot product of its
/// direction and the outward normal is below zero.
pub fn front_face(direction_dot_outward: Scalar) -> (r: bool)
    ensures
        r == direction_dot_outward.less(Scalar { bits: 0 }),
{
    direction_dot_outward.lt(Scalar::zero())
}

/// Narrowing the interval from the far side never brings a hit into being
/// and never moves one: with `closer` not beyond `t_max`, the hit inside the
/// narrowed interval is the hit of the wide one where that lies before
/// `closer`, and none else.
pub proof fn narrowing_keeps_the_hit(roots: Roots, t_min: Scalar, t_max: Scalar, closer: Scalar)
    requires
        roots.ordered(),
        !t_max.nan(),
        !t_max.less(closer),
    ensures
        roots.hit(t_min, closer) == match roots.hit(t_min, t_max) {
            Some(t) => if t.less(closer) {
                Some(t)
            } else {
                None
            },
            None => None,
        },
{
}

} // verus!
