//! Which random points a sampler keeps.
use vstd::prelude::*;
use crate::scalar::{Scalar, ONE_BITS};

verus! {

/// Whether a point with the given squared length lies inside the unit
/// sphere, its surface left out. A sampler that draws points from the cube
/// round the sphere keeps those for which this holds and draws again for the
/// others; every point it hands out has a squared length below one.
pub fn in_unit_sphere(length_squared: Scalar) -> (r: bool)
    ensures
        r == length_squared.less(Scalar { bits: ONE_BITS }),
        r ==> !length_squared.nan(),
{
    length_squared.lt(Scalar::one())
}

} // verus!
