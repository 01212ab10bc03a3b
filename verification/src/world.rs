//! The scene, and the nearest of the hits that a ray has in it.
use vstd::prelude::*;
use crate::scalar::Scalar;
use crate::sphere::{narrowing_keeps_the_hit, Roots};

verus! {

/// A scene: its objects, and the background that a ray sees which meets none
/// of them.
pub struct World<T, F> {
    pub objects: Vec<T>,
    pub background: F,
}

impl<T, F> World<T, F> {
    /// A scene without objects.
    pub fn new(background: F) -> (world: World<T, F>)
        ensures
            world.objects@.len() == 0,
            world.background == background,
    {
        World { objects: Vec::new(), background }
    }

    /// Puts `object` behind the objects that are there.
    pub fn add(&mut self, object: T)
        ensures
            final(self).objects@ == old(self).objects@.push(object),
            final(self).background == old(self).background,
    {
        self.objects.push(object);
    }

    /// Takes every object out.
    pub fn clear(&mut self)
        ensures
            final(self).objects@.len() == 0,
            final(self).background == old(self).background,
    {
        self.objects.clear();
    }
}

/// The scan for the nearest hit. `found` holds, object by object, the
/// parameter at which the ray hits the object, if it does. The scan keeps the
/// first hit it comes to and leaves it only for one that is strictly nearer.
pub open spec fn scan(found: Seq<Option<Scalar>>) -> Option<int>
    decreases found.len(),
{
    if found.len() == 0 {
        None
    } else {
        let last = found.len() - 1;
        match (scan(found.drop_last()), found[last]) {
            (kept, None) => kept,
            (None, Some(_)) => Some(last),
            (Some(i), Some(t)) => if t.less(found[i]->0) {
                Some(last)
            } else {
                Some(i)
            },
        }
    }
}

/// What the scan finds, said without the scan: an object that the ray hits,
/// such that no object is hit strictly nearer, and every object hit before it
/// is hit strictly farther. Hits at a NaN are left out of the second part.
pub open spec fn nearest(found: Seq<Option<Scalar>>, i: int) -> bool {
    &&& 0 <= i < found.len()
    &&& found[i] is Some
    &&& forall|j: int| 0 <= j < found.len() && found[j] is Some ==> !(#[trigger] found[j])->0.less(found[i]->0)
    &&& forall|j: int|
        0 <= j < i && found[j] is Some && !(#[trigger] found[j])->0.nan() && !found[i]->0.nan()
            ==> found[i]->0.less(found[j]->0)
}

/// The scan finds the nearest hit, and finds none only where there is none.
pub proof fn scan_finds_the_nearest(found: Seq<Option<Scalar>>)
    ensures
        match scan(found) {
            Some(i) => nearest(found, i),
            None => forall|j: int| 0 <= j < found.len() ==> (#[trigger] found[j]) is None,
        },
    decreases found.len(),
{
    if found.len() > 0 {
        let before = found.drop_last();
        let last = found.len() - 1;
        scan_finds_the_nearest(before);
        assert forall|j: int| 0 <= j < last implies before[j] == found[j] by {}
        match (scan(before), found[last]) {
            (None, None) => {},
            (Some(i), None) => {
                assert(nearest(before, i));
                assert(nearest(found, i));
            },
            (None, Some(_)) => {
                assert(nearest(found, last));
            },
            (Some(i), Some(t)) => {
                assert(nearest(before, i));
                if t.less(found[i]->0) {
                    assert forall|j: int|
                        0 <= j < found.len() && found[j] is Some implies !(#[trigger] found[j])->0.less(
                        t,
                    ) by {
                        if j < last {
                            assert(!before[j]->0.less(before[i]->0));
                        }
                    }
                    assert forall|j: int|
                        0 <= j < last && found[j] is Some && !(#[trigger] found[j])->0.nan()
                            && !t.nan() implies t.less(found[j]->0) by {
                        assert(!before[j]->0.less(before[i]->0));
                    }
                    assert(nearest(found, last));
                } else {
                    assert(nearest(found, i));
                }
            },
        }
    }
}

/// Among hits none of which is at a NaN, only one object is the nearest.
pub proof fn nearest_is_unique(found: Seq<Option<Scalar>>, i: int, k: int)
    requires
        nearest(found, i),
        nearest(found, k),
        forall|j: int| 0 <= j < found.len() && found[j] is Some ==> !(#[trigger] found[j])->0.nan(),
    ensures
        i == k,
{
    if i < k {
        assert(found[k]->0.less(found[i]->0));
        assert(!found[k]->0.less(found[i]->0));
    }
    if k < i {
        assert(found[i]->0.less(found[k]->0));
        assert(!found[i]->0.less(found[k]->0));
    }
}

/// The hits of a ray and each sphere inside one interval.
pub open spec fn hits(spheres: Seq<Roots>, t_min: Scalar, t_max: Scalar) -> Seq<Option<Scalar>> {
    Seq::new(spheres.len(), |i: int| spheres[i].hit(t_min, t_max))
}

/// The search with a shrinking interval: each sphere is asked for a hit
/// before the closest hit so far, which starts at `t_max`, and a sphere that
/// has one becomes the closest. The result is the sphere and the parameter of
/// its hit.
pub open spec fn shrinking_scan(spheres: Seq<Roots>, t_min: Scalar, t_max: Scalar) -> Option<
    (int, Scalar),
>
    decreases spheres.len(),
{
    if spheres.len() == 0 {
        None
    } else {
        let last = spheres.len() - 1;
        let kept = shrinking_scan(spheres.drop_last(), t_min, t_max);
        let closest_so_far = match kept {
            Some((_, t)) => t,
            None => t_max,
        };
        match spheres[last].hit(t_min, closest_so_far) {
            Some(t) => Some((last, t)),
            None => kept,
        }
    }
}

/// To shrink the interval while searching changes nothing: the search with
/// a shrinking interval ends at the sphere that `scan` finds among the hits
/// inside the whole interval, with that hit.
pub proof fn shrinking_scan_is_scan(spheres: Seq<Roots>, t_min: Scalar, t_max: Scalar)
    requires
        !t_max.nan(),
        forall|i: int| 0 <= i < spheres.len() ==> (#[trigger] spheres[i]).ordered(),
    ensures
        shrinking_scan(spheres, t_min, t_max) == match scan(hits(spheres, t_min, t_max)) {
            Some(i) => Some((i, hits(spheres, t_min, t_max)[i]->0)),
            None => None,
        },
    decreases spheres.len(),
{
    if spheres.len() > 0 {
        let last = spheres.len() - 1;
        let before = spheres.drop_last();
        assert forall|i: int| 0 <= i < before.len() implies (#[trigger] before[i]).ordered() by {
            assert(before[i] == spheres[i]);
        }
        shrinking_scan_is_scan(before, t_min, t_max);
        assert(hits(spheres, t_min, t_max).drop_last() =~= hits(before, t_min, t_max));
        let kept = shrinking_scan(before, t_min, t_max);
        let closest_so_far = match kept {
            Some((_, t)) => t,
            None => t_max,
        };
        scan_finds_the_nearest(hits(before, t_min, t_max));
        match scan(hits(before, t_min, t_max)) {
            Some(i) => {
                assert(nearest(hits(before, t_min, t_max), i));
                assert(hits(before, t_min, t_max)[i] == before[i].hit(t_min, t_max));
                assert(hits(spheres, t_min, t_max)[i] == hits(before, t_min, t_max)[i]);
            },
            None => {},
        }
        let sphere = spheres[last];
        assert(sphere.ordered());
        assert(hits(spheres, t_min, t_max)[last] == sphere.hit(t_min, t_max));
        narrowing_keeps_the_hit(sphere, t_min, t_max, closest_so_far);
    }
}

/// The object that the ray hits first, by its place in `found`.
pub fn closest_hit(found: &Vec<Option<Scalar>>) -> (r: Option<usize>)
    ensures
        match r {
            Some(i) => scan(found@) == Some(i as int) && nearest(found@, i as int),
            None => scan(found@) is None && forall|j: int|
                0 <= j < found@.len() ==> (#[trigger] found@[j]) is None,
        },
{
    let mut kept: Option<usize> = None;
    let mut closest_so_far: Scalar = Scalar::zero();
    let mut k: usize = 0;
    while k < found.len()
        invariant
            k <= found@.len(),
            match kept {
                Some(i) => scan(found@.take(k as int)) == Some(i as int) && i < k && found@[i as int]
                    == Some(closest_so_far),
                None => scan(found@.take(k as int)) is None,
            },
        decreases found@.len() - k,
    {
        proof {
            assert(found@.take(k + 1).drop_last() =~= found@.take(k as int));
            assert(found@.take(k + 1)[k as int] == found@[k as int]);
        }
        match found[k] {
            None => {},
            Some(t) => {
                let nearer: bool = match kept {
                    None => true,
                    Some(_) => t.lt(closest_so_far),
                };
                if nearer {
                    kept = Some(k);
                    closest_so_far = t;
                }
            },
        }
        k = k + 1;
    }
    proof {
        assert(found@.take(k as int) =~= found@);
        scan_finds_the_nearest(found@);
    }
    kept
}

} // verus!
