//! The colour that a ray brings back, one bounce at a time.
use vstd::prelude::*;
use crate::image::Color;
use crate::materials::Surface;

verus! {

/// What becomes of a ray at one step of its path.
#[derive(Debug, PartialEq, Eq, Clone, Copy, Structural)]
pub enum Shade {
    /// The path ends here with this colour.
    Done(Color),
    /// The ray left the scene: its colour is the background's.
    Background,
    /// The ray goes on with `depth` bounces left. Its colour is `emitted`
    /// plus, channel by channel, `attenuation` times the colour that the
    /// scattered ray brings back.
    Bounce { emitted: Color, attenuation: Color, depth: u32 },
}

/// The step for a ray with `depth` bounces left that met `hit`, or nothing.
///
/// With no bounce left the ray is black, whatever it met. A ray that met
/// nothing takes the background. A ray that met a surface goes on where the
/// surface sends it on, and else ends with what the surface emits.
pub open spec fn shaded(depth: u32, hit: Option<Surface>) -> Shade {
    if depth == 0 {
        Shade::Done(Color::spec_black())
    } else {
        match hit {
            None => Shade::Background,
            Some(surface) => match surface.attenuation {
                Some(attenuation) => Shade::Bounce {
                    emitted: surface.emitted,
                    attenuation,
                    depth: (depth - 1) as u32,
                },
                None => Shade::Done(surface.emitted),
            },
        }
    }
}

/// One step of a ray's path.
pub fn ray_color_step(depth: u32, hit: Option<Surface>) -> (r: Shade)
    ensures
        r == shaded(depth, hit),
        depth == 0 ==> r == Shade::Done(Color::spec_black()),
        r matches Shade::Bounce { depth: left, .. } ==> left < depth,
{
    if depth == 0 {
        return Shade::Done(Color::black());
    }
    match hit {
        None => Shade::Background,
        Some(surface) => match surface.attenuation {
            Some(attenuation) => Shade::Bounce {
                emitted: surface.emitted,
                attenuation,
                depth: depth - 1,
            },
            None => Shade::Done(surface.emitted),
        },
    }
}

/// How many times a ray bounces that starts with `depth` bounces left and
/// meets `hits` one after the other, until its path ends or `hits` does.
pub open spec fn bounces(depth: u32, hits: Seq<Option<Surface>>) -> nat
    decreases hits.len(),
{
    if hits.len() == 0 {
        0
    } else {
        match shaded(depth, hits[0]) {
            Shade::Bounce { depth: left, .. } => 1 + bounces(left, hits.drop_first()),
            _ => 0,
        }
    }
}

/// No path is longer than the depth it started with, whatever the ray meets.
pub proof fn path_ends_within_depth(depth: u32, hits: Seq<Option<Surface>>)
    ensures
        bounces(depth, hits) <= depth,
    decreases hits.len(),
{
    if hits.len() > 0 {
        match shaded(depth, hits[0]) {
            Shade::Bounce { depth: left, .. } => {
                path_ends_within_depth(left, hits.drop_first());
            },
            _ => {},
        }
    }
}

} // verus!
