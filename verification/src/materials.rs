//! What a surface does to the light that reaches it.
//!
//! A material answers two questions: what it emits, and whether it sends a
//! ray on, tinted by which colour. Where the ray goes is arithmetic and is the
//! caller's; the numbers that a decision rests on are handed in.
use vstd::prelude::*;
use crate::image::Color;
use crate::scalar::Scalar;

verus! {

/// A surface that shines and sends no ray on.
#[derive(Debug, PartialEq, Eq, Clone, Copy, Structural)]
pub struct DiffuseLight {
    pub emit: Color,
}

/// A matt surface.
#[derive(Debug, PartialEq, Eq, Clone, Copy, Structural)]
pub struct Lambertian {
    pub albedo: Color,
}

/// A mirror, blurred by `fuzz`.
#[derive(Debug, PartialEq, Eq, Clone, Copy, Structural)]
pub struct Metal {
    pub albedo: Color,
    pub fuzz: Scalar,
}

/// A clear solid with refractive index `ir`.
#[derive(Debug, PartialEq, Eq, Clone, Copy, Structural)]
pub struct Dielectric {
    pub albedo: Color,
    pub ir: Scalar,
}

/// One of the four kinds of surface.
#[derive(Debug, PartialEq, Eq, Clone, Copy, Structural)]
pub enum Material {
    Lambertian(Lambertian),
    Metal(Metal),
    Dielectric(Dielectric),
    DiffuseLight(DiffuseLight),
}

/// What a ray met: the light that the surface emits, and the tint of the ray
/// that it sends on, if it sends one.
#[derive(Debug, PartialEq, Eq, Clone, Copy, Structural)]
pub struct Surface {
    pub emitted: Color,
    pub attenuation: Option<Color>,
}

impl DiffuseLight {
    pub fn new(emit: Color) -> (m: DiffuseLight)
        ensures
            m.emit == emit,
    {
        DiffuseLight { emit }
    }

    /// A light absorbs every ray.
    pub fn scatter(&self) -> (r: Option<Color>)
        ensures
            r is None,
    {
        None
    }

    /// The light's colour.
    pub fn emitted(&self) -> (c: Color)
        ensures
            c == self.emit,
    {
        self.emit
    }
}

impl Lambertian {
    pub fn new(albedo: Color) -> (m: Lambertian)
        ensures
            m.albedo == albedo,
    {
        Lambertian { albedo }
    }

    /// A matt surface sends every ray on, tinted by its albedo.
    pub fn scatter(&self) -> (r: Option<Color>)
        ensures
            r == Some(self.albedo),
    {
        Some(self.albedo)
    }
}

impl Metal {
    pub fn new(albedo: Color, fuzz: Scalar) -> (m: Metal)
        ensures
            m.albedo == albedo,
            m.fuzz == fuzz,
    {
        Metal { albedo, fuzz }
    }

    /// Whether a mirrored ray leaves the surface: its direction, after the
    /// blur, must point to the side of the normal. `outgoing_dot_normal` is
    /// the dot product of the two.
    pub open spec fn leaves(outgoing_dot_normal: Scalar) -> bool {
        (Scalar { bits: 0 }).less(outgoing_dot_normal)
    }

    /// A mirror sends the ray on, tinted by its albedo, where the ray leaves
    /// the surface, and absorbs it where the blur has turned it inwards.
    pub fn scatter(&self, outgoing_dot_normal: Scalar) -> (r: Option<Color>)
        ensures
            r == if Metal::leaves(outgoing_dot_normal) {
                Some(self.albedo)
            } else {
                None
            },
    {
        if outgoing_dot_normal.gt(Scalar::zero()) {
            Some(self.albedo)
        } else {
            None
        }
    }
}

impl Dielectric {
    pub fn new(albedo: Color, ir: Scalar) -> (m: Dielectric)
        ensures
            m.albedo == albedo,
            m.ir == ir,
    {
        Dielectric { albedo, ir }
    }

    /// A clear solid sends every ray on, tinted by its albedo.
    pub fn scatter(&self) -> (r: Option<Color>)
        ensures
            r == Some(self.albedo),
    {
        Some(self.albedo)
    }

    /// Whether no refracted ray exists: the refraction ratio times the sine
    /// of the angle of incidence is above one.
    pub fn cannot_refract(ratio_times_sine: Scalar) -> (r: bool)
        ensures
            r == (Scalar { bits: crate::scalar::ONE_BITS }).less(ratio_times_sine),
    {
        ratio_times_sine.gt(Scalar::one())
    }

    /// Whether the ray is mirrored rather than refracted: always where it
    /// cannot be refracted, and else where the reflectance is above `draw`, a
    /// number drawn for this ray.
    pub fn reflects(cannot_refract: bool, reflectance: Scalar, draw: Scalar) -> (r: bool)
        ensures
            r == (cannot_refract || draw.less(reflectance)),
    {
        cannot_refract || reflectance.gt(draw)
    }
}

impl Material {
    /// What the surface emits: a light its colour, every other surface black.
    pub open spec fn emission(&self) -> Color {
        match self {
            Material::DiffuseLight(light) => light.emit,
            _ => Color::spec_black(),
        }
    }

    /// The tint of the ray that the surface sends on, if it sends one.
    /// `outgoing_dot_normal` counts for a mirror only.
    pub open spec fn attenuation(&self, outgoing_dot_normal: Scalar) -> Option<Color> {
        match self {
            Material::Lambertian(m) => Some(m.albedo),
            Material::Metal(m) => if Metal::leaves(outgoing_dot_normal) {
                Some(m.albedo)
            } else {
                None
            },
            Material::Dielectric(m) => Some(m.albedo),
            Material::DiffuseLight(_) => None,
        }
    }

    /// What the surface emits.
    pub fn emitted(&self) -> (c: Color)
        ensures
            c == self.emission(),
    {
        match self {
            Material::DiffuseLight(light) => light.emitted(),
            _ => Color::black(),
        }
    }

    /// Whether the surface sends the ray on, and tinted by which colour.
    pub fn scatter(&self, outgoing_dot_normal: Scalar) -> (r: Option<Color>)
        ensures
            r == self.attenuation(outgoing_dot_normal),
    {
        match self {
            Material::Lambertian(m) => m.scatter(),
            Material::Metal(m) => m.scatter(outgoing_dot_normal),
            Material::Dielectric(m) => m.scatter(),
            Material::DiffuseLight(m) => m.scatter(),
        }
    }

    /// Both answers at once.
    pub fn surface(&self, outgoing_dot_normal: Scalar) -> (s: Surface)
        ensures
            s.emitted == self.emission(),
            s.attenuation == self.attenuation(outgoing_dot_normal),
    {
        Surface { emitted: self.emitted(), attenuation: self.scatter(outgoing_dot_normal) }
    }
}

/// Only a light emits, and a light sends no ray on: of emission and a ray sent
/// on, a surface gives at most one.
pub proof fn emits_or_scatters(m: Material, outgoing_dot_normal: Scalar)
    ensures
        m.emission() != Color::spec_black() ==> m.attenuation(outgoing_dot_normal) is None,
        m.attenuation(outgoing_dot_normal) is Some ==> m.emission() == Color::spec_black(),
{
}

} // verus!
