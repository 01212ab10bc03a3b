//! The decisions of a path tracer: which intersection counts, what a surface
//! does to a ray, when a path ends, and how the finished pixels are stored and
//! laid out for an encoder.
//!
//! Numbers cross this library as bit patterns (see `scalar`). The arithmetic
//! on them is the caller's.
pub mod error;
pub mod image;
pub mod materials;
pub mod ppm;
pub mod ray;
pub mod render;
pub mod sampling;
pub mod scalar;
pub mod sphere;
pub mod text;
pub mod world;

pub use error::RTError;
pub use image::{Color, Image};
pub use materials::{Dielectric, DiffuseLight, Lambertian, Material, Metal, Surface};
pub use ppm::ppm_text;
pub use ray::{ray_color_step, Shade};
pub use render::create_img;
pub use sampling::in_unit_sphere;
pub use scalar::{clamp, Scalar};
pub use sphere::{front_face, select_root, Roots};
pub use world::{closest_hit, World};
