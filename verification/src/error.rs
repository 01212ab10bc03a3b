//! What can go wrong between a finished image and a file.
use vstd::prelude::*;
use vstd::string::*;
use crate::text::{decimal, push_decimal};

verus! {

#[verifier::external_type_specification]
#[verifier::external_body]
pub struct ExIoError(std::io::Error);

#[verifier::external_type_specification]
#[verifier::external_body]
pub struct ExImageError(image::ImageError);

/// The errors of rendering and writing an image.
#[derive(Debug)]
pub enum RTError {
    /// Reading or writing failed.
    IO(std::io::Error),
    /// The encoder refused the image.
    ImageRS(image::ImageError),
    /// The image has no pixel.
    EmptyImg,
    /// The image does not hold one pixel for each place of its `h` rows and
    /// `w` columns.
    InconsistencySizePixels { h: u32, w: u32, nb_pixels: usize },
}

/// The text for an image of `h` rows and `w` columns that holds `nb_pixels`
/// pixels.
pub open spec fn mismatch_text(h: u32, w: u32, nb_pixels: usize) -> Seq<char> {
    "The size "@ + decimal(h as nat) + "*"@ + decimal(w as nat)
        + " do not equals the nb of pixels "@ + decimal(nb_pixels as nat)
}

/// `std::io::Error`'s `Display`, as a `String`. What it says depends on the
/// error and on the platform, so nothing is claimed of the text.
#[verifier::external_body]
fn io_error_text(e: &std::io::Error) -> (r: String)
{
    format!("{}", e)
}

/// `image::ImageError`'s `Display`, as a `String`. It hands on the text of the
/// error that the variant wraps, an I/O error among them, so nothing is
/// claimed of the text.
#[verifier::external_body]
fn image_error_text(e: &image::ImageError) -> (r: String)
{
    format!("{}", e)
}

impl RTError {
    /// The error in words. For an error that was handed up from below, its
    /// own words.
    pub fn message(&self) -> (r: String)
        ensures
            self is EmptyImg ==> r@ == "The image is empty"@,
            self is InconsistencySizePixels ==> r@ == mismatch_text(
                self->h,
                self->w,
                self->nb_pixels,
            ),
    {
        match self {
            RTError::EmptyImg => String::from_str("The image is empty"),
            RTError::IO(e) => io_error_text(e),
            RTError::ImageRS(e) => image_error_text(e),
            RTError::InconsistencySizePixels { h, w, nb_pixels } => {
                let mut text: String = String::from_str("The size ");
                push_decimal(&mut text, *h as u64);
                text.append("*");
                push_decimal(&mut text, *w as u64);
                text.append(" do not equals the nb of pixels ");
                push_decimal(&mut text, *nb_pixels as u64);
                text
            },
        }
    }

    /// The error below this one: the I/O error of `IO`, and none for the
    /// other variants.
    pub fn source(&self) -> (r: Option<&std::io::Error>)
        ensures
            match self {
                RTError::IO(e) => r == Some(e),
                _ => r is None,
            },
    {
        match self {
            RTError::IO(e) => Some(e),
            _ => None,
        }
    }
}

} // verus!
