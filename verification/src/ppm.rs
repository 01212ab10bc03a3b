//! The plain-text PPM format.
//!
//! A file is a header, `P3`, the width and the height, and the largest
//! channel value, 255, followed by one line for each pixel with its red,
//! green and blue in decimal.
use vstd::prelude::*;
use vstd::string::*;
use crate::error::RTError;
use crate::text::{decimal, push_decimal};

verus! {

/// The header of an image of `width` columns and `height` rows.
pub open spec fn header(width: u32, height: u32) -> Seq<char> {
    "P3\n"@ + decimal(width as nat) + " "@ + decimal(height as nat) + "\n255\n"@
}

/// The line of one pixel.
pub open spec fn line(pixel: (u8, u8, u8)) -> Seq<char> {
    decimal(pixel.0 as nat) + " "@ + decimal(pixel.1 as nat) + " "@ + decimal(pixel.2 as nat)
        + "\n"@
}

/// The lines of the pixels, in their order.
pub open spec fn lines(pixels: Seq<(u8, u8, u8)>) -> Seq<char>
    decreases pixels.len(),
{
    if pixels.len() == 0 {
        Seq::empty()
    } else {
        lines(pixels.drop_last()) + line(pixels.last())
    }
}

/// Appends the line of `pixel` to `out`.
fn push_line(out: &mut String, pixel: (u8, u8, u8))
    ensures
        final(out)@ == old(out)@ + line(pixel),
{
    push_decimal(out, pixel.0 as u64);
    out.append(" ");
    push_decimal(out, pixel.1 as u64);
    out.append(" ");
    push_decimal(out, pixel.2 as u64);
    out.append("\n");
    assert(out@ =~= old(out)@ + line(pixel));
}

/// The text of the file for `pixels`, which are written in the order in which
/// they stand. Pixels that are not one for each place of `width` columns and
/// `height` rows are refused.
pub fn ppm_text(width: u32, height: u32, pixels: &Vec<(u8, u8, u8)>) -> (r: Result<
    String,
    RTError,
>)
    ensures
        r is Ok <==> pixels@.len() == width as int * height as int,
        r matches Ok(text) ==> text@ == header(width, height) + lines(pixels@),
        r matches Err(e) ==> e == (RTError::InconsistencySizePixels {
            h: height,
            w: width,
            nb_pixels: pixels@.len() as usize,
        }),
{
    assert(width as int * height as int <= 0xffff_ffff * 0xffff_ffff) by (nonlinear_arith)
        requires
            height <= 0xffff_ffff,
            width <= 0xffff_ffff,
    ;
    let places: u64 = (width as u64) * (height as u64);
    if places != pixels.len() as u64 {
        return Err(RTError::InconsistencySizePixels { h: height, w: width, nb_pixels: pixels.len() });
    }
    let mut text: String = String::from_str("P3\n");
    push_decimal(&mut text, width as u64);
    text.append(" ");
    push_decimal(&mut text, height as u64);
    text.append("\n255\n");
    assert(text@ =~= header(width, height));
    let mut k: usize = 0;
    while k < pixels.len()
        invariant
            k <= pixels@.len(),
            text@ == header(width, height) + lines(pixels@.take(k as int)),
        decreases pixels@.len() - k,
    {
        proof {
            assert(pixels@.take(k + 1).drop_last() =~= pixels@.take(k as int));
        }
        push_line(&mut text, pixels[k]);
        k = k + 1;
        assert(text@ =~= header(width, height) + lines(pixels@.take(k as int)));
    }
    assert(pixels@.take(k as int) =~= pixels@);
    Ok(text)
}

} // verus!
