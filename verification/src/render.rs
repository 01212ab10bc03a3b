//! The loop that fills an image, pixel after pixel.
use vstd::prelude::*;
use crate::image::{place, Color, Image};

verus! {

broadcast use vstd::std_specs::hash::group_hash_axioms;

/// Whether column `w`, row `h` lies within `width` columns and the rows from
/// `from_row` up to `height`.
spec fn within(w: u32, h: u32, width: u32, from_row: u32, height: u32) -> bool {
    w < width && from_row <= h < height
}

/// Whether `img` holds, at column `w` and row `h`, a colour that `pixel` gave
/// for that place.
pub open spec fn rendered<F: Fn(u32, u32) -> Color>(img: Image, pixel: F, w: u32, h: u32) -> bool {
    img@.contains_key((w, h)) && call_ensures(pixel, (w, h), img@[(w, h)])
}

/// Whether `img` holds at column `w` and row `h` what `start` held there:
/// the same colour, or none.
pub open spec fn untouched(img: Image, start: Image, w: u32, h: u32) -> bool {
    &&& img@.contains_key((w, h)) <==> start@.contains_key((w, h))
    &&& img@.contains_key((w, h)) ==> img@[(w, h)] == start@[(w, h)]
}

/// Fills `img`: for every place of its size, `pixel` works out the colour,
/// and the colour is stored there. The rows are taken from the highest down
/// to row 0, each row from column 0 upwards.
///
/// Pixels that `img` held outside its size stay. An image that held none
/// comes out with exactly one pixel for each place of its size.
pub fn create_img<F: Fn(u32, u32) -> Color>(img: Image, pixel: F) -> (r: Image)
    requires
        forall|w: u32, h: u32| w < img.width && h < img.height ==> call_requires(pixel, (w, h)),
    ensures
        r.width == img.width,
        r.height == img.height,
        forall|w: u32, h: u32|
            w < img.width && h < img.height ==> #[trigger] rendered(r, pixel, w, h),
        forall|w: u32, h: u32|
            !(w < img.width && h < img.height) ==> #[trigger] untouched(r, img, w, h),
        img.pixels@.len() == 0 ==> r.consistent(),
{
    let ghost start = img;
    let mut img = img;
    let width: u32 = img.width;
    let height: u32 = img.height;
    let mut rows_left: u32 = height;
    proof {
        if start.pixels@.len() == 0 {
            assert(start.pixels@.dom().finite());
            assert(start.pixels@.dom() =~= Set::<u64>::empty());
        }
    }
    while rows_left > 0
        invariant
            rows_left <= height,
            img.width == width,
            img.height == height,
            forall|w: u32, h: u32| w < width && h < height ==> call_requires(pixel, (w, h)),
            forall|w: u32, h: u32|
                within(w, h, width, rows_left, height) ==> #[trigger] rendered(img, pixel, w, h),
            forall|w: u32, h: u32|
                !within(w, h, width, rows_left, height) ==> #[trigger] untouched(img, start, w, h),
            start.pixels@.len() == 0 ==> start.pixels@.dom() =~= Set::<u64>::empty(),
            start.pixels@.len() == 0 ==> img.pixels@.len() == (height - rows_left) * width,
        decreases rows_left,
    {
        let h: u32 = rows_left - 1;
        let mut w: u32 = 0;
        while w < width
            invariant
                h < height,
                rows_left == h + 1,
                w <= width,
                img.width == width,
                img.height == height,
                forall|i: u32, j: u32| i < width && j < height ==> call_requires(pixel, (i, j)),
                forall|i: u32, j: u32|
                    within(i, j, width, rows_left, height) || (j == h && i < w)
                        ==> #[trigger] rendered(img, pixel, i, j),
                forall|i: u32, j: u32|
                    !(within(i, j, width, rows_left, height) || (j == h && i < w))
                        ==> #[trigger] untouched(img, start, i, j),
                start.pixels@.len() == 0 ==> start.pixels@.dom() =~= Set::<u64>::empty(),
                start.pixels@.len() == 0 ==> img.pixels@.len() == (height - rows_left) * width + w,
            decreases width - w,
        {
            let color: Color = pixel(w, h);
            let ghost before = img;
            img.add_pixel(w, h, color);
            proof {
                assert forall|i: u32, j: u32|
                    within(i, j, width, rows_left, height) || (j == h && i < w + 1)
                    implies #[trigger] rendered(img, pixel, i, j) by {
                    if !(i == w && j == h) {
                        assert(rendered(before, pixel, i, j));
                    }
                }
                assert forall|i: u32, j: u32|
                    !(within(i, j, width, rows_left, height) || (j == h && i < w + 1))
                    implies #[trigger] untouched(img, start, i, j) by {
                    assert(untouched(before, start, i, j));
                }
                if start.pixels@.len() == 0 {
                    assert(untouched(before, start, w, h));
                    assert(!before.pixels@.dom().contains(place(w, h)));
                    assert(before.pixels@.dom().finite());
                }
            }
            w = w + 1;
        }
        proof {
            assert((height - h) * width == (height - rows_left) * width + width)
                by (nonlinear_arith)
                requires
                    rows_left == h + 1,
            ;
            assert forall|i: u32, j: u32| within(i, j, width, h, height)
                implies #[trigger] rendered(img, pixel, i, j) by {}
            assert forall|i: u32, j: u32| !within(i, j, width, h, height)
                implies #[trigger] untouched(img, start, i, j) by {}
        }
        rows_left = h;
    }
    proof {
        assert((height - 0) * width == width as int * height as int) by (nonlinear_arith);
        assert forall|w: u32, h: u32| w < width && h < height
            implies #[trigger] rendered(img, pixel, w, h) by {
            assert(within(w, h, width, 0, height));
        }
        assert forall|w: u32, h: u32| !(w < width && h < height)
            implies #[trigger] untouched(img, start, w, h) by {
            assert(!within(w, h, width, 0, height));
        }
    }
    img
}

} // verus!
