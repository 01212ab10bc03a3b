//! Colours and the image that a render fills.
use vstd::prelude::*;
use std::collections::HashMap;
use crate::error::RTError;
use crate::scalar::Scalar;

verus! {

broadcast use vstd::std_specs::hash::group_hash_axioms;

/// A colour in linear red, green and blue.
#[derive(Clone, Copy, Debug, PartialEq, Eq, Structural)]
pub struct Color {
    pub r: Scalar,
    pub g: Scalar,
    pub b: Scalar,
}

impl Color {
    /// Black: positive zero in every channel.
    pub open spec fn spec_black() -> Color {
        Color { r: Scalar { bits: 0 }, g: Scalar { bits: 0 }, b: Scalar { bits: 0 } }
    }

    /// The colour with the given channels.
    pub fn new(r: Scalar, g: Scalar, b: Scalar) -> (c: Color)
        ensures
            c == (Color { r, g, b }),
    {
        Color { r, g, b }
    }

    /// Black.
    #[verifier::when_used_as_spec(spec_black)]
    pub fn black() -> (c: Color)
        ensures
            c == Color::spec_black(),
    {
        Color { r: Scalar::zero(), g: Scalar::zero(), b: Scalar::zero() }
    }

    /// The red channel.
    pub fn r(&self) -> (r: Scalar)
        ensures
            r == self.r,
    {
        self.r
    }

    /// The green channel.
    pub fn g(&self) -> (g: Scalar)
        ensures
            g == self.g,
    {
        self.g
    }

    /// The blue channel.
    pub fn b(&self) -> (b: Scalar)
        ensures
            b == self.b,
    {
        self.b
    }
}

/// Columns are counted in units of this many keys, so that a key holds a
/// column and a row side by side.
pub const ROW_SPAN: u64 = 0x1_0000_0000;

/// The key under which the pixel in column `w` and row `h` is stored.
pub open spec fn place(w: u32, h: u32) -> u64 {
    (w as int * ROW_SPAN as int + h as int) as u64
}

/// Every key is the key of exactly one column and row.
pub proof fn place_is_one_to_one(w: u32, h: u32, x: u32, y: u32)
    ensures
        place(w, h) == place(x, y) <==> w == x && h == y,
        place(w, h) / ROW_SPAN == w,
        place(w, h) % ROW_SPAN == h,
{
}

/// The pixels of a render, each under its column and row, and the size that
/// the render was asked for.
///
/// Nothing ties the pixels to the size: a pixel may lie outside it, and a
/// place inside it may be empty. `check_dimensions` counts.
#[derive(Debug)]
pub struct Image {
    pub pixels: HashMap<u64, Color>,
    pub width: u32,
    pub height: u32,
}

impl View for Image {
    type V = Map<(u32, u32), Color>;

    /// The colour stored for each column and row that has one.
    open spec fn view(&self) -> Map<(u32, u32), Color> {
        Map::new(
            |p: (u32, u32)| self.pixels@.contains_key(place(p.0, p.1)),
            |p: (u32, u32)| self.pixels@[place(p.0, p.1)],
        )
    }
}

fn key(w: u32, h: u32) -> (k: u64)
    ensures
        k == place(w, h),
{
    (w as u64) * ROW_SPAN + (h as u64)
}

impl Image {
    /// An image of the given size that holds no pixel yet.
    pub fn new(width: u32, height: u32) -> (img: Image)
        ensures
            img.width == width,
            img.height == height,
            img@ == Map::<(u32, u32), Color>::empty(),
            img.pixels@.len() == 0,
    {
        let img = Image { pixels: HashMap::new(), width, height };
        assert(img@ =~= Map::<(u32, u32), Color>::empty());
        img
    }

    /// Stores `color` for column `width`, row `height`, in place of what was
    /// there.
    pub fn add_pixel(&mut self, width: u32, height: u32, color: Color)
        ensures
            final(self)@ == old(self)@.insert((width, height), color),
            final(self).pixels@ == old(self).pixels@.insert(place(width, height), color),
            final(self).width == old(self).width,
            final(self).height == old(self).height,
    {
        let k: u64 = key(width, height);
        self.pixels.insert(k, color);
        proof {
            assert forall|p: (u32, u32)| place(p.0, p.1) == place(width, height) <==> p == (
                width,
                height,
            ) by {
                place_is_one_to_one(p.0, p.1, width, height);
            }
            assert(self@ =~= old(self)@.insert((width, height), color));
        }
    }

    /// The colour stored for column `width`, row `height`; black where none
    /// is.
    pub fn get_color_pixel(&self, width: u32, height: u32) -> (c: Color)
        ensures
            c == self.color_at(width, height),
    {
        let k: u64 = key(width, height);
        match self.pixels.get(&k) {
            Some(color) => *color,
            None => Color::black(),
        }
    }

    /// What a reader sees in column `w`, row `h`.
    pub open spec fn color_at(&self, w: u32, h: u32) -> Color {
        if self@.contains_key((w, h)) {
            self@[(w, h)]
        } else {
            Color::spec_black()
        }
    }

    /// Whether the image holds as many pixels as its size has places.
    pub open spec fn consistent(&self) -> bool {
        self.pixels@.len() == self.width as int * self.height as int
    }

    /// Tells whether the image holds one pixel for each place of its size,
    /// by their number; the error carries the three numbers.
    pub fn check_dimensions(&self) -> (r: Result<(), RTError>)
        ensures
            self.consistent() <==> r is Ok,
            r matches Err(e) ==> e == (RTError::InconsistencySizePixels {
                h: self.height,
                w: self.width,
                nb_pixels: self.pixels@.len() as usize,
            }),
    {
        assert(self.width as int * self.height as int <= 0xffff_ffff * 0xffff_ffff) by (nonlinear_arith)
            requires
                self.height <= 0xffff_ffff,
                self.width <= 0xffff_ffff,
        ;
        let places: u64 = (self.width as u64) * (self.height as u64);
        let held: usize = self.pixels.len();
        if places != held as u64 {
            return Err(
                RTError::InconsistencySizePixels {
                    h: self.height,
                    w: self.width,
                    nb_pixels: held,
                },
            );
        }
        Ok(())
    }

    /// What an encoder is given for column `x` of its row `y`: the stored
    /// pixel of column `x` and row `height - y`. The encoder counts rows from
    /// the top, the render from the bottom.
    pub open spec fn encoder_color(&self, x: u32, y: u32) -> Color {
        self.color_at(x, (self.height - y) as u32)
    }

    /// The pixel for column `x` of the encoder's row `y`.
    pub fn encoder_pixel(&self, x: u32, y: u32) -> (c: Color)
        requires
            y <= self.height,
        ensures
            c == self.encoder_color(x, y),
    {
        self.get_color_pixel(x, self.height - y)
    }

    /// The whole image as an encoder takes it: row after row from the top,
    /// each row from the left. An image that does not hold as many pixels as
    /// its size has places is refused.
    pub fn raster(&self) -> (r: Result<Vec<Color>, RTError>)
        ensures
            self.consistent() <==> r is Ok,
            r matches Err(e) ==> e == (RTError::InconsistencySizePixels {
                h: self.height,
                w: self.width,
                nb_pixels: self.pixels@.len() as usize,
            }),
            r matches Ok(v) ==> {
                &&& v@.len() == self.width as int * self.height as int
                &&& forall|x: u32, y: u32|
                    x < self.width && y < self.height ==> v@[#[trigger] raster_index(
                        self.width,
                        x,
                        y,
                    )] == self.encoder_color(x, y)
            },
    {
        match self.check_dimensions() {
            Err(e) => {
                return Err(e);
            },
            Ok(()) => {},
        }
        let mut v: Vec<Color> = Vec::new();
        let mut y: u32 = 0;
        while y < self.height
            invariant
                y <= self.height,
                v@.len() == y as int * self.width as int,
                forall|i: u32, j: u32|
                    i < self.width && j < y ==> v@[#[trigger] raster_index(self.width, i, j)]
                        == self.encoder_color(i, j),
            decreases self.height - y,
        {
            let mut x: u32 = 0;
            while x < self.width
                invariant
                    y < self.height,
                    x <= self.width,
                    v@.len() == y as int * self.width as int + x as int,
                    forall|i: u32, j: u32|
                        i < self.width && j < y ==> v@[#[trigger] raster_index(self.width, i, j)]
                            == self.encoder_color(i, j),
                    forall|i: u32|
                        i < x ==> v@[#[trigger] raster_index(self.width, i, y)]
                            == self.encoder_color(i, y),
                decreases self.width - x,
            {
                let c: Color = self.encoder_pixel(x, y);
                proof {
                    assert forall|i: u32, j: u32| i < self.width && j < y implies raster_index(
                        self.width,
                        i,
                        j,
                    ) < v@.len() by {
                        raster_index_grows(self.width, i, j, y);
                    }
                }
                v.push(c);
                x = x + 1;
            }
            proof {
                assert((y + 1) * self.width == y * self.width + self.width) by (nonlinear_arith);
            }
            y = y + 1;
        }
        proof {
            assert(self.height as int * self.width as int == self.width as int * self.height as int)
                by (nonlinear_arith);
        }
        Ok(v)
    }
}

/// The column and row of a key.
pub open spec fn place_of(k: u64) -> (u32, u32) {
    ((k / ROW_SPAN) as u32, (k % ROW_SPAN) as u32)
}

/// An image holds as many pixels as there are columns and rows with a colour:
/// the number that `check_dimensions` counts is the size of the view.
pub proof fn pixel_count_is_view_size(img: Image)
    ensures
        img@.dom().finite(),
        img@.dom().len() == img.pixels@.len(),
{
    broadcast use vstd::std_specs::hash::group_hash_axioms;

    let keys = img.pixels@.dom();
    let f = |k: u64| place_of(k);
    assert(keys.finite());
    assert forall|a: u64, b: u64| #[trigger] f(a) == #[trigger] f(b) implies a == b by {
        assert(a == (a / ROW_SPAN) * ROW_SPAN + a % ROW_SPAN);
        assert(b == (b / ROW_SPAN) * ROW_SPAN + b % ROW_SPAN);
    }
    assert(vstd::relations::injective_on(f, keys));
    assert forall|p: (u32, u32)| keys.map(f).contains(p) <==> img@.dom().contains(p) by {
        place_is_one_to_one(p.0, p.1, p.0, p.1);
        if img@.dom().contains(p) {
            assert(keys.contains(place(p.0, p.1)));
            assert(f(place(p.0, p.1)) == p);
        }
        if keys.map(f).contains(p) {
            let k = choose|k: u64| keys.contains(k) && f(k) == p;
            assert(k == (k / ROW_SPAN) * ROW_SPAN + k % ROW_SPAN);
            assert(k == place(p.0, p.1));
        }
    }
    assert(keys.map(f) =~= img@.dom());
    vstd::set_lib::lemma_map_size(keys, img@.dom(), f);
}

/// Where the pixel of column `x`, row `y` stands in a raster of rows of
/// `width` pixels.
pub open spec fn raster_index(width: u32, x: u32, y: u32) -> int {
    y as int * width as int + x as int
}

/// Two places within the rows have two indices.
pub proof fn raster_index_is_one_to_one(width: u32, x: u32, y: u32, i: u32, j: u32)
    requires
        x < width,
        i < width,
    ensures
        raster_index(width, x, y) == raster_index(width, i, j) <==> x == i && y == j,
        0 <= raster_index(width, x, y),
{
    if y < j {
        raster_index_grows(width, x, y, j);
    }
    if j < y {
        raster_index_grows(width, i, j, y);
    }
    assert(0 <= y as int * width as int) by (nonlinear_arith);
}

/// A place in an earlier row stands before the start of a later row.
pub proof fn raster_index_grows(width: u32, x: u32, y: u32, later: u32)
    requires
        x < width,
        y < later,
    ensures
        0 <= raster_index(width, x, y) < later as int * width as int,
{
    assert(y as int * width as int + width as int <= later as int * width as int)
        by (nonlinear_arith)
        requires
            y < later,
    ;
    assert(0 <= y as int * width as int) by (nonlinear_arith);
}

} // verus!
