//! The decoded image: a rectangle of red, green and blue samples.

use vstd::prelude::*;

verus! {

/// One pixel's colour: red, green and blue, eight bits each.
#[derive(Clone, Copy, Debug, PartialEq, Eq, Structural)]
pub struct Rgb {
    pub r: u8,
    pub g: u8,
    pub b: u8,
}

/// What a raster image is: its size and its samples, row by row from the
/// top, three per pixel, without padding.
pub struct RasterView {
    pub width: nat,
    pub height: nat,
    pub data: Seq<u8>,
}

impl RasterView {
    /// Both sides are positive, there are three samples for every pixel,
    /// and a machine word counts them.
    pub open spec fn well_formed(self) -> bool {
        &&& 0 < self.width <= u32::MAX
        &&& 0 < self.height <= u32::MAX
        &&& self.data.len() == 3 * (self.width * self.height)
        &&& self.data.len() <= usize::MAX
    }

    /// The colour at column `x` of row `y`.
    pub open spec fn pixel(self, x: int, y: int) -> Rgb {
        let at: int = 3 * (y * self.width + x);
        Rgb { r: self.data[at], g: self.data[at + 1], b: self.data[at + 2] }
    }
}

/// Sample `c` of a colour: 0 is red, 1 is green, anything else is blue.
pub open spec fn channel(p: Rgb, c: int) -> u8 {
    if c == 0 {
        p.r
    } else if c == 1 {
        p.g
    } else {
        p.b
    }
}

/// The samples of `pixels` in order: red, green, blue of the first pixel,
/// then of the second, and so on.
pub open spec fn flatten(pixels: Seq<Rgb>) -> Seq<u8> {
    Seq::new(3 * pixels.len(), |i: int| channel(pixels[i / 3], i % 3))
}

/// The image that `pixels`, taken row by row, make at the given size:
/// none where a side is zero or the number of pixels is not width times
/// height.
pub open spec fn assembled(width: u32, height: u32, pixels: Seq<Rgb>) -> Option<RasterView> {
    if width > 0 && height > 0 && pixels.len() == width * height {
        Some(RasterView { width: width as nat, height: height as nat, data: flatten(pixels) })
    } else {
        None
    }
}

/// Pixels are laid out row by row: the pixel at column `x` of row `y` of
/// an assembled image is the one at `y * width + x` of the sequence, with
/// its samples in the order red, green, blue.
pub proof fn lemma_assembled_pixel(width: u32, height: u32, pixels: Seq<Rgb>, x: int, y: int)
    requires
        0 <= x < width,
        0 <= y < height,
        assembled(width, height, pixels) is Some,
    ensures
        0 <= y * width + x < pixels.len(),
        assembled(width, height, pixels).unwrap().pixel(x, y) == pixels[y * width + x],
{
    lemma_pixel_in_range(width as int, height as int, x, y);
}

/// The position of a pixel inside the image is below the pixel count.
proof fn lemma_pixel_in_range(width: int, height: int, x: int, y: int)
    by (nonlinear_arith)
    requires
        0 <= x < width,
        0 <= y < height,
    ensures
        0 <= y * width + x < width * height,
{
}

/// A decoded image.
#[derive(Debug, PartialEq, Eq)]
pub struct RasterImage {
    width: u32,
    height: u32,
    data: Vec<u8>,
}

impl View for RasterImage {
    type V = RasterView;

    closed spec fn view(&self) -> RasterView {
        RasterView { width: self.width as nat, height: self.height as nat, data: self.data@ }
    }
}

impl RasterImage {
    #[verifier::type_invariant]
    spec fn inv(self) -> bool {
        &&& self.width > 0
        &&& self.height > 0
        &&& self.data@.len() == 3 * (self.width * self.height)
    }

    /// Builds the image that `pixels` make at the given size, the first
    /// pixel being the top left one and each row following the one above.
    pub fn from_pixels(width: u32, height: u32, pixels: &[Rgb]) -> (r: Option<RasterImage>)
        ensures
            match r {
                Some(image) => assembled(width, height, pixels@) == Some(image@)
                    && image@.well_formed(),
                None => assembled(width, height, pixels@).is_none(),
            },
    {
        if width == 0 || height == 0 {
            return None;
        }
        assert(width * height <= 0xffff_ffff * 0xffff_ffff) by (nonlinear_arith)
            requires
                width <= 0xffff_ffff,
                height <= 0xffff_ffff,
        ;
        let count: u64 = (width as u64) * (height as u64);
        if pixels.len() as u64 != count {
            return None;
        }
        let mut data: Vec<u8> = Vec::new();
        let mut i: usize = 0;
        while i < pixels.len()
            invariant
                i <= pixels@.len(),
                data@ == flatten(pixels@.take(i as int)),
            decreases pixels@.len() - i,
        {
            let p = pixels[i];
            data.push(p.r);
            data.push(p.g);
            data.push(p.b);
            i += 1;
            assert(data@ =~= flatten(pixels@.take(i as int)));
        }
        assert(pixels@.take(pixels@.len() as int) =~= pixels@);
        assert(data@.len() == data.len());
        Some(RasterImage { width, height, data })
    }

    /// The number of columns.
    pub fn width(&self) -> (w: u32)
        ensures
            w == self@.width,
            self@.well_formed(),
    {
        proof {
            use_type_invariant(self);
            assert(self.data@.len() == self.data.len());
        }
        self.width
    }

    /// The number of rows.
    pub fn height(&self) -> (h: u32)
        ensures
            h == self@.height,
            self@.well_formed(),
    {
        proof {
            use_type_invariant(self);
            assert(self.data@.len() == self.data.len());
        }
        self.height
    }

    /// The colour at column `x` of row `y`, or none outside the image.
    pub fn pixel(&self, x: u32, y: u32) -> (r: Option<Rgb>)
        ensures
            r == if x < self@.width && y < self@.height {
                Some(self@.pixel(x as int, y as int))
            } else {
                None
            },
    {
        if x >= self.width || y >= self.height {
            return None;
        }
        proof {
            use_type_invariant(self);
            assert(self.data@.len() == self.data.len());
            lemma_pixel_in_range(self.width as int, self.height as int, x as int, y as int);
        }
        let at: usize = 3 * ((y as usize) * (self.width as usize) + (x as usize));
        Some(Rgb { r: self.data[at], g: self.data[at + 1], b: self.data[at + 2] })
    }

    /// The samples, row by row from the top, three per pixel.
    pub fn data(&self) -> (d: &[u8])
        ensures
            d@ == self@.data,
            self@.well_formed(),
    {
        proof {
            use_type_invariant(self);
            assert(self.data@.len() == self.data.len());
        }
        self.data.as_slice()
    }
}

} // verus!
