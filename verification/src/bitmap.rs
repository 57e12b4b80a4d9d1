//! Decoded bitmaps: a rectangle of RGBA samples, as a decoder hands it over.

use vstd::prelude::*;
use crate::grid::Rgb;

verus! {

/// The mathematical content of an image: its size and its samples, four
/// (red, green, blue, alpha) for each pixel, row after row.
pub struct Raster {
    pub width: nat,
    pub height: nat,
    pub samples: Seq<u8>,
}

impl Raster {
    /// The image is not empty, its sides fit in 32 bits, and there are
    /// exactly four samples for each pixel, no more than memory can hold.
    pub open spec fn wf(self) -> bool {
        &&& 1 <= self.width <= u32::MAX
        &&& 1 <= self.height <= u32::MAX
        &&& self.samples.len() == 4 * self.width * self.height
        &&& self.samples.len() <= usize::MAX
    }

    /// The number of pixels.
    pub open spec fn pixel_count(self) -> nat {
        self.width * self.height
    }

    /// The colour of pixel `i`, counted row after row, without its alpha.
    pub open spec fn rgb(self, i: int) -> Rgb {
        (self.samples[4 * i], self.samples[4 * i + 1], self.samples[4 * i + 2])
    }

    /// The colour of the pixel in column `x` of row `y`.
    pub open spec fn sample(self, x: int, y: int) -> Rgb {
        self.rgb(y * self.width + x)
    }
}

/// A decoded bitmap of 8-bit RGBA samples. It is never empty.
#[derive(Debug)]
pub struct Image {
    pub(crate) width: u32,
    pub(crate) height: u32,
    pub(crate) data: Vec<u8>,
}

impl View for Image {
    type V = Raster;

    closed spec fn view(&self) -> Raster {
        Raster { width: self.width as nat, height: self.height as nat, samples: self.data@ }
    }
}

impl Image {
    #[verifier::type_invariant]
    spec fn inv(self) -> bool {
        self@.wf()
    }

    /// Makes an image of the given size from its RGBA samples, four for
    /// each pixel, row after row. There is no image without pixels, and none
    /// whose samples do not match its size.
    pub fn new(width: u32, height: u32, data: Vec<u8>) -> (out: Option<Image>)
        ensures
            out is Some <==> (Raster {
                width: width as nat,
                height: height as nat,
                samples: data@,
            }).wf(),
            out matches Some(image) ==> image@ == (Raster {
                width: width as nat,
                height: height as nat,
                samples: data@,
            }),
    {
        if width == 0 || height == 0 {
            return None;
        }
        assert(width * height <= 0xffff_ffff * 0xffff_ffff) by (nonlinear_arith)
            requires
                width <= 0xffff_ffff,
                height <= 0xffff_ffff,
        ;
        let pixels: u64 = width as u64 * height as u64;
        let len = data.len();
        assert(4 * width * height == 4 * pixels) by (nonlinear_arith)
            requires
                pixels == width * height,
        ;
        if pixels > (usize::MAX / 4) as u64 {
            return None;
        }
        if len != 4 * (pixels as usize) {
            return None;
        }
        Some(Image { width, height, data })
    }

    /// The number of columns.
    pub fn width(&self) -> (w: u32)
        ensures
            w == self@.width,
            self@.wf(),
    {
        proof {
            use_type_invariant(self);
        }
        self.width
    }

    /// The number of rows.
    pub fn height(&self) -> (h: u32)
        ensures
            h == self@.height,
            self@.wf(),
    {
        proof {
            use_type_invariant(self);
        }
        self.height
    }

    /// The colour of the pixel in column `x` of row `y`, without its alpha.
    pub fn sample(&self, x: u32, y: u32) -> (colour: Rgb)
        requires
            x < self@.width,
            y < self@.height,
        ensures
            colour == self@.sample(x as int, y as int),
    {
        let len = self.data.len();
        proof {
            use_type_invariant(self);
            let w = self.width as int;
            let h = self.height as int;
            assert(0 <= y * w && y * w + x < w * h) by (nonlinear_arith)
                requires
                    0 <= x < w,
                    0 <= y < h,
            ;
            assert(len == 4 * (w * h)) by (nonlinear_arith)
                requires
                    len == 4 * w * h,
            ;
        }
        let i: usize = y as usize * self.width as usize + x as usize;
        (self.data[4 * i], self.data[4 * i + 1], self.data[4 * i + 2])
    }
}

} // verus!
