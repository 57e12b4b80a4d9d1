//! Resizing and colour conversion, done by the `image` crate.
//!
//! The resampling filter works in floating point, so what it returns is
//! named rather than spelled out. The colour conversions are simple enough
//! to state exactly.

use vstd::prelude::*;
use crate::bitmap::{Image, Raster};
use crate::config::ResizeType;
use crate::grid::Rgb;

verus! {

/// The longest side, of a source or of a resized image, that the library
/// hands to the resampler. Up to this length the resampler's single
/// precision coordinates tell neighbouring pixels apart.
pub const MAX_SIDE: u32 = 1_048_576;

/// The width of the source once it is scaled to the height of the box,
/// rounded up: `width * box_height / height`, and one more.
pub open spec fn scaled_width(source: Raster, box_height: u32) -> int {
    (source.width * box_height) as int / (source.height as int) + 1
}

/// The height of the source once it is scaled to the width of the box,
/// rounded up.
pub open spec fn scaled_height(source: Raster, box_width: u32) -> int {
    (source.height * box_width) as int / (source.width as int) + 1
}

/// An upper bound on the width of every buffer made while resizing to a box
/// under a policy.
///
/// `ScaleToFill` makes the width of the box. `Fit` stays inside the box at
/// the smaller of the two scales, so it is as narrow as the box and as the
/// source scaled to the box's height. `CropToFill` scales to the larger one
/// before it crops, so it is as wide as the wider of the two.
pub open spec fn widest(source: Raster, box_width: u32, box_height: u32, policy: ResizeType) -> int {
    let scaled = scaled_width(source, box_height);
    match policy {
        ResizeType::Fit => if box_width <= scaled {
            box_width as int
        } else {
            scaled
        },
        ResizeType::CropToFill => if box_width >= scaled {
            box_width as int
        } else {
            scaled
        },
        ResizeType::ScaleToFill => box_width as int,
    }
}

/// An upper bound on the height of every buffer made while resizing to a
/// box under a policy.
pub open spec fn tallest(source: Raster, box_width: u32, box_height: u32, policy: ResizeType) -> int {
    let scaled = scaled_height(source, box_width);
    match policy {
        ResizeType::Fit => if box_height <= scaled {
            box_height as int
        } else {
            scaled
        },
        ResizeType::CropToFill => if box_height >= scaled {
            box_height as int
        } else {
            scaled
        },
        ResizeType::ScaleToFill => box_height as int,
    }
}

/// Whether resizing `source` to the box under the policy stays within what
/// the resampler and the address space can hold.
///
/// No side, of the source or of a buffer, is beyond `MAX_SIDE`. The
/// resampler first makes a buffer as wide as the source, with sixteen bytes
/// for each pixel, and then the resized image, with four; neither is beyond
/// `isize::MAX` bytes.
pub open spec fn within_limits(
    source: Raster,
    box_width: u32,
    box_height: u32,
    policy: ResizeType,
) -> bool {
    let w = widest(source, box_width, box_height, policy);
    let h = tallest(source, box_width, box_height, policy);
    &&& source.wf()
    &&& source.width <= MAX_SIDE
    &&& source.height <= MAX_SIDE
    &&& w <= MAX_SIDE
    &&& h <= MAX_SIDE
    &&& 16 * source.width * h <= isize::MAX
    &&& 4 * w * h <= isize::MAX
}

/// Tells whether resizing `image` to the box under the policy stays within
/// the limits.
pub fn check_limits(image: &Image, box_width: u32, box_height: u32, policy: ResizeType) -> (ok:
    bool)
    ensures
        ok == within_limits(image@, box_width, box_height, policy),
{
    let iw: u64 = image.width() as u64;
    let ih: u64 = image.height() as u64;
    if iw > MAX_SIDE as u64 || ih > MAX_SIDE as u64 {
        return false;
    }
    let bw: u64 = box_width as u64;
    let bh: u64 = box_height as u64;
    assert(iw * bh <= 1_048_576 * 0xffff_ffff && ih * bw <= 1_048_576 * 0xffff_ffff)
        by (nonlinear_arith)
        requires
            iw <= 1_048_576,
            ih <= 1_048_576,
            bw <= 0xffff_ffff,
            bh <= 0xffff_ffff,
    ;
    let scaled_w: u64 = iw * bh / ih + 1;
    let scaled_h: u64 = ih * bw / iw + 1;
    let (w, h): (u64, u64) = match policy {
        ResizeType::Fit => (
            if bw <= scaled_w {
                bw
            } else {
                scaled_w
            },
            if bh <= scaled_h {
                bh
            } else {
                scaled_h
            },
        ),
        ResizeType::CropToFill => (
            if bw >= scaled_w {
                bw
            } else {
                scaled_w
            },
            if bh >= scaled_h {
                bh
            } else {
                scaled_h
            },
        ),
        ResizeType::ScaleToFill => (bw, bh),
    };
    if w > MAX_SIDE as u64 || h > MAX_SIDE as u64 {
        return false;
    }
    assert(16 * iw * h <= 16 * 1_048_576 * 1_048_576 && 4 * w * h <= 4 * 1_048_576 * 1_048_576)
        by (nonlinear_arith)
        requires
            iw <= 1_048_576,
            w <= 1_048_576,
            h <= 1_048_576,
    ;
    let limit: u64 = isize::MAX as u64;
    16 * iw * h <= limit && 4 * w * h <= limit
}

/// What `image::DynamicImage::resize` with the Catmull-Rom filter makes of
/// an RGBA image and a box: the image scaled, with its aspect ratio kept, to
/// the largest size that fits the box.
pub uninterp spec fn resized_to_fit(source: Raster, box_width: u32, box_height: u32) -> Raster;

/// What `image::DynamicImage::resize_to_fill` with the Catmull-Rom filter
/// makes of an RGBA image and a box: the image scaled, with its aspect ratio
/// kept, to cover the box, and cropped around its centre.
pub uninterp spec fn resized_to_fill(source: Raster, box_width: u32, box_height: u32) -> Raster;

/// What `image::DynamicImage::resize_exact` with the Catmull-Rom filter
/// makes of an RGBA image and a size: the image stretched to that size.
pub uninterp spec fn resized_exact(source: Raster, width: u32, height: u32) -> Raster;

/// Trusted: `image::DynamicImage::resize` on an 8-bit RGBA image, with the
/// Catmull-Rom filter. Nothing is claimed of the result but that it is a
/// function of the image and the box; its size and its samples are handed
/// out as they come.
#[verifier::external_body]
pub(crate) fn resize_fit(image: &Image, box_width: u32, box_height: u32) -> (out: (
    u32,
    u32,
    Vec<u8>,
))
    requires
        within_limits(image@, box_width, box_height, ResizeType::Fit),
        box_width >= 1,
        box_height >= 1,
    ensures
        (Raster { width: out.0 as nat, height: out.1 as nat, samples: out.2@ }) == resized_to_fit(
            image@,
            box_width,
            box_height,
        ),
{
    let pixels = image::RgbaImage::from_raw(image.width, image.height, image.data.clone()).unwrap();
    let resized = image::DynamicImage::ImageRgba8(pixels).resize(
        box_width,
        box_height,
        image::imageops::FilterType::CatmullRom,
    ).into_rgba8();
    (resized.width(), resized.height(), resized.into_raw())
}

/// Trusted: `image::DynamicImage::resize_to_fill` on an 8-bit RGBA image,
/// with the Catmull-Rom filter. Nothing is claimed of the result but that
/// it is a function of the image and the box.
#[verifier::external_body]
pub(crate) fn resize_fill(image: &Image, box_width: u32, box_height: u32) -> (out: (
    u32,
    u32,
    Vec<u8>,
))
    requires
        within_limits(image@, box_width, box_height, ResizeType::CropToFill),
        box_width >= 1,
        box_height >= 1,
    ensures
        (Raster { width: out.0 as nat, height: out.1 as nat, samples: out.2@ })
            == resized_to_fill(image@, box_width, box_height),
{
    let pixels = image::RgbaImage::from_raw(image.width, image.height, image.data.clone()).unwrap();
    let resized = image::DynamicImage::ImageRgba8(pixels).resize_to_fill(
        box_width,
        box_height,
        image::imageops::FilterType::CatmullRom,
    ).into_rgba8();
    (resized.width(), resized.height(), resized.into_raw())
}

/// Trusted: `image::DynamicImage::resize_exact` on an 8-bit RGBA image,
/// with the Catmull-Rom filter. The result has exactly the size asked for,
/// with four samples for each pixel.
#[verifier::external_body]
pub(crate) fn resize_exact(image: &Image, width: u32, height: u32) -> (out: (u32, u32, Vec<u8>))
    requires
        within_limits(image@, width, height, ResizeType::ScaleToFill),
        width >= 1,
        height >= 1,
    ensures
        (Raster { width: out.0 as nat, height: out.1 as nat, samples: out.2@ }) == resized_exact(
            image@,
            width,
            height,
        ),
        out.0 == width,
        out.1 == height,
        out.2@.len() == 4 * width * height,
{
    let pixels = image::RgbaImage::from_raw(image.width, image.height, image.data.clone()).unwrap();
    let resized = image::DynamicImage::ImageRgba8(pixels).resize_exact(
        width,
        height,
        image::imageops::FilterType::CatmullRom,
    ).into_rgba8();
    (resized.width(), resized.height(), resized.into_raw())
}

/// The luminance of a colour: the weighted sum of red, green and blue with
/// the weights 0.2126, 0.7152 and 0.0722, rounded down.
pub open spec fn luma(colour: Rgb) -> u8 {
    ((2126 * colour.0 + 7152 * colour.1 + 722 * colour.2) / 10000) as u8
}

/// The red, green and blue samples of an image, three for each pixel.
pub open spec fn rgb_samples(source: Raster) -> Seq<u8> {
    Seq::new(3 * source.pixel_count(), |j: int| source.samples[4 * (j / 3) + j % 3])
}

/// The luminance of each pixel of an image.
pub open spec fn luma_samples(source: Raster) -> Seq<u8> {
    Seq::new(source.pixel_count(), |i: int| luma(source.rgb(i)))
}

/// Trusted: `image::DynamicImage::into_rgb8` on an 8-bit RGBA image. It
/// keeps red, green and blue of every pixel and drops the alpha.
#[verifier::external_body]
pub(crate) fn to_rgb8(image: &Image) -> (out: Vec<u8>)
    requires
        image@.wf(),
    ensures
        out@ == rgb_samples(image@),
{
    let pixels = image::RgbaImage::from_raw(image.width, image.height, image.data.clone()).unwrap();
    image::DynamicImage::ImageRgba8(pixels).into_rgb8().into_raw()
}

/// Trusted: `image::DynamicImage::into_luma8` on an 8-bit RGBA image. Every
/// pixel becomes `(2126 * R + 7152 * G + 722 * B) / 10000`, whatever its
/// alpha.
#[verifier::external_body]
pub(crate) fn to_luma8(image: &Image) -> (out: Vec<u8>)
    requires
        image@.wf(),
    ensures
        out@ == luma_samples(image@),
{
    let pixels = image::RgbaImage::from_raw(image.width, image.height, image.data.clone()).unwrap();
    image::DynamicImage::ImageRgba8(pixels).into_luma8().into_raw()
}

} // verus!
