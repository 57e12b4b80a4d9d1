//! The sampler: from a decoded image to the grid of RGB triples that is
//! drawn, under a resize policy and a colour mode.

use vstd::prelude::*;
use crate::bitmap::{Image, Raster};
use crate::config::{Config, ImageType, RenderMode, ResizeType};
use crate::grid::{GridError, GridView, Rgb, TargetGrid};
use crate::resample::{
    check_limits, luma, luma_samples, resize_exact, resize_fill, resize_fit, resized_exact,
    resized_to_fill, resized_to_fit, rgb_samples, to_luma8, to_rgb8, within_limits,
};

verus! {

/// Whether red, green and blue of a colour are the same.
pub open spec fn is_gray(colour: Rgb) -> bool {
    colour.0 == colour.1 && colour.1 == colour.2
}

/// What a colour becomes in a colour mode: itself, or its luminance in all
/// three channels.
pub open spec fn cell_of(colour: Rgb, color_mode: ImageType) -> Rgb {
    match color_mode {
        ImageType::Color => colour,
        ImageType::Gray => (luma(colour), luma(colour), luma(colour)),
    }
}

/// The cells of the grid for a resized image, row after row.
pub open spec fn cells_of(resized: Raster, color_mode: ImageType) -> Seq<Rgb> {
    Seq::new(resized.pixel_count(), |i: int| cell_of(resized.rgb(i), color_mode))
}

/// Whether a `width` by `height` result fits a source of the given size
/// into the box with its aspect ratio kept.
///
/// The source is scaled by the smaller of the two ratios between a side of
/// the box and the same side of the source. Along the axis that gives that
/// ratio the result spans the box; along the other it is within one pixel
/// of the source's side at that scale, and inside the box.
pub open spec fn fits_box(
    source_width: nat,
    source_height: nat,
    box_width: u32,
    box_height: u32,
    width: nat,
    height: nat,
) -> bool {
    &&& width <= box_width
    &&& height <= box_height
    &&& if box_width * source_height <= box_height * source_width {
        &&& width == box_width
        &&& height * source_width <= source_height * box_width + source_width
        &&& source_height * box_width <= height * source_width + source_width
    } else {
        &&& height == box_height
        &&& width * source_height <= source_width * box_height + source_height
        &&& source_width * box_height <= width * source_height + source_height
    }
}

/// What a resize policy asks of the size of its result.
pub open spec fn dimensions_hold(
    policy: ResizeType,
    source_width: nat,
    source_height: nat,
    box_width: u32,
    box_height: u32,
    width: nat,
    height: nat,
) -> bool {
    match policy {
        ResizeType::Fit => fits_box(
            source_width,
            source_height,
            box_width,
            box_height,
            width,
            height,
        ),
        ResizeType::CropToFill => width == box_width && height == box_height,
        ResizeType::ScaleToFill => width == box_width && height == box_height,
    }
}

/// The grid for an image that was resized under `policy` from a source of
/// the given size to the given box, or the reason there is none.
///
/// A result that is not a proper image, or whose size is not what the policy
/// asks for, is a mismatch.
pub open spec fn grid_of(
    resized: Raster,
    source_width: nat,
    source_height: nat,
    box_width: u32,
    box_height: u32,
    policy: ResizeType,
    color_mode: ImageType,
) -> Result<GridView, GridError> {
    if resized.wf() && dimensions_hold(
        policy,
        source_width,
        source_height,
        box_width,
        box_height,
        resized.width,
        resized.height,
    ) {
        Ok(
            GridView {
                rows: resized.height,
                cols: resized.width,
                cells: cells_of(resized, color_mode),
            },
        )
    } else {
        Err(GridError::Mismatch)
    }
}

/// What the resampler makes of a source and a box under a policy.
pub open spec fn resized(source: Raster, box_width: u32, box_height: u32, policy: ResizeType) -> Raster {
    match policy {
        ResizeType::Fit => resized_to_fit(source, box_width, box_height),
        ResizeType::CropToFill => resized_to_fill(source, box_width, box_height),
        ResizeType::ScaleToFill => resized_exact(source, box_width, box_height),
    }
}

/// The grid that sampling a source yields, or the reason there is none.
pub open spec fn sampled(
    source: Raster,
    target_width: u32,
    target_height: u32,
    policy: ResizeType,
    color_mode: ImageType,
) -> Result<GridView, GridError> {
    if !within_limits(source, target_width, target_height, policy) {
        Err(GridError::Oversized)
    } else if target_width == 0 || target_height == 0 {
        Err(GridError::Mismatch)
    } else {
        grid_of(
            resized(source, target_width, target_height, policy),
            source.width,
            source.height,
            target_width,
            target_height,
            policy,
            color_mode,
        )
    }
}

/// Tells whether a result inside the box spans it along the axis that gives
/// the smaller scale and keeps the source's aspect ratio within one pixel
/// along the other.
fn check_fits_box(
    source_width: u32,
    source_height: u32,
    box_width: u32,
    box_height: u32,
    width: u32,
    height: u32,
) -> (ok: bool)
    ensures
        ok == fits_box(
            source_width as nat,
            source_height as nat,
            box_width,
            box_height,
            width as nat,
            height as nat,
        ),
{
    if width > box_width || height > box_height {
        return false;
    }
    let sw: u128 = source_width as u128;
    let sh: u128 = source_height as u128;
    let bw: u128 = box_width as u128;
    let bh: u128 = box_height as u128;
    let w: u128 = width as u128;
    let h: u128 = height as u128;
    assert(h * sw <= 0xffff_ffff * 0xffff_ffff && sh * bw <= 0xffff_ffff * 0xffff_ffff && w * sh
        <= 0xffff_ffff * 0xffff_ffff && sw * bh <= 0xffff_ffff * 0xffff_ffff) by (nonlinear_arith)
        requires
            sw <= 0xffff_ffff,
            sh <= 0xffff_ffff,
            bw <= 0xffff_ffff,
            bh <= 0xffff_ffff,
            w <= 0xffff_ffff,
            h <= 0xffff_ffff,
    ;
    if bw * sh <= bh * sw {
        width == box_width && h * sw <= sh * bw + sw && sh * bw <= h * sw + sw
    } else {
        height == box_height && w * sh <= sw * bh + sh && sw * bh <= w * sh + sh
    }
}

/// Tells whether a result has the size that the policy asks for.
fn check_dimensions(
    policy: ResizeType,
    source_width: u32,
    source_height: u32,
    box_width: u32,
    box_height: u32,
    width: u32,
    height: u32,
) -> (ok: bool)
    ensures
        ok == dimensions_hold(
            policy,
            source_width as nat,
            source_height as nat,
            box_width,
            box_height,
            width as nat,
            height as nat,
        ),
{
    match policy {
        ResizeType::Fit => check_fits_box(
            source_width,
            source_height,
            box_width,
            box_height,
            width,
            height,
        ),
        ResizeType::CropToFill => width == box_width && height == box_height,
        ResizeType::ScaleToFill => width == box_width && height == box_height,
    }
}

/// The cells of the grid for a resized image in colour mode: red, green and
/// blue of every pixel.
fn color_cells(resized: &Image) -> (cells: Vec<Rgb>)
    ensures
        cells@ == cells_of(resized@, ImageType::Color),
{
    let w = resized.width();
    let h = resized.height();
    let rgb = to_rgb8(resized);
    assert(4 * resized@.width * resized@.height == 4 * (resized@.width * resized@.height))
        by (nonlinear_arith);
    let n: usize = w as usize * h as usize;
    let mut cells: Vec<Rgb> = Vec::new();
    let mut i: usize = 0;
    while i < n
        invariant
            i <= n,
            n == resized@.pixel_count(),
            rgb@ == rgb_samples(resized@),
            4 * n <= usize::MAX,
            cells@ == Seq::new(i as nat, |k: int| cell_of(resized@.rgb(k), ImageType::Color)),
        decreases n - i,
    {
        let colour = (rgb[3 * i], rgb[3 * i + 1], rgb[3 * i + 2]);
        cells.push(colour);
        i += 1;
        assert(cells@ =~= Seq::new(
            i as nat,
            |k: int| cell_of(resized@.rgb(k), ImageType::Color),
        ));
    }
    cells
}

/// The cells of the grid for a resized image in gray mode: the luminance of
/// every pixel, in all three channels.
fn gray_cells(resized: &Image) -> (cells: Vec<Rgb>)
    ensures
        cells@ == cells_of(resized@, ImageType::Gray),
{
    let w = resized.width();
    let h = resized.height();
    let lumas = to_luma8(resized);
    assert(4 * resized@.width * resized@.height == 4 * (resized@.width * resized@.height))
        by (nonlinear_arith);
    let n: usize = w as usize * h as usize;
    let mut cells: Vec<Rgb> = Vec::new();
    let mut i: usize = 0;
    while i < n
        invariant
            i <= n,
            n == resized@.pixel_count(),
            lumas@ == luma_samples(resized@),
            cells@ == Seq::new(i as nat, |k: int| cell_of(resized@.rgb(k), ImageType::Gray)),
        decreases n - i,
    {
        let l = lumas[i];
        cells.push((l, l, l));
        i += 1;
        assert(cells@ =~= Seq::new(
            i as nat,
            |k: int| cell_of(resized@.rgb(k), ImageType::Gray),
        ));
    }
    cells
}

/// Turns a resized image into the grid to draw, after checking that its
/// size is what the policy asks for.
///
/// `resized` is what the resampler made of a source of `source_width` by
/// `source_height` pixels for the box `target_width` by `target_height`.
pub fn grid_from_resized(
    resized: &Image,
    source_width: u32,
    source_height: u32,
    target_width: u32,
    target_height: u32,
    policy: ResizeType,
    color_mode: ImageType,
) -> (out: Result<TargetGrid, GridError>)
    ensures
        out matches Ok(grid) ==> grid_of(
            resized@,
            source_width as nat,
            source_height as nat,
            target_width,
            target_height,
            policy,
            color_mode,
        ) == Ok::<GridView, GridError>(grid@),
        out matches Err(e) ==> grid_of(
            resized@,
            source_width as nat,
            source_height as nat,
            target_width,
            target_height,
            policy,
            color_mode,
        ) == Err::<GridView, GridError>(e),
{
    let w = resized.width();
    let h = resized.height();
    if !check_dimensions(policy, source_width, source_height, target_width, target_height, w, h) {
        return Err(GridError::Mismatch);
    }
    let cells = match color_mode {
        ImageType::Color => color_cells(resized),
        ImageType::Gray => gray_cells(resized),
    };
    proof {
        assert(4 * resized@.width * resized@.height == 4 * (resized@.width * resized@.height))
            by (nonlinear_arith);
        assert(usize::MAX / 4 <= isize::MAX);
        assert(w * h >= 1) by (nonlinear_arith)
            requires
                w >= 1,
                h >= 1,
        ;
    }
    TargetGrid::from_shape_vec(h as usize, w as usize, cells)
}

/// Resizes an image to `target_width` by `target_height` cells under the
/// policy and samples it into a grid of RGB triples in the colour mode.
///
/// Sizes beyond the limits are refused as oversized. No image fits a target
/// without cells, and a result whose size is not what the policy asks for
/// is not used: both are a mismatch. Under `CropToFill` and `ScaleToFill`
/// the grid has exactly the size of the target, under `Fit` it fits inside
/// and keeps the aspect ratio of the image.
pub fn resize_and_sample(
    image: &Image,
    target_width: u32,
    target_height: u32,
    policy: ResizeType,
    color_mode: ImageType,
) -> (out: Result<TargetGrid, GridError>)
    ensures
        out matches Ok(grid) ==> sampled(image@, target_width, target_height, policy, color_mode)
            == Ok::<GridView, GridError>(grid@),
        out matches Err(e) ==> sampled(image@, target_width, target_height, policy, color_mode)
            == Err::<GridView, GridError>(e),
        out matches Ok(grid) ==> grid@.wf() && dimensions_hold(
            policy,
            image@.width,
            image@.height,
            target_width,
            target_height,
            grid@.cols,
            grid@.rows,
        ),
        out matches Ok(grid) ==> color_mode == ImageType::Gray ==> forall|i: int|
            0 <= i < grid@.cells.len() ==> is_gray(#[trigger] grid@.cells[i]),
        policy == ResizeType::ScaleToFill && target_width >= 1 && target_height >= 1
            && within_limits(image@, target_width, target_height, policy) ==> out is Ok,
{
    if !check_limits(image, target_width, target_height, policy) {
        return Err(GridError::Oversized);
    }
    if target_width == 0 || target_height == 0 {
        return Err(GridError::Mismatch);
    }
    let parts = match policy {
        ResizeType::Fit => resize_fit(image, target_width, target_height),
        ResizeType::CropToFill => resize_fill(image, target_width, target_height),
        ResizeType::ScaleToFill => resize_exact(image, target_width, target_height),
    };
    let source_width = image.width();
    let source_height = image.height();
    proof {
        // A vector is never longer than memory allows.
        assert(parts.2.len() == parts.2@.len());
    }
    match Image::new(parts.0, parts.1, parts.2) {
        None => Err(GridError::Mismatch),
        Some(resized) => {
            proof {
                lemma_sampled_dimensions(
                    image@,
                    target_width,
                    target_height,
                    policy,
                    color_mode,
                );
                lemma_gray_cells(image@, target_width, target_height, policy);
            }
            grid_from_resized(
                &resized,
                source_width,
                source_height,
                target_width,
                target_height,
                policy,
                color_mode,
            )
        },
    }
}

/// Samples an image into the grid for the terminal that the configuration
/// describes, drawn with half blocks: as wide as the terminal and twice as
/// high, resized under the configured policy, in the configured colours.
pub fn image_to_color_matrix(image: &Image, config: &Config) -> (out: Result<
    TargetGrid,
    GridError,
>)
    ensures
        out matches Ok(grid) ==> sampled(
            image@,
            config@.target_size(RenderMode::HalfBlock).0,
            config@.target_size(RenderMode::HalfBlock).1,
            config.resize_type,
            config.image_type,
        ) == Ok::<GridView, GridError>(grid@),
        out matches Err(e) ==> sampled(
            image@,
            config@.target_size(RenderMode::HalfBlock).0,
            config@.target_size(RenderMode::HalfBlock).1,
            config.resize_type,
            config.image_type,
        ) == Err::<GridView, GridError>(e),
{
    let size = config.target_size(RenderMode::HalfBlock);
    resize_and_sample(image, size.0, size.1, config.resize_type, config.image_type)
}

/// The grid that sampling yields has one cell for every row and column, and
/// the size that the policy asks for: exactly the target under `CropToFill`
/// and `ScaleToFill`; under `Fit` inside the target, spanning it along the
/// axis that gives the smaller scale and within one pixel of the source's
/// side at that scale along the other.
pub proof fn lemma_sampled_dimensions(
    source: Raster,
    target_width: u32,
    target_height: u32,
    policy: ResizeType,
    color_mode: ImageType,
)
    ensures
        sampled(source, target_width, target_height, policy, color_mode) matches Ok(grid) ==> {
            &&& grid.wf()
            &&& dimensions_hold(
                policy,
                source.width,
                source.height,
                target_width,
                target_height,
                grid.cols,
                grid.rows,
            )
            &&& policy != ResizeType::Fit ==> grid.cols == target_width && grid.rows
                == target_height
            &&& policy == ResizeType::Fit ==> grid.cols <= target_width && grid.rows
                <= target_height
        },
{
    let r = resized(source, target_width, target_height, policy);
    assert(r.height * r.width == r.width * r.height) by (nonlinear_arith);
}

/// In gray mode every cell of the grid has the same red, green and blue.
pub proof fn lemma_gray_cells(
    source: Raster,
    target_width: u32,
    target_height: u32,
    policy: ResizeType,
)
    ensures
        sampled(source, target_width, target_height, policy, ImageType::Gray) matches Ok(grid)
            ==> forall|i: int| 0 <= i < grid.cells.len() ==> is_gray(#[trigger] grid.cells[i]),
{
}

/// Sampling in gray mode succeeds exactly when sampling in colour mode
/// does, with a grid of the same size, and each of its cells is the
/// luminance of the colour cell in the same place, in all three channels.
pub proof fn lemma_gray_is_luminance_of_color(
    source: Raster,
    target_width: u32,
    target_height: u32,
    policy: ResizeType,
)
    ensures
        match (
            sampled(source, target_width, target_height, policy, ImageType::Color),
            sampled(source, target_width, target_height, policy, ImageType::Gray),
        ) {
            (Ok(color), Ok(gray)) => {
                &&& gray.rows == color.rows
                &&& gray.cols == color.cols
                &&& gray.cells.len() == color.cells.len()
                &&& forall|i: int|
                    0 <= i < gray.cells.len() ==> #[trigger] gray.cells[i] == (
                        luma(color.cells[i]),
                        luma(color.cells[i]),
                        luma(color.cells[i]),
                    )
            },
            (Err(e1), Err(e2)) => e1 == e2,
            _ => false,
        },
{
}

} // verus!
