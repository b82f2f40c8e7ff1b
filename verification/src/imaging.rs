//! The two renditions of an image: the thumbnail, cut from the middle of
//! the image and scaled down, and the large rendition, scaled and marked
//! with the watermark.
//!
//! An image is held as its pixels, four bytes each (red, green, blue,
//! alpha), row by row from the top. The pixel work itself is `photon_rs`'s.

use vstd::prelude::*;
use crate::error::ArchiveError;
use crate::geometry::{
    crop_left,
    crop_top,
    has_room,
    placement,
    short_side,
    thumbnail_crop,
    watermark_offset,
};

verus! {

/// The longest side of a square that can be cut: the pixels of the cut
/// are counted in 32 bits.
pub const MAX_SQUARE_SIDE: u32 = 65535;

/// The longest side of an image that is scaled, and of the image it is
/// scaled to: the positions of the pixels are computed in single
/// precision, which holds them exactly up to here and well beyond.
pub const MAX_SCALED_SIDE: u32 = 1048576;

/// An image in memory.
#[derive(Debug)]
pub struct Image {
    pub pixels: Vec<u8>,
    pub width: u32,
    pub height: u32,
}

/// How the pixels of a scaled image are computed from those of the image
/// that is scaled.
#[derive(Clone, Copy, Debug, PartialEq, Eq, Structural)]
pub enum Resampling {
    /// Each pixel is taken from the nearest one of the given image: fast.
    Nearest,
    /// Each pixel is weighed from its surroundings: slow, and smooth.
    Lanczos3,
}

/// The four bytes of the pixel in column `x` of row `y` of an image that
/// is `width` pixels wide.
pub open spec fn pixel_at(pixels: Seq<u8>, width: int, x: int, y: int) -> Seq<u8> {
    pixels.subrange(4 * (y * width + x), 4 * (y * width + x) + 4)
}

impl Image {
    /// The image has pixels, and four bytes for each of them.
    pub open spec fn wf(&self) -> bool {
        &&& self.width > 0
        &&& self.height > 0
        &&& self.pixels.len() == 4 * self.width * self.height
    }

    /// The image of the given pixels, or `None` where a side is 0 or the
    /// number of bytes is not four times that of the pixels.
    pub fn new(pixels: Vec<u8>, width: u32, height: u32) -> (made: Option<Image>)
        ensures
            made is Some <==> width > 0 && height > 0 && pixels.len() == 4 * width * height,
            made is Some ==> made->0.wf() && made->0.width == width && made->0.height == height
                && made->0.pixels == pixels,
    {
        if width == 0 || height == 0 {
            return None;
        }
        assert((width as u64) * (height as u64) <= 0xFFFF_FFFF * 0xFFFF_FFFF) by (nonlinear_arith)
            requires
                width <= 0xFFFF_FFFF,
                height <= 0xFFFF_FFFF,
        ;
        let area: u64 = (width as u64) * (height as u64);
        assert(4 * width * height == 4 * (width * height)) by (nonlinear_arith);
        let bytes: u64 = pixels.len() as u64;
        if bytes % 4 != 0 || bytes / 4 != area {
            return None;
        }
        Some(Image { pixels, width, height })
    }
}

/// Whether the pixel `(x, y)` lies in the rectangle that is `width` wide
/// and `height` high and has its top left corner at `(left, top)`.
pub open spec fn in_rectangle(x: int, y: int, left: int, top: int, width: int, height: int)
    -> bool {
    left <= x < left + width && top <= y < top + height
}

/// Cuts the rectangle from `(x1, y1)` to `(x2, y2)` out of an image.
///
/// `photon_rs::transform::crop` makes an image that is `x2 - x1` wide and
/// `y2 - y1` high and copies into each of its pixels `(x, y)` the pixel
/// `(x1 + x, y1 + y)` of the image it is given. It counts the pixels of
/// the cut in 32 bits, one beyond the last, and reads the image without
/// a check: the rectangle has to lie inside the image and hold fewer
/// pixels than 32 bits count.
#[verifier::external_body]
pub(crate) fn crop_with_photon(image: &Image, x1: u32, y1: u32, x2: u32, y2: u32) -> (cut: Image)
    requires
        image.wf(),
        x1 < x2 <= image.width,
        y1 < y2 <= image.height,
        (x2 - x1) * (y2 - y1) < u32::MAX,
    ensures
        cut.width == x2 - x1,
        cut.height == y2 - y1,
        cut.pixels.len() == 4 * (x2 - x1) * (y2 - y1),
        forall|x: int, y: int|
            0 <= x < x2 - x1 && 0 <= y < y2 - y1 ==> #[trigger] pixel_at(
                cut.pixels@,
                x2 - x1,
                x,
                y,
            ) == pixel_at(image.pixels@, image.width as int, x1 + x, y1 + y),
{
    let source = photon_rs::PhotonImage::new(image.pixels.clone(), image.width, image.height);
    let cut = photon_rs::transform::crop(&source, x1, y1, x2, y2);
    Image { pixels: cut.get_raw_pixels(), width: cut.get_width(), height: cut.get_height() }
}

/// The pixels of an image of `width` by `height` pixels scaled to
/// `new_width` by `new_height` pixels with the filter that takes the
/// nearest pixel, as the `image` crate computes them.
pub uninterp spec fn nearest_scaled(
    pixels: Seq<u8>,
    width: int,
    height: int,
    new_width: int,
    new_height: int,
) -> Seq<u8>;

/// Scales an image to `width` by `height` pixels.
///
/// `photon_rs::transform::resize` hands the image to the `image` crate's
/// `imageops::resize`, which returns an image of exactly the sizes asked
/// for. On its way it holds an image as wide as the given one and as
/// high as the one asked for, so that one has to fit into memory too. It
/// computes the positions of the pixels in single precision; the sides
/// are kept to where that is exact. With the filter that takes the
/// nearest pixel the result is a matter of the four basic operations and
/// of rounding, so it has a name; with the smooth filter it depends on
/// the machine's sine and is not stated.
#[verifier::external_body]
pub(crate) fn resize_with_photon(image: &Image, width: u32, height: u32, how: Resampling) -> (scaled:
    Image)
    requires
        image.wf(),
        image.width <= MAX_SCALED_SIDE,
        image.height <= MAX_SCALED_SIDE,
        0 < width <= MAX_SCALED_SIDE,
        0 < height <= MAX_SCALED_SIDE,
        4 * width * height <= usize::MAX,
        4 * image.width * height <= usize::MAX,
    ensures
        scaled.width == width,
        scaled.height == height,
        scaled.pixels.len() == 4 * width * height,
        how == Resampling::Nearest ==> scaled.pixels@ == nearest_scaled(
            image.pixels@,
            image.width as int,
            image.height as int,
            width as int,
            height as int,
        ),
{
    let filter = match how {
        Resampling::Nearest => photon_rs::transform::SamplingFilter::Nearest,
        Resampling::Lanczos3 => photon_rs::transform::SamplingFilter::Lanczos3,
    };
    let source = photon_rs::PhotonImage::new(image.pixels.clone(), image.width, image.height);
    let scaled = photon_rs::transform::resize(&source, width, height, filter);
    Image { pixels: scaled.get_raw_pixels(), width: scaled.get_width(), height: scaled.get_height() }
}

/// The pixels of an image of `width` by `height` pixels after the image
/// `mark`, of `mark_width` by `mark_height` pixels, has been laid over it
/// with its top left corner at `(x, y)`, as the `image` crate blends
/// them.
pub uninterp spec fn overlaid(
    pixels: Seq<u8>,
    width: int,
    height: int,
    mark: Seq<u8>,
    mark_width: int,
    mark_height: int,
    x: int,
    y: int,
) -> Seq<u8>;

/// Lays the image `mark` over `image`, its top left corner at `(x, y)`.
///
/// `photon_rs::multiple::watermark` hands both to the `image` crate's
/// `imageops::overlay`, which blends each pixel of `mark` into the pixel
/// of `image` beneath it, as far as `mark` lies inside `image`. The blend
/// is a matter of the four basic operations on the two pixels, so the
/// result has a name. The size of the image and the pixels that `mark`
/// does not cover stay as they were.
#[verifier::external_body]
pub(crate) fn overlay_with_photon(image: &Image, mark: &Image, x: u32, y: u32) -> (marked: Image)
    requires
        image.wf(),
        mark.wf(),
    ensures
        marked.width == image.width,
        marked.height == image.height,
        marked.pixels.len() == image.pixels.len(),
        marked.pixels@ == overlaid(
            image.pixels@,
            image.width as int,
            image.height as int,
            mark.pixels@,
            mark.width as int,
            mark.height as int,
            x as int,
            y as int,
        ),
        forall|px: int, py: int|
            0 <= px < image.width && 0 <= py < image.height && !in_rectangle(
                px,
                py,
                x as int,
                y as int,
                mark.width as int,
                mark.height as int,
            ) ==> #[trigger] pixel_at(marked.pixels@, image.width as int, px, py) == pixel_at(
                image.pixels@,
                image.width as int,
                px,
                py,
            ),
{
    let mut base = photon_rs::PhotonImage::new(image.pixels.clone(), image.width, image.height);
    let top = photon_rs::PhotonImage::new(mark.pixels.clone(), mark.width, mark.height);
    photon_rs::multiple::watermark(&mut base, &top, i64::from(x), i64::from(y));
    Image { pixels: base.get_raw_pixels(), width: base.get_width(), height: base.get_height() }
}

/// Whether an image of `width` by `height` pixels can be held in memory
/// on this machine.
pub open spec fn fits_memory(width: int, height: int) -> bool {
    4 * width * height <= usize::MAX
}

/// Tests whether an image of `width` by `height` pixels can be held in
/// memory on this machine.
pub fn check_fits_memory(width: u32, height: u32) -> (fits: bool)
    ensures
        fits == fits_memory(width as int, height as int),
{
    assert((width as u64) * (height as u64) <= 0xFFFF_FFFF * 0xFFFF_FFFF) by (nonlinear_arith)
        requires
            width <= 0xFFFF_FFFF,
            height <= 0xFFFF_FFFF,
    ;
    let area: u64 = (width as u64) * (height as u64);
    assert(4 * width * height == 4 * (width * height)) by (nonlinear_arith);
    area <= (usize::MAX as u64) / 4
}

/// Whether `square` holds the pixels of the thumbnail's square of an
/// image of `width` by `height` pixels: as large as the image's shorter
/// side allows, from the middle of its longer side.
pub open spec fn is_middle_square(square: Seq<u8>, pixels: Seq<u8>, width: int, height: int)
    -> bool {
    let side = short_side(width, height);
    &&& square.len() == 4 * side * side
    &&& forall|x: int, y: int|
        0 <= x < side && 0 <= y < side ==> #[trigger] pixel_at(square, side, x, y) == pixel_at(
            pixels,
            width,
            crop_left(width, height) + x,
            crop_top(width, height) + y,
        )
}

/// Cuts the thumbnail's square out of an image: as large as the image's
/// shorter side allows, from the middle of its longer side. An image
/// whose shorter side is above `MAX_SQUARE_SIDE` cannot be cut.
pub fn crop_square(image: &Image) -> (outcome: Result<Image, ArchiveError>)
    requires
        image.wf(),
    ensures
        match outcome {
            Ok(cut) => {
                let side = short_side(image.width as int, image.height as int);
                &&& side <= MAX_SQUARE_SIDE
                &&& cut.wf()
                &&& cut.width == side
                &&& cut.height == side
                &&& is_middle_square(
                    cut.pixels@,
                    image.pixels@,
                    image.width as int,
                    image.height as int,
                )
            },
            Err(e) => {
                &&& short_side(image.width as int, image.height as int) > MAX_SQUARE_SIDE
                &&& e == ArchiveError::ImageIoFailure
            },
        },
{
    let region = thumbnail_crop(image.width, image.height);
    if region.side > MAX_SQUARE_SIDE {
        return Err(ArchiveError::ImageIoFailure);
    }
    assert(region.side * region.side < u32::MAX) by (nonlinear_arith)
        requires
            0 <= region.side <= 65535,
    ;
    Ok(
        crop_with_photon(
            image,
            region.x,
            region.y,
            region.x + region.side,
            region.y + region.side,
        ),
    )
}

/// Why no thumbnail of `width` by `height` pixels can be made of an image
/// that is `image_width` wide and `image_height` high, if none can: the
/// thumbnail would have no pixels, or the square to cut or a side of the
/// thumbnail is too long, or the thumbnail, or the square brought to its
/// height, does not fit into memory.
pub open spec fn thumbnail_obstacle(image_width: int, image_height: int, width: int, height: int)
    -> Option<ArchiveError> {
    if width == 0 || height == 0 {
        Some(ArchiveError::ImageTooSmall)
    } else if short_side(image_width, image_height) > MAX_SQUARE_SIDE || width > MAX_SCALED_SIDE
        || height > MAX_SCALED_SIDE || !fits_memory(width, height) || !fits_memory(
        short_side(image_width, image_height),
        height,
    ) {
        Some(ArchiveError::ImageIoFailure)
    } else {
        None
    }
}

/// Makes the thumbnail of an image: the square from its middle, scaled
/// to `width` by `height` pixels with the filter that takes the nearest
/// pixel.
pub fn make_thumbnail(image: &Image, width: u32, height: u32) -> (outcome: Result<
    Image,
    ArchiveError,
>)
    requires
        image.wf(),
    ensures
        match outcome {
            Ok(thumbnail) => {
                let side = short_side(image.width as int, image.height as int);
                &&& thumbnail_obstacle(
                    image.width as int,
                    image.height as int,
                    width as int,
                    height as int,
                ) is None
                &&& thumbnail.wf()
                &&& thumbnail.width == width
                &&& thumbnail.height == height
                &&& exists|square: Seq<u8>|
                    is_middle_square(
                        square,
                        image.pixels@,
                        image.width as int,
                        image.height as int,
                    ) && thumbnail.pixels@ == #[trigger] nearest_scaled(
                        square,
                        side,
                        side,
                        width as int,
                        height as int,
                    )
            },
            Err(e) => thumbnail_obstacle(
                image.width as int,
                image.height as int,
                width as int,
                height as int,
            ) == Some(e),
        },
{
    if width == 0 || height == 0 {
        return Err(ArchiveError::ImageTooSmall);
    }
    if width > MAX_SCALED_SIDE || height > MAX_SCALED_SIDE || !check_fits_memory(width, height) {
        return Err(ArchiveError::ImageIoFailure);
    }
    let square = match crop_square(image) {
        Ok(cut) => cut,
        Err(e) => { return Err(e); },
    };
    if !check_fits_memory(square.width, height) {
        return Err(ArchiveError::ImageIoFailure);
    }
    let thumbnail = resize_with_photon(&square, width, height, Resampling::Nearest);
    assert(is_middle_square(
        square.pixels@,
        image.pixels@,
        image.width as int,
        image.height as int,
    ) && thumbnail.pixels@ == nearest_scaled(
        square.pixels@,
        short_side(image.width as int, image.height as int),
        short_side(image.width as int, image.height as int),
        width as int,
        height as int,
    ));
    Ok(thumbnail)
}

/// The pixels of an image that is `width` wide and `height` high after
/// the watermark has been laid on it at its place, at the bottom right
/// with the margins left free.
pub open spec fn watermarked(
    pixels: Seq<u8>,
    width: int,
    height: int,
    mark: Seq<u8>,
    mark_width: int,
    mark_height: int,
) -> Seq<u8> {
    overlaid(
        pixels,
        width,
        height,
        mark,
        mark_width,
        mark_height,
        placement(width, height, mark_width, mark_height).0,
        placement(width, height, mark_width, mark_height).1,
    )
}

/// Marks an image with the watermark `mark`, at the bottom right with the
/// margins left free. What the watermark does not cover stays as it was.
/// An image without room for the watermark and its margins is too small.
pub fn stamp_watermark(image: &Image, mark: &Image) -> (outcome: Result<Image, ArchiveError>)
    requires
        image.wf(),
        mark.wf(),
    ensures
        match outcome {
            Ok(marked) => {
                let at = placement(
                    image.width as int,
                    image.height as int,
                    mark.width as int,
                    mark.height as int,
                );
                &&& has_room(
                    image.width as int,
                    image.height as int,
                    mark.width as int,
                    mark.height as int,
                )
                &&& marked.wf()
                &&& marked.width == image.width
                &&& marked.height == image.height
                &&& marked.pixels@ == watermarked(
                    image.pixels@,
                    image.width as int,
                    image.height as int,
                    mark.pixels@,
                    mark.width as int,
                    mark.height as int,
                )
                &&& forall|px: int, py: int|
                    0 <= px < image.width && 0 <= py < image.height && !in_rectangle(
                        px,
                        py,
                        at.0,
                        at.1,
                        mark.width as int,
                        mark.height as int,
                    ) ==> #[trigger] pixel_at(marked.pixels@, image.width as int, px, py)
                        == pixel_at(image.pixels@, image.width as int, px, py)
            },
            Err(e) => {
                &&& !has_room(
                    image.width as int,
                    image.height as int,
                    mark.width as int,
                    mark.height as int,
                )
                &&& e == ArchiveError::ImageTooSmall
            },
        },
{
    match watermark_offset(image.width, image.height, mark.width, mark.height) {
        Ok(at) => Ok(overlay_with_photon(image, mark, at.0, at.1)),
        Err(e) => Err(e),
    }
}

/// Why no large rendition of `width` by `height` pixels can be made of an
/// image of `image_width` by `image_height` pixels, with a watermark of
/// `mark_width` by `mark_height` pixels, if none can: the rendition would
/// have no pixels or no room for the watermark and its margins, or a
/// side of the image or of the rendition is too long, or the rendition,
/// or the image brought to its height, does not fit into memory.
pub open spec fn large_obstacle(
    image_width: int,
    image_height: int,
    width: int,
    height: int,
    mark_width: int,
    mark_height: int,
) -> Option<ArchiveError> {
    if width == 0 || height == 0 {
        Some(ArchiveError::ImageTooSmall)
    } else if image_width > MAX_SCALED_SIDE || image_height > MAX_SCALED_SIDE || width
        > MAX_SCALED_SIDE || height > MAX_SCALED_SIDE || !fits_memory(width, height)
        || !fits_memory(image_width, height) {
        Some(ArchiveError::ImageIoFailure)
    } else if !has_room(width, height, mark_width, mark_height) {
        Some(ArchiveError::ImageTooSmall)
    } else {
        None
    }
}

/// Makes the large rendition of an image: the image scaled to `width` by
/// `height` pixels with the smooth filter, then marked with the watermark
/// at the place that those sizes give.
pub fn make_large(image: &Image, mark: &Image, width: u32, height: u32) -> (outcome: Result<
    Image,
    ArchiveError,
>)
    requires
        image.wf(),
        mark.wf(),
    ensures
        match outcome {
            Ok(large) => {
                &&& large_obstacle(
                    image.width as int,
                    image.height as int,
                    width as int,
                    height as int,
                    mark.width as int,
                    mark.height as int,
                ) is None
                &&& large.wf()
                &&& large.width == width
                &&& large.height == height
                &&& exists|scaled: Seq<u8>|
                    scaled.len() == 4 * width * height && large.pixels@ == #[trigger] watermarked(
                        scaled,
                        width as int,
                        height as int,
                        mark.pixels@,
                        mark.width as int,
                        mark.height as int,
                    )
            },
            Err(e) => large_obstacle(
                image.width as int,
                image.height as int,
                width as int,
                height as int,
                mark.width as int,
                mark.height as int,
            ) == Some(e),
        },
{
    if width == 0 || height == 0 {
        return Err(ArchiveError::ImageTooSmall);
    }
    if image.width > MAX_SCALED_SIDE || image.height > MAX_SCALED_SIDE || width > MAX_SCALED_SIDE
        || height > MAX_SCALED_SIDE {
        return Err(ArchiveError::ImageIoFailure);
    }
    if !check_fits_memory(width, height) || !check_fits_memory(image.width, height) {
        return Err(ArchiveError::ImageIoFailure);
    }
    let scaled = resize_with_photon(image, width, height, Resampling::Lanczos3);
    match stamp_watermark(&scaled, mark) {
        Ok(large) => {
            assert(scaled.pixels@.len() == 4 * width * height && large.pixels@ == watermarked(
                scaled.pixels@,
                width as int,
                height as int,
                mark.pixels@,
                mark.width as int,
                mark.height as int,
            ));
            Ok(large)
        },
        Err(e) => Err(e),
    }
}

} // verus!
