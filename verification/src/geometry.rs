//! Where the thumbnail is cut from an image, and where the watermark goes.

use vstd::prelude::*;
use crate::error::ArchiveError;

verus! {

/// The room left between the watermark and the right edge of the image.
pub const RIGHT_MARGIN: u32 = 30;

/// The room left between the watermark and the bottom edge of the image.
pub const BOTTOM_MARGIN: u32 = 40;

/// A square region of an image: its top left corner and the length of its
/// sides.
#[derive(Clone, Copy, Debug, PartialEq, Eq, Structural)]
pub struct CropRegion {
    pub x: u32,
    pub y: u32,
    pub side: u32,
}

/// The shorter of the two sides of an image.
pub open spec fn short_side(width: int, height: int) -> int {
    if width < height {
        width
    } else {
        height
    }
}

/// How far from the left edge the thumbnail's square begins: half of what
/// a landscape image has more in width than in height.
pub open spec fn crop_left(width: int, height: int) -> int {
    if width > height {
        (width - height) / 2
    } else {
        0
    }
}

/// How far from the top edge the thumbnail's square begins: half of what
/// a portrait image has more in height than in width.
pub open spec fn crop_top(width: int, height: int) -> int {
    if width > height {
        0
    } else {
        (height - width) / 2
    }
}

/// The square that the thumbnail of an image is cut from: as large as
/// the image's shorter side allows, in the middle of its longer side.
pub fn thumbnail_crop(width: u32, height: u32) -> (region: CropRegion)
    ensures
        region.side == short_side(width as int, height as int),
        region.x == crop_left(width as int, height as int),
        region.y == crop_top(width as int, height as int),
{
    if width > height {
        CropRegion { x: (width - height) / 2, y: 0, side: height }
    } else {
        CropRegion { x: 0, y: (height - width) / 2, side: width }
    }
}

/// The thumbnail's region is a square no larger than the image's shorter
/// side; it lies inside the image, begins at the edge along the shorter
/// side, and along the longer side leaves as much room before it as
/// behind it, but for one pixel where that room is odd.
pub proof fn law_crop_is_centered_square(width: int, height: int)
    requires
        0 <= width,
        0 <= height,
    ensures
        short_side(width, height) <= width,
        short_side(width, height) <= height,
        0 <= crop_left(width, height),
        0 <= crop_top(width, height),
        crop_left(width, height) + short_side(width, height) <= width,
        crop_top(width, height) + short_side(width, height) <= height,
        width > height ==> crop_top(width, height) == 0,
        width <= height ==> crop_left(width, height) == 0,
        ({
            let behind = width - short_side(width, height) - crop_left(width, height);
            crop_left(width, height) <= behind <= crop_left(width, height) + 1
        }),
        ({
            let below = height - short_side(width, height) - crop_top(width, height);
            crop_top(width, height) <= below <= crop_top(width, height) + 1
        }),
{
}

/// Whether an image leaves room for the watermark and its margins.
pub open spec fn has_room(image_width: int, image_height: int, mark_width: int, mark_height: int)
    -> bool {
    mark_width + RIGHT_MARGIN <= image_width && mark_height + BOTTOM_MARGIN <= image_height
}

/// Where the watermark's top left corner goes: so far from the right and
/// the bottom edge of the image as the margins ask.
pub open spec fn placement(image_width: int, image_height: int, mark_width: int, mark_height: int)
    -> (int, int) {
    (image_width - mark_width - RIGHT_MARGIN, image_height - mark_height - BOTTOM_MARGIN)
}

/// Where the watermark goes on an image: at the bottom right, the margins
/// left free. An image without room for the watermark and its margins is
/// too small.
pub fn watermark_offset(image_width: u32, image_height: u32, mark_width: u32, mark_height: u32)
    -> (outcome: Result<(u32, u32), ArchiveError>)
    ensures
        match outcome {
            Ok(at) => {
                &&& has_room(
                    image_width as int,
                    image_height as int,
                    mark_width as int,
                    mark_height as int,
                )
                &&& (at.0 as int, at.1 as int) == placement(
                    image_width as int,
                    image_height as int,
                    mark_width as int,
                    mark_height as int,
                )
            },
            Err(e) => {
                &&& !has_room(
                    image_width as int,
                    image_height as int,
                    mark_width as int,
                    mark_height as int,
                )
                &&& e == ArchiveError::ImageTooSmall
            },
        },
{
    if image_width < mark_width || image_width - mark_width < RIGHT_MARGIN {
        return Err(ArchiveError::ImageTooSmall);
    }
    if image_height < mark_height || image_height - mark_height < BOTTOM_MARGIN {
        return Err(ArchiveError::ImageTooSmall);
    }
    Ok((image_width - mark_width - RIGHT_MARGIN, image_height - mark_height - BOTTOM_MARGIN))
}

/// Where the watermark is placed, its coordinates are not negative and
/// it lies inside the image with its margins. An image smaller than the
/// watermark in either dimension has no room for it.
pub proof fn law_watermark_stays_inside(
    image_width: int,
    image_height: int,
    mark_width: int,
    mark_height: int,
)
    requires
        0 <= image_width,
        0 <= image_height,
        0 <= mark_width,
        0 <= mark_height,
    ensures
        has_room(image_width, image_height, mark_width, mark_height) ==> {
            let at = placement(image_width, image_height, mark_width, mark_height);
            &&& 0 <= at.0
            &&& 0 <= at.1
            &&& at.0 + mark_width + RIGHT_MARGIN == image_width
            &&& at.1 + mark_height + BOTTOM_MARGIN == image_height
        },
        image_width < mark_width || image_height < mark_height ==> !has_room(
            image_width,
            image_height,
            mark_width,
            mark_height,
        ),
{
}

} // verus!
