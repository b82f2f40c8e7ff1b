use post_archive::error::ArchiveError;
use post_archive::imaging::{crop_square, make_large, make_thumbnail, stamp_watermark, Image};

fn numbered(width: u32, height: u32) -> Image {
    let mut pixels = Vec::new();
    for y in 0..height {
        for x in 0..width {
            pixels.extend_from_slice(&[x as u8, y as u8, (x + y) as u8, 255]);
        }
    }
    Image::new(pixels, width, height).unwrap()
}

fn plain(width: u32, height: u32, colour: [u8; 4]) -> Image {
    let mut pixels = Vec::new();
    for _ in 0..(width * height) {
        pixels.extend_from_slice(&colour);
    }
    Image::new(pixels, width, height).unwrap()
}

fn pixel(image: &Image, x: u32, y: u32) -> [u8; 4] {
    let at = 4 * (y * image.width + x) as usize;
    [image.pixels[at], image.pixels[at + 1], image.pixels[at + 2], image.pixels[at + 3]]
}

#[test]
fn an_image_has_four_bytes_for_each_pixel() {
    assert!(Image::new(vec![0; 24], 3, 2).is_some());
    assert!(Image::new(vec![0; 23], 3, 2).is_none());
    assert!(Image::new(vec![0; 25], 3, 2).is_none());
    assert!(Image::new(vec![], 0, 0).is_none());
    assert!(Image::new(vec![], 0, 5).is_none());
    assert!(Image::new(vec![0; 4], u32::MAX, u32::MAX).is_none());
}

#[test]
fn the_square_is_cut_from_the_middle_of_a_landscape_image() {
    let image = numbered(10, 6);
    let cut = crop_square(&image).unwrap();
    assert_eq!((cut.width, cut.height), (6, 6));
    assert_eq!(cut.pixels.len(), 4 * 6 * 6);
    for y in 0..6 {
        for x in 0..6 {
            assert_eq!(pixel(&cut, x, y), pixel(&image, x + 2, y));
        }
    }
}

#[test]
fn the_square_is_cut_from_the_middle_of_a_portrait_image() {
    let image = numbered(4, 9);
    let cut = crop_square(&image).unwrap();
    assert_eq!((cut.width, cut.height), (4, 4));
    for y in 0..4 {
        for x in 0..4 {
            assert_eq!(pixel(&cut, x, y), pixel(&image, x, y + 2));
        }
    }
}

#[test]
fn the_thumbnail_has_the_sizes_asked_for() {
    let image = numbered(10, 6);
    let thumbnail = make_thumbnail(&image, 3, 3).unwrap();
    assert_eq!((thumbnail.width, thumbnail.height), (3, 3));
    assert_eq!(thumbnail.pixels.len(), 4 * 3 * 3);
    let other = make_thumbnail(&image, 12, 5).unwrap();
    assert_eq!((other.width, other.height), (12, 5));
    assert_eq!(other.pixels.len(), 4 * 12 * 5);
    let same = make_thumbnail(&numbered(6, 6), 6, 6).unwrap();
    assert_eq!(same.pixels, numbered(6, 6).pixels);
}

#[test]
fn a_thumbnail_without_pixels_is_refused() {
    let image = numbered(10, 6);
    assert_eq!(make_thumbnail(&image, 0, 3).err(), Some(ArchiveError::ImageTooSmall));
    assert_eq!(make_thumbnail(&image, 3, 0).err(), Some(ArchiveError::ImageTooSmall));
}

#[test]
fn the_watermark_covers_its_place_only() {
    let image = plain(100, 80, [10, 20, 30, 255]);
    let mark = plain(20, 10, [200, 0, 0, 255]);
    let marked = stamp_watermark(&image, &mark).unwrap();
    assert_eq!((marked.width, marked.height), (100, 80));
    for y in 0..80 {
        for x in 0..100 {
            let inside = (50..70).contains(&x) && (30..40).contains(&y);
            if inside {
                assert_eq!(pixel(&marked, x, y), [200, 0, 0, 255]);
            } else {
                assert_eq!(pixel(&marked, x, y), [10, 20, 30, 255]);
            }
        }
    }
}

#[test]
fn an_image_without_room_for_the_watermark_is_too_small() {
    let mark = plain(20, 10, [200, 0, 0, 255]);
    assert_eq!(
        stamp_watermark(&plain(49, 80, [0, 0, 0, 255]), &mark).err(),
        Some(ArchiveError::ImageTooSmall)
    );
    assert_eq!(
        stamp_watermark(&plain(100, 49, [0, 0, 0, 255]), &mark).err(),
        Some(ArchiveError::ImageTooSmall)
    );
    assert_eq!(
        stamp_watermark(&plain(10, 5, [0, 0, 0, 255]), &mark).err(),
        Some(ArchiveError::ImageTooSmall)
    );
    assert!(stamp_watermark(&plain(50, 50, [0, 0, 0, 255]), &mark).is_ok());
}

#[test]
fn the_large_rendition_is_scaled_and_then_marked() {
    let image = plain(40, 30, [10, 20, 30, 255]);
    let mark = plain(20, 10, [200, 0, 0, 255]);
    let large = make_large(&image, &mark, 100, 80).unwrap();
    assert_eq!((large.width, large.height), (100, 80));
    assert_eq!(pixel(&large, 50, 30), [200, 0, 0, 255]);
    assert_eq!(pixel(&large, 69, 39), [200, 0, 0, 255]);
    assert_eq!(pixel(&large, 49, 30), [10, 20, 30, 255]);
    assert_eq!(pixel(&large, 70, 39), [10, 20, 30, 255]);
    assert_eq!(pixel(&large, 0, 0), [10, 20, 30, 255]);
    assert_eq!(pixel(&large, 99, 79), [10, 20, 30, 255]);
}

#[test]
fn a_large_rendition_without_room_is_refused() {
    let image = plain(400, 300, [10, 20, 30, 255]);
    let mark = plain(20, 10, [200, 0, 0, 255]);
    assert_eq!(make_large(&image, &mark, 49, 80).err(), Some(ArchiveError::ImageTooSmall));
    assert_eq!(make_large(&image, &mark, 0, 80).err(), Some(ArchiveError::ImageTooSmall));
    assert_eq!(make_large(&image, &mark, 80, 0).err(), Some(ArchiveError::ImageTooSmall));
    assert!(make_large(&image, &mark, 50, 50).is_ok());
}

#[test]
fn the_nearest_pixel_is_taken_when_a_thumbnail_is_scaled_up() {
    let image = numbered(2, 2);
    let thumbnail = make_thumbnail(&image, 4, 4).unwrap();
    for y in 0..4 {
        for x in 0..4 {
            assert_eq!(pixel(&thumbnail, x, y), pixel(&image, x / 2, y / 2));
        }
    }
}

#[test]
fn the_thumbnail_is_made_of_the_middle_of_the_image() {
    let image = numbered(12, 4);
    let thumbnail = make_thumbnail(&image, 4, 4).unwrap();
    for y in 0..4 {
        for x in 0..4 {
            assert_eq!(pixel(&thumbnail, x, y), pixel(&image, x + 4, y));
        }
    }
}

#[test]
fn sides_beyond_the_longest_are_refused() {
    let image = numbered(10, 6);
    let mark = plain(2, 2, [200, 0, 0, 255]);
    assert_eq!(make_thumbnail(&image, 1048577, 3).err(), Some(ArchiveError::ImageIoFailure));
    assert_eq!(make_thumbnail(&image, 3, 1048577).err(), Some(ArchiveError::ImageIoFailure));
    assert_eq!(make_large(&image, &mark, 1048577, 80).err(), Some(ArchiveError::ImageIoFailure));
    assert_eq!(make_large(&image, &mark, 80, 1048577).err(), Some(ArchiveError::ImageIoFailure));
    assert_eq!(make_large(&image, &mark, 0, 1048577).err(), Some(ArchiveError::ImageTooSmall));
    let long = plain(1048577, 1, [0, 0, 0, 255]);
    assert_eq!(make_large(&long, &mark, 80, 80).err(), Some(ArchiveError::ImageIoFailure));
    assert!(make_thumbnail(&long, 2, 2).is_ok());
}

#[test]
fn a_clear_watermark_leaves_the_image_as_it_is_and_a_faint_one_tints_it() {
    let image = plain(60, 60, [100, 100, 100, 255]);
    let clear = stamp_watermark(&image, &plain(10, 10, [200, 0, 0, 0])).unwrap();
    assert_eq!(clear.pixels, image.pixels);
    let faint = stamp_watermark(&image, &plain(10, 10, [200, 0, 0, 128])).unwrap();
    let tinted = pixel(&faint, 25, 15);
    assert_eq!(tinted, [150, 49, 49, 254]);
    assert_eq!(pixel(&faint, 19, 15), [100, 100, 100, 255]);
    assert_eq!(pixel(&faint, 30, 15), [100, 100, 100, 255]);
}
