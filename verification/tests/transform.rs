use resize_gateway::transform::{
    accept_png, read_png_extent, settle, source_fits, transform, TransformError,
};

fn source(width: u32, height: u32, format: image::ImageFormat) -> Vec<u8> {
    let picture = image::RgbImage::from_fn(width, height, |x, y| {
        image::Rgb([(x % 256) as u8, (y % 256) as u8, ((x + y) % 256) as u8])
    });
    let mut out = std::io::Cursor::new(Vec::new());
    image::DynamicImage::ImageRgb8(picture).write_to(&mut out, format).unwrap();
    out.into_inner()
}

fn header(width: u32, height: u32) -> Vec<u8> {
    let mut bytes = vec![137, 80, 78, 71, 13, 10, 26, 10, 0, 0, 0, 13, 73, 72, 68, 82];
    bytes.extend_from_slice(&width.to_be_bytes());
    bytes.extend_from_slice(&height.to_be_bytes());
    bytes
}

#[test]
fn output_has_exactly_the_extent_asked_for() {
    let bytes = source(512, 512, image::ImageFormat::Png);
    let png = transform(&bytes, 100, 50).unwrap();
    let decoded = image::load_from_memory(&png).unwrap();
    assert_eq!((decoded.width(), decoded.height()), (100, 50));
    assert_eq!(image::guess_format(&png).unwrap(), image::ImageFormat::Png);
    assert_eq!(read_png_extent(&png), Some((100, 50)));
}

#[test]
fn aspect_ratio_is_not_kept() {
    let bytes = source(40, 10, image::ImageFormat::Png);
    for (w, h) in [(1u32, 1u32), (10, 40), (3, 200), (64, 64), (40, 10), (300, 1)] {
        let png = transform(&bytes, w, h).unwrap();
        let decoded = image::load_from_memory(&png).unwrap();
        assert_eq!((decoded.width(), decoded.height()), (w, h));
    }
}

#[test]
fn the_largest_dimension_is_served() {
    let bytes = source(8, 8, image::ImageFormat::Png);
    let png = transform(&bytes, 4096, 1).unwrap();
    let decoded = image::load_from_memory(&png).unwrap();
    assert_eq!((decoded.width(), decoded.height()), (4096, 1));
    let png = transform(&bytes, 2, 4096).unwrap();
    assert_eq!(read_png_extent(&png), Some((2, 4096)));
}

#[test]
fn the_source_format_is_found_from_the_content() {
    for format in [
        image::ImageFormat::Jpeg,
        image::ImageFormat::Png,
        image::ImageFormat::Bmp,
        image::ImageFormat::Gif,
    ] {
        let bytes = source(32, 16, format);
        let png = transform(&bytes, 20, 30).unwrap();
        assert_eq!(image::guess_format(&png).unwrap(), image::ImageFormat::Png);
        let decoded = image::load_from_memory(&png).unwrap();
        assert_eq!((decoded.width(), decoded.height()), (20, 30));
    }
}

#[test]
fn the_same_input_gives_the_same_bytes() {
    let bytes = source(64, 64, image::ImageFormat::Png);
    assert_eq!(transform(&bytes, 17, 23).unwrap(), transform(&bytes, 17, 23).unwrap());
}

#[test]
fn a_source_that_does_not_decode_is_a_decode_error() {
    assert_eq!(transform(b"", 10, 10), Err(TransformError::Decode));
    assert_eq!(transform(b"this is no image", 10, 10), Err(TransformError::Decode));
    let mut cut = source(64, 64, image::ImageFormat::Png);
    cut.truncate(40);
    assert_eq!(transform(&cut, 10, 10), Err(TransformError::Decode));
}

#[test]
fn reads_the_extent_from_a_png_header() {
    assert_eq!(read_png_extent(&header(100, 50)), Some((100, 50)));
    assert_eq!(read_png_extent(&header(1, 1)), Some((1, 1)));
    assert_eq!(read_png_extent(&header(0, 0)), Some((0, 0)));
    assert_eq!(read_png_extent(&header(u32::MAX, 0x01020304)), Some((u32::MAX, 0x01020304)));
    assert_eq!(read_png_extent(&header(256, 65536)), Some((256, 65536)));
}

#[test]
fn reads_no_extent_from_what_is_no_png_header() {
    assert_eq!(read_png_extent(b""), None);
    assert_eq!(read_png_extent(&header(1, 1)[..23]), None);
    for i in 0..16 {
        let mut bytes = header(7, 9);
        bytes[i] ^= 1;
        assert_eq!(read_png_extent(&bytes), None);
    }
    let jpeg = source(8, 8, image::ImageFormat::Jpeg);
    assert_eq!(read_png_extent(&jpeg), None);
}

#[test]
fn accepts_only_the_extent_asked_for() {
    assert_eq!(accept_png(header(100, 50), 100, 50), Ok(header(100, 50)));
    assert_eq!(accept_png(header(100, 50), 50, 100), Err(TransformError::Encode));
    assert_eq!(accept_png(header(100, 50), 100, 51), Err(TransformError::Encode));
    assert_eq!(accept_png(vec![], 100, 50), Err(TransformError::Encode));
    assert_eq!(accept_png(b"GIF89a".to_vec(), 1, 1), Err(TransformError::Encode));
}

#[test]
fn which_sources_are_resized() {
    assert!(source_fits((1, 1), 1));
    assert!(source_fits((512, 512), 4096));
    assert!(source_fits((16385, 1), 4096));
    assert!(source_fits((1, 16385), 1));
    assert!(!source_fits((0, 10), 10));
    assert!(!source_fits((10, 0), 10));
    assert!(!source_fits((0, 0), 1));
    let limit = (usize::MAX / 2) as u128;
    for (w, h, asked) in [(u32::MAX, u32::MAX, 4096u32), (1 << 20, 1 << 28, 4096), (1 << 15, 7, 1), (7, 7, u32::MAX)] {
        let fits = 16 * (w as u128) * (asked as u128) <= limit && 8 * (h as u128) <= limit;
        assert_eq!(source_fits((w, h), asked), fits);
    }
}

#[test]
fn a_wide_source_is_resized() {
    let bytes = source(20000, 2, image::ImageFormat::Png);
    let png = transform(&bytes, 10, 10).unwrap();
    let decoded = image::load_from_memory(&png).unwrap();
    assert_eq!((decoded.width(), decoded.height()), (10, 10));
    let bytes = source(2, 20000, image::ImageFormat::Png);
    let png = transform(&bytes, 3, 5).unwrap();
    assert_eq!(read_png_extent(&png), Some((3, 5)));
}

#[test]
fn sources_of_every_integer_sample_kind_are_encoded() {
    let pictures = [
        image::DynamicImage::new_luma8(6, 4),
        image::DynamicImage::new_luma_a8(6, 4),
        image::DynamicImage::new_rgb8(6, 4),
        image::DynamicImage::new_rgba8(6, 4),
        image::DynamicImage::new_luma16(6, 4),
        image::DynamicImage::new_luma_a16(6, 4),
        image::DynamicImage::new_rgb16(6, 4),
        image::DynamicImage::new_rgba16(6, 4),
    ];
    for picture in pictures {
        let mut out = std::io::Cursor::new(Vec::new());
        picture.write_to(&mut out, image::ImageFormat::Png).unwrap();
        let png = transform(&out.into_inner(), 9, 7).unwrap();
        let decoded = image::load_from_memory(&png).unwrap();
        assert_eq!((decoded.width(), decoded.height()), (9, 7));
        assert_eq!(decoded.color(), picture.color());
    }
}

#[test]
fn what_the_encoder_gave_settles_the_result() {
    assert_eq!(settle(Some(header(100, 50)), 100, 50), Ok(header(100, 50)));
    assert_eq!(settle(Some(header(100, 50)), 100, 49), Err(TransformError::Encode));
    assert_eq!(settle(Some(b"no png".to_vec()), 1, 1), Err(TransformError::Encode));
    assert_eq!(settle(None, 100, 50), Err(TransformError::Encode));
}
