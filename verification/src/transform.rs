//! The transform: decode a source image, resize it to exactly the extent
//! asked for, encode it as PNG, and read back what the encoder wrote.

use vstd::prelude::*;
use crate::query::MAX_DIM;

verus! {

/// A decoded image of the `image` crate.
#[verifier::external_type_specification]
#[verifier::external_body]
pub struct ExDynamicImage(image::DynamicImage);

/// The error type of the `image` crate.
#[verifier::external_type_specification]
#[verifier::external_body]
pub struct ExImageError(image::ImageError);

/// What the transform reads of an image.
pub struct Outline {
    /// The width in pixels.
    pub width: u32,
    /// The height in pixels.
    pub height: u32,
    /// Whether the samples are of a kind that a PNG file holds: integers of
    /// 8 or 16 bits, not floating-point numbers.
    pub encodable: bool,
}

/// The outline of a decoded image.
pub uninterp spec fn outline(img: image::DynamicImage) -> Outline;

/// What decoding makes of the bytes of a source: nothing where they do not
/// decode, else the outline of the image they hold.
pub uninterp spec fn decoded_outline(bytes: Seq<u8>) -> Option<Outline>;

/// Calls `image::load_from_memory`, which detects the format from the
/// content. Not proved: that whether the bytes decode, and to an image of
/// what outline, depends on the bytes alone. Nothing is claimed of the
/// pixels.
#[verifier::external_body]
fn decode_image(bytes: &[u8]) -> (r: Result<image::DynamicImage, image::ImageError>)
    ensures
        match r {
            Ok(img) => decoded_outline(bytes@) == Some(outline(img)),
            Err(_) => decoded_outline(bytes@) is None,
        },
{
    image::load_from_memory(bytes)
}

/// Calls `GenericImageView::dimensions` on a decoded image. Not proved: that
/// the pair is the width and the height of the image's outline.
#[verifier::external_body]
fn extent_of(img: &image::DynamicImage) -> (extent: (u32, u32))
    ensures
        extent == (outline(*img).width, outline(*img).height),
{
    image::GenericImageView::dimensions(img)
}

/// Calls `DynamicImage::resize_exact` with the Lanczos filter of window 3.
/// Not proved: that the new image has exactly the width and height given
/// and samples of the kind that the source has. Nothing is claimed of its
/// pixels. An empty source, and one whose resize needs a buffer beyond
/// [`buffer_limit`], are left out.
#[verifier::external_body]
fn resize_exact(img: &image::DynamicImage, width: u32, height: u32) -> (out: image::DynamicImage)
    requires
        fits_source((outline(*img).width, outline(*img).height), height),
        1 <= width <= MAX_DIM,
        1 <= height <= MAX_DIM,
    ensures
        outline(out) == (Outline { width, height, encodable: outline(*img).encodable }),
{
    img.resize_exact(width, height, image::imageops::FilterType::Lanczos3)
}

/// Calls `DynamicImage::write_to` with the PNG format on a buffer in memory.
/// Not proved: that an image that is not empty is encoded exactly when its
/// samples are of a kind that a PNG file holds, and that what is written
/// starts with the signature and a header chunk that holds the image's
/// width and height.
#[verifier::external_body]
fn encode_png(img: &image::DynamicImage) -> (r: Result<Vec<u8>, image::ImageError>)
    ensures
        outline(*img).width >= 1 && outline(*img).height >= 1 ==> (r is Ok <==> outline(
            *img,
        ).encodable),
        r matches Ok(png) ==> png_extent(png@) == Some((outline(*img).width, outline(*img).height)),
{
    let mut out = std::io::Cursor::new(Vec::new());
    match img.write_to(&mut out, image::ImageFormat::Png) {
        Ok(()) => Ok(out.into_inner()),
        Err(e) => Err(e),
    }
}

/// Why a transform failed.
#[derive(Clone, Copy, Debug, PartialEq, Eq, Structural)]
pub enum TransformError {
    /// The source could not be decoded, or is empty, or its resize needs a
    /// buffer that the machine cannot hold.
    Decode,
    /// The resized image could not be encoded, or what was encoded does not
    /// announce the extent asked for.
    Encode,
}

/// The result of a transform with its bytes as a sequence.
pub open spec fn result_view(r: Result<Vec<u8>, TransformError>) -> Result<Seq<u8>, TransformError> {
    match r {
        Ok(png) => Ok(png@),
        Err(e) => Err(e),
    }
}

/// The most bytes that one buffer can hold on this machine: half the
/// address space.
pub open spec fn buffer_limit() -> int {
    (usize::MAX / 2) as int
}

/// Whether a source of this extent can be resized to `height` rows: it is
/// not empty, the buffer between the two passes of the resize (sixteen
/// bytes for each pixel of the source's width and the new height) stays
/// within [`buffer_limit`], and so do the weights of one column (eight
/// bytes for each row of the source). Where an address has 64 bits every
/// source that is not empty fits.
pub open spec fn fits_source(extent: (u32, u32), height: u32) -> bool {
    &&& 1 <= extent.0
    &&& 1 <= extent.1
    &&& 16 * (extent.0 * height) <= buffer_limit()
    &&& 8 * extent.1 <= buffer_limit()
}

/// Whether a source is resized to `height` rows: it decodes, and to an
/// extent that fits.
pub open spec fn usable_source(bytes: Seq<u8>, height: u32) -> bool {
    match decoded_outline(bytes) {
        Some(source) => fits_source((source.width, source.height), height),
        None => false,
    }
}

/// What the transform makes of a source, but for the pixels: a source that
/// is not resized fails with [`TransformError::Decode`]; one whose samples
/// no PNG file holds fails with [`TransformError::Encode`]; every other
/// source gives a PNG file.
pub open spec fn transform_kind(bytes: Seq<u8>, height: u32) -> Result<(), TransformError> {
    match decoded_outline(bytes) {
        Some(source) => if !fits_source((source.width, source.height), height) {
            Err(TransformError::Decode)
        } else if !source.encodable {
            Err(TransformError::Encode)
        } else {
            Ok(())
        },
        None => Err(TransformError::Decode),
    }
}

/// Whether `result` is what the transform makes of a source: it succeeds
/// and fails as [`transform_kind`] says, and a PNG file that it hands out
/// announces the extent asked for. Nothing is said of the pixels.
pub open spec fn may_give(
    bytes: Seq<u8>,
    width: u32,
    height: u32,
    result: Result<Seq<u8>, TransformError>,
) -> bool {
    match result {
        Ok(png) => transform_kind(bytes, height) is Ok && png_extent(png) == Some((width, height)),
        Err(e) => transform_kind(bytes, height) == Err::<(), TransformError>(e),
    }
}

/// The sixteen bytes that every PNG file starts with: the signature, then
/// the length and the name of the header chunk.
pub open spec fn png_prelude() -> Seq<u8> {
    seq![137u8, 80, 78, 71, 13, 10, 26, 10, 0, 0, 0, 13, 73, 72, 68, 82]
}

/// The number that four bytes starting at `at` hold, most significant first.
pub open spec fn be_u32(bytes: Seq<u8>, at: int) -> int {
    bytes[at] * 0x100_0000 + bytes[at + 1] * 0x1_0000 + bytes[at + 2] * 0x100 + bytes[at + 3]
}

/// The width and height that a PNG file announces in its header chunk, if
/// the bytes start as a PNG file does.
pub open spec fn png_extent(bytes: Seq<u8>) -> Option<(u32, u32)> {
    if bytes.len() >= 24 && bytes.subrange(0, 16) == png_prelude() {
        Some((be_u32(bytes, 16) as u32, be_u32(bytes, 20) as u32))
    } else {
        None
    }
}

/// Reads four bytes as a number, most significant first.
fn read_be_u32(bytes: &[u8], at: usize) -> (v: u32)
    requires
        at + 4 <= bytes@.len(),
    ensures
        v == be_u32(bytes@, at as int),
{
    let b0: u32 = bytes[at] as u32;
    let b1: u32 = bytes[at + 1] as u32;
    let b2: u32 = bytes[at + 2] as u32;
    let b3: u32 = bytes[at + 3] as u32;
    b0 * 0x100_0000 + b1 * 0x1_0000 + b2 * 0x100 + b3
}

/// Reads the width and height that a PNG file announces.
pub fn read_png_extent(bytes: &[u8]) -> (r: Option<(u32, u32)>)
    ensures
        r == png_extent(bytes@),
{
    if bytes.len() < 24 {
        return None;
    }
    let prelude: [u8; 16] = [137, 80, 78, 71, 13, 10, 26, 10, 0, 0, 0, 13, 73, 72, 68, 82];
    let mut i: usize = 0;
    while i < 16
        invariant
            i <= 16,
            bytes@.len() >= 24,
            prelude@ == png_prelude(),
            forall|j: int| 0 <= j < i ==> bytes@[j] == png_prelude()[j],
        decreases 16 - i,
    {
        if bytes[i] != prelude[i] {
            assert(bytes@.subrange(0, 16)[i as int] != png_prelude()[i as int]);
            return None;
        }
        i = i + 1;
    }
    assert(bytes@.subrange(0, 16) =~= png_prelude());
    Some((read_be_u32(bytes, 16), read_be_u32(bytes, 20)))
}

/// Lets encoded bytes pass if they announce the extent asked for.
pub fn accept_png(png: Vec<u8>, width: u32, height: u32) -> (r: Result<Vec<u8>, TransformError>)
    ensures
        r == if png_extent(png@) == Some((width, height)) {
            Ok::<Vec<u8>, TransformError>(png)
        } else {
            Err::<Vec<u8>, TransformError>(TransformError::Encode)
        },
{
    match read_png_extent(png.as_slice()) {
        Some((w, h)) => {
            if w == width && h == height {
                Ok(png)
            } else {
                Err(TransformError::Encode)
            }
        },
        None => Err(TransformError::Encode),
    }
}

/// Whether a source of this extent can be resized to `height` rows.
pub fn source_fits(extent: (u32, u32), height: u32) -> (fits: bool)
    ensures
        fits == fits_source(extent, height),
{
    let limit: u64 = (usize::MAX / 2) as u64;
    let columns: u64 = extent.0 as u64;
    let rows: u64 = extent.1 as u64;
    let asked: u64 = height as u64;
    assert(columns * asked <= 0xffff_ffff * 0xffff_ffff) by (nonlinear_arith)
        requires
            columns <= 0xffff_ffff,
            asked <= 0xffff_ffff,
    ;
    extent.0 >= 1 && extent.1 >= 1 && columns * asked <= limit / 16 && rows <= limit / 8
}

/// Decides what is made of a decoded source, where `encoded` is what the
/// encoder gave for the resized image.
pub fn settle(encoded: Option<Vec<u8>>, width: u32, height: u32) -> (r: Result<
    Vec<u8>,
    TransformError,
>)
    ensures
        r == match encoded {
            Some(png) => if png_extent(png@) == Some((width, height)) {
                Ok::<Vec<u8>, TransformError>(png)
            } else {
                Err::<Vec<u8>, TransformError>(TransformError::Encode)
            },
            None => Err::<Vec<u8>, TransformError>(TransformError::Encode),
        },
{
    match encoded {
        Some(png) => accept_png(png, width, height),
        None => Err(TransformError::Encode),
    }
}

/// Turns the bytes of a source image into a PNG file of exactly `width` by
/// `height` pixels. The format of the source is detected from its content;
/// its aspect ratio is not kept.
///
/// A source that does not decode, is empty, or does not fit gives
/// [`TransformError::Decode`]; one with samples that no PNG file holds
/// gives [`TransformError::Encode`]; every other source gives a PNG file,
/// which starts as a PNG file does and announces the extent asked for.
pub fn transform(bytes: &[u8], width: u32, height: u32) -> (r: Result<Vec<u8>, TransformError>)
    requires
        1 <= width <= MAX_DIM,
        1 <= height <= MAX_DIM,
    ensures
        may_give(bytes@, width, height, result_view(r)),
{
    let source = match decode_image(bytes) {
        Ok(img) => img,
        Err(_) => {
            return Err(TransformError::Decode);
        },
    };
    if !source_fits(extent_of(&source), height) {
        return Err(TransformError::Decode);
    }
    let resized = resize_exact(&source, width, height);
    let encoded = match encode_png(&resized) {
        Ok(png) => Some(png),
        Err(_) => None,
    };
    settle(encoded, width, height)
}

} // verus!
