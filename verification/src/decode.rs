//! Reading a bitmap file into a raster image.
//!
//! The file format itself is read by the `tinybmp` crate. This module
//! guards the calls into it, checks what comes back and lays the pixels
//! out as red, green and blue samples.

use crate::raster::{assembled, RasterImage, RasterView, Rgb};
use embedded_graphics::pixelcolor::{Rgb888, RgbColor};
use tinybmp::Bmp;
use vstd::prelude::*;

verus! {

/// Why a file's bytes were not decoded.
#[derive(Clone, Copy, Debug, PartialEq, Eq, Structural)]
pub enum DecodeError {
    /// The bytes are no bitmap file that can be read as 24-bit colour, or
    /// a header field points outside of them.
    Malformed,
    /// The header gives a width or a height of zero.
    Empty,
    /// Thirty-two times the pixel count does not fit a machine word.
    TooLarge,
    /// The reader did not yield one colour for each pixel.
    PixelCount,
}

/// The message that goes with each error.
pub open spec fn error_text(e: DecodeError) -> Seq<char> {
    match e {
        DecodeError::Malformed => "couldn’t parse"@,
        DecodeError::Empty => "image has no pixels"@,
        DecodeError::TooLarge => "image too large"@,
        DecodeError::PixelCount => "pixel data does not match the image size"@,
    }
}

impl DecodeError {
    /// The message that goes with this error.
    pub fn message(&self) -> (r: String)
        ensures
            r@ == error_text(*self),
    {
        match self {
            DecodeError::Malformed => String::from_str("couldn’t parse"),
            DecodeError::Empty => String::from_str("image has no pixels"),
            DecodeError::TooLarge => String::from_str("image too large"),
            DecodeError::PixelCount => String::from_str(
                "pixel data does not match the image size",
            ),
        }
    }
}

/// Where the header keeps the offset of the pixel data.
pub const DATA_OFFSET_AT: usize = 10;

/// Where the header keeps the signed height.
pub const HEIGHT_AT: usize = 22;

/// Where the header keeps the number of palette entries.
pub const PALETTE_LEN_AT: usize = 46;

/// The unsigned number stored in the four bytes from `at` on, least
/// significant byte first, or none where the bytes end before.
pub open spec fn field(bytes: Seq<u8>, at: int) -> Option<int> {
    if 0 <= at && at + 4 <= bytes.len() {
        Some(
            bytes[at] + 0x100 * bytes[at + 1] + 0x1_0000 * bytes[at + 2] + 0x100_0000 * bytes[at
                + 3],
        )
    } else {
        None
    }
}

/// Whether the three header fields that the reader follows blindly can be
/// followed: the pixel data starts inside the file, the height is not the
/// one number that has no absolute value in 32 bits, and a palette of
/// the stated length, four bytes an entry, is no longer than the file.
/// A field that a short file does not reach counts as in range.
pub open spec fn header_in_range(bytes: Seq<u8>) -> bool {
    &&& field(bytes, DATA_OFFSET_AT as int) matches Some(offset) ==> offset <= bytes.len()
    &&& field(bytes, HEIGHT_AT as int) matches Some(height) ==> height != 0x8000_0000
    &&& field(bytes, PALETTE_LEN_AT as int) matches Some(entries) ==> 4 * entries <= bytes.len()
}

/// Whether an image of this size may be fetched pixel by pixel: `Ok` with
/// the pixel count, or the reason why not. The reader finds a pixel by
/// its bit offset, at up to 32 bits a pixel, so the limit is a pixel
/// count whose bit offsets fit a machine word.
pub open spec fn size_check(width: u32, height: u32) -> Result<nat, DecodeError> {
    if width == 0 || height == 0 {
        Err(DecodeError::Empty)
    } else if 32 * (width * height) > usize::MAX {
        Err(DecodeError::TooLarge)
    } else {
        Ok((width * height) as nat)
    }
}

/// The width and height that `tinybmp` reads from the header of `bytes`
/// when asked for 24-bit colour, or none where it rejects them.
pub uninterp spec fn bmp_size(bytes: Seq<u8>) -> Option<(u32, u32)>;

/// The colours that `tinybmp` yields for the bitmap in `bytes`, in the
/// order of its pixel iterator.
pub uninterp spec fn bmp_colors(bytes: Seq<u8>) -> Seq<Rgb>;

/// What a size and a colour sequence handed out by the reader decode to.
pub open spec fn checked(width: u32, height: u32, colors: Seq<Rgb>) -> Result<
    RasterView,
    DecodeError,
> {
    match size_check(width, height) {
        Err(e) => Err(e),
        Ok(_) => match assembled(width, height, colors) {
            Some(image) => Ok(image),
            None => Err(DecodeError::PixelCount),
        },
    }
}

/// What the bytes of a file decode to.
pub open spec fn decoded(bytes: Seq<u8>) -> Result<RasterView, DecodeError> {
    if !header_in_range(bytes) {
        Err(DecodeError::Malformed)
    } else {
        match bmp_size(bytes) {
            None => Err(DecodeError::Malformed),
            Some((width, height)) => checked(width, height, bmp_colors(bytes)),
        }
    }
}

/// Reads the number stored in the four bytes from `at` on, least
/// significant byte first.
pub fn read_field(bytes: &[u8], at: usize) -> (r: Option<u32>)
    ensures
        match r {
            Some(v) => field(bytes@, at as int) == Some(v as int),
            None => field(bytes@, at as int).is_none(),
        },
{
    if bytes.len() < 4 || at > bytes.len() - 4 {
        return None;
    }
    let b0: u32 = bytes[at] as u32;
    let b1: u32 = bytes[at + 1] as u32;
    let b2: u32 = bytes[at + 2] as u32;
    let b3: u32 = bytes[at + 3] as u32;
    Some(b0 + 0x100 * b1 + 0x1_0000 * b2 + 0x100_0000 * b3)
}

/// Tests the header fields that the reader follows without a test of its
/// own.
pub fn check_header(bytes: &[u8]) -> (ok: bool)
    ensures
        ok == header_in_range(bytes@),
{
    let len: u64 = bytes.len() as u64;
    let offset_fits = match read_field(bytes, DATA_OFFSET_AT) {
        Some(offset) => offset as u64 <= len,
        None => true,
    };
    let height_fits = match read_field(bytes, HEIGHT_AT) {
        Some(height) => height != 0x8000_0000,
        None => true,
    };
    let palette_fits = match read_field(bytes, PALETTE_LEN_AT) {
        Some(entries) => 4 * (entries as u64) <= len,
        None => true,
    };
    offset_fits && height_fits && palette_fits
}

/// Checks a size before any pixel is fetched for it.
pub fn check_size(width: u32, height: u32) -> (r: Result<usize, DecodeError>)
    ensures
        match r {
            Ok(n) => size_check(width, height) == Ok::<nat, DecodeError>(n as nat),
            Err(e) => size_check(width, height) == Err::<nat, DecodeError>(e),
        },
{
    if width == 0 || height == 0 {
        return Err(DecodeError::Empty);
    }
    assert(width * height <= 0xffff_ffff * 0xffff_ffff) by (nonlinear_arith)
        requires
            width <= 0xffff_ffff,
            height <= 0xffff_ffff,
    ;
    let count: u64 = (width as u64) * (height as u64);
    let limit: u64 = (usize::MAX as u64) / 32;
    if count > limit {
        return Err(DecodeError::TooLarge);
    }
    Ok(count as usize)
}

/// Calls `tinybmp::Bmp::<Rgb888>::from_slice` and reads the size of what
/// it parsed. Trusted: the result is the named size of the bytes. The
/// parser slices the input at the data offset and takes the absolute
/// value of the height without a test, which the requirement rules out.
#[verifier::external_body]
fn parse_size(bytes: &[u8]) -> (r: Option<(u32, u32)>)
    requires
        header_in_range(bytes@),
    ensures
        r == bmp_size(bytes@),
{
    match Bmp::<Rgb888>::from_slice(bytes) {
        Ok(bmp) => {
            let size = bmp.as_raw().size();
            Some((size.width, size.height))
        },
        Err(_) => None,
    }
}

/// Calls `tinybmp::Bmp::pixels` on the bitmap in `bytes` and collects the
/// colour of each pixel it yields. Trusted: the result is the named colour
/// sequence of the bytes. The iterator counts bit offsets in a machine
/// word, which holds them under the size requirement.
#[verifier::external_body]
fn parse_colors(bytes: &[u8]) -> (r: Vec<Rgb>)
    requires
        header_in_range(bytes@),
        bmp_size(bytes@) matches Some((width, height)) && size_check(width, height).is_ok(),
    ensures
        r@ == bmp_colors(bytes@),
{
    match Bmp::<Rgb888>::from_slice(bytes) {
        Ok(bmp) => bmp.pixels().map(|p| Rgb { r: p.1.r(), g: p.1.g(), b: p.1.b() }).collect(),
        Err(_) => Vec::new(),
    }
}

/// Turns a size and the colours fetched for it into an image.
pub fn check_pixels(width: u32, height: u32, colors: &[Rgb]) -> (r: Result<
    RasterImage,
    DecodeError,
>)
    ensures
        match r {
            Ok(image) => checked(width, height, colors@) == Ok::<RasterView, DecodeError>(image@)
                && image@.well_formed(),
            Err(e) => checked(width, height, colors@) == Err::<RasterView, DecodeError>(e),
        },
{
    match check_size(width, height) {
        Err(e) => Err(e),
        Ok(_) => match RasterImage::from_pixels(width, height, colors) {
            Some(image) => Ok(image),
            None => Err(DecodeError::PixelCount),
        },
    }
}

/// Decodes the bytes of a bitmap file.
pub fn decode(bytes: &[u8]) -> (r: Result<RasterImage, DecodeError>)
    ensures
        match r {
            Ok(image) => decoded(bytes@) == Ok::<RasterView, DecodeError>(image@)
                && image@.well_formed(),
            Err(e) => decoded(bytes@) == Err::<RasterView, DecodeError>(e),
        },
{
    if !check_header(bytes) {
        return Err(DecodeError::Malformed);
    }
    let (width, height) = match parse_size(bytes) {
        Some(size) => size,
        None => { return Err(DecodeError::Malformed); },
    };
    if let Err(e) = check_size(width, height) {
        return Err(e);
    }
    let colors = parse_colors(bytes);
    check_pixels(width, height, colors.as_slice())
}

} // verus!
