//! Writing a raster image as a PNG stream.
//!
//! The stream is produced by the `png` crate, with one fixed setting:
//! truecolour, eight bits a sample, run-length compression and the Paeth
//! filter on every row.

use crate::raster::{RasterImage, RasterView};
use vstd::prelude::*;

verus! {

/// Why an image was not encoded: the encoder's own words.
#[derive(Debug, PartialEq, Eq)]
pub struct EncodeError {
    pub message: String,
}

/// What the `png` crate's encoder writes for an image of the given size
/// and samples under the fixed setting, or its error message where it
/// writes none.
pub uninterp spec fn png_stream(width: u32, height: u32, data: Seq<u8>) -> Result<Seq<u8>, Seq<char>>;

/// What an image encodes to.
pub open spec fn encoded(image: RasterView) -> Result<Seq<u8>, Seq<char>> {
    png_stream(image.width as u32, image.height as u32, image.data)
}

/// Runs `png::Encoder` over a byte vector: `new`, the four setters,
/// `write_header`, then `Writer::write_image_data`, and the end chunk
/// when the writer is dropped. Trusted: what comes back is the named
/// stream, or the text of the encoder's error. The encoder multiplies the
/// row length by the height in a machine word, which the requirement
/// keeps in range.
#[verifier::external_body]
#[allow(deprecated)]
fn write_png(width: u32, height: u32, data: &[u8]) -> (r: Result<Vec<u8>, String>)
    requires
        3 * (width * height) <= usize::MAX,
    ensures
        match r {
            Ok(stream) => png_stream(width, height, data@) == Ok::<Seq<u8>, Seq<char>>(stream@),
            Err(text) => png_stream(width, height, data@) == Err::<Seq<u8>, Seq<char>>(text@),
        },
{
    let mut stream = Vec::new();
    let mut encoder = png::Encoder::new(&mut stream, width, height);
    encoder.set_color(png::ColorType::Rgb);
    encoder.set_depth(png::BitDepth::Eight);
    encoder.set_compression(png::Compression::Rle);
    encoder.set_filter(png::FilterType::Paeth);
    let written = match encoder.write_header() {
        Ok(mut writer) => writer.write_image_data(data),
        Err(e) => Err(e),
    };
    match written {
        Ok(()) => Ok(stream),
        Err(e) => Err(e.to_string()),
    }
}

/// Encodes an image as a PNG stream.
pub fn encode(image: &RasterImage) -> (r: Result<Vec<u8>, EncodeError>)
    ensures
        match r {
            Ok(stream) => encoded(image@) == Ok::<Seq<u8>, Seq<char>>(stream@),
            Err(e) => encoded(image@) == Err::<Seq<u8>, Seq<char>>(e.message@),
        },
{
    let width = image.width();
    let height = image.height();
    let data = image.data();
    assert(3 * (width * height) == data@.len()) by (nonlinear_arith)
        requires
            data@.len() == 3 * (image@.width * image@.height),
            image@.width == width,
            image@.height == height,
    ;
    match write_png(width, height, data) {
        Ok(stream) => Ok(stream),
        Err(message) => Err(EncodeError { message }),
    }
}

} // verus!
