//! The resize pipeline: sniff the format, decode, resample to the exact
//! target size, and encode again in the format that came in.

use vstd::prelude::*;
use image::{DynamicImage, ImageError, ImageFormat};
use crate::filter::{filter_for, filter_for_sizes, FilterKind};

verus! {

#[verifier::external_type_specification]
#[verifier::external_body]
pub struct ExImageFormat(ImageFormat);

#[verifier::external_type_specification]
#[verifier::external_body]
pub struct ExDynamicImage(DynamicImage);

#[verifier::external_type_specification]
#[verifier::external_body]
pub struct ExImageError(ImageError);

/// The format that the signature at the start of `bytes` announces, if any.
pub uninterp spec fn sniffed_format(bytes: Seq<u8>) -> Option<ImageFormat>;

/// Relies on `image::guess_format`: it reads the magic bytes at the start of
/// the buffer and nothing else, and fails when no known signature matches.
#[verifier::external_body]
fn guess_format(bytes: &[u8]) -> (r: Option<ImageFormat>)
    ensures
        r == sniffed_format(bytes@),
{
    image::guess_format(bytes).ok()
}

/// Relies on `image::load_from_memory`: decodes the buffer, or fails on
/// corrupt or unsupported data.
#[verifier::external_body]
fn decode(bytes: &[u8]) -> (r: Result<DynamicImage, ImageError>) {
    image::load_from_memory(bytes)
}

/// Relies on `DynamicImage::width`.
pub assume_specification[ DynamicImage::width ](img: &DynamicImage) -> u32;

/// Relies on `DynamicImage::height`.
pub assume_specification[ DynamicImage::height ](img: &DynamicImage) -> u32;

/// Relies on `DynamicImage::resize_exact`: a new image of exactly
/// `width` by `height`, aspect ratio not kept, whose size is read back with
/// `width()` and `height()`. `Downscale` resamples with Catmull-Rom,
/// `Upscale` with Lanczos3.
#[verifier::external_body]
fn resample(img: &DynamicImage, width: u32, height: u32, kind: FilterKind) -> (r: (
    DynamicImage,
    u32,
    u32,
))
    ensures
        r.1 == width,
        r.2 == height,
{
    let filter = match kind {
        FilterKind::Downscale => image::imageops::FilterType::CatmullRom,
        FilterKind::Upscale => image::imageops::FilterType::Lanczos3,
    };
    let out = img.resize_exact(width, height, filter);
    let (w, h) = (out.width(), out.height());
    (out, w, h)
}

/// Relies on `DynamicImage::write_to`: encodes the image in `format` into an
/// empty in-memory buffer, or fails where that format has no encoder or the
/// image does not fit it. Every encoder this crate enables (PNG, JPEG, GIF,
/// WebP, TIFF, BMP, ICO, PNM, QOI) begins its output with the signature that
/// `image::guess_format` reads for that format.
#[verifier::external_body]
fn encode(img: &DynamicImage, format: ImageFormat) -> (r: Result<Vec<u8>, ImageError>)
    ensures
        r matches Ok(b) ==> sniffed_format(b@) == Some(format),
{
    let mut cursor = std::io::Cursor::new(Vec::new());
    img.write_to(&mut cursor, format).map(|_| cursor.into_inner())
}

/// Why the pipeline could not produce a derivative.
#[derive(Clone, Copy, Debug, PartialEq, Eq, Structural)]
pub enum PipelineError {
    /// The bytes carry no signature of a known image format.
    UnknownFormat,
    /// The bytes could not be decoded.
    Decode,
    /// The resized image could not be encoded.
    Encode,
}

/// A resized image and how it was made.
#[derive(Debug)]
pub struct Resized {
    /// The encoded derivative.
    pub bytes: Vec<u8>,
    /// The format the derivative was encoded in.
    pub format: ImageFormat,
    /// The filter that resampled it.
    pub filter: FilterKind,
    /// Size of the decoded source.
    pub source_width: u32,
    pub source_height: u32,
    /// Size of the resampled image that was encoded.
    pub width: u32,
    pub height: u32,
}

/// The derivative, from what the encoder returned: its bytes on success,
/// `Encode` on failure.
pub fn finish_encoded(
    encoded: Result<Vec<u8>, ImageError>,
    format: ImageFormat,
    filter: FilterKind,
    source_width: u32,
    source_height: u32,
    width: u32,
    height: u32,
) -> (r: Result<Resized, PipelineError>)
    ensures
        encoded is Err ==> r == Err::<Resized, PipelineError>(PipelineError::Encode),
        encoded matches Ok(b) ==> r matches Ok(out) && out.bytes@ == b@ && out.format == format
            && out.filter == filter && out.source_width == source_width && out.source_height
            == source_height && out.width == width && out.height == height,
{
    match encoded {
        Err(_) => Err(PipelineError::Encode),
        Ok(bytes) => Ok(Resized { bytes, format, filter, source_width, source_height, width, height }),
    }
}

/// Resizes a decoded source to exactly `width` by `height` and encodes it in
/// `format`, from what the decoder returned: a failed decode gives `Decode`,
/// and nothing is resampled or encoded.
pub fn resize_decoded(
    decoded: Result<DynamicImage, ImageError>,
    format: ImageFormat,
    width: u16,
    height: u16,
) -> (r: Result<Resized, PipelineError>)
    ensures
        decoded is Err ==> r == Err::<Resized, PipelineError>(PipelineError::Decode),
        decoded is Ok ==> (r is Ok || r == Err::<Resized, PipelineError>(PipelineError::Encode)),
        r matches Ok(out) ==> {
            &&& out.format == format
            &&& sniffed_format(out.bytes@) == Some(format)
            &&& out.width == width as u32
            &&& out.height == height as u32
            &&& out.filter == filter_for(
                out.source_width as int * out.source_height as int,
                width as int * height as int,
            )
        },
{
    let source = match decoded {
        Err(_) => {
            return Err(PipelineError::Decode);
        },
        Ok(img) => img,
    };
    let source_width = source.width();
    let source_height = source.height();
    let filter = filter_for_sizes(source_width, source_height, width as u32, height as u32);
    let (resized, w, h) = resample(&source, width as u32, height as u32, filter);
    let encoded = encode(&resized, format);
    finish_encoded(encoded, format, filter, source_width, source_height, w, h)
}

/// Resizes the image in `bytes` to exactly `width` by `height` pixels and
/// encodes the result in the format detected from the input's signature.
///
/// Bytes with no known signature fail with `UnknownFormat`, before any
/// decoding; bytes that do not decode fail with `Decode`. The filter is
/// `Downscale` exactly when the target area is below the source area.
pub fn resize(bytes: &[u8], width: u16, height: u16) -> (r: Result<Resized, PipelineError>)
    ensures
        sniffed_format(bytes@) is None <==> r == Err::<Resized, PipelineError>(
            PipelineError::UnknownFormat,
        ),
        r matches Ok(out) ==> {
            &&& sniffed_format(bytes@) == Some(out.format)
            &&& sniffed_format(out.bytes@) == Some(out.format)
            &&& out.width == width as u32
            &&& out.height == height as u32
            &&& out.filter == filter_for(
                out.source_width as int * out.source_height as int,
                width as int * height as int,
            )
        },
{
    let format = match guess_format(bytes) {
        None => {
            return Err(PipelineError::UnknownFormat);
        },
        Some(f) => f,
    };
    resize_decoded(decode(bytes), format, width, height)
}

} // verus!
