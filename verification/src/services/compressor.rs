//! The compression service: from an image to the same image in the same
//! format, smaller.

use vstd::prelude::*;
use vstd::string::*;
use crate::naming::{extension_of, file_extension};
use crate::params::{MAX_QUALITY, MIN_QUALITY};
use crate::services::raster::{decode_samples, decoded_samples};
use crate::text::{joined, same_text};

verus! {

/// The compression quality that a PNG is written with, whatever was asked for.
pub const PNG_QUALITY: usize = 60;

/// The number of colours that a PNG is reduced to where it is reduced.
pub const PALETTE_COLORS: usize = 256;

/// A PNG is reduced to a palette of `PALETTE_COLORS` colours, with dithering,
/// where the quality asked for is below this.
pub const QUANTIZE_BELOW: i32 = 80;

/// A PNG is written as an indexed image where the quality asked for is below
/// this.
pub const PALETTE_BELOW: i32 = 90;

/// How the JPEG encoder is to write an image: from these samples, which are
/// rows of red, green and blue, at this quality.
pub struct JpegEncoding {
    pub width: u32,
    pub height: u32,
    pub pixels: Vec<u8>,
    pub quality: i32,
    pub progressive: bool,
    pub optimize_scans: bool,
}

/// Whether samples fill an image of a width and a height: the image has
/// pixels, and there are three samples for each of them.
pub open spec fn samples_fill(samples: Seq<u8>, width: int, height: int) -> bool {
    width > 0 && height > 0 && samples.len() == 3 * (width * height)
}

impl JpegEncoding {
    /// Whether the encoder can be given this: the samples fill the image, and
    /// the quality is one.
    pub open spec fn is_well_formed(&self) -> bool {
        &&& samples_fill(self.pixels@, self.width as int, self.height as int)
        &&& MIN_QUALITY <= self.quality <= MAX_QUALITY
    }
}

/// How the still-image backend is to write a PNG.
#[derive(Clone, Copy, Debug, PartialEq, Eq, Structural)]
pub struct PngTuning {
    /// The compression quality, which replaces the one asked for.
    pub quality: usize,
    /// Whether the image data is compressed with Zip.
    pub zip: bool,
    /// The number of colours to reduce the image to, with Floyd-Steinberg
    /// dithering; `None` where it is not reduced.
    pub quantize_colors: Option<usize>,
    pub filter: u8,
    pub level: u8,
    pub strategy: u8,
    /// Whether the image is written as an indexed image.
    pub palette: bool,
}

/// How the still-image backend is to write a WebP.
#[derive(Clone, Copy, Debug, PartialEq, Eq, Structural)]
pub struct WebPTuning {
    pub lossless: bool,
    /// The effort that the encoder spends, 6 being the most.
    pub method: u8,
}

/// What the still-image backend sets besides the quality, by format.
#[derive(Clone, Copy, Debug, PartialEq, Eq, Structural)]
pub enum Tuning {
    Png(PngTuning),
    WebP(WebPTuning),
    Plain,
}

/// What the still-image backend is to do with an image that it has read: set
/// the quality, apply the tuning, strip the metadata, and write the image.
#[derive(Clone, Copy, Debug, PartialEq, Eq, Structural)]
pub struct StillImageCompression {
    pub quality: usize,
    pub tuning: Tuning,
    pub strip_metadata: bool,
}

/// What is left to do for a compression that has not failed.
pub enum Compression {
    Jpeg(JpegEncoding),
    StillImage(StillImageCompression),
}

/// The step at which a backend gave up on a compression.
#[derive(Clone, Copy, Debug, PartialEq, Eq, Structural)]
pub enum CompressStage {
    /// The JPEG encoder, while encoding.
    JpegEncode,
    /// The JPEG route, while storing what was encoded.
    JpegSave,
    /// The still-image backend, while reading.
    Read,
    /// The still-image backend, while writing.
    Save,
}

/// Why a compression produced nothing.
#[derive(Debug)]
pub enum CompressError {
    /// The JPEG could not be decoded, or what was decoded is no image that
    /// the encoder can be given.
    JpegOpenFailed { detail: String },
    /// The JPEG encoder failed.
    JpegEncodeFailed { detail: String },
    /// The JPEG was encoded and could not be stored.
    JpegSaveFailed { detail: String },
    /// The still-image backend could not read the input.
    ReadFailed { detail: String },
    /// The still-image backend could not write the output.
    SaveFailed { detail: String },
}

impl CompressError {
    /// The error as a sentence: what failed, and what the backend said of it.
    /// A failure of the JPEG encoder is given in the encoder's words alone.
    pub open spec fn message_text(self) -> Seq<char> {
        match self {
            CompressError::JpegOpenFailed { detail } => "JPEG 画像読み込みエラー: "@ + detail@,
            CompressError::JpegEncodeFailed { detail } => detail@,
            CompressError::JpegSaveFailed { detail } => "JPEG保存エラー: "@ + detail@,
            CompressError::ReadFailed { detail } => "ImageMagick 画像読み込み失敗: "@ + detail@,
            CompressError::SaveFailed { detail } => "Failed to save compressed image: "@ + detail@,
        }
    }

    /// Writes the error out as a sentence.
    pub fn message(&self) -> (r: String)
        ensures
            r@ == self.message_text(),
    {
        match self {
            CompressError::JpegOpenFailed { detail } => joined(
                "JPEG 画像読み込みエラー: ",
                detail.as_str(),
            ),
            CompressError::JpegEncodeFailed { detail } => detail.clone(),
            CompressError::JpegSaveFailed { detail } => joined("JPEG保存エラー: ", detail.as_str()),
            CompressError::ReadFailed { detail } => joined(
                "ImageMagick 画像読み込み失敗: ",
                detail.as_str(),
            ),
            CompressError::SaveFailed { detail } => joined(
                "Failed to save compressed image: ",
                detail.as_str(),
            ),
        }
    }
}

/// Whether a file with this extension goes to the JPEG encoder.
pub open spec fn is_jpeg_extension(extension: Seq<char>) -> bool {
    extension == "jpg"@ || extension == "jpeg"@
}

/// How a PNG is written at a quality. The quality decides no more than
/// whether the colours are reduced and whether the image is indexed.
pub open spec fn png_tuning_of(quality: int) -> PngTuning {
    PngTuning {
        quality: PNG_QUALITY,
        zip: true,
        quantize_colors: if quality < QUANTIZE_BELOW {
            Some(PALETTE_COLORS)
        } else {
            None
        },
        filter: 5,
        level: 9,
        strategy: 2,
        palette: quality < PALETTE_BELOW,
    }
}

/// How a WebP is written: lossy, with the most effort.
pub open spec fn webp_tuning() -> WebPTuning {
    WebPTuning { lossless: false, method: 6 }
}

/// The tuning for a file, by its extension in lower case.
pub open spec fn tuning_of(extension: Seq<char>, quality: int) -> Tuning {
    if extension == "png"@ {
        Tuning::Png(png_tuning_of(quality))
    } else if extension == "webp"@ {
        Tuning::WebP(webp_tuning())
    } else {
        Tuning::Plain
    }
}

/// What the still-image backend is to do for a file with this extension at
/// this quality. The metadata is always stripped.
pub open spec fn still_image_compression_of(
    extension: Seq<char>,
    quality: int,
) -> StillImageCompression {
    StillImageCompression {
        quality: quality as usize,
        tuning: tuning_of(extension, quality),
        strip_metadata: true,
    }
}

/// Decides whether a file with this extension goes to the JPEG encoder.
pub fn has_jpeg_extension(extension: &str) -> (r: bool)
    ensures
        r == is_jpeg_extension(extension@),
{
    same_text(extension, "jpg") || same_text(extension, "jpeg")
}

/// How a PNG is written at a quality.
pub fn png_tuning(quality: i32) -> (r: PngTuning)
    ensures
        r == png_tuning_of(quality as int),
{
    PngTuning {
        quality: PNG_QUALITY,
        zip: true,
        quantize_colors: if quality < QUANTIZE_BELOW {
            Some(PALETTE_COLORS)
        } else {
            None
        },
        filter: 5,
        level: 9,
        strategy: 2,
        palette: quality < PALETTE_BELOW,
    }
}

/// What the still-image backend is to do for a file with this extension at
/// this quality.
pub fn still_image_compression(extension: &str, quality: i32) -> (r: StillImageCompression)
    requires
        MIN_QUALITY <= quality <= MAX_QUALITY,
    ensures
        r == still_image_compression_of(extension@, quality as int),
{
    let tuning = if same_text(extension, "png") {
        Tuning::Png(png_tuning(quality))
    } else if same_text(extension, "webp") {
        Tuning::WebP(WebPTuning { lossless: false, method: 6 })
    } else {
        Tuning::Plain
    };
    StillImageCompression { quality: quality as usize, tuning, strip_metadata: true }
}

/// The words for a backend that gave up at a stage, with what it said.
pub open spec fn compress_failure_text(stage: CompressStage, detail: Seq<char>) -> Seq<char> {
    match stage {
        CompressStage::JpegEncode => detail,
        CompressStage::JpegSave => "JPEG保存エラー: "@ + detail,
        CompressStage::Read => "ImageMagick 画像読み込み失敗: "@ + detail,
        CompressStage::Save => "Failed to save compressed image: "@ + detail,
    }
}

/// The error for a backend that gave up at a stage, with what it said.
pub fn compress_failure(stage: CompressStage, detail: String) -> (r: CompressError)
    ensures
        match stage {
            CompressStage::JpegEncode => r matches CompressError::JpegEncodeFailed { detail: d }
                && d == detail,
            CompressStage::JpegSave => r matches CompressError::JpegSaveFailed { detail: d } && d
                == detail,
            CompressStage::Read => r matches CompressError::ReadFailed { detail: d } && d == detail,
            CompressStage::Save => r matches CompressError::SaveFailed { detail: d } && d == detail,
        },
        r.message_text() == compress_failure_text(stage, detail@),
{
    match stage {
        CompressStage::JpegEncode => CompressError::JpegEncodeFailed { detail },
        CompressStage::JpegSave => CompressError::JpegSaveFailed { detail },
        CompressStage::Read => CompressError::ReadFailed { detail },
        CompressStage::Save => CompressError::SaveFailed { detail },
    }
}

/// Checks that samples fill an image of a width and a height.
pub fn fills(samples: &[u8], width: u32, height: u32) -> (r: bool)
    ensures
        r == samples_fill(samples@, width as int, height as int),
{
    if width == 0 || height == 0 {
        return false;
    }
    assert(width * height <= 0xffff_ffff * 0xffff_ffff) by (nonlinear_arith)
        requires
            0 < width <= 0xffff_ffff,
            0 < height <= 0xffff_ffff,
    ;
    let pixels: u64 = width as u64 * height as u64;
    let count: usize = samples.len();
    count % 3 == 0 && (count / 3) as u64 == pixels
}

/// What is said of a decoder that hands back samples that do not fill the
/// image.
pub open spec fn unfilled_image_text() -> Seq<char> {
    "the decoded samples do not fill the image"@
}

/// What decoding a JPEG for the JPEG encoder fails with, where it fails: the
/// words of the decoder, or those for samples that do not fill the image.
/// `None` where the JPEG is decoded to samples that the encoder can be given.
pub open spec fn jpeg_open_failure_of(input: Seq<char>, data: Seq<u8>) -> Option<Seq<char>> {
    match decoded_samples(input, data) {
        Err(text) => Some(text),
        Ok(s) => if samples_fill(s.pixels, s.width as int, s.height as int) {
            None
        } else {
            Some(unfilled_image_text())
        },
    }
}

/// Prepares the compression of an image, given as the name and the bytes of a
/// file, at a quality. The format is never changed.
///
/// A JPEG is decoded here to its red, green and blue samples, and what the
/// JPEG encoder is to do with them is handed back: encode at the quality,
/// progressively, with optimized scans. What is handed to the encoder is
/// checked first: samples that do not fill the image count as a JPEG that
/// could not be decoded. Every other image is for the still-image backend,
/// and what that is to do is handed back; nothing is decoded here, so nothing
/// can fail.
pub fn compress_image(input: &str, data: &[u8], quality: i32) -> (r: Result<
    Compression,
    CompressError,
>)
    requires
        MIN_QUALITY <= quality <= MAX_QUALITY,
    ensures
        is_jpeg_extension(extension_of(input@)) ==> match decoded_samples(input@, data@) {
            Err(text) => r matches Err(CompressError::JpegOpenFailed { detail }) && detail@ == text,
            Ok(s) => if samples_fill(s.pixels, s.width as int, s.height as int) {
                &&& r matches Ok(Compression::Jpeg(job))
                &&& job.width == s.width
                &&& job.height == s.height
                &&& job.pixels@ == s.pixels
                &&& job.quality == quality
                &&& job.progressive
                &&& job.optimize_scans
                &&& job.is_well_formed()
            } else {
                r matches Err(CompressError::JpegOpenFailed { detail }) && detail@
                    == unfilled_image_text()
            },
        },
        !is_jpeg_extension(extension_of(input@)) ==> (r matches Ok(Compression::StillImage(c))
            && c == still_image_compression_of(extension_of(input@), quality as int)),
{
    let extension = file_extension(input);
    if !has_jpeg_extension(extension.as_str()) {
        return Ok(Compression::StillImage(still_image_compression(extension.as_str(), quality)));
    }
    let samples = match decode_samples(input, data) {
        Ok(samples) => samples,
        Err(text) => {
            return Err(CompressError::JpegOpenFailed { detail: text });
        },
    };
    if !fills(samples.pixels.as_slice(), samples.width, samples.height) {
        return Err(
            CompressError::JpegOpenFailed {
                detail: "the decoded samples do not fill the image".to_owned(),
            },
        );
    }
    Ok(
        Compression::Jpeg(
            JpegEncoding {
                width: samples.width,
                height: samples.height,
                pixels: samples.pixels,
                quality,
                progressive: true,
                optimize_scans: true,
            },
        ),
    )
}

} // verus!
