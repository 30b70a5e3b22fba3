//! The conversion service: from an image of one format to the same image in
//! another.

use vstd::prelude::*;
use vstd::string::*;
use crate::formats::{target_format_of, TargetFormat};
use crate::naming::{extension_of, file_extension};
use crate::services::raster::{
    decode_picture,
    decoded_picture,
    encode,
    encoded_picture,
    picture_from,
    picture_of,
    RasterFormat,
};
use crate::text::{joined, same_text};

verus! {

/// The compression quality that the still-image backend is given when it
/// writes a lossy format.
pub const STILL_IMAGE_QUALITY: usize = 90;

/// What the still-image backend is to do with an image that it has read: set
/// the format, set the quality where there is one, and write the image.
#[derive(Clone, Copy, Debug, PartialEq, Eq, Structural)]
pub struct StillImageConversion {
    pub format: TargetFormat,
    pub quality: Option<usize>,
}

/// The step at which the still-image backend gave up.
#[derive(Clone, Copy, Debug, PartialEq, Eq, Structural)]
pub enum StillImageStage {
    Read,
    SetFormat,
    Write,
}

/// Why a conversion produced nothing.
#[derive(Debug)]
pub enum ConvertError {
    /// The raster codec writes no such format.
    UnsupportedFormat { format: String },
    /// The raster codec could not decode the input.
    OpenFailed { detail: String },
    /// The raster codec could not encode the output.
    SaveFailed { detail: String },
    /// The still-image backend writes no such format.
    StillImageUnsupportedFormat { format: String },
    /// The still-image backend could not read the input.
    StillImageReadFailed { detail: String },
    /// The still-image backend refused the format.
    StillImageFormatRejected { detail: String },
    /// The still-image backend could not write the output.
    StillImageSaveFailed { detail: String },
}

/// What became of a conversion that did not fail.
pub enum Conversion {
    /// The raster codec has written the image: these are its bytes.
    Encoded(Vec<u8>),
    /// The image is for the still-image backend, which is to do this.
    StillImage(StillImageConversion),
}

impl ConvertError {
    /// The error as a sentence: what failed, and what the backend said of it.
    pub open spec fn message_text(self) -> Seq<char> {
        match self {
            ConvertError::UnsupportedFormat { format } => "Unsupported output format: "@ + format@,
            ConvertError::OpenFailed { detail } => "Failed to open image: "@ + detail@,
            ConvertError::SaveFailed { detail } => "Failed to save converted image: "@ + detail@,
            ConvertError::StillImageUnsupportedFormat { format } =>
                "ImageMagickでサポートされていないフォーマット: "@ + format@,
            ConvertError::StillImageReadFailed { detail } =>
                "Failed to read image with ImageMagick: "@ + detail@,
            ConvertError::StillImageFormatRejected { detail } => "Failed to set image format: "@
                + detail@,
            ConvertError::StillImageSaveFailed { detail } =>
                "Failed to save image with ImageMagick: "@ + detail@,
        }
    }

    /// Writes the error out as a sentence.
    pub fn message(&self) -> (r: String)
        ensures
            r@ == self.message_text(),
    {
        match self {
            ConvertError::UnsupportedFormat { format } => joined(
                "Unsupported output format: ",
                format.as_str(),
            ),
            ConvertError::OpenFailed { detail } => joined("Failed to open image: ", detail.as_str()),
            ConvertError::SaveFailed { detail } => joined(
                "Failed to save converted image: ",
                detail.as_str(),
            ),
            ConvertError::StillImageUnsupportedFormat { format } => joined(
                "ImageMagickでサポートされていないフォーマット: ",
                format.as_str(),
            ),
            ConvertError::StillImageReadFailed { detail } => joined(
                "Failed to read image with ImageMagick: ",
                detail.as_str(),
            ),
            ConvertError::StillImageFormatRejected { detail } => joined(
                "Failed to set image format: ",
                detail.as_str(),
            ),
            ConvertError::StillImageSaveFailed { detail } => joined(
                "Failed to save image with ImageMagick: ",
                detail.as_str(),
            ),
        }
    }
}

/// Whether an image goes to the still-image backend: it does when it comes as
/// HEIC or AVIF, and when it is to become AVIF.
pub open spec fn needs_still_image(extension: Seq<char>, format: Seq<char>) -> bool {
    extension == "heic"@ || extension == "avif"@ || format == "avif"@
}

/// The format that the raster codec writes under a name, if it writes one.
pub open spec fn raster_format_of(format: Seq<char>) -> Option<RasterFormat> {
    match target_format_of(format) {
        Some(f) => f.raster_format_of(),
        None => None,
    }
}

/// The format that the still-image backend writes under a name, if it writes
/// one: it writes every target format.
pub open spec fn still_image_format_of(format: Seq<char>) -> Option<TargetFormat> {
    target_format_of(format)
}

/// What the still-image backend is to do for a format: the lossy formats are
/// written at a fixed high quality, the others as they come.
pub open spec fn still_image_conversion_of(format: TargetFormat) -> StillImageConversion {
    StillImageConversion {
        format,
        quality: if format.is_lossy() {
            Some(STILL_IMAGE_QUALITY)
        } else {
            None
        },
    }
}

/// Whether a format can be written on the route that an image with this
/// extension takes.
pub open spec fn is_supported(extension: Seq<char>, format: Seq<char>) -> bool {
    if needs_still_image(extension, format) {
        still_image_format_of(format) is Some
    } else {
        raster_format_of(format) is Some
    }
}

/// The message for a format that cannot be written, on the route that an
/// image with this extension takes.
pub open spec fn unsupported_format_text(extension: Seq<char>, format: Seq<char>) -> Seq<char> {
    if needs_still_image(extension, format) {
        "ImageMagickでサポートされていないフォーマット: "@ + format
    } else {
        "Unsupported output format: "@ + format
    }
}

/// The format that the raster codec writes under a name.
pub fn raster_format(format: &str) -> (r: Option<RasterFormat>)
    ensures
        r == raster_format_of(format@),
{
    match TargetFormat::from_name(format) {
        Some(f) => f.raster_format(),
        None => None,
    }
}

/// The format that the still-image backend writes under a name.
pub fn still_image_format(format: &str) -> (r: Option<TargetFormat>)
    ensures
        r == still_image_format_of(format@),
{
    TargetFormat::from_name(format)
}

/// Decides whether an image with this extension, to be written in this
/// format, is for the still-image backend.
pub fn uses_still_image(extension: &str, format: &str) -> (r: bool)
    ensures
        r == needs_still_image(extension@, format@),
{
    same_text(extension, "heic") || same_text(extension, "avif") || same_text(format, "avif")
}

/// What the still-image backend is to do to write an image in a format, or
/// the error for a format that it does not write. The format is looked at
/// before anything is read.
pub fn convert_with_imagemagick(format: &str) -> (r: Result<StillImageConversion, ConvertError>)
    ensures
        match still_image_format_of(format@) {
            Some(f) => r matches Ok(c) && c == still_image_conversion_of(f),
            None => r matches Err(ConvertError::StillImageUnsupportedFormat { format: f }) && f@
                == format@,
        },
{
    match still_image_format(format) {
        Some(f) => {
            let quality = if f.lossy() {
                Some(STILL_IMAGE_QUALITY)
            } else {
                None
            };
            Ok(StillImageConversion { format: f, quality })
        },
        None => Err(ConvertError::StillImageUnsupportedFormat { format: format.to_owned() }),
    }
}

/// The words for a still-image backend that gave up at a stage, with what it
/// said.
pub open spec fn still_image_failure_text(stage: StillImageStage, detail: Seq<char>) -> Seq<char> {
    match stage {
        StillImageStage::Read => "Failed to read image with ImageMagick: "@ + detail,
        StillImageStage::SetFormat => "Failed to set image format: "@ + detail,
        StillImageStage::Write => "Failed to save image with ImageMagick: "@ + detail,
    }
}

/// The error for a still-image backend that gave up at a stage, with what it
/// said.
pub fn still_image_failure(stage: StillImageStage, detail: String) -> (r: ConvertError)
    ensures
        match stage {
            StillImageStage::Read => r matches ConvertError::StillImageReadFailed { detail: d }
                && d == detail,
            StillImageStage::SetFormat => r matches ConvertError::StillImageFormatRejected {
                detail: d,
            } && d == detail,
            StillImageStage::Write => r matches ConvertError::StillImageSaveFailed { detail: d }
                && d == detail,
        },
        r.message_text() == still_image_failure_text(stage, detail@),
{
    match stage {
        StillImageStage::Read => ConvertError::StillImageReadFailed { detail },
        StillImageStage::SetFormat => ConvertError::StillImageFormatRejected { detail },
        StillImageStage::Write => ConvertError::StillImageSaveFailed { detail },
    }
}

/// What is said of a picture whose samples are of a kind that is not held.
pub open spec fn unheld_picture_text() -> Seq<char> {
    "the picture has samples of a kind that is not handled"@
}

/// What a conversion on the raster route comes to: the bytes of the picture
/// in the format, or the error. The input is decoded by the extension of its
/// name; a picture that cannot be held counts as one that could not be
/// opened; what was decoded is encoded in the format.
pub open spec fn raster_conversion_of(
    input: Seq<char>,
    data: Seq<u8>,
    target: RasterFormat,
) -> Result<Seq<u8>, Seq<char>> {
    match decoded_picture(input, data) {
        Err(text) => Err("Failed to open image: "@ + text),
        Ok(decoded) => match picture_of(decoded) {
            None => Err("Failed to open image: "@ + unheld_picture_text()),
            Some(picture) => match encoded_picture(picture, target) {
                Ok(bytes) => Ok(bytes),
                Err(text) => Err("Failed to save converted image: "@ + text),
            },
        },
    }
}

/// What a conversion that is done here comes to: the bytes, or the message of
/// the error. A format that cannot be written is refused first, on either
/// route; what is left is the raster route. (A file that is for the
/// still-image backend, in a format that the backend writes, is not converted
/// here.)
pub open spec fn conversion_of(input: Seq<char>, data: Seq<u8>, format: Seq<char>) -> Result<
    Seq<u8>,
    Seq<char>,
> {
    let extension = extension_of(input);
    if !is_supported(extension, format) || needs_still_image(extension, format) {
        Err(unsupported_format_text(extension, format))
    } else {
        raster_conversion_of(input, data, raster_format_of(format)->0)
    }
}

/// Whether a file is converted here, and not handed to the still-image
/// backend: it is unless it is for that backend and the backend writes the
/// format.
pub open spec fn is_converted_here(extension: Seq<char>, format: Seq<char>) -> bool {
    !(needs_still_image(extension, format) && is_supported(extension, format))
}

/// Converts an image, given as the name and the bytes of a file, to a format.
///
/// The route is chosen by the extension of the name and by the format. On the
/// raster route the image is decoded and encoded here, and the bytes are
/// handed back. On the still-image route nothing is decoded here: what the
/// backend is to do is handed back. On either route a format that cannot be
/// written is refused before anything is decoded.
pub fn convert_image(input: &str, data: &[u8], format: &str) -> (r: Result<Conversion, ConvertError>)
    ensures
        needs_still_image(extension_of(input@), format@) ==> match still_image_format_of(
            format@,
        ) {
            Some(f) => r matches Ok(Conversion::StillImage(c)) && c == still_image_conversion_of(f),
            None => r matches Err(ConvertError::StillImageUnsupportedFormat { format: f }) && f@
                == format@,
        },
        !needs_still_image(extension_of(input@), format@) ==> match raster_format_of(format@) {
            None => r matches Err(ConvertError::UnsupportedFormat { format: f }) && f@ == format@,
            Some(target) => match decoded_picture(input@, data@) {
                Err(text) => r matches Err(ConvertError::OpenFailed { detail }) && detail@ == text,
                Ok(decoded) => match picture_of(decoded) {
                    None => r matches Err(ConvertError::OpenFailed { detail }) && detail@
                        == unheld_picture_text(),
                    Some(picture) => match encoded_picture(picture, target) {
                        Ok(bytes) => r matches Ok(Conversion::Encoded(b)) && b@ == bytes,
                        Err(text) => r matches Err(ConvertError::SaveFailed { detail }) && detail@
                            == text,
                    },
                },
            },
        },
        is_converted_here(extension_of(input@), format@) ==> match conversion_of(
            input@,
            data@,
            format@,
        ) {
            Ok(bytes) => r matches Ok(Conversion::Encoded(b)) && b@ == bytes,
            Err(message) => r matches Err(e) && e.message_text() == message,
        },
{
    let extension = file_extension(input);
    if uses_still_image(extension.as_str(), format) {
        return match convert_with_imagemagick(format) {
            Ok(conversion) => Ok(Conversion::StillImage(conversion)),
            Err(e) => Err(e),
        };
    }
    let target = match raster_format(format) {
        Some(target) => target,
        None => {
            return Err(ConvertError::UnsupportedFormat { format: format.to_owned() });
        },
    };
    let decoded = match decode_picture(input, data) {
        Ok(decoded) => decoded,
        Err(text) => {
            return Err(ConvertError::OpenFailed { detail: text });
        },
    };
    let picture = match picture_from(decoded) {
        Some(picture) => picture,
        None => {
            return Err(
                ConvertError::OpenFailed {
                    detail: "the picture has samples of a kind that is not handled".to_owned(),
                },
            );
        },
    };
    match encode(picture, target) {
        Ok(bytes) => Ok(Conversion::Encoded(bytes)),
        Err(text) => Err(ConvertError::SaveFailed { detail: text }),
    }
}

} // verus!
