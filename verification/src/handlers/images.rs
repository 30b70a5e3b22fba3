//! The entries of a response, and the work on one uploaded file that yields
//! an entry.

use vstd::prelude::*;
use vstd::string::*;
use crate::naming::{
    compressed_name,
    compressed_name_of,
    converted_name,
    converted_name_of,
    error_name,
    error_name_of,
    extension_of,
    file_extension,
    fresh_token,
    is_token,
};
use crate::params::{MAX_QUALITY, MIN_QUALITY};
use crate::payload::{
    data_url,
    data_url_of,
    error_marker,
    error_marker_of,
    media_type_for_extension,
    media_type_for_format,
    media_type_of_extension,
    media_type_of_format,
};
use crate::services::compressor;
use crate::services::compressor::{
    compress_failure,
    compress_failure_text,
    is_jpeg_extension,
    jpeg_open_failure_of,
    samples_fill,
    still_image_compression_of,
    CompressError,
    CompressStage,
    Compression,
};
use crate::services::converter;
use crate::services::converter::{
    conversion_of,
    is_converted_here,
    needs_still_image,
    still_image_conversion_of,
    still_image_failure,
    still_image_failure_text,
    still_image_format_of,
    Conversion,
    ConvertError,
    StillImageConversion,
    StillImageStage,
};
use crate::services::raster::decoded_samples;

verus! {

/// A file as it was uploaded: the name that the sender gave it, and its bytes.
pub struct UploadItem {
    pub original_name: String,
    pub raw_bytes: Vec<u8>,
}

/// The entry of a conversion's response for one uploaded file.
pub struct ConvertedFile {
    pub original_name: String,
    pub name: String,
    pub url: String,
    pub size: usize,
}

/// The response of a conversion: one entry for each uploaded file, in the
/// order in which the files came.
pub struct ConversionResponse {
    pub files: Vec<ConvertedFile>,
}

/// How large a compressed file is beside the file it was made from, as a
/// fraction. The denominator is never 0.
#[derive(Clone, Copy, Debug, PartialEq, Eq, Structural)]
pub struct CompressionRatio {
    pub numerator: usize,
    pub denominator: usize,
}

/// The entry of a compression's response for one uploaded file.
pub struct CompressedFile {
    pub original_name: String,
    pub name: String,
    pub url: String,
    pub original_size: usize,
    pub compressed_size: usize,
    pub compression_ratio: CompressionRatio,
}

/// The response of a compression: one entry for each uploaded file, in the
/// order in which the files came.
pub struct CompressionResponse {
    pub files: Vec<CompressedFile>,
}

/// An uploaded file, as the contracts speak of it.
pub struct UploadItemView {
    pub original_name: Seq<char>,
    pub raw_bytes: Seq<u8>,
}

/// An entry of a conversion, as the contracts speak of it.
pub struct ConvertedFileView {
    pub original_name: Seq<char>,
    pub name: Seq<char>,
    pub url: Seq<char>,
    pub size: nat,
}

/// An entry of a compression, as the contracts speak of it.
pub struct CompressedFileView {
    pub original_name: Seq<char>,
    pub name: Seq<char>,
    pub url: Seq<char>,
    pub original_size: nat,
    pub compressed_size: nat,
    pub compression_ratio: CompressionRatio,
}

impl View for UploadItem {
    type V = UploadItemView;

    open spec fn view(&self) -> UploadItemView {
        UploadItemView { original_name: self.original_name@, raw_bytes: self.raw_bytes@ }
    }
}

impl View for ConvertedFile {
    type V = ConvertedFileView;

    open spec fn view(&self) -> ConvertedFileView {
        ConvertedFileView {
            original_name: self.original_name@,
            name: self.name@,
            url: self.url@,
            size: self.size as nat,
        }
    }
}

impl View for CompressedFile {
    type V = CompressedFileView;

    open spec fn view(&self) -> CompressedFileView {
        CompressedFileView {
            original_name: self.original_name@,
            name: self.name@,
            url: self.url@,
            original_size: self.original_size as nat,
            compressed_size: self.compressed_size as nat,
            compression_ratio: self.compression_ratio,
        }
    }
}

impl View for ConversionResponse {
    type V = Seq<ConvertedFileView>;

    open spec fn view(&self) -> Seq<ConvertedFileView> {
        Seq::new(self.files@.len(), |i: int| self.files@[i]@)
    }
}

impl View for CompressionResponse {
    type V = Seq<CompressedFileView>;

    open spec fn view(&self) -> Seq<CompressedFileView> {
        Seq::new(self.files@.len(), |i: int| self.files@[i]@)
    }
}

/// The fraction for a failure and for a file that was empty to begin with.
pub open spec fn unit_ratio() -> CompressionRatio {
    CompressionRatio { numerator: 1, denominator: 1 }
}

/// The compressed size over the original size; `unit_ratio` where the
/// original size is 0.
pub open spec fn ratio_of(compressed_size: nat, original_size: nat) -> CompressionRatio {
    if original_size > 0 {
        CompressionRatio {
            numerator: compressed_size as usize,
            denominator: original_size as usize,
        }
    } else {
        unit_ratio()
    }
}

/// The entry for a file that was converted to these bytes, under this name.
pub open spec fn converted_view(
    original_name: Seq<char>,
    name: Seq<char>,
    format: Seq<char>,
    bytes: Seq<u8>,
) -> ConvertedFileView {
    ConvertedFileView {
        original_name,
        name,
        url: data_url_of(media_type_of_format(format), bytes),
        size: bytes.len(),
    }
}

/// The entry for a file whose conversion failed with this message.
pub open spec fn failed_conversion_view(
    original_name: Seq<char>,
    token: Seq<char>,
    message: Seq<char>,
) -> ConvertedFileView {
    ConvertedFileView {
        original_name,
        name: error_name_of(token),
        url: error_marker_of(message),
        size: 0,
    }
}

/// The entry for a file that was compressed to these bytes, under this name.
pub open spec fn compressed_view(
    original_name: Seq<char>,
    name: Seq<char>,
    extension: Seq<char>,
    original_size: nat,
    bytes: Seq<u8>,
) -> CompressedFileView {
    CompressedFileView {
        original_name,
        name,
        url: data_url_of(media_type_of_extension(extension), bytes),
        original_size,
        compressed_size: bytes.len(),
        compression_ratio: ratio_of(bytes.len(), original_size),
    }
}

/// The entry for a file whose compression failed with this message.
pub open spec fn failed_compression_view(
    original_name: Seq<char>,
    token: Seq<char>,
    original_size: nat,
    message: Seq<char>,
) -> CompressedFileView {
    CompressedFileView {
        original_name,
        name: error_name_of(token),
        url: error_marker_of(message),
        original_size,
        compressed_size: 0,
        compression_ratio: unit_ratio(),
    }
}

/// Builds the entry for a file that was converted.
pub fn converted_file(original_name: String, name: String, format: &str, bytes: &[u8]) -> (file:
    ConvertedFile)
    ensures
        file@ == converted_view(original_name@, name@, format@, bytes@),
{
    let url = data_url(media_type_for_format(format), bytes);
    ConvertedFile { original_name, name, url, size: bytes.len() }
}

/// Builds the entry for a file whose conversion failed.
pub fn failed_conversion(original_name: String, token: &str, error: &ConvertError) -> (file:
    ConvertedFile)
    ensures
        file@ == failed_conversion_view(original_name@, token@, error.message_text()),
{
    let message = error.message();
    ConvertedFile {
        original_name,
        name: error_name(token),
        url: error_marker(message.as_str()),
        size: 0,
    }
}

/// Computes the size of a compressed file over the size of the original.
pub fn compression_ratio(compressed_size: usize, original_size: usize) -> (r: CompressionRatio)
    ensures
        r == ratio_of(compressed_size as nat, original_size as nat),
        r.denominator > 0,
{
    if original_size > 0 {
        CompressionRatio { numerator: compressed_size, denominator: original_size }
    } else {
        CompressionRatio { numerator: 1, denominator: 1 }
    }
}

/// Builds the entry for a file that was compressed.
pub fn compressed_file(
    original_name: String,
    name: String,
    extension: &str,
    original_size: usize,
    bytes: &[u8],
) -> (file: CompressedFile)
    ensures
        file@ == compressed_view(
            original_name@,
            name@,
            extension@,
            original_size as nat,
            bytes@,
        ),
{
    let url = data_url(media_type_for_extension(extension), bytes);
    CompressedFile {
        original_name,
        name,
        url,
        original_size,
        compressed_size: bytes.len(),
        compression_ratio: compression_ratio(bytes.len(), original_size),
    }
}

/// Builds the entry for a file whose compression failed.
pub fn failed_compression(
    original_name: String,
    token: &str,
    original_size: usize,
    error: &CompressError,
) -> (file: CompressedFile)
    ensures
        file@ == failed_compression_view(
            original_name@,
            token@,
            original_size as nat,
            error.message_text(),
        ),
{
    let message = error.message();
    CompressedFile {
        original_name,
        name: error_name(token),
        url: error_marker(message.as_str()),
        original_size,
        compressed_size: 0,
        compression_ratio: CompressionRatio { numerator: 1, denominator: 1 },
    }
}

/// What is left to do for a file that the still-image backend is to convert,
/// and the name that the result will carry.
pub struct ConversionTask {
    pub name: String,
    pub conversion: StillImageConversion,
}

/// What the still-image backend said when it gave up, and where.
pub struct StillImageFailure {
    pub stage: StillImageStage,
    pub detail: String,
}

/// How far the conversion of one file has come.
pub enum ConvertStep {
    /// The file has its entry.
    Finished(ConvertedFile),
    /// The file waits for the still-image backend.
    Pending(ConversionTask),
}

/// What is left to do for a file that is to be compressed, and the name that
/// the result will carry.
pub struct CompressionTask {
    pub name: String,
    pub work: Compression,
}

/// What a backend said when it gave up on a compression, and where.
pub struct CompressFailure {
    pub stage: CompressStage,
    pub detail: String,
}

/// How far the compression of one file has come.
pub enum CompressStep {
    /// The file has its entry.
    Finished(CompressedFile),
    /// The file waits for a backend.
    Pending(CompressionTask),
}

/// Whether a name is that of a converted file: some token, with the extension
/// of the format.
pub open spec fn is_converted_name(name: Seq<char>, format: Seq<char>) -> bool {
    exists|token: Seq<char>| is_token(token) && name == #[trigger] converted_name_of(token, format)
}

/// Whether a name is that of a compressed file with this extension.
pub open spec fn is_compressed_name(name: Seq<char>, extension: Seq<char>) -> bool {
    exists|token: Seq<char>|
        is_token(token) && name == #[trigger] compressed_name_of(token, extension)
}

/// Whether an entry is that of a file that was converted: under a fresh name,
/// with some bytes inline.
pub open spec fn is_converted(
    file: ConvertedFileView,
    original_name: Seq<char>,
    format: Seq<char>,
) -> bool {
    exists|name: Seq<char>, bytes: Seq<u8>|
        is_converted_name(name, format) && file == #[trigger] converted_view(
            original_name,
            name,
            format,
            bytes,
        )
}

/// Whether an entry is that of a file whose conversion failed with this
/// message: under a fresh placeholder name, with the message as its marker.
pub open spec fn is_failed_conversion(
    file: ConvertedFileView,
    original_name: Seq<char>,
    message: Seq<char>,
) -> bool {
    exists|token: Seq<char>|
        is_token(token) && file == #[trigger] failed_conversion_view(original_name, token, message)
}

/// Whether an entry is that of a file that was compressed.
pub open spec fn is_compressed(
    file: CompressedFileView,
    original_name: Seq<char>,
    original_size: nat,
) -> bool {
    exists|name: Seq<char>, bytes: Seq<u8>|
        is_compressed_name(name, extension_of(original_name)) && file
            == #[trigger] compressed_view(
            original_name,
            name,
            extension_of(original_name),
            original_size,
            bytes,
        )
}

/// Whether an entry is that of a file whose compression failed with this
/// message.
pub open spec fn is_failed_compression(
    file: CompressedFileView,
    original_name: Seq<char>,
    original_size: nat,
    message: Seq<char>,
) -> bool {
    exists|token: Seq<char>|
        is_token(token) && file == #[trigger] failed_compression_view(
            original_name,
            token,
            original_size,
            message,
        )
}

/// Whether an entry is the one of a file that is converted here: the
/// converted picture inline under a fresh name where the conversion gives
/// bytes, and the marker of its error where it gives none.
pub open spec fn is_finished_conversion(
    file: ConvertedFileView,
    item: UploadItemView,
    format: Seq<char>,
) -> bool {
    &&& is_converted_here(extension_of(item.original_name), format)
    &&& match conversion_of(item.original_name, item.raw_bytes, format) {
        Ok(bytes) => exists|name: Seq<char>|
            is_converted_name(name, format) && file == #[trigger] converted_view(
                item.original_name,
                name,
                format,
                bytes,
            ),
        Err(message) => is_failed_conversion(file, item.original_name, message),
    }
}

/// What `convert_image` may hand back for a file and a format.
pub open spec fn is_convert_step(step: ConvertStep, item: UploadItemView, format: Seq<char>) -> bool {
    let extension = extension_of(item.original_name);
    match step {
        ConvertStep::Pending(task) => {
            &&& needs_still_image(extension, format)
            &&& still_image_format_of(format) matches Some(f)
            &&& task.conversion == still_image_conversion_of(f)
            &&& is_converted_name(task.name@, format)
        },
        ConvertStep::Finished(file) => is_finished_conversion(file@, item, format),
    }
}

/// Converts one uploaded file to a format, as far as that can be done here.
///
/// A file on the raster route is converted, and has its entry: the converted
/// image inline, or the marker of the error. A file on the still-image route
/// is handed back with what the backend is to do; `finish_conversion` makes
/// its entry from what the backend answers. A format that cannot be written
/// gives an entry with the marker of that error on either route. Nothing that
/// goes wrong with one file is an error of this function.
pub fn convert_image(item: &UploadItem, format: &str) -> (step: ConvertStep)
    ensures
        is_convert_step(step, item@, format@),
        step is Finished <==> is_converted_here(extension_of(item.original_name@), format@),
{
    let name = converted_name(fresh_token().as_str(), format);
    let outcome = converter::convert_image(
        item.original_name.as_str(),
        item.raw_bytes.as_slice(),
        format,
    );
    match outcome {
        Ok(Conversion::StillImage(conversion)) => ConvertStep::Pending(
            ConversionTask { name, conversion },
        ),
        Ok(Conversion::Encoded(bytes)) => {
            let file = converted_file(
                item.original_name.clone(),
                name,
                format,
                bytes.as_slice(),
            );
            assert(file@ == converted_view(item@.original_name, name@, format@, bytes@));
            ConvertStep::Finished(file)
        },
        Err(error) => {
            let token = fresh_token();
            let file = failed_conversion(item.original_name.clone(), token.as_str(), &error);
            assert(is_failed_conversion(file@, item@.original_name, error.message_text()));
            ConvertStep::Finished(file)
        },
    }
}

/// Makes the entry of a file that waited for the still-image backend, under
/// the name that was kept for it, from what the backend answered: the bytes
/// that it wrote, or where it gave up.
pub fn finish_conversion(
    item: &UploadItem,
    name: String,
    format: &str,
    outcome: Result<Vec<u8>, StillImageFailure>,
) -> (file: ConvertedFile)
    ensures
        match outcome {
            Ok(bytes) => file@ == converted_view(item.original_name@, name@, format@, bytes@),
            Err(failure) => is_failed_conversion(
                file@,
                item.original_name@,
                still_image_failure_text(failure.stage, failure.detail@),
            ),
        },
{
    match outcome {
        Ok(bytes) => converted_file(item.original_name.clone(), name, format, bytes.as_slice()),
        Err(failure) => {
            let error = still_image_failure(failure.stage, failure.detail);
            let token = fresh_token();
            failed_conversion(item.original_name.clone(), token.as_str(), &error)
        },
    }
}

/// The message for a JPEG that could not be decoded, with what was said of it.
pub open spec fn jpeg_open_failure_text(text: Seq<char>) -> Seq<char> {
    "JPEG 画像読み込みエラー: "@ + text
}

/// Whether an entry is the one of a file that gets its entry before any
/// backend has seen it: a JPEG that could not be decoded, with the marker of
/// that error.
pub open spec fn is_finished_compression(file: CompressedFileView, item: UploadItemView) -> bool {
    &&& is_jpeg_extension(extension_of(item.original_name))
    &&& jpeg_open_failure_of(item.original_name, item.raw_bytes) matches Some(text)
    &&& is_failed_compression(
        file,
        item.original_name,
        item.raw_bytes.len(),
        jpeg_open_failure_text(text),
    )
}

/// What `compress_image` may hand back for a file and a quality.
pub open spec fn is_compress_step(step: CompressStep, item: UploadItemView, quality: int) -> bool {
    let extension = extension_of(item.original_name);
    match step {
        CompressStep::Pending(task) => {
            &&& is_compressed_name(task.name@, extension)
            &&& match task.work {
                Compression::Jpeg(job) => {
                    &&& is_jpeg_extension(extension)
                    &&& decoded_samples(item.original_name, item.raw_bytes) matches Ok(s)
                    &&& samples_fill(s.pixels, s.width as int, s.height as int)
                    &&& job.width == s.width
                    &&& job.height == s.height
                    &&& job.pixels@ == s.pixels
                    &&& job.quality == quality
                    &&& job.progressive
                    &&& job.optimize_scans
                    &&& job.is_well_formed()
                },
                Compression::StillImage(c) => {
                    &&& !is_jpeg_extension(extension)
                    &&& c == still_image_compression_of(extension, quality)
                },
            }
        },
        CompressStep::Finished(file) => is_finished_compression(file@, item),
    }
}

/// Prepares the compression of one uploaded file at a quality.
///
/// No file is compressed here: the encoders are not part of this library. A
/// file is handed back with what its backend is to do, and
/// `finish_compression` makes its entry from what the backend answers. Only a
/// JPEG that cannot be decoded has its entry at once, with the marker of that
/// error.
pub fn compress_image(item: &UploadItem, quality: i32) -> (step: CompressStep)
    requires
        MIN_QUALITY <= quality <= MAX_QUALITY,
    ensures
        is_compress_step(step, item@, quality as int),
        step is Finished <==> is_jpeg_extension(extension_of(item.original_name@))
            && jpeg_open_failure_of(item.original_name@, item.raw_bytes@) is Some,
{
    let extension = file_extension(item.original_name.as_str());
    let name = compressed_name(fresh_token().as_str(), extension.as_str());
    let outcome = compressor::compress_image(
        item.original_name.as_str(),
        item.raw_bytes.as_slice(),
        quality,
    );
    match outcome {
        Ok(work) => CompressStep::Pending(CompressionTask { name, work }),
        Err(error) => {
            let token = fresh_token();
            let file = failed_compression(
                item.original_name.clone(),
                token.as_str(),
                item.raw_bytes.len(),
                &error,
            );
            assert(is_failed_compression(
                file@,
                item@.original_name,
                item@.raw_bytes.len(),
                error.message_text(),
            ));
            CompressStep::Finished(file)
        },
    }
}

/// Makes the entry of a file that waited for a backend, under the name that
/// was kept for it, from what the backend answered: the bytes that it wrote,
/// or where it gave up.
pub fn finish_compression(
    item: &UploadItem,
    name: String,
    outcome: Result<Vec<u8>, CompressFailure>,
) -> (file: CompressedFile)
    ensures
        match outcome {
            Ok(bytes) => file@ == compressed_view(
                item.original_name@,
                name@,
                extension_of(item.original_name@),
                item.raw_bytes@.len(),
                bytes@,
            ),
            Err(failure) => is_failed_compression(
                file@,
                item.original_name@,
                item.raw_bytes@.len(),
                compress_failure_text(failure.stage, failure.detail@),
            ),
        },
{
    match outcome {
        Ok(bytes) => {
            let extension = file_extension(item.original_name.as_str());
            compressed_file(
                item.original_name.clone(),
                name,
                extension.as_str(),
                item.raw_bytes.len(),
                bytes.as_slice(),
            )
        },
        Err(failure) => {
            let error = compress_failure(failure.stage, failure.detail);
            let token = fresh_token();
            failed_compression(
                item.original_name.clone(),
                token.as_str(),
                item.raw_bytes.len(),
                &error,
            )
        },
    }
}

} // verus!
