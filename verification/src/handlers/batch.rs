//! What the two kinds of batch share: how the fields of a request are told
//! apart, and what it is for an entry to be the entry of a file.

use vstd::prelude::*;
use vstd::string::*;
use crate::handlers::images::{
    compressed_view,
    converted_view,
    is_compress_step,
    is_compressed,
    is_compressed_name,
    is_convert_step,
    is_converted,
    is_converted_name,
    is_failed_compression,
    is_failed_conversion,
    is_finished_compression,
    is_finished_conversion,
    jpeg_open_failure_text,
    unit_ratio,
    CompressStep,
    CompressedFile,
    CompressedFileView,
    ConvertStep,
    ConvertedFile,
    ConvertedFileView,
    UploadItem,
    UploadItemView,
};
use crate::formats::target_format_of;
use crate::naming::{converted_name_of, extension_of, is_token};
use crate::params::{quality_of_text, DEFAULT_QUALITY};
use crate::payload::{
    base64_text,
    error_marker_of,
    is_error_marker,
    lemma_data_url_is_not_marked,
    lemma_error_marker_is_marked,
    media_type_of_extension,
    media_type_of_format,
};
use crate::services::compressor::jpeg_open_failure_of;
use crate::services::converter::{conversion_of, is_supported, unsupported_format_text};
use crate::text::same_text;

verus! {

/// What a field of a request is, by its name.
#[derive(Clone, Copy, Debug, PartialEq, Eq, Structural)]
pub enum FieldKind {
    /// The field that sets the control of the batch: its value is a text.
    Control,
    /// A field that holds an uploaded file.
    File,
    /// A field that the endpoint does not know, and passes over.
    Ignored,
}

/// What a field is at an endpoint whose control goes by this name: the
/// control, a file where it is named `files`, and of no interest otherwise.
pub open spec fn field_kind_of(name: Seq<char>, control: Seq<char>) -> FieldKind {
    if name == control {
        FieldKind::Control
    } else if name == "files"@ {
        FieldKind::File
    } else {
        FieldKind::Ignored
    }
}

/// What a field of a conversion request is: `format` is the control.
pub fn conversion_field(name: &str) -> (r: FieldKind)
    ensures
        r == field_kind_of(name@, "format"@),
{
    if same_text(name, "format") {
        FieldKind::Control
    } else if same_text(name, "files") {
        FieldKind::File
    } else {
        FieldKind::Ignored
    }
}

/// What a field of a compression request is: `quality` is the control.
pub fn compression_field(name: &str) -> (r: FieldKind)
    ensures
        r == field_kind_of(name@, "quality"@),
{
    if same_text(name, "quality") {
        FieldKind::Control
    } else if same_text(name, "files") {
        FieldKind::File
    } else {
        FieldKind::Ignored
    }
}

/// The views of uploaded files, in order.
pub open spec fn item_views(items: Seq<UploadItem>) -> Seq<UploadItemView> {
    Seq::new(items.len(), |i: int| items[i]@)
}

/// The views of the entries of a conversion, in order.
pub open spec fn converted_views(files: Seq<ConvertedFile>) -> Seq<ConvertedFileView> {
    Seq::new(files.len(), |i: int| files[i]@)
}

/// The views of the entries of a compression, in order.
pub open spec fn compressed_views(files: Seq<CompressedFile>) -> Seq<CompressedFileView> {
    Seq::new(files.len(), |i: int| files[i]@)
}

/// The name under which a file is taken that came without one.
pub open spec fn file_name_or_default(file_name: Option<String>) -> Seq<char> {
    match file_name {
        Some(name) => name@,
        None => "unknown.jpg"@,
    }
}

/// The quality that a `quality` field sets: that of its text, or the default
/// where the text could not be read.
pub open spec fn quality_of_field(text: Option<String>) -> int {
    match text {
        Some(t) => quality_of_text(t@),
        None => DEFAULT_QUALITY as int,
    }
}

/// Whether an entry is one that the conversion of a file to a format can
/// have: the converted file, or the marker of an error.
pub open spec fn is_conversion_entry(
    file: ConvertedFileView,
    original_name: Seq<char>,
    format: Seq<char>,
) -> bool {
    is_converted(file, original_name, format) || exists|message: Seq<char>|
        #[trigger] is_failed_conversion(file, original_name, message)
}

/// Whether an entry is one that the compression of a file can have: the
/// compressed file, or the marker of an error.
pub open spec fn is_compression_entry(file: CompressedFileView, item: UploadItemView) -> bool {
    is_compressed(file, item.original_name, item.raw_bytes.len()) || exists|message: Seq<char>|
        #[trigger] is_failed_compression(
            file,
            item.original_name,
            item.raw_bytes.len(),
            message,
        )
}

/// The entry of a file that is converted here is an entry of that file.
pub proof fn lemma_finished_conversion_is_entry(
    file: ConvertedFileView,
    item: UploadItemView,
    format: Seq<char>,
)
    requires
        is_finished_conversion(file, item, format),
    ensures
        is_conversion_entry(file, item.original_name, format),
{
    match conversion_of(item.original_name, item.raw_bytes, format) {
        Ok(bytes) => {
            let name = choose|name: Seq<char>|
                is_converted_name(name, format) && file == #[trigger] converted_view(
                    item.original_name,
                    name,
                    format,
                    bytes,
                );
            assert(is_converted(file, item.original_name, format));
        },
        Err(message) => {
            assert(is_failed_conversion(file, item.original_name, message));
        },
    }
}

/// The entry of a JPEG that could not be decoded is an entry of that file.
pub proof fn lemma_finished_compression_is_entry(file: CompressedFileView, item: UploadItemView)
    requires
        is_finished_compression(file, item),
    ensures
        is_compression_entry(file, item),
{
    let text = jpeg_open_failure_of(item.original_name, item.raw_bytes)->0;
    assert(is_failed_compression(
        file,
        item.original_name,
        item.raw_bytes.len(),
        jpeg_open_failure_text(text),
    ));
}

/// What `convert_image` hands back as finished is an entry of the file.
pub proof fn lemma_convert_step_is_entry(step: ConvertStep, item: UploadItemView, format: Seq<char>)
    requires
        is_convert_step(step, item, format),
        step is Finished,
    ensures
        is_conversion_entry(step->Finished_0@, item.original_name, format),
{
    lemma_finished_conversion_is_entry(step->Finished_0@, item, format);
}

/// What `compress_image` hands back as finished is an entry of the file.
pub proof fn lemma_compress_step_is_entry(step: CompressStep, item: UploadItemView, quality: int)
    requires
        is_compress_step(step, item, quality),
        step is Finished,
    ensures
        is_compression_entry(step->Finished_0@, item),
{
    lemma_finished_compression_is_entry(step->Finished_0@, item);
}

/// An entry of a conversion carries the name of its file.
pub proof fn lemma_conversion_entry_keeps_name(
    file: ConvertedFileView,
    original_name: Seq<char>,
    format: Seq<char>,
)
    requires
        is_conversion_entry(file, original_name, format),
    ensures
        file.original_name == original_name,
{
}

/// An entry of a compression carries the name and the size of its file.
pub proof fn lemma_compression_entry_keeps_name(file: CompressedFileView, item: UploadItemView)
    requires
        is_compression_entry(file, item),
    ensures
        file.original_name == item.original_name,
        file.original_size == item.raw_bytes.len(),
{
}

/// A format that cannot be written costs the file its entry's content and
/// nothing else: the file still has an entry, which is marked as an error,
/// says that the format is not one that is written, and has the size 0.
pub proof fn lemma_unsupported_format_is_marked(
    file: ConvertedFileView,
    item: UploadItemView,
    format: Seq<char>,
)
    requires
        is_finished_conversion(file, item, format),
        !is_supported(extension_of(item.original_name), format),
    ensures
        file.original_name == item.original_name,
        file.size == 0,
        file.url == error_marker_of(
            unsupported_format_text(extension_of(item.original_name), format),
        ),
        is_error_marker(file.url),
{
    lemma_error_marker_is_marked(
        unsupported_format_text(extension_of(item.original_name), format),
    );
}

/// With a format that cannot be written, no file waits for a backend: each
/// gets its entry at once.
pub proof fn lemma_unsupported_format_is_finished(
    step: ConvertStep,
    item: UploadItemView,
    format: Seq<char>,
)
    requires
        is_convert_step(step, item, format),
        !is_supported(extension_of(item.original_name), format),
    ensures
        step is Finished,
{
}

/// The entry of a file that was converted to a format bears a name with the
/// extension of the format, holds the bytes under the media type of the
/// format, and has their number as its size.
pub proof fn lemma_converted_entry_shape(
    file: ConvertedFileView,
    original_name: Seq<char>,
    format: Seq<char>,
)
    requires
        is_converted(file, original_name, format),
        target_format_of(format) is Some,
    ensures
        file.original_name == original_name,
        exists|token: Seq<char>|
            is_token(token) && file.name == #[trigger] (token + "."@) + target_format_of(
                format,
            )->0.extension_text(),
        exists|bytes: Seq<u8>|
            file.size == bytes.len() && file.url == "data:"@ + target_format_of(
                format,
            )->0.media_type_text() + ";base64,"@ + #[trigger] base64_text(bytes),
        !is_error_marker(file.url),
{
    let (name, bytes) = choose|name: Seq<char>, bytes: Seq<u8>|
        is_converted_name(name, format) && file == #[trigger] converted_view(
            original_name,
            name,
            format,
            bytes,
        );
    let token = choose|token: Seq<char>|
        is_token(token) && name == #[trigger] converted_name_of(token, format);
    assert(file.name == (token + "."@) + target_format_of(format)->0.extension_text());
    assert(file.url == "data:"@ + target_format_of(format)->0.media_type_text() + ";base64,"@
        + base64_text(bytes));
    lemma_data_url_is_not_marked(media_type_of_format(format), bytes);
}

/// An entry of a conversion is marked as an error exactly when it has no file
/// inline, and then its size is 0.
pub proof fn lemma_conversion_entry_is_marked_or_inline(
    file: ConvertedFileView,
    original_name: Seq<char>,
    format: Seq<char>,
)
    requires
        is_conversion_entry(file, original_name, format),
    ensures
        is_error_marker(file.url) <==> !is_converted(file, original_name, format),
        is_error_marker(file.url) ==> file.size == 0,
{
    if is_converted(file, original_name, format) {
        let (name, bytes) = choose|name: Seq<char>, bytes: Seq<u8>|
            is_converted_name(name, format) && file
                == #[trigger] converted_view(
                original_name,
                name,
                format,
                bytes,
            );
        lemma_data_url_is_not_marked(
            media_type_of_format(format),
            bytes,
        );
    } else {
        let message = choose|message: Seq<char>| #[trigger]
            is_failed_conversion(file, original_name, message);
        lemma_error_marker_is_marked(message);
    }
}

/// An entry of a compression is marked as an error exactly when it has no
/// file inline, and then its compressed size is 0 and its ratio is 1.
pub proof fn lemma_compression_entry_is_marked_or_inline(
    file: CompressedFileView,
    item: UploadItemView,
)
    requires
        is_compression_entry(file, item),
    ensures
        is_error_marker(file.url) <==> !is_compressed(
            file,
            item.original_name,
            item.raw_bytes.len(),
        ),
        is_error_marker(file.url) ==> file.compressed_size == 0
            && file.compression_ratio == unit_ratio(),
{
    if is_compressed(file, item.original_name, item.raw_bytes.len()) {
        let (name, bytes) = choose|name: Seq<char>, bytes: Seq<u8>|
            is_compressed_name(
                name,
                extension_of(item.original_name),
            ) && file == #[trigger] compressed_view(
                item.original_name,
                name,
                extension_of(item.original_name),
                item.raw_bytes.len(),
                bytes,
            );
        lemma_data_url_is_not_marked(
            media_type_of_extension(
                extension_of(item.original_name),
            ),
            bytes,
        );
    } else {
        let message = choose|message: Seq<char>| #[trigger]
            is_failed_compression(file, item.original_name, item.raw_bytes.len(), message);
        lemma_error_marker_is_marked(message);
    }
}

/// What stops a whole request. Whatever goes wrong with one file stops
/// nothing: it is written into the entry of that file.
#[derive(Clone, Copy, Debug, PartialEq, Eq, Structural)]
pub enum RequestFailure {
    /// No staging area could be made for the request.
    StagingUnavailable,
    /// The bytes of an uploaded file could not be read from the request.
    UnreadableUpload,
}

/// The status of a response that carries the entries of a batch, whether the
/// files in it succeeded or not.
pub const STATUS_OK: u16 = 200;

impl RequestFailure {
    /// The status of the response to a request that was stopped: a server
    /// error where the server could not stage the files, a client error where
    /// the upload could not be read.
    pub open spec fn status_of(self) -> u16 {
        match self {
            RequestFailure::StagingUnavailable => 500,
            RequestFailure::UnreadableUpload => 400,
        }
    }

    /// The status of the response to a request that was stopped.
    pub fn status(&self) -> (r: u16)
        ensures
            r == self.status_of(),
            r != STATUS_OK,
    {
        match self {
            RequestFailure::StagingUnavailable => 500,
            RequestFailure::UnreadableUpload => 400,
        }
    }
}

} // verus!
