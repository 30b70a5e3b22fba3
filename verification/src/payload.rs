//! What an entry of a response carries in place of a file: the bytes inline,
//! as a data URL, or a marker that says why there are none.

use vstd::prelude::*;
use vstd::string::*;
use crate::formats::{lemma_media_type_holds_the_name, target_format_of, TargetFormat};
use crate::text::{chars_of, joined, same_text};

verus! {

/// The media type under which bytes of a type that is not known are sent.
pub open spec fn unknown_media_type() -> Seq<char> {
    "application/octet-stream"@
}

/// The media type of a target format: that of the format, and for a name
/// that means no format the one for bytes of a type that is not known.
pub open spec fn media_type_of_format(format: Seq<char>) -> Seq<char> {
    match target_format_of(format) {
        Some(f) => f.media_type_text(),
        None => unknown_media_type(),
    }
}

/// The media type of a file, by its extension in lower case.
pub open spec fn media_type_of_extension(extension: Seq<char>) -> Seq<char> {
    if extension == "jpg"@ || extension == "jpeg"@ {
        "image/jpeg"@
    } else if extension == "png"@ {
        "image/png"@
    } else if extension == "webp"@ {
        "image/webp"@
    } else {
        unknown_media_type()
    }
}

/// The media type of a target format.
pub fn media_type_for_format(format: &str) -> (r: &'static str)
    ensures
        r@ == media_type_of_format(format@),
{
    match TargetFormat::from_name(format) {
        Some(f) => f.media_type(),
        None => "application/octet-stream",
    }
}

/// The media type of a file, by its extension in lower case.
pub fn media_type_for_extension(extension: &str) -> (r: &'static str)
    ensures
        r@ == media_type_of_extension(extension@),
{
    if same_text(extension, "jpg") || same_text(extension, "jpeg") {
        "image/jpeg"
    } else if same_text(extension, "png") {
        "image/png"
    } else if same_text(extension, "webp") {
        "image/webp"
    } else {
        "application/octet-stream"
    }
}

/// What the standard base64 engine writes for a run of bytes: the standard
/// alphabet, with padding.
pub uninterp spec fn base64_text(bytes: Seq<u8>) -> Seq<char>;

/// Calls `Engine::encode` of the `base64` crate on its engine `STANDARD`. The
/// contract only names the result: the encoding is not restated here.
#[verifier::external_body]
pub(crate) fn encode_base64(bytes: &[u8]) -> (r: String)
    ensures
        r@ == base64_text(bytes@),
{
    base64::Engine::encode(&base64::engine::general_purpose::STANDARD, bytes)
}

/// The data URL of bytes of a media type.
pub open spec fn data_url_of(media_type: Seq<char>, bytes: Seq<u8>) -> Seq<char> {
    "data:"@ + media_type + ";base64,"@ + base64_text(bytes)
}

/// Puts encoded bytes inline: `data:`, the media type, `;base64,` and the
/// bytes in base64.
pub fn data_url(media_type: &str, bytes: &[u8]) -> (r: String)
    ensures
        r@ == data_url_of(media_type@, bytes@),
{
    data_url_with(media_type, encode_base64(bytes).as_str())
}

/// The data URL around a payload that is already encoded.
pub open spec fn data_url_around(media_type: Seq<char>, payload: Seq<char>) -> Seq<char> {
    "data:"@ + media_type + ";base64,"@ + payload
}

/// Puts an encoded payload behind the head of a data URL.
pub fn data_url_with(media_type: &str, payload: &str) -> (r: String)
    ensures
        r@ == data_url_around(media_type@, payload@),
{
    let mut url = joined("data:", media_type);
    url.append(";base64,");
    url.append(payload);
    url
}

/// The marker that an entry carries in place of a URL when nothing could be
/// produced.
pub open spec fn error_marker_of(message: Seq<char>) -> Seq<char> {
    "error:"@ + message
}

/// Makes the marker for a message.
pub fn error_marker(message: &str) -> (r: String)
    ensures
        r@ == error_marker_of(message@),
{
    joined("error:", message)
}

/// Whether a URL of an entry is an error marker.
pub open spec fn is_error_marker(url: Seq<char>) -> bool {
    "error:"@.is_prefix_of(url)
}

/// Tells the entries that failed from those that carry a file.
pub fn marks_error(url: &str) -> (r: bool)
    ensures
        r == is_error_marker(url@),
{
    let chars = chars_of(url);
    proof {
        reveal_strlit("error:");
    }
    let n = chars.len();
    if n < 6 {
        return false;
    }
    let r = chars[0] == 'e' && chars[1] == 'r' && chars[2] == 'r' && chars[3] == 'o' && chars[4]
        == 'r' && chars[5] == ':';
    proof {
        let head = "error:"@;
        if r {
            assert(url@.subrange(0, 6) =~= head);
        } else {
            if head.is_prefix_of(url@) {
                assert(url@.subrange(0, 6) == head);
                assert(url@[0] == head[0] && url@[1] == head[1] && url@[2] == head[2] && url@[3]
                    == head[3] && url@[4] == head[4] && url@[5] == head[5]);
            }
        }
    }
    r
}

/// An error marker is marked, whatever the message.
pub proof fn lemma_error_marker_is_marked(message: Seq<char>)
    ensures
        is_error_marker(error_marker_of(message)),
{
    assert(error_marker_of(message).subrange(0, "error:"@.len() as int) =~= "error:"@);
}

/// A data URL is never taken for an error marker.
pub proof fn lemma_data_url_is_not_marked(media_type: Seq<char>, bytes: Seq<u8>)
    ensures
        !is_error_marker(data_url_of(media_type, bytes)),
{
    reveal_strlit("error:");
    reveal_strlit("data:");
    let url = data_url_of(media_type, bytes);
    assert(url[0] == 'd');
    if is_error_marker(url) {
        assert(url.subrange(0, 6)[0] == 'e');
    }
}

/// A format that can be written has a media type of its own: `image/` and
/// the name of the format.
pub proof fn lemma_known_formats_have_media_types(format: Seq<char>)
    requires
        target_format_of(format) is Some,
    ensures
        media_type_of_format(format) == "image/"@ + format,
{
    lemma_media_type_holds_the_name(target_format_of(format)->0);
}

} // verus!
