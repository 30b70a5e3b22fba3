//! The general raster codec: the calls into the `image` crate. Everything here
//! works on bytes in memory. A decoded image is held as plain values: how many
//! channels it has, how wide and high it is, and its samples.

use vstd::prelude::*;
use vstd::string::*;
use image::{DynamicImage, ImageBuffer, ImageFormat};
use std::io::Cursor;

verus! {

/// The formats that the raster codec is asked to write.
#[derive(Clone, Copy, Debug, PartialEq, Eq, Structural)]
pub enum RasterFormat {
    Jpeg,
    Png,
    WebP,
}

/// What the samples of a pixel stand for.
#[derive(Clone, Copy, Debug, PartialEq, Eq, Structural)]
pub enum Channels {
    Luma,
    LumaAlpha,
    Rgb,
    Rgba,
}

/// The samples of a picture, row by row, of eight or of sixteen bits each.
#[derive(Debug)]
pub enum Samples {
    Bytes(Vec<u8>),
    Words(Vec<u16>),
}

/// A decoded picture.
#[derive(Debug)]
pub struct Picture {
    pub channels: Channels,
    pub width: u32,
    pub height: u32,
    pub samples: Samples,
}

/// A picture as the decoder hands it over: the number of channels, and the
/// samples under the width that they have. A picture with samples of another
/// width has neither.
#[derive(Debug)]
pub struct DecodedPicture {
    pub channels: u8,
    pub width: u32,
    pub height: u32,
    pub bytes: Option<Vec<u8>>,
    pub words: Option<Vec<u16>>,
}

/// The samples of an image as rows of red, green and blue, eight bits each.
#[derive(Debug)]
pub struct RgbSamples {
    pub width: u32,
    pub height: u32,
    pub pixels: Vec<u8>,
}

/// Samples, as the contracts speak of them.
pub enum SamplesView {
    Bytes(Seq<u8>),
    Words(Seq<u16>),
}

/// A picture, as the contracts speak of it.
pub struct PictureView {
    pub channels: Channels,
    pub width: u32,
    pub height: u32,
    pub samples: SamplesView,
}

/// A picture as the decoder hands it over, as the contracts speak of it.
pub struct DecodedPictureView {
    pub channels: u8,
    pub width: u32,
    pub height: u32,
    pub bytes: Option<Seq<u8>>,
    pub words: Option<Seq<u16>>,
}

/// Red, green and blue samples, as the contracts speak of them.
pub struct RgbSamplesView {
    pub width: u32,
    pub height: u32,
    pub pixels: Seq<u8>,
}

impl View for Samples {
    type V = SamplesView;

    open spec fn view(&self) -> SamplesView {
        match self {
            Samples::Bytes(s) => SamplesView::Bytes(s@),
            Samples::Words(s) => SamplesView::Words(s@),
        }
    }
}

impl View for Picture {
    type V = PictureView;

    open spec fn view(&self) -> PictureView {
        PictureView {
            channels: self.channels,
            width: self.width,
            height: self.height,
            samples: self.samples@,
        }
    }
}

impl View for DecodedPicture {
    type V = DecodedPictureView;

    open spec fn view(&self) -> DecodedPictureView {
        DecodedPictureView {
            channels: self.channels,
            width: self.width,
            height: self.height,
            bytes: match self.bytes {
                Some(s) => Some(s@),
                None => None,
            },
            words: match self.words {
                Some(s) => Some(s@),
                None => None,
            },
        }
    }
}

impl View for RgbSamples {
    type V = RgbSamplesView;

    open spec fn view(&self) -> RgbSamplesView {
        RgbSamplesView { width: self.width, height: self.height, pixels: self.pixels@ }
    }
}

impl Channels {
    /// The number of samples in a pixel.
    pub open spec fn count_of(self) -> int {
        match self {
            Channels::Luma => 1,
            Channels::LumaAlpha => 2,
            Channels::Rgb => 3,
            Channels::Rgba => 4,
        }
    }

    /// The number of samples in a pixel.
    pub fn count(&self) -> (r: u8)
        ensures
            r == self.count_of(),
    {
        match self {
            Channels::Luma => 1,
            Channels::LumaAlpha => 2,
            Channels::Rgb => 3,
            Channels::Rgba => 4,
        }
    }
}

/// What a number of samples in a pixel stands for; nothing for a number
/// other than one to four.
pub open spec fn channels_of(count: u8) -> Option<Channels> {
    if count == 1 {
        Some(Channels::Luma)
    } else if count == 2 {
        Some(Channels::LumaAlpha)
    } else if count == 3 {
        Some(Channels::Rgb)
    } else if count == 4 {
        Some(Channels::Rgba)
    } else {
        None
    }
}

impl SamplesView {
    /// The number of samples.
    pub open spec fn len(self) -> nat {
        match self {
            SamplesView::Bytes(s) => s.len(),
            SamplesView::Words(s) => s.len(),
        }
    }
}

impl PictureView {
    /// Whether the samples fill the picture: there are as many as the
    /// channels of all its pixels.
    pub open spec fn is_filled(self) -> bool {
        self.samples.len() == self.channels.count_of() * (self.width * self.height)
    }
}

/// The picture that the decoder has handed over, where it is one that can be
/// held: the channels are one to four, the samples are of eight or of sixteen
/// bits, and they fill the picture.
pub open spec fn picture_of(decoded: DecodedPictureView) -> Option<PictureView> {
    match (channels_of(decoded.channels), decoded.bytes, decoded.words) {
        (Some(channels), Some(s), None) => {
            let picture = PictureView {
                channels,
                width: decoded.width,
                height: decoded.height,
                samples: SamplesView::Bytes(s),
            };
            if picture.is_filled() {
                Some(picture)
            } else {
                None
            }
        },
        (Some(channels), None, Some(s)) => {
            let picture = PictureView {
                channels,
                width: decoded.width,
                height: decoded.height,
                samples: SamplesView::Words(s),
            };
            if picture.is_filled() {
                Some(picture)
            } else {
                None
            }
        },
        _ => None,
    }
}

/// What decoding the bytes of a file of a name gives, with the format told by
/// the extension of the name: the picture, or the words of the decoder's
/// error.
pub uninterp spec fn decoded_picture(name: Seq<char>, data: Seq<u8>) -> Result<
    DecodedPictureView,
    Seq<char>,
>;

/// What decoding the bytes of a file of a name gives as red, green and blue
/// samples of eight bits: the samples, or the words of the decoder's error.
pub uninterp spec fn decoded_samples(name: Seq<char>, data: Seq<u8>) -> Result<
    RgbSamplesView,
    Seq<char>,
>;

/// What encoding a picture in a format gives: the bytes, or the words of the
/// encoder's error.
pub uninterp spec fn encoded_picture(picture: PictureView, format: RasterFormat) -> Result<
    Seq<u8>,
    Seq<char>,
>;

/// Calls `image::ImageFormat::from_path` on the name and
/// `image::load_from_memory_with_format` on the bytes, and takes the image
/// apart with `color`, `width`, `height`, `as_flat_samples_u8` and
/// `as_flat_samples_u16`; an error is written out the way its `Display` does.
/// The contract only names the result.
#[verifier::external_body]
pub(crate) fn decode_picture(name: &str, data: &[u8]) -> (r: Result<DecodedPicture, String>)
    ensures
        match r {
            Ok(picture) => decoded_picture(name@, data@) == Ok::<DecodedPictureView, Seq<char>>(
                picture@,
            ),
            Err(text) => decoded_picture(name@, data@) == Err::<DecodedPictureView, Seq<char>>(
                text@,
            ),
        },
{
    let decoded = ImageFormat::from_path(name)
        .and_then(|format| image::load_from_memory_with_format(data, format));
    match decoded {
        Ok(image) => Ok(DecodedPicture {
            channels: image.color().channel_count(),
            width: image.width(),
            height: image.height(),
            bytes: image.as_flat_samples_u8().map(|s| s.samples.to_vec()),
            words: image.as_flat_samples_u16().map(|s| s.samples.to_vec()),
        }),
        Err(error) => Err(error.to_string()),
    }
}

/// Calls `image::ImageFormat::from_path` on the name,
/// `image::load_from_memory_with_format` on the bytes and
/// `image::DynamicImage::to_rgb8` on the image, and takes the buffer apart;
/// an error is written out the way its `Display` does. The contract only
/// names the result.
#[verifier::external_body]
pub(crate) fn decode_samples(name: &str, data: &[u8]) -> (r: Result<RgbSamples, String>)
    ensures
        match r {
            Ok(samples) => decoded_samples(name@, data@) == Ok::<RgbSamplesView, Seq<char>>(
                samples@,
            ),
            Err(text) => decoded_samples(name@, data@) == Err::<RgbSamplesView, Seq<char>>(text@),
        },
{
    let decoded = ImageFormat::from_path(name)
        .and_then(|format| image::load_from_memory_with_format(data, format));
    match decoded.map(|image| image.to_rgb8()) {
        Ok(rgb) => Ok(RgbSamples { width: rgb.width(), height: rgb.height(), pixels: rgb.into_raw() }),
        Err(error) => Err(error.to_string()),
    }
}

/// Makes an image of samples of eight bits with `image::ImageBuffer::from_raw`
/// and calls `image::DynamicImage::write_to` on a buffer in memory; an error
/// is written out the way its `Display` does. The samples must fill the
/// picture. The contract only names the result.
#[verifier::external_body]
fn encode_bytes(
    channels: Channels,
    width: u32,
    height: u32,
    samples: Vec<u8>,
    format: RasterFormat,
) -> (r: Result<Vec<u8>, String>)
    requires
        samples@.len() == channels.count_of() * (width * height),
    ensures
        match r {
            Ok(bytes) => encoded_picture(
                PictureView { channels, width, height, samples: SamplesView::Bytes(samples@) },
                format,
            ) == Ok::<Seq<u8>, Seq<char>>(bytes@),
            Err(text) => encoded_picture(
                PictureView { channels, width, height, samples: SamplesView::Bytes(samples@) },
                format,
            ) == Err::<Seq<u8>, Seq<char>>(text@),
        },
{
    let image = match channels {
        Channels::Luma => ImageBuffer::from_raw(width, height, samples).map(DynamicImage::ImageLuma8),
        Channels::LumaAlpha => ImageBuffer::from_raw(width, height, samples).map(DynamicImage::ImageLumaA8),
        Channels::Rgb => ImageBuffer::from_raw(width, height, samples).map(DynamicImage::ImageRgb8),
        Channels::Rgba => ImageBuffer::from_raw(width, height, samples).map(DynamicImage::ImageRgba8),
    };
    let target = match format {
        RasterFormat::Jpeg => ImageFormat::Jpeg,
        RasterFormat::Png => ImageFormat::Png,
        RasterFormat::WebP => ImageFormat::WebP,
    };
    let mut buffer = Cursor::new(Vec::new());
    image.unwrap().write_to(&mut buffer, target).map(|_| buffer.into_inner()).map_err(|e| e.to_string())
}

/// Makes an image of samples of sixteen bits with
/// `image::ImageBuffer::from_raw` and calls `image::DynamicImage::write_to` on
/// a buffer in memory; an error is written out the way its `Display` does.
/// The samples must fill the picture. The contract only names the result.
#[verifier::external_body]
fn encode_words(
    channels: Channels,
    width: u32,
    height: u32,
    samples: Vec<u16>,
    format: RasterFormat,
) -> (r: Result<Vec<u8>, String>)
    requires
        samples@.len() == channels.count_of() * (width * height),
    ensures
        match r {
            Ok(bytes) => encoded_picture(
                PictureView { channels, width, height, samples: SamplesView::Words(samples@) },
                format,
            ) == Ok::<Seq<u8>, Seq<char>>(bytes@),
            Err(text) => encoded_picture(
                PictureView { channels, width, height, samples: SamplesView::Words(samples@) },
                format,
            ) == Err::<Seq<u8>, Seq<char>>(text@),
        },
{
    let image = match channels {
        Channels::Luma => ImageBuffer::from_raw(width, height, samples).map(DynamicImage::ImageLuma16),
        Channels::LumaAlpha => ImageBuffer::from_raw(width, height, samples).map(DynamicImage::ImageLumaA16),
        Channels::Rgb => ImageBuffer::from_raw(width, height, samples).map(DynamicImage::ImageRgb16),
        Channels::Rgba => ImageBuffer::from_raw(width, height, samples).map(DynamicImage::ImageRgba16),
    };
    let target = match format {
        RasterFormat::Jpeg => ImageFormat::Jpeg,
        RasterFormat::Png => ImageFormat::Png,
        RasterFormat::WebP => ImageFormat::WebP,
    };
    let mut buffer = Cursor::new(Vec::new());
    image.unwrap().write_to(&mut buffer, target).map(|_| buffer.into_inner()).map_err(|e| e.to_string())
}

/// Whether a number of samples is that of a picture of these channels, this
/// width and this height.
pub fn fills_picture(count: usize, channels: Channels, width: u32, height: u32) -> (r: bool)
    ensures
        r == (count == channels.count_of() * (width * height)),
{
    assert(width * height <= 0xffff_ffff * 0xffff_ffff) by (nonlinear_arith)
        requires
            0 <= width <= 0xffff_ffff,
            0 <= height <= 0xffff_ffff,
    ;
    let pixels: u64 = width as u64 * height as u64;
    let per_pixel: usize = channels.count() as usize;
    if pixels == 0 {
        return count == 0;
    }
    assert(count == per_pixel * pixels <==> (count % per_pixel == 0 && count / per_pixel
        == pixels)) by (nonlinear_arith)
        requires
            1 <= per_pixel <= 4,
    ;
    count % per_pixel == 0 && (count / per_pixel) as u64 == pixels
}

/// Takes the picture that the decoder has handed over, where it is one that
/// can be held.
pub fn picture_from(decoded: DecodedPicture) -> (r: Option<Picture>)
    ensures
        match r {
            Some(picture) => picture_of(decoded@) == Some(picture@),
            None => picture_of(decoded@) is None,
        },
{
    let channels = if decoded.channels == 1 {
        Channels::Luma
    } else if decoded.channels == 2 {
        Channels::LumaAlpha
    } else if decoded.channels == 3 {
        Channels::Rgb
    } else if decoded.channels == 4 {
        Channels::Rgba
    } else {
        return None;
    };
    let samples = match (decoded.bytes, decoded.words) {
        (Some(s), None) => Samples::Bytes(s),
        (None, Some(s)) => Samples::Words(s),
        _ => {
            return None;
        },
    };
    let count = match &samples {
        Samples::Bytes(s) => s.len(),
        Samples::Words(s) => s.len(),
    };
    if fills_picture(count, channels, decoded.width, decoded.height) {
        Some(Picture { channels, width: decoded.width, height: decoded.height, samples })
    } else {
        None
    }
}

/// Encodes a picture in a format: the bytes, or the words of the encoder's
/// error.
pub fn encode(picture: Picture, format: RasterFormat) -> (r: Result<Vec<u8>, String>)
    requires
        picture@.is_filled(),
    ensures
        match r {
            Ok(bytes) => encoded_picture(picture@, format) == Ok::<Seq<u8>, Seq<char>>(bytes@),
            Err(text) => encoded_picture(picture@, format) == Err::<Seq<u8>, Seq<char>>(text@),
        },
{
    match picture.samples {
        Samples::Bytes(s) => encode_bytes(picture.channels, picture.width, picture.height, s, format),
        Samples::Words(s) => encode_words(picture.channels, picture.width, picture.height, s, format),
    }
}

} // verus!
