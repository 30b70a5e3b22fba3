//! The formats that an image can be converted to, and what belongs to each.

use vstd::prelude::*;
use vstd::string::*;
use crate::services::raster::RasterFormat;
use crate::text::same_text;

verus! {

/// A format that an image can be converted to.
#[derive(Clone, Copy, Debug, PartialEq, Eq, Structural)]
pub enum TargetFormat {
    Jpeg,
    Png,
    WebP,
    Avif,
}

/// The format that a request means by a name. The names are `jpeg`, `png`,
/// `webp` and `avif`, in lower case; any other name means none.
pub open spec fn target_format_of(name: Seq<char>) -> Option<TargetFormat> {
    if name == "jpeg"@ {
        Some(TargetFormat::Jpeg)
    } else if name == "png"@ {
        Some(TargetFormat::Png)
    } else if name == "webp"@ {
        Some(TargetFormat::WebP)
    } else if name == "avif"@ {
        Some(TargetFormat::Avif)
    } else {
        None
    }
}

impl TargetFormat {
    /// The name by which a request asks for the format.
    pub open spec fn name_text(self) -> Seq<char> {
        match self {
            TargetFormat::Jpeg => "jpeg"@,
            TargetFormat::Png => "png"@,
            TargetFormat::WebP => "webp"@,
            TargetFormat::Avif => "avif"@,
        }
    }

    /// The extension of a file of the format.
    pub open spec fn extension_text(self) -> Seq<char> {
        match self {
            TargetFormat::Jpeg => "jpg"@,
            TargetFormat::Png => "png"@,
            TargetFormat::WebP => "webp"@,
            TargetFormat::Avif => "avif"@,
        }
    }

    /// The media type of a file of the format.
    pub open spec fn media_type_text(self) -> Seq<char> {
        match self {
            TargetFormat::Jpeg => "image/jpeg"@,
            TargetFormat::Png => "image/png"@,
            TargetFormat::WebP => "image/webp"@,
            TargetFormat::Avif => "image/avif"@,
        }
    }

    /// The name by which the still-image backend knows the format.
    pub open spec fn still_image_name_text(self) -> Seq<char> {
        match self {
            TargetFormat::Jpeg => "JPEG"@,
            TargetFormat::Png => "PNG"@,
            TargetFormat::WebP => "WEBP"@,
            TargetFormat::Avif => "AVIF"@,
        }
    }

    /// The format as the raster codec knows it; `None` for the one that the
    /// raster codec does not write.
    pub open spec fn raster_format_of(self) -> Option<RasterFormat> {
        match self {
            TargetFormat::Jpeg => Some(RasterFormat::Jpeg),
            TargetFormat::Png => Some(RasterFormat::Png),
            TargetFormat::WebP => Some(RasterFormat::WebP),
            TargetFormat::Avif => None,
        }
    }

    /// Whether the format loses detail, and so is written at a quality.
    pub open spec fn is_lossy(self) -> bool {
        self == TargetFormat::Jpeg || self == TargetFormat::WebP
    }

    /// The format that a name means, if it means one.
    pub fn from_name(name: &str) -> (r: Option<TargetFormat>)
        ensures
            r == target_format_of(name@),
    {
        if same_text(name, "jpeg") {
            Some(TargetFormat::Jpeg)
        } else if same_text(name, "png") {
            Some(TargetFormat::Png)
        } else if same_text(name, "webp") {
            Some(TargetFormat::WebP)
        } else if same_text(name, "avif") {
            Some(TargetFormat::Avif)
        } else {
            None
        }
    }

    /// The name by which a request asks for the format.
    pub fn name(&self) -> (r: &'static str)
        ensures
            r@ == self.name_text(),
    {
        match self {
            TargetFormat::Jpeg => "jpeg",
            TargetFormat::Png => "png",
            TargetFormat::WebP => "webp",
            TargetFormat::Avif => "avif",
        }
    }

    /// The extension of a file of the format.
    pub fn extension(&self) -> (r: &'static str)
        ensures
            r@ == self.extension_text(),
    {
        match self {
            TargetFormat::Jpeg => "jpg",
            TargetFormat::Png => "png",
            TargetFormat::WebP => "webp",
            TargetFormat::Avif => "avif",
        }
    }

    /// The media type of a file of the format.
    pub fn media_type(&self) -> (r: &'static str)
        ensures
            r@ == self.media_type_text(),
    {
        match self {
            TargetFormat::Jpeg => "image/jpeg",
            TargetFormat::Png => "image/png",
            TargetFormat::WebP => "image/webp",
            TargetFormat::Avif => "image/avif",
        }
    }

    /// The name by which the still-image backend knows the format.
    pub fn still_image_name(&self) -> (r: &'static str)
        ensures
            r@ == self.still_image_name_text(),
    {
        match self {
            TargetFormat::Jpeg => "JPEG",
            TargetFormat::Png => "PNG",
            TargetFormat::WebP => "WEBP",
            TargetFormat::Avif => "AVIF",
        }
    }

    /// The format as the raster codec knows it, if the raster codec writes it.
    pub fn raster_format(&self) -> (r: Option<RasterFormat>)
        ensures
            r == self.raster_format_of(),
    {
        match self {
            TargetFormat::Jpeg => Some(RasterFormat::Jpeg),
            TargetFormat::Png => Some(RasterFormat::Png),
            TargetFormat::WebP => Some(RasterFormat::WebP),
            TargetFormat::Avif => None,
        }
    }

    /// Whether the format loses detail, and so is written at a quality.
    pub fn lossy(&self) -> (r: bool)
        ensures
            r == self.is_lossy(),
    {
        match self {
            TargetFormat::Jpeg => true,
            TargetFormat::WebP => true,
            _ => false,
        }
    }
}

/// The four names are four different texts.
pub proof fn lemma_names_differ()
    ensures
        "jpeg"@ != "png"@,
        "jpeg"@ != "webp"@,
        "jpeg"@ != "avif"@,
        "png"@ != "webp"@,
        "png"@ != "avif"@,
        "webp"@ != "avif"@,
{
    reveal_strlit("jpeg");
    reveal_strlit("png");
    reveal_strlit("webp");
    reveal_strlit("avif");
    assert("jpeg"@[0] == 'j' && "png"@[0] == 'p' && "webp"@[0] == 'w' && "avif"@[0] == 'a');
}

/// A format is the one that its own name means.
pub proof fn lemma_name_means_its_format(format: TargetFormat)
    ensures
        target_format_of(format.name_text()) == Some(format),
{
    lemma_names_differ();
}

/// A name that means a format is the name of that format.
pub proof fn lemma_format_has_the_name(name: Seq<char>)
    requires
        target_format_of(name) is Some,
    ensures
        target_format_of(name)->0.name_text() == name,
{
}

/// The media type of a format is `image/` and the name of the format.
pub proof fn lemma_media_type_holds_the_name(format: TargetFormat)
    ensures
        format.media_type_text() == "image/"@ + format.name_text(),
{
    reveal_strlit("jpeg");
    reveal_strlit("png");
    reveal_strlit("webp");
    reveal_strlit("avif");
    reveal_strlit("image/");
    reveal_strlit("image/jpeg");
    reveal_strlit("image/png");
    reveal_strlit("image/webp");
    reveal_strlit("image/avif");
    assert(format.media_type_text() =~= "image/"@ + format.name_text());
}

} // verus!
