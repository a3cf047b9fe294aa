//! What the first bytes of a picture say of it: its format and its size.

use immeta::GenericMetadata;
use vstd::prelude::*;

verus! {

/// The picture formats that can serve as a wallpaper.
#[derive(Debug, Copy, Clone, PartialEq, Eq, Structural)]
pub enum ImageFormat {
    Jpeg,
    Png,
    Gif,
}

/// What the header of a picture tells: its format and, for the formats whose
/// size is read, width and height in pixels.
#[derive(Debug, Copy, Clone, PartialEq, Eq, Structural)]
pub enum Header {
    Png { width: u32, height: u32 },
    Gif { width: u32, height: u32 },
    Jpeg { width: u32, height: u32 },
    Webp,
}

/// The error with which `immeta` refuses bytes that it cannot read as a picture.
#[verifier::external_type_specification]
#[verifier::external_body]
pub struct ExImmetaError(immeta::Error);

/// What `immeta` reads from the bytes of a picture, or `None` where it
/// recognises none of its formats in them.
pub uninterp spec fn header_of(data: Seq<u8>) -> Option<Header>;

/// `immeta::load_from_buf` tries its formats on the bytes, in a fixed order,
/// and returns the metadata of the first that fits, or an error. The result
/// depends on the bytes alone, and the contract only gives it its name. Of
/// the metadata the format and the size are kept; the size of a WebP picture
/// is not read.
#[verifier::external_body]
fn read_header(data: &[u8]) -> (r: Result<Header, immeta::Error>)
    ensures
        match r {
            Ok(header) => header_of(data@) == Some(header),
            Err(_) => header_of(data@) is None,
        },
{
    Ok(
        match immeta::load_from_buf(data)? {
            GenericMetadata::Png(m) => {
                Header::Png { width: m.dimensions.width, height: m.dimensions.height }
            },
            GenericMetadata::Gif(m) => {
                Header::Gif { width: m.dimensions.width, height: m.dimensions.height }
            },
            GenericMetadata::Jpeg(m) => {
                Header::Jpeg { width: m.dimensions.width, height: m.dimensions.height }
            },
            GenericMetadata::Webp(_) => Header::Webp,
        },
    )
}

impl ImageFormat {
    /// The file extension of this format.
    pub open spec fn extension(self) -> Seq<char> {
        match self {
            ImageFormat::Jpeg => "jpeg"@,
            ImageFormat::Png => "png"@,
            ImageFormat::Gif => "gif"@,
        }
    }

    /// The file extension of this format.
    pub fn name(&self) -> (name: &'static str)
        ensures
            name@ == self.extension(),
    {
        match self {
            ImageFormat::Jpeg => "jpeg",
            ImageFormat::Png => "png",
            ImageFormat::Gif => "gif",
        }
    }
}

impl Header {
    /// The format and the size of the picture, where the format is one that
    /// can serve as a wallpaper.
    pub open spec fn supported(self) -> Option<(ImageFormat, (u32, u32))> {
        match self {
            Header::Png { width, height } => Some((ImageFormat::Png, (width, height))),
            Header::Gif { width, height } => Some((ImageFormat::Gif, (width, height))),
            Header::Jpeg { width, height } => Some((ImageFormat::Jpeg, (width, height))),
            Header::Webp => None,
        }
    }

    /// The format and the size of the picture, where the format is one that
    /// can serve as a wallpaper.
    pub fn format_and_size(&self) -> (r: Option<(ImageFormat, (u32, u32))>)
        ensures
            r == self.supported(),
    {
        match self {
            Header::Png { width, height } => Some((ImageFormat::Png, (*width, *height))),
            Header::Gif { width, height } => Some((ImageFormat::Gif, (*width, *height))),
            Header::Jpeg { width, height } => Some((ImageFormat::Jpeg, (*width, *height))),
            Header::Webp => None,
        }
    }
}

/// Whether the header is one of a picture in a format that can serve as a
/// wallpaper.
pub open spec fn usable(header: Option<Header>) -> bool {
    header matches Some(h) && h.supported() is Some
}

/// Reads the header of a picture from its bytes.
pub fn inspect(data: &[u8]) -> (r: Option<Header>)
    ensures
        r == header_of(data@),
{
    match read_header(data) {
        Ok(header) => Some(header),
        Err(_) => None,
    }
}

} // verus!
