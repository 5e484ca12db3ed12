//! Checking and describing captured images: size limits, format detection
//! and dimensions. Decoding and format detection are the `image` crate's;
//! resizing, re-encoding and saving stand outside.

use vstd::prelude::*;

use crate::klipdot::config::Config;
use crate::klipdot::error::Error;
use crate::text::{decimal, push_decimal};

verus! {

/// Image formats klipdot names.
#[derive(Debug, Clone, Copy, PartialEq, Eq, Structural)]
pub enum ImageKind {
    Png,
    Jpeg,
    Gif,
    WebP,
    Bmp,
    Tiff,
    /// A format the `image` crate knows but klipdot does not name.
    Other,
}

/// Whether `data` begins with `sig`.
pub open spec fn begins_with(data: Seq<u8>, sig: Seq<u8>) -> bool {
    data.len() >= sig.len() && data.take(sig.len() as int) == sig
}

/// The format the `image` crate's `guess_format` reads off the leading
/// bytes of `data`, if any, by its table of magic bytes: PNG, JPEG, GIF,
/// WebP (`RIFF`, four bytes of any value, `WEBP`), TIFF and BMP by name;
/// DDS, ICO, Radiance HDR, AVIF, OpenEXR, QOI, PNM (`P1` to `P7`) and
/// farbfeld as other formats.
pub open spec fn guessed_format(data: Seq<u8>) -> Option<ImageKind> {
    if begins_with(data, seq![0x89u8, 0x50, 0x4e, 0x47, 0x0d, 0x0a, 0x1a, 0x0a]) {
        Some(ImageKind::Png)
    } else if begins_with(data, seq![0xffu8, 0xd8, 0xff]) {
        Some(ImageKind::Jpeg)
    } else if begins_with(data, seq![0x47u8, 0x49, 0x46, 0x38, 0x39, 0x61]) || begins_with(
        data,
        seq![0x47u8, 0x49, 0x46, 0x38, 0x37, 0x61],
    ) {
        Some(ImageKind::Gif)
    } else if data.len() >= 12 && data.take(4) == seq![0x52u8, 0x49, 0x46, 0x46] && data.subrange(8, 12)
        == seq![0x57u8, 0x45, 0x42, 0x50] {
        Some(ImageKind::WebP)
    } else if begins_with(data, seq![0x4du8, 0x4d, 0x00, 0x2a]) || begins_with(
        data,
        seq![0x49u8, 0x49, 0x2a, 0x00],
    ) {
        Some(ImageKind::Tiff)
    } else if begins_with(data, seq![0x44u8, 0x44, 0x53, 0x20]) {
        Some(ImageKind::Other)
    } else if begins_with(data, seq![0x42u8, 0x4d]) {
        Some(ImageKind::Bmp)
    } else if begins_with(data, seq![0x00u8, 0x00, 0x01, 0x00])
        || begins_with(data, seq![0x23u8, 0x3f, 0x52, 0x41, 0x44, 0x49, 0x41, 0x4e, 0x43, 0x45])
        || (data.len() >= 12 && data[0] == 0 && data[1] == 0 && data.subrange(4, 12)
        == seq![0x66u8, 0x74, 0x79, 0x70, 0x61, 0x76, 0x69, 0x66])
        || begins_with(data, seq![0x76u8, 0x2f, 0x31, 0x01])
        || begins_with(data, seq![0x71u8, 0x6f, 0x69, 0x66])
        || (data.len() >= 2 && data[0] == 0x50 && 0x31 <= data[1] <= 0x37)
        || begins_with(data, seq![0x66u8, 0x61, 0x72, 0x62, 0x66, 0x65, 0x6c, 0x64]) {
        Some(ImageKind::Other)
    } else {
        None
    }
}

/// The width and height of the image `data` holds, as the `image` crate's
/// `load_from_memory` decodes it, if it decodes.
pub uninterp spec fn decoded_size(data: Seq<u8>) -> Option<(u32, u32)>;

/// Calls `image::guess_format`, telling apart the formats klipdot names.
/// The contract claims that the answer is `guessed_format(data)`, the
/// crate's table of magic bytes read in its order.
#[verifier::external_body]
fn guess_format(data: &[u8]) -> (r: Option<ImageKind>)
    ensures
        r == guessed_format(data@),
{
    match image::guess_format(data) {
        Ok(image::ImageFormat::Png) => Some(ImageKind::Png),
        Ok(image::ImageFormat::Jpeg) => Some(ImageKind::Jpeg),
        Ok(image::ImageFormat::Gif) => Some(ImageKind::Gif),
        Ok(image::ImageFormat::WebP) => Some(ImageKind::WebP),
        Ok(image::ImageFormat::Bmp) => Some(ImageKind::Bmp),
        Ok(image::ImageFormat::Tiff) => Some(ImageKind::Tiff),
        Ok(_) => Some(ImageKind::Other),
        Err(_) => None,
    }
}

/// Calls `image::load_from_memory` and reads the image's width and height;
/// a failure gives the error's text. The contract claims that it succeeds
/// exactly when `decoded_size(data)` is known, with that size; nothing is
/// claimed of the error text. It rests on an assumption the crate documents
/// but its source does not settle for every enabled decoder: that malformed
/// bytes give an error rather than a panic.
#[verifier::external_body]
fn decode_size(data: &[u8]) -> (r: Result<(u32, u32), String>)
    ensures
        r is Ok <==> decoded_size(data@) is Some,
        r matches Ok(s) ==> decoded_size(data@) == Some(s),
{
    match image::load_from_memory(data) {
        Ok(img) => Ok((img.width(), img.height())),
        Err(e) => Err(e.to_string()),
    }
}

/// What klipdot reports of an image.
#[derive(Debug, Clone)]
pub struct ImageInfo {
    pub width: u32,
    pub height: u32,
    pub format: String,
    pub size: u64,
}

/// The name klipdot gives a format.
pub open spec fn format_name(k: ImageKind) -> Seq<char> {
    match k {
        ImageKind::Png => "PNG"@,
        ImageKind::Jpeg => "JPEG"@,
        ImageKind::Gif => "GIF"@,
        ImageKind::WebP => "WebP"@,
        ImageKind::Bmp => "BMP"@,
        ImageKind::Tiff => "TIFF"@,
        ImageKind::Other => "Unknown"@,
    }
}

/// The name klipdot gives a format.
pub fn format_to_string(k: ImageKind) -> (s: String)
    ensures
        s@ == format_name(k),
{
    match k {
        ImageKind::Png => "PNG".to_owned(),
        ImageKind::Jpeg => "JPEG".to_owned(),
        ImageKind::Gif => "GIF".to_owned(),
        ImageKind::WebP => "WebP".to_owned(),
        ImageKind::Bmp => "BMP".to_owned(),
        ImageKind::Tiff => "TIFF".to_owned(),
        ImageKind::Other => "Unknown".to_owned(),
    }
}

/// Largest width or height kept when saving; larger images are scaled down.
pub const MAX_DIMENSION: u32 = 3840;

/// Checks and describes captured images under a configuration's limits.
#[derive(Debug, Clone)]
pub struct ImageProcessor {
    pub config: Config,
}

impl ImageProcessor {
    /// A processor for `config`.
    pub fn new(config: Config) -> (p: Self)
        ensures
            p.config == config,
    {
        ImageProcessor { config }
    }

    /// Checks image bytes before decoding: empty data, or data over the
    /// configured size limit, is an `InvalidInput` error.
    pub fn check_image_data(&self, data: &[u8]) -> (r: Result<(), Error>)
        ensures
            r is Ok <==> (data@.len() > 0 && data@.len() <= self.config.max_file_size),
            r matches Err(e) ==> e matches Error::InvalidInput(m) && m@ == if data@.len() == 0 {
                "Empty image data"@
            } else {
                "Image size "@ + decimal(data@.len()) + " exceeds maximum allowed size "@ + decimal(
                    self.config.max_file_size as nat,
                )
            },
    {
        if data.len() == 0 {
            return Err(Error::InvalidInput("Empty image data".to_owned()));
        }
        if data.len() as u64 > self.config.max_file_size {
            let mut m = String::new();
            m.push_str("Image size ");
            push_decimal(&mut m, data.len() as u64);
            m.push_str(" exceeds maximum allowed size ");
            push_decimal(&mut m, self.config.max_file_size);
            return Err(Error::InvalidInput(m));
        }
        Ok(())
    }

    /// Checks an image file's size before reading it: over the configured
    /// limit is an `InvalidInput` error.
    pub fn check_file_size(&self, size: u64) -> (r: Result<(), Error>)
        ensures
            r is Ok <==> size <= self.config.max_file_size,
            r matches Err(e) ==> e matches Error::InvalidInput(m) && m@ == "File size "@ + decimal(size as nat)
                + " exceeds maximum allowed size "@ + decimal(self.config.max_file_size as nat),
    {
        if size > self.config.max_file_size {
            let mut m = String::new();
            m.push_str("File size ");
            push_decimal(&mut m, size);
            m.push_str(" exceeds maximum allowed size ");
            push_decimal(&mut m, self.config.max_file_size);
            return Err(Error::InvalidInput(m));
        }
        Ok(())
    }

    /// Whether the `image` crate recognises the data's format.
    pub fn is_supported_format(&self, data: &[u8]) -> (r: bool)
        ensures
            r == guessed_format(data@) is Some,
    {
        guess_format(data).is_some()
    }

    /// Width, height, format name and byte size of an image. Data that does
    /// not decode, or whose format is not recognised, is an `Image` error.
    pub fn get_image_info(&self, data: &[u8]) -> (r: Result<ImageInfo, Error>)
        ensures
            r is Ok <==> (decoded_size(data@) is Some && guessed_format(data@) is Some),
            r matches Ok(i) ==> {
                &&& decoded_size(data@) == Some((i.width, i.height))
                &&& i.format@ == format_name(guessed_format(data@)->0)
                &&& i.size == data@.len()
            },
            r matches Err(e) ==> e is Image,
    {
        let size = match decode_size(data) {
            Ok(s) => s,
            Err(msg) => {
                return Err(Error::Image(msg));
            },
        };
        let format = match guess_format(data) {
            Some(k) => k,
            None => {
                return Err(Error::Image("The image format could not be determined".to_owned()));
            },
        };
        Ok(ImageInfo { width: size.0, height: size.1, format: format_to_string(format), size: data.len() as u64 })
    }

    /// Whether saving re-encodes the image: quality below 100.
    pub fn compresses(&self) -> (r: bool)
        ensures
            r == (self.config.compression_quality < 100),
    {
        self.config.compression_quality < 100
    }

    /// Whether compression also drops the alpha channel (to 8-bit RGB):
    /// quality below 50.
    pub fn reduces_color_depth(&self) -> (r: bool)
        ensures
            r == (self.config.compression_quality < 50),
    {
        self.config.compression_quality < 50
    }

    /// Whether an image of this size is scaled down before saving.
    pub fn needs_resize(width: u32, height: u32) -> (r: bool)
        ensures
            r == (width > MAX_DIMENSION || height > MAX_DIMENSION),
    {
        width > MAX_DIMENSION || height > MAX_DIMENSION
    }
}

} // verus!
