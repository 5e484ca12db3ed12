//! In-memory image representation used by the encoder.

use vstd::prelude::*;

verus! {

/// A PNG image with its pixel size and an optional alternative text.
#[derive(Debug, Clone)]
pub struct ImageData {
    pub png_bytes: Vec<u8>,
    pub width: u32,
    pub height: u32,
    pub alt_text: Option<String>,
}

impl ImageData {
    /// Constructs from raw PNG bytes (no re-encoding; width and height must be
    /// provided).
    pub fn from_png(png_bytes: Vec<u8>, width: u32, height: u32, alt: Option<String>) -> (img: Self)
        ensures
            img.png_bytes@ == png_bytes@,
            img.width == width,
            img.height == height,
            img.alt_text == alt,
    {
        ImageData { png_bytes, width, height, alt_text: alt }
    }
}

/// The PNG re-encoding of `bytes` read as the image format that the file
/// extension `ext` names, with the image's width and height, as the `image`
/// crate decodes and encodes it; `None` when `ext` names no format the crate
/// knows, or the bytes do not decode, or the image does not encode.
pub uninterp spec fn png_reencoded(bytes: Seq<u8>, ext: Seq<char>) -> Option<(Seq<u8>, u32, u32)>;

/// Calls `image::ImageFormat::from_extension`, `image::load_from_memory_with_format`
/// and `DynamicImage::write_to` with `ImageFormat::Png`. The contract claims
/// that it succeeds exactly when `png_reencoded(bytes, ext)` is known, with
/// that PNG and size; nothing is claimed of the error text. It rests on an
/// assumption the crate documents but its source does not settle for every
/// enabled decoder: that malformed bytes give an error rather than a panic.
#[verifier::external_body]
fn reencode_png(bytes: &[u8], ext: &str) -> (r: Result<(Vec<u8>, u32, u32), String>)
    ensures
        r is Ok <==> png_reencoded(bytes@, ext@) is Some,
        r matches Ok(t) ==> png_reencoded(bytes@, ext@) == Some((t.0@, t.1, t.2)),
{
    let format = image::ImageFormat::from_extension(ext).ok_or_else(|| format!("unsupported image extension: {}", ext))?;
    let img = image::load_from_memory_with_format(bytes, format).map_err(|e| e.to_string())?;
    let mut png = Vec::new();
    img.write_to(&mut std::io::Cursor::new(&mut png), image::ImageFormat::Png).map_err(|e| e.to_string())?;
    Ok((png, img.width(), img.height()))
}

/// The image held by the encoded file contents `bytes`, whose file extension
/// is `ext`, re-encoded as PNG so the kitty `f=100` path always works, with
/// the file's name as alternative text; an error when the extension names no
/// known format or the contents do not decode.
pub fn image_data_from_encoded(bytes: &[u8], ext: &str, file_name: Option<&str>) -> (r: Result<ImageData, String>)
    ensures
        r is Ok <==> png_reencoded(bytes@, ext@) is Some,
        r matches Ok(i) ==> {
            &&& png_reencoded(bytes@, ext@) == Some((i.png_bytes@, i.width, i.height))
            &&& match file_name {
                Some(n) => i.alt_text matches Some(a) && a@ == n@,
                None => i.alt_text is None,
            }
        },
{
    let (png_bytes, width, height) = reencode_png(bytes, ext)?;
    let alt_text = match file_name {
        Some(n) => Some(n.to_owned()),
        None => None,
    };
    Ok(ImageData { png_bytes, width, height, alt_text })
}

} // verus!
