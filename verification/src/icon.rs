//! The window's icon.

use vstd::prelude::*;

verus! {

/// An icon: four bytes for each pixel, row by row.
#[derive(Debug)]
pub struct IconData {
    pub rgba: Vec<u8>,
    pub width: u32,
    pub height: u32,
}

/// What `image::ImageReader` makes of bytes read as PNG: the RGBA pixels, the
/// width and the height, or the error, displayed.
pub uninterp spec fn png_rgba8(bytes: Seq<u8>) -> Result<(Seq<u8>, u32, u32), Seq<char>>;

/// Calls `image::ImageReader::decode` on bytes in the PNG format, and takes
/// the image apart with `into_rgba8`, `dimensions` and `into_raw`. The result
/// is a function of the bytes alone, and an image has four bytes a pixel.
#[verifier::external_body]
fn decode_png(bytes: &[u8]) -> (decoded: Result<IconData, String>)
    ensures
        match decoded {
            Ok(icon) => png_rgba8(bytes@) == Ok::<(Seq<u8>, u32, u32), Seq<char>>(
                (icon.rgba@, icon.width, icon.height),
            ),
            Err(e) => png_rgba8(bytes@) == Err::<(Seq<u8>, u32, u32), Seq<char>>(e@),
        },
        decoded matches Ok(icon) ==> icon.rgba@.len() == 4 * icon.width * icon.height,
{
    let cursor = std::io::Cursor::new(bytes);
    match image::ImageReader::with_format(cursor, image::ImageFormat::Png).decode() {
        Ok(image) => {
            let pixels = image.into_rgba8();
            let (width, height) = pixels.dimensions();
            Ok(IconData { rgba: pixels.into_raw(), width, height })
        },
        Err(e) => Err(e.to_string()),
    }
}

/// The icon from what came of its decoding.
pub fn icon_from_decoded(decoded: Result<IconData, String>) -> (icon: Result<IconData, String>)
    ensures
        match decoded {
            Ok(d) => icon == Ok::<IconData, String>(d),
            Err(e) => icon matches Err(m) && m@ == "Failed to decode embedded icon image: "@ + e@,
        },
{
    match decoded {
        Ok(icon) => Ok(icon),
        Err(e) => Err(
            "Failed to decode embedded icon image: ".to_string().concat(e.as_str()),
        ),
    }
}

/// The icon that is stored as PNG in `bytes`.
pub fn load_icon_from_embedded_png(bytes: &[u8]) -> (icon: Result<IconData, String>)
    ensures
        match png_rgba8(bytes@) {
            Ok((rgba, width, height)) => {
                &&& icon matches Ok(i)
                &&& i.rgba@ == rgba && i.width == width && i.height == height
                &&& i.rgba@.len() == 4 * i.width * i.height
            },
            Err(e) => icon matches Err(m) && m@ == "Failed to decode embedded icon image: "@ + e,
        },
{
    icon_from_decoded(decode_png(bytes))
}

} // verus!
