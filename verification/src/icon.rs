//! The window icon: PNG bytes decoded into RGBA8 pixels.

use vstd::prelude::*;

verus! {

broadcast use vstd::string::group_string_axioms;

/// What the `image` crate's built-in PNG decoder makes of `bytes`: the
/// pixels as RGBA8, row by row, with the width and height; or the text of
/// the decoder's error.
pub uninterp spec fn decoded_rgba(bytes: Seq<u8>) -> Result<(Seq<u8>, u32, u32), Seq<char>>;

/// Decodes `bytes` as PNG with `image::load_from_memory_with_format` and
/// converts the image with `DynamicImage::into_rgba8`. With the format
/// given, the reader uses the crate's built-in PNG decoder and its default
/// limits, and consults none of the decoding or format-detection hooks that
/// code can register at run time. Trusted: the result is what that decoder
/// gives for `bytes`; nothing is stated of the pixels beyond that.
#[verifier::external_body]
fn decode_rgba(bytes: &[u8]) -> (r: Result<(Vec<u8>, u32, u32), String>)
    ensures
        match r {
            Ok((pixels, width, height)) => decoded_rgba(bytes@) == Ok::<
                (Seq<u8>, u32, u32),
                Seq<char>,
            >((pixels@, width, height)),
            Err(message) => decoded_rgba(bytes@) == Err::<(Seq<u8>, u32, u32), Seq<char>>(
                message@,
            ),
        },
{
    match image::load_from_memory_with_format(bytes, image::ImageFormat::Png) {
        Ok(img) => {
            let rgba = img.into_rgba8();
            let (width, height) = rgba.dimensions();
            Ok((rgba.into_raw(), width, height))
        },
        Err(err) => Err(err.to_string()),
    }
}

/// The report of an icon that could not be decoded.
pub open spec fn icon_failure(error: Seq<char>) -> Seq<char> {
    "Failed to decode window icon: "@ + error
}

/// The icon from a decoder's result: the pixels, width and height as they
/// came, or the report of the decoder's error.
pub fn icon_from_decoded(decoded: Result<(Vec<u8>, u32, u32), String>) -> (r: Result<
    (Vec<u8>, u32, u32),
    String,
>)
    ensures
        match decoded {
            Ok((pixels, width, height)) => r matches Ok((p, w, h)) && p@ == pixels@ && w == width
                && h == height,
            Err(error) => r matches Err(message) && message@ == icon_failure(error@),
        },
{
    match decoded {
        Ok(icon) => Ok(icon),
        Err(error) => {
            let mut message = "Failed to decode window icon: ".to_string();
            message.append(error.as_str());
            Err(message)
        },
    }
}

/// The window icon that the PNG image `bytes` holds, or the report of
/// why it cannot be decoded.
pub fn decode_icon(bytes: &[u8]) -> (r: Result<(Vec<u8>, u32, u32), String>)
    ensures
        match decoded_rgba(bytes@) {
            Ok((pixels, width, height)) => r matches Ok((p, w, h)) && p@ == pixels && w == width
                && h == height,
            Err(error) => r matches Err(message) && message@ == icon_failure(error),
        },
{
    icon_from_decoded(decode_rgba(bytes))
}

} // verus!
