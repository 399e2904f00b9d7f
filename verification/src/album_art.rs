//! Decoding downloaded album art into RGBA pixels for display.
use vstd::prelude::*;

verus! {

/// What the `image` crate's `load_from_memory` makes of `bytes`, converted to
/// 8-bit RGBA: width, height and pixel bytes; `None` when it cannot decode
/// them (with the formats this build enables).
pub uninterp spec fn decoded_rgba(bytes: Seq<u8>) -> Option<(u32, u32, Seq<u8>)>;

/// Decodes `bytes` with `image::load_from_memory` (format guessed from the
/// data), converts the picture with `to_rgba8` and hands back its dimensions
/// and raw pixel bytes; the error is rendered with `to_string`. The contract
/// claims only that the outcome is the decoder's for `bytes`; the error text
/// is left unstated.
#[verifier::external_body]
fn decode_rgba(bytes: &[u8]) -> (r: Result<(u32, u32, Vec<u8>), String>)
    ensures
        r is Ok <==> decoded_rgba(bytes@) is Some,
        r matches Ok(t) ==> decoded_rgba(bytes@) == Some((t.0, t.1, t.2@)),
{
    match image::load_from_memory(bytes) {
        Ok(img) => {
            let rgba = img.to_rgba8();
            let (width, height) = rgba.dimensions();
            Ok((width, height, rgba.into_raw()))
        },
        Err(e) => Err(e.to_string()),
    }
}

/// A decoded picture: `rgba` holds four bytes per pixel, row by row.
pub struct AlbumArt {
    pub width: u32,
    pub height: u32,
    pub rgba: Vec<u8>,
}

/// Decodes downloaded album art.
pub fn decode_album_art(bytes: &[u8]) -> (r: Result<AlbumArt, String>)
    ensures
        r is Ok <==> decoded_rgba(bytes@) is Some,
        r matches Ok(a) ==> decoded_rgba(bytes@) == Some((a.width, a.height, a.rgba@)),
{
    match decode_rgba(bytes) {
        Ok((width, height, rgba)) => Ok(AlbumArt { width, height, rgba }),
        Err(e) => Err(e),
    }
}

} // verus!
