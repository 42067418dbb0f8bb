//! From a text payload to the PNG picture of its QR symbol, as bytes and as
//! base64 text.

use vstd::prelude::*;
use vstd::utf8::encode_utf8;
use crate::failure::EncodeError;
use crate::radix64::{base64_bytes, base64_text, lemma_base64_round_trip, max_source_len, text_of};
use crate::raster::{png_bytes, png_of, render, rendering, QUIET_ZONE};
use crate::symbol::{symbol_for, symbol_of};

verus! {

/// The PNG bytes for a payload: the picture of its symbol, serialised. No
/// symbol for the payload is an `Encoding` error, no serialisation of the
/// picture an `Io` error.
pub open spec fn png_for(payload: Seq<u8>) -> Result<Seq<u8>, EncodeError> {
    match symbol_of(payload) {
        None => Err(EncodeError::Encoding),
        Some(grid) => match png_of(rendering(grid, QUIET_ZONE as nat)) {
            None => Err(EncodeError::Io),
            Some(bytes) => Ok(bytes),
        },
    }
}

/// The base64 text for a payload: that of its PNG bytes. Bytes too many for
/// their text to fit in a string are an `Io` error.
pub open spec fn text_for(payload: Seq<u8>) -> Result<Seq<char>, EncodeError> {
    match png_for(payload) {
        Err(e) => Err(e),
        Ok(bytes) => if bytes.len() <= max_source_len() {
            Ok(base64_text(bytes))
        } else {
            Err(EncodeError::Io)
        },
    }
}

/// What a result of `qr_png_for` holds.
pub open spec fn image_view(image: Result<Vec<u8>, EncodeError>) -> Result<Seq<u8>, EncodeError> {
    match image {
        Ok(bytes) => Ok(bytes@),
        Err(e) => Err(e),
    }
}

/// What a result of `qr_png_b64` holds.
pub open spec fn text_view(text: Result<String, EncodeError>) -> Result<Seq<char>, EncodeError> {
    match text {
        Ok(chars) => Ok(chars@),
        Err(e) => Err(e),
    }
}

/// The QR code for `url` as a PNG image: eight-bit grayscale, each module
/// eight by eight pixels, with a quiet zone of four modules. The symbol
/// carries the UTF-8 bytes of `url`.
pub fn qr_png_for(url: String) -> (image: Result<Vec<u8>, EncodeError>)
    ensures
        image_view(image) == png_for(encode_utf8(url@)),
{
    let symbol = match symbol_for(url.as_str().as_bytes()) {
        Ok(symbol) => symbol,
        Err(e) => {
            return Err(e);
        },
    };
    let picture = render(&symbol);
    png_bytes(&picture)
}

/// The QR code for `url` as the base64 text of its PNG image.
pub fn qr_png_b64(url: String) -> (text: Result<String, EncodeError>)
    ensures
        text_view(text) == text_for(encode_utf8(url@)),
{
    let png_bytes = match qr_png_for(url) {
        Ok(bytes) => bytes,
        Err(e) => {
            return Err(e);
        },
    };
    match text_of(png_bytes.as_slice()) {
        Some(text) => Ok(text),
        None => Err(EncodeError::Io),
    }
}

/// The text for a payload, decoded from base64, is the image for that
/// payload, byte for byte; and there is a text wherever there is an image
/// whose text fits in a string.
pub proof fn lemma_text_decodes_to_image(payload: Seq<u8>)
    ensures
        match text_for(payload) {
            Ok(text) => png_for(payload).is_ok() && base64_bytes(text) == Some(
                png_for(payload).unwrap(),
            ),
            Err(e) => png_for(payload) == Err::<Seq<u8>, EncodeError>(e) || (png_for(payload).is_ok()
                && png_for(payload).unwrap().len() > max_source_len() && e == EncodeError::Io),
        },
{
    if let Ok(bytes) = png_for(payload) {
        lemma_base64_round_trip(bytes);
    }
}

/// Encoding is repeatable: two results of `qr_png_for` for one payload are
/// the same bytes, or the same error.
pub proof fn lemma_image_is_repeatable(
    url: Seq<char>,
    first: Result<Vec<u8>, EncodeError>,
    second: Result<Vec<u8>, EncodeError>,
)
    requires
        image_view(first) == png_for(encode_utf8(url)),
        image_view(second) == png_for(encode_utf8(url)),
    ensures
        image_view(first) == image_view(second),
        first.is_ok() ==> second.is_ok() && first.unwrap()@ == second.unwrap()@,
{
}

} // verus!
