//! The calls into the text-encoding, image and barcode crates, each with the
//! contract the rest of the library relies on.
use vstd::prelude::*;
use encoding::Encoding;
use crate::utf16::{is_utf16_le, le_bytes, utf16_of};

verus! {

#[verifier::external_type_specification]
#[verifier::external_body]
pub struct ExDynamicImage(image::DynamicImage);

#[verifier::external_type_specification]
#[verifier::external_body]
pub struct ExImageError(image::ImageError);

/// What `image::load_from_memory` makes of these bytes: the image, or `None`
/// where they are not one. The format is guessed from the bytes and the
/// limits are fixed, so it depends on the bytes alone.
pub uninterp spec fn loaded_image(bytes: Seq<u8>) -> Option<image::DynamicImage>;

/// What the QR reader finds in an image: the text, or `Err(true)` where no
/// barcode was located and `Err(false)` for any other failure. The reader is
/// made afresh with fixed hints, so it depends on the image alone.
pub uninterp spec fn qr_read(img: image::DynamicImage) -> Result<Seq<char>, bool>;

/// Relies on `encoding::all::UTF_16LE.decode` with `DecoderTrap::Strict`:
/// it succeeds exactly on well-formed UTF-16LE (no unpaired surrogate, no
/// odd trailing byte), and the text it returns encodes back to the bytes.
#[verifier::external_body]
pub(crate) fn decode_utf16_le(bytes: &[u8]) -> (r: Option<String>)
    ensures
        r is Some <==> is_utf16_le(bytes@),
        r matches Some(s) ==> le_bytes(utf16_of(s@)) == bytes@,
{
    encoding::all::UTF_16LE.decode(bytes, encoding::DecoderTrap::Strict).ok()
}

/// Relies on `image::load_from_memory`: the format is guessed from the bytes,
/// and the image is decoded or an error returned.
#[verifier::external_body]
pub(crate) fn load_image(bytes: &[u8]) -> (r: Result<image::DynamicImage, image::ImageError>)
    ensures
        r is Ok <==> loaded_image(bytes@) is Some,
        r matches Ok(img) ==> loaded_image(bytes@) == Some(img),
{
    image::load_from_memory(bytes)
}

/// Relies on `rxing::helpers::detect_in_image` restricted to QR codes (which
/// also sets the try-harder hint): the text of the barcode found, or whether
/// the failure was `Exceptions::NotFoundException`.
#[verifier::external_body]
pub(crate) fn detect_qr(img: image::DynamicImage) -> (r: Result<String, bool>)
    ensures
        match r {
            Ok(s) => qr_read(img) == Ok::<Seq<char>, bool>(s@),
            Err(not_found) => qr_read(img) == Err::<Seq<char>, bool>(not_found),
        },
{
    match rxing::helpers::detect_in_image(img, Some(rxing::BarcodeFormat::QR_CODE)) {
        Ok(found) => Ok(found.getText().to_string()),
        Err(e) => Err(matches!(e, rxing::Exceptions::NotFoundException(_))),
    }
}

} // verus!
