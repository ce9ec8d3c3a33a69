//! The two decode operations: a file path given as UTF-16, and an image given
//! as bytes, answered through a caller's UTF-16 buffer and a status code.
use vstd::prelude::*;
use crate::codecs::{decode_utf16_le, detect_qr, load_image, loaded_image, qr_read};
use crate::output::{delivery_buffer, delivery_result, process_result};
use crate::status::{failure_code, status_code, status_of, Failure, OverflowPolicy};
use crate::utf16::{
    is_utf16, is_utf16_le, le_bytes, lemma_le_bytes_injective, to_le_bytes, utf16_of,
};

verus! {

/// Reads a file path given as UTF-16 code units. It is refused, with
/// `Failure::InvalidEncoding`, exactly when the units are not well-formed
/// UTF-16; otherwise the path is the text those units encode.
pub fn decode_file_path(file_path: &[u16]) -> (r: Result<String, Failure>)
    requires
        2 * file_path@.len() <= usize::MAX,
    ensures
        r is Ok <==> is_utf16(file_path@),
        r matches Ok(s) ==> utf16_of(s@) == file_path@,
        r matches Err(f) ==> f == Failure::InvalidEncoding,
{
    let bytes = to_le_bytes(file_path);
    let decoded = decode_utf16_le(bytes.as_slice());
    proof {
        if is_utf16_le(bytes@) {
            let t = choose|t: Seq<char>| le_bytes(utf16_of(t)) == bytes@;
            lemma_le_bytes_injective(utf16_of(t), file_path@);
        }
        if is_utf16(file_path@) {
            let t = choose|t: Seq<char>| utf16_of(t) == file_path@;
            assert(le_bytes(utf16_of(t)) == bytes@);
        }
    }
    match decoded {
        Some(s) => {
            proof {
                lemma_le_bytes_injective(utf16_of(s@), file_path@);
            }
            Ok(s)
        },
        None => Err(Failure::InvalidEncoding),
    }
}

/// What decoding an encoded image comes to: bytes that are not an image give
/// `Failure::ImageLoad`; otherwise the text the QR reader finds, or
/// `Failure::NotFound` where it located no barcode, or `Failure::Decode` for
/// another failure of the reader.
pub open spec fn image_outcome(bytes: Seq<u8>) -> Result<Seq<char>, Failure> {
    match loaded_image(bytes) {
        None => Err(Failure::ImageLoad),
        Some(img) => match qr_read(img) {
            Ok(t) => Ok(t),
            Err(not_found) => Err(
                if not_found {
                    Failure::NotFound
                } else {
                    Failure::Decode
                },
            ),
        },
    }
}

/// Loads an image from its encoded bytes and reads the QR code in it, as
/// `image_outcome` says. With the reader of rxing 0.9.3 every failure to read
/// a barcode is reported as not found, so `Failure::Decode` does not occur in
/// practice.
pub fn decode_image_text(image_buffer: &[u8]) -> (r: Result<String, Failure>)
    ensures
        match image_outcome(image_buffer@) {
            Ok(t) => r matches Ok(s) && s@ == t,
            Err(f) => r == Err::<String, Failure>(f),
        },
{
    match load_image(image_buffer) {
        Err(_) => Err(Failure::ImageLoad),
        Ok(img) => match detect_qr(img) {
            Ok(text) => Ok(text),
            Err(not_found) => if not_found {
                Err(Failure::NotFound)
            } else {
                Err(Failure::Decode)
            },
        },
    }
}

/// The code and the buffer that a decode outcome gives: a text is delivered
/// into the buffer under `policy`; a failure leaves the buffer as it was.
pub open spec fn answers(
    outcome: Result<Seq<char>, Failure>,
    before: Seq<u16>,
    policy: OverflowPolicy,
    code: i32,
    after: Seq<u16>,
) -> bool {
    match outcome {
        Ok(t) => {
            &&& code == status_of(delivery_result(utf16_of(t).len(), before.len(), policy))
            &&& after == delivery_buffer(utf16_of(t), before, policy)
        },
        Err(f) => code == failure_code(f) && after == before,
    }
}

/// Calls keep no state: two calls with the same outcome, the same buffer
/// before and the same policy give the same code and the same buffer after.
pub proof fn lemma_answers_agree(
    outcome: Result<Seq<char>, Failure>,
    before: Seq<u16>,
    policy: OverflowPolicy,
    code1: i32,
    after1: Seq<u16>,
    code2: i32,
    after2: Seq<u16>,
)
    requires
        answers(outcome, before, policy, code1, after1),
        answers(outcome, before, policy, code2, after2),
    ensures
        code1 == code2,
        after1 == after2,
{
}

/// Decodes the QR code in an encoded image and writes its text, as UTF-16, to
/// `decoded`: the code and the buffer are those that `image_outcome` gives
/// under `policy`. A failure leaves the buffer untouched.
pub fn decode_qr_code_from_image(
    image_buffer: &[u8],
    decoded: &mut [u16],
    policy: OverflowPolicy,
) -> (code: i32)
    ensures
        answers(image_outcome(image_buffer@), old(decoded)@, policy, code, final(decoded)@),
{
    let text = decode_image_text(image_buffer);
    let delivered = process_result(text, decoded, policy);
    status_code(delivered)
}

} // verus!
