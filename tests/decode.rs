use nerdbank_qrcodes::adapter::{decode_file_path, decode_image_text, decode_qr_code_from_image};
use nerdbank_qrcodes::output::{copy_units, process_result};
use nerdbank_qrcodes::status::{
    status_code, Failure, OverflowPolicy, BUFFER_TOO_SMALL, IMAGE_ERROR, INVALID_UTF16_STRING,
    QR_DECODE_ERROR, QR_DECODE_NO_QR_CODE,
};
use nerdbank_qrcodes::utf16::{encode_utf16, to_le_bytes};
use rxing::Writer;

const UNTOUCHED: u16 = 0xFFFF;

fn png_bytes(img: &image::DynamicImage) -> Vec<u8> {
    let mut bytes: Vec<u8> = Vec::new();
    img.write_to(&mut std::io::Cursor::new(&mut bytes), image::ImageFormat::Png)
        .expect("png encoding");
    bytes
}

fn qr_png(text: &str) -> Vec<u8> {
    let matrix = rxing::qrcode::QRCodeWriter
        .encode(text, &rxing::BarcodeFormat::QR_CODE, 200, 200)
        .expect("qr encoding");
    let img: image::DynamicImage = (&matrix).into();
    png_bytes(&img)
}

fn white_png() -> Vec<u8> {
    let canvas = image::GrayImage::from_pixel(120, 120, image::Luma([255u8]));
    png_bytes(&image::DynamicImage::ImageLuma8(canvas))
}

fn units(s: &str) -> Vec<u16> {
    s.encode_utf16().collect()
}

#[test]
fn white_canvas_is_not_found() {
    let mut out = vec![UNTOUCHED; 32];
    let code = decode_qr_code_from_image(&white_png(), &mut out, OverflowPolicy::Strict);
    assert_eq!(code, QR_DECODE_NO_QR_CODE);
    assert!(out.iter().all(|&u| u == UNTOUCHED));
    assert_eq!(decode_image_text(&white_png()), Err(Failure::NotFound));
}

#[test]
fn garbage_bytes_are_an_image_error() {
    let mut out = vec![UNTOUCHED; 32];
    let code = decode_qr_code_from_image(&[1, 2, 3, 4, 5, 6, 7, 8], &mut out, OverflowPolicy::Strict);
    assert_eq!(code, IMAGE_ERROR);
    assert!(out.iter().all(|&u| u == UNTOUCHED));
}

#[test]
fn truncated_png_is_an_image_error() {
    let bytes = qr_png("HELLO");
    let truncated = &bytes[..bytes.len() / 2];
    let mut out = vec![UNTOUCHED; 32];
    let code = decode_qr_code_from_image(truncated, &mut out, OverflowPolicy::BestEffort);
    assert_eq!(code, IMAGE_ERROR);
    assert!(out.iter().all(|&u| u == UNTOUCHED));
}

#[test]
fn empty_buffer_is_an_image_error() {
    assert_eq!(decode_image_text(&[]), Err(Failure::ImageLoad));
}

#[test]
fn hello_qr_into_32_unit_buffer() {
    let mut out = vec![UNTOUCHED; 32];
    let code = decode_qr_code_from_image(&qr_png("HELLO"), &mut out, OverflowPolicy::Strict);
    assert_eq!(code, 5);
    assert_eq!(&out[..5], units("HELLO").as_slice());
    assert!(out[5..].iter().all(|&u| u == UNTOUCHED));
}

#[test]
fn qr_text_decodes_to_the_same_text() {
    assert_eq!(decode_image_text(&qr_png("https://example.com/a?b=c")), Ok("https://example.com/a?b=c".to_string()));
}

#[test]
fn strict_overflow_leaves_buffer_untouched() {
    let mut out = vec![UNTOUCHED; 4];
    let code = decode_qr_code_from_image(&qr_png("HELLO WORLD"), &mut out, OverflowPolicy::Strict);
    assert_eq!(code, BUFFER_TOO_SMALL);
    assert_eq!(out, vec![UNTOUCHED; 4]);
}

#[test]
fn best_effort_truncates_and_reports_full_length() {
    let mut out = vec![UNTOUCHED; 4];
    let code = decode_qr_code_from_image(&qr_png("HELLO WORLD"), &mut out, OverflowPolicy::BestEffort);
    assert_eq!(code, 11);
    assert_eq!(out, units("HELL"));
}

#[test]
fn exact_fit_writes_everything() {
    let mut out = vec![UNTOUCHED; 5];
    let code = decode_qr_code_from_image(&qr_png("HELLO"), &mut out, OverflowPolicy::Strict);
    assert_eq!(code, 5);
    assert_eq!(out, units("HELLO"));
}

#[test]
fn copy_units_strict_refuses_long_text() {
    let mut out = vec![7u16, 8];
    assert_eq!(copy_units(&[1, 2, 3], &mut out, OverflowPolicy::Strict), Err(Failure::BufferOverflow));
    assert_eq!(out, vec![7, 8]);
}

#[test]
fn copy_units_best_effort_fills_capacity() {
    let mut out = vec![7u16, 8];
    assert_eq!(copy_units(&[1, 2, 3], &mut out, OverflowPolicy::BestEffort), Ok(3));
    assert_eq!(out, vec![1, 2]);
}

#[test]
fn copy_units_short_text_keeps_the_tail() {
    let mut out = vec![7u16, 8, 9, 10];
    assert_eq!(copy_units(&[1, 2], &mut out, OverflowPolicy::Strict), Ok(2));
    assert_eq!(out, vec![1, 2, 9, 10]);
}

#[test]
fn copy_units_into_empty_buffer() {
    let mut out: Vec<u16> = Vec::new();
    assert_eq!(copy_units(&[1, 2], &mut out, OverflowPolicy::BestEffort), Ok(2));
    assert_eq!(copy_units(&[1, 2], &mut out, OverflowPolicy::Strict), Err(Failure::BufferOverflow));
    assert_eq!(copy_units(&[], &mut out, OverflowPolicy::Strict), Ok(0));
}

#[test]
fn process_result_encodes_surrogate_pairs() {
    let mut out = vec![UNTOUCHED; 4];
    let r = process_result(Ok("a\u{1F600}".to_string()), &mut out, OverflowPolicy::Strict);
    assert_eq!(r, Ok(3));
    assert_eq!(out, vec![0x61, 0xD83D, 0xDE00, UNTOUCHED]);
}

#[test]
fn process_result_passes_failures_through() {
    let mut out = vec![UNTOUCHED; 2];
    let r = process_result(Err(Failure::Decode), &mut out, OverflowPolicy::BestEffort);
    assert_eq!(r, Err(Failure::Decode));
    assert_eq!(out, vec![UNTOUCHED; 2]);
}

#[test]
fn status_codes_are_distinct() {
    assert_eq!(status_code(Ok(0)), 0);
    assert_eq!(status_code(Ok(5)), 5);
    assert_eq!(status_code(Err(Failure::InvalidEncoding)), INVALID_UTF16_STRING);
    assert_eq!(status_code(Err(Failure::ImageLoad)), IMAGE_ERROR);
    assert_eq!(status_code(Err(Failure::Decode)), QR_DECODE_ERROR);
    assert_eq!(status_code(Err(Failure::NotFound)), QR_DECODE_NO_QR_CODE);
    assert_eq!(status_code(Err(Failure::BufferOverflow)), BUFFER_TOO_SMALL);
    assert_eq!(status_code(Ok(i32::MAX as usize)), i32::MAX);
    assert_eq!(status_code(Ok(i32::MAX as usize + 1)), BUFFER_TOO_SMALL);
    let codes = [INVALID_UTF16_STRING, IMAGE_ERROR, QR_DECODE_ERROR, QR_DECODE_NO_QR_CODE, BUFFER_TOO_SMALL];
    for (i, a) in codes.iter().enumerate() {
        assert!(*a < 0);
        for b in &codes[i + 1..] {
            assert_ne!(a, b);
        }
    }
}

#[test]
fn encode_utf16_matches_std() {
    for s in ["", "HELLO", "é", "\u{FFFF}", "\u{10000}", "x\u{10FFFF}y", "日本語\u{1F600}"] {
        assert_eq!(encode_utf16(s), units(s));
    }
}

#[test]
fn le_bytes_put_the_low_byte_first() {
    assert_eq!(to_le_bytes(&[0x1234, 0x00FF]), vec![0x34, 0x12, 0xFF, 0x00]);
    assert_eq!(to_le_bytes(&[]), Vec::<u8>::new());
}

#[test]
fn file_path_decodes_to_its_text() {
    let path = "C:\\images\\code.png";
    assert_eq!(decode_file_path(&units(path)), Ok(path.to_string()));
    let wide = "/tmp/\u{1F600}\u{E9}.png";
    assert_eq!(decode_file_path(&units(wide)), Ok(wide.to_string()));
    assert_eq!(decode_file_path(&[]), Ok(String::new()));
}

#[test]
fn file_path_with_unpaired_surrogate_is_invalid() {
    assert_eq!(decode_file_path(&[0x61, 0xD800]), Err(Failure::InvalidEncoding));
    assert_eq!(decode_file_path(&[0xD800, 0x61]), Err(Failure::InvalidEncoding));
    assert_eq!(decode_file_path(&[0xDC00]), Err(Failure::InvalidEncoding));
    assert_eq!(decode_file_path(&[0xDE00, 0xD83D]), Err(Failure::InvalidEncoding));
    assert_eq!(status_code(decode_file_path(&[0xDC00]).map(|s| s.len())), INVALID_UTF16_STRING);
}

#[test]
fn round_trip_through_the_boundary_encoding() {
    for s in ["HELLO", "", "a\u{1F600}b", "\u{D7FF}\u{E000}\u{10FFFF}"] {
        let encoded = encode_utf16(s);
        assert_eq!(decode_file_path(&encoded), Ok(s.to_string()));
    }
}

#[test]
fn best_effort_retry_with_reported_length_gets_whole_text() {
    let bytes = qr_png("HELLO WORLD");
    let mut short = vec![UNTOUCHED; 4];
    let needed = decode_qr_code_from_image(&bytes, &mut short, OverflowPolicy::BestEffort);
    assert_eq!(needed, 11);
    let mut long = vec![UNTOUCHED; needed as usize];
    assert_eq!(decode_qr_code_from_image(&bytes, &mut long, OverflowPolicy::BestEffort), 11);
    assert_eq!(long, units("HELLO WORLD"));
    assert_eq!(&long[..4], short.as_slice());
}

#[test]
fn equal_calls_give_equal_answers() {
    let bytes = qr_png("same");
    let mut a = vec![UNTOUCHED; 8];
    let mut b = vec![UNTOUCHED; 8];
    let ca = decode_qr_code_from_image(&bytes, &mut a, OverflowPolicy::Strict);
    let cb = decode_qr_code_from_image(&bytes, &mut b, OverflowPolicy::Strict);
    assert_eq!(ca, 4);
    assert_eq!(ca, cb);
    assert_eq!(a, b);
}
