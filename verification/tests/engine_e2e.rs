use barcode_bridge::decode_hints::{DecodeHintDictionary, DecodeHintTypes};
use barcode_bridge::{
    decode_barcode, decode_barcode_rgb, decode_barcode_with_hints, decode_multi, encode_barcode,
    BarcodeFormat,
};

/// Reads the textual matrix back into per-cell luma bytes: each cell is
/// two characters wide, `X ` for a set (dark) module.
fn matrix_to_luma(matrix: &str) -> (Vec<u8>, u32, u32) {
    let lines: Vec<&str> = matrix.lines().collect();
    let height = lines.len() as u32;
    let chars: Vec<char> = lines[0].chars().collect();
    let width = ((chars.len() + 1) / 2) as u32;
    let mut luma = Vec::new();
    for line in &lines {
        let row: Vec<char> = line.chars().collect();
        for x in 0..width as usize {
            let dark = row.get(2 * x).copied() == Some('X');
            luma.push(if dark { 0u8 } else { 255u8 });
        }
    }
    (luma, width, height)
}

#[test]
fn encode_then_decode_round_trips_the_text() {
    let matrix = encode_barcode("HELLO", 200, 60, BarcodeFormat::Code128).unwrap();
    let (luma, width, height) = matrix_to_luma(&matrix);
    let result = decode_barcode(luma, width, height, Some(true), None).unwrap();
    assert_eq!(result.text(), "HELLO".to_string());
    assert!(matches!(result.format(), BarcodeFormat::Code128));
}

#[test]
fn decode_honors_a_format_hint() {
    let matrix = encode_barcode("HINTED", 200, 60, BarcodeFormat::Code128).unwrap();
    let (luma, width, height) = matrix_to_luma(&matrix);
    let mut hints = DecodeHintDictionary::new();
    assert!(hints.set_hint(DecodeHintTypes::PossibleFormats, "code 128".to_string()));
    assert!(hints.set_hint(DecodeHintTypes::TryHarder, "true".to_string()));
    let result = decode_barcode_with_hints(luma, width, height, &mut hints, None).unwrap();
    assert_eq!(result.text(), "HINTED".to_string());
    // The call never touches the caller's option store.
    assert_eq!(hints.get_hint(DecodeHintTypes::PossibleFormats), Some("code 128".to_string()));
}

#[test]
fn decode_rgb_reads_packed_pixels() {
    let matrix = encode_barcode("RGB42", 200, 60, BarcodeFormat::Code128).unwrap();
    let (luma, width, height) = matrix_to_luma(&matrix);
    let pixels: Vec<u32> = luma
        .iter()
        .map(|&l| if l == 0 { 0x0000_0000 } else { 0x00FF_FFFF })
        .collect();
    let result = decode_barcode_rgb(pixels, width, height, None).unwrap();
    assert_eq!(result.text(), "RGB42".to_string());
}

#[test]
fn decode_multi_wraps_results_in_a_cursor() {
    let matrix = encode_barcode("MULTI7", 200, 60, BarcodeFormat::Code128).unwrap();
    let (luma, width, height) = matrix_to_luma(&matrix);
    let mut hints = DecodeHintDictionary::new();
    let mut cursor = decode_multi(luma, width, height, &mut hints).unwrap();
    let first = cursor.next().expect("one result");
    assert_eq!(first.text(), "MULTI7".to_string());
    assert!(cursor.next().is_none());
}

#[test]
fn blank_image_reports_not_found() {
    let luma = vec![255u8; 64 * 64];
    let err = match decode_barcode(luma, 64, 64, None, None) {
        Ok(_) => panic!("blank image must not decode"),
        Err(e) => e,
    };
    assert_eq!(err, "not found".to_string());
}

#[test]
fn zero_dimensions_report_not_found() {
    assert!(decode_barcode(vec![], 0, 0, None, None).is_err());
    assert!(decode_barcode(vec![255u8; 16], 4, 0, None, None).is_err());
}

#[test]
fn mismatched_rgb_length_reports_not_found() {
    assert!(decode_barcode_rgb(vec![0u32; 5], 4, 4, None).is_err());
}

#[test]
fn unencodable_input_reports_couldnt_encode() {
    // EAN-13 carries digits only.
    let err = match encode_barcode("HELLO", 100, 40, BarcodeFormat::Ean13) {
        Ok(_) => panic!("letters must not encode as EAN-13"),
        Err(e) => e,
    };
    assert_eq!(err, "couldn't encode".to_string());
}

#[test]
fn formats_without_an_encoder_always_fail() {
    assert!(encode_barcode("1234", 100, 40, BarcodeFormat::MAXICODE).is_err());
    assert!(encode_barcode("1234", 100, 40, BarcodeFormat::MicroQR).is_err());
    assert!(encode_barcode("1234", 100, 40, BarcodeFormat::UnsuportedFormat).is_err());
}

#[test]
fn filtered_decode_also_finds_the_code() {
    let matrix = encode_barcode("FILTERED", 220, 60, BarcodeFormat::Code128).unwrap();
    let (luma, width, height) = matrix_to_luma(&matrix);
    let result = decode_barcode(luma, width, height, Some(true), Some(true)).unwrap();
    assert_eq!(result.text(), "FILTERED".to_string());
}
