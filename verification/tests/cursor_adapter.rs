use barcode_bridge::result::{
    adapt_metadata_entries, metadata_display_name, render_metadata_value, MetadataValue,
};
use barcode_bridge::chars::{parse_i32_str, parse_u32_str, render_i64};
use barcode_bridge::formats::{format_from_name, format_name};
use barcode_bridge::{BarcodeFormat, BarcodeResult, MultiDecodeResult};

fn sample_result(text: &str) -> BarcodeResult {
    BarcodeResult::new(
        text.to_string(),
        vec![1, 2, 3],
        24,
        vec![0x3f800000, 0x40000000],
        BarcodeFormat::QrCode,
        vec![("Orientation".to_string(), "90".to_string())],
        7,
    )
}

#[test]
fn result_accessors_return_what_was_stored() {
    let r = sample_result("payload");
    assert_eq!(r.text(), "payload".to_string());
    assert_eq!(r.raw_bytes(), vec![1, 2, 3]);
    assert_eq!(r.num_bits(), 24);
    assert_eq!(r.result_points(), vec![0x3f800000, 0x40000000]);
    assert!(matches!(r.format(), BarcodeFormat::QrCode));
    assert_eq!(r.get_meta_data(), vec![("Orientation".to_string(), "90".to_string())]);
    assert_eq!(r.timestamp(), 7);
}

#[test]
fn cloned_result_carries_the_same_values() {
    let r = sample_result("payload");
    let c = r.clone();
    assert_eq!(c.text(), r.text());
    assert_eq!(c.raw_bytes(), r.raw_bytes());
    assert_eq!(c.result_points(), r.result_points());
}

#[test]
fn cursor_yields_three_elements_in_order_then_empties() {
    let results = vec![sample_result("one"), sample_result("two"), sample_result("three")];
    let mut cursor = MultiDecodeResult::with_results(results);
    assert_eq!(cursor.next().unwrap().text(), "one".to_string());
    assert_eq!(cursor.next().unwrap().text(), "two".to_string());
    assert_eq!(cursor.next().unwrap().text(), "three".to_string());
    assert!(cursor.next().is_none());
    assert!(cursor.next().is_none());
}

#[test]
fn empty_cursor_is_immediately_exhausted() {
    let mut cursor = MultiDecodeResult::new();
    assert!(cursor.next().is_none());
}

#[test]
fn metadata_names_map_to_display_names() {
    assert_eq!(metadata_display_name("ORIENTATION"), "Orientation".to_string());
    assert_eq!(metadata_display_name("BYTE_SEGMENTS"), "Byte_Segments".to_string());
    assert_eq!(metadata_display_name("UPC_EAN_EXTENSION"), "UPC/EAN_Extension".to_string());
    assert_eq!(
        metadata_display_name("PDF417_EXTRA_METADATA"),
        "PDF417_Extra_MetaData".to_string(),
    );
    assert_eq!(metadata_display_name("OTHER"), "OTHER".to_string());
    assert_eq!(metadata_display_name("SOMETHING_NEW"), "SOMETHING_NEW".to_string());
}

#[test]
fn metadata_values_render_by_shape() {
    assert_eq!(render_metadata_value(&MetadataValue::Text("ec".to_string())), "ec".to_string());
    assert_eq!(render_metadata_value(&MetadataValue::Number(-5)), "-5".to_string());
    assert_eq!(render_metadata_value(&MetadataValue::Number(90)), "90".to_string());
    assert_eq!(render_metadata_value(&MetadataValue::Flag(true)), "true".to_string());
    assert_eq!(
        render_metadata_value(&MetadataValue::Dump("[[1, 2]]".to_string())),
        "[[1, 2]]".to_string(),
    );
}

#[test]
fn metadata_entries_adapt_names_and_values_together() {
    let entries = vec![
        ("ORIENTATION".to_string(), MetadataValue::Number(180)),
        ("IS_MIRRORED".to_string(), MetadataValue::Flag(false)),
        ("ERROR_CORRECTION_LEVEL".to_string(), MetadataValue::Text("Q".to_string())),
    ];
    let adapted = adapt_metadata_entries(&entries);
    assert_eq!(
        adapted,
        vec![
            ("Orientation".to_string(), "180".to_string()),
            ("Is_Mirrored".to_string(), "false".to_string()),
            ("Error_Correction_Level".to_string(), "Q".to_string()),
        ],
    );
}

#[test]
fn format_names_resolve_case_insensitively() {
    assert_eq!(format_from_name("QR_CODE"), Some(BarcodeFormat::QrCode));
    assert_eq!(format_from_name("qr code"), Some(BarcodeFormat::QrCode));
    assert_eq!(format_from_name("Code128"), Some(BarcodeFormat::Code128));
    assert_eq!(format_from_name("gs1 databar"), Some(BarcodeFormat::Rss14));
    assert_eq!(format_from_name("BOGUS"), None);
    assert_eq!(format_from_name(""), None);
    assert_eq!(format_name(BarcodeFormat::QrCode), "qrcode".to_string());
    assert_eq!(format_name(BarcodeFormat::UpcEanExtension), "upc/ean extension".to_string());
}

#[test]
fn decimal_parsing_follows_the_standard_grammar() {
    assert_eq!(parse_u32_str("+5"), Some(5));
    assert_eq!(parse_u32_str("0"), Some(0));
    assert_eq!(parse_u32_str("4294967295"), Some(u32::MAX));
    assert_eq!(parse_u32_str("4294967296"), None);
    assert_eq!(parse_u32_str("99999999999999999999"), None);
    assert_eq!(parse_u32_str(""), None);
    assert_eq!(parse_u32_str("+"), None);
    assert_eq!(parse_u32_str("-1"), None);
    assert_eq!(parse_i32_str("-2147483648"), Some(i32::MIN));
    assert_eq!(parse_i32_str("2147483647"), Some(i32::MAX));
    assert_eq!(parse_i32_str("-2147483649"), None);
    assert_eq!(render_i64(i64::MIN), "-9223372036854775808".to_string());
    assert_eq!(render_i64(0), "0".to_string());
    assert_eq!(render_i64(10), "10".to_string());
}
