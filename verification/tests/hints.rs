use barcode_bridge::decode_hints::{DecodeHintDictionary, DecodeHintTypes};
use barcode_bridge::encode_hints::{EncodeHintDictionary, EncodeHintTypes};
use barcode_bridge::BarcodeFormat;

#[test]
fn decode_bool_kinds_round_trip_true() {
    let kinds = vec![
        DecodeHintTypes::PureBarcode,
        DecodeHintTypes::TryHarder,
        DecodeHintTypes::AssumeCode39CheckDigit,
        DecodeHintTypes::AssumeGs1,
        DecodeHintTypes::ReturnCodabarStartEnd,
        DecodeHintTypes::AlsoInverted,
        DecodeHintTypes::TelepenAsNumeric,
    ];
    for k in kinds {
        let mut d = DecodeHintDictionary::new();
        assert!(d.set_hint(k, "true".to_string()));
        assert_eq!(d.get_hint(k), Some("true".to_string()));
        assert!(d.set_hint(k, "false".to_string()));
        assert_eq!(d.get_hint(k), Some("false".to_string()));
    }
}

#[test]
fn encode_bool_kinds_round_trip_true() {
    let kinds = vec![
        EncodeHintTypes::DataMatrixCompact,
        EncodeHintTypes::Gs1Format,
        EncodeHintTypes::ForceC40,
        EncodeHintTypes::Code128Compact,
        EncodeHintTypes::TelepenAsNumeric,
    ];
    for k in kinds {
        let mut d = EncodeHintDictionary::new();
        assert!(d.set_hint(k, "true".to_string()));
        assert_eq!(d.get_hint(k), Some("true".to_string()));
    }
}

#[test]
fn bool_kind_is_case_exact() {
    let mut d = DecodeHintDictionary::new();
    assert!(!d.set_hint(DecodeHintTypes::TryHarder, "TRUE".to_string()));
    assert!(!d.set_hint(DecodeHintTypes::TryHarder, "1".to_string()));
    assert_eq!(d.get_hint(DecodeHintTypes::TryHarder), None);
}

#[test]
fn empty_set_fails_and_keeps_prior_value() {
    let mut d = DecodeHintDictionary::new();
    assert!(d.set_hint(DecodeHintTypes::TryHarder, "true".to_string()));
    assert!(!d.set_hint(DecodeHintTypes::TryHarder, "".to_string()));
    assert_eq!(d.get_hint(DecodeHintTypes::TryHarder), Some("true".to_string()));
    let mut e = EncodeHintDictionary::new();
    assert!(!e.set_hint(EncodeHintTypes::CharacterSet, "".to_string()));
    assert_eq!(e.get_hint(EncodeHintTypes::CharacterSet), None);
}

#[test]
fn format_set_drops_unresolvable_tokens() {
    let mut d = DecodeHintDictionary::new();
    assert!(d.set_hint(DecodeHintTypes::PossibleFormats, "QR_CODE,BOGUS".to_string()));
    assert_eq!(d.possible_formats, Some(vec![BarcodeFormat::QrCode]));
    assert_eq!(d.get_hint(DecodeHintTypes::PossibleFormats), Some("qrcode".to_string()));
}

#[test]
fn format_set_fails_when_nothing_resolves() {
    let mut d = DecodeHintDictionary::new();
    assert!(d.set_hint(DecodeHintTypes::PossibleFormats, "QR_CODE".to_string()));
    assert!(!d.set_hint(DecodeHintTypes::PossibleFormats, "BOGUS,BOGUS2".to_string()));
    assert_eq!(d.get_hint(DecodeHintTypes::PossibleFormats), Some("qrcode".to_string()));
}

#[test]
fn format_set_dedupes_and_keeps_first_seen_order() {
    let mut d = DecodeHintDictionary::new();
    assert!(d.set_hint(
        DecodeHintTypes::PossibleFormats,
        "EAN_13,qr code,ean13".to_string(),
    ));
    assert_eq!(
        d.possible_formats,
        Some(vec![BarcodeFormat::Ean13, BarcodeFormat::QrCode]),
    );
    assert_eq!(
        d.get_hint(DecodeHintTypes::PossibleFormats),
        Some("ean 13qrcode".to_string()),
    );
}

#[test]
fn integer_list_skips_unparsable_tokens() {
    let mut d = DecodeHintDictionary::new();
    assert!(d.set_hint(DecodeHintTypes::AllowedLengths, "1,x,3".to_string()));
    assert_eq!(d.allowed_lengths, Some(vec![1, 3]));
    assert_eq!(d.get_hint(DecodeHintTypes::AllowedLengths), Some("13".to_string()));
}

#[test]
fn integer_list_accepts_all_unparsable_input() {
    let mut d = DecodeHintDictionary::new();
    assert!(d.set_hint(DecodeHintTypes::AllowedEanExtensions, "x,y".to_string()));
    assert_eq!(d.allowed_ean_extensions, Some(vec![]));
    assert_eq!(d.get_hint(DecodeHintTypes::AllowedEanExtensions), Some("".to_string()));
}

#[test]
fn dimension_kind_accepts_well_formed_pair() {
    let mut e = EncodeHintDictionary::new();
    assert!(e.set_hint(EncodeHintTypes::MinSize, "10x20".to_string()));
    assert_eq!(e.get_hint(EncodeHintTypes::MinSize), Some("10x20".to_string()));
}

#[test]
fn dimension_kind_rejects_malformed_pairs() {
    let mut e = EncodeHintDictionary::new();
    assert!(!e.set_hint(EncodeHintTypes::MinSize, "10-20".to_string()));
    assert!(!e.set_hint(EncodeHintTypes::MinSize, "x20".to_string()));
    assert!(!e.set_hint(EncodeHintTypes::MinSize, "10x".to_string()));
    assert!(!e.set_hint(EncodeHintTypes::MaxSize, "10x20x30".to_string()));
    assert_eq!(e.get_hint(EncodeHintTypes::MinSize), None);
}

#[test]
fn range_kind_round_trips() {
    let mut e = EncodeHintDictionary::new();
    assert!(e.set_hint(EncodeHintTypes::Pdf417Dimensions, "1/2||3/4".to_string()));
    assert_eq!(e.get_hint(EncodeHintTypes::Pdf417Dimensions), Some("1/2||3/4".to_string()));
}

#[test]
fn range_kind_rejects_malformed_ranges() {
    let mut e = EncodeHintDictionary::new();
    assert!(!e.set_hint(EncodeHintTypes::Pdf417Dimensions, "1/2|3/4".to_string()));
    assert!(!e.set_hint(EncodeHintTypes::Pdf417Dimensions, "1/2||3".to_string()));
    assert!(!e.set_hint(EncodeHintTypes::Pdf417Dimensions, "a/2||3/4".to_string()));
    assert!(!e.set_hint(EncodeHintTypes::Pdf417Dimensions, "1/2".to_string()));
    assert_eq!(e.get_hint(EncodeHintTypes::Pdf417Dimensions), None);
}

#[test]
fn remove_on_unset_kind_reports_nothing_removed() {
    let mut d = DecodeHintDictionary::new();
    assert!(!d.remove_hint(DecodeHintTypes::CharacterSet));
    assert_eq!(d.get_hint(DecodeHintTypes::CharacterSet), None);
    let mut e = EncodeHintDictionary::new();
    assert!(!e.remove_hint(EncodeHintTypes::MARGIN));
    assert_eq!(e.get_hint(EncodeHintTypes::MARGIN), None);
}

#[test]
fn remove_clears_a_set_kind() {
    let mut d = DecodeHintDictionary::new();
    assert!(d.set_hint(DecodeHintTypes::CharacterSet, "UTF-8".to_string()));
    assert!(d.remove_hint(DecodeHintTypes::CharacterSet));
    assert_eq!(d.get_hint(DecodeHintTypes::CharacterSet), None);
    assert!(!d.remove_hint(DecodeHintTypes::CharacterSet));
}

#[test]
fn callback_kind_is_permanently_unsupported() {
    let mut d = DecodeHintDictionary::new();
    assert!(!d.set_hint(DecodeHintTypes::NeedResultPointCallback, "true".to_string()));
    assert_eq!(d.get_hint(DecodeHintTypes::NeedResultPointCallback), None);
    assert!(!d.remove_hint(DecodeHintTypes::NeedResultPointCallback));
}

#[test]
fn shape_kind_has_closed_vocabulary() {
    let mut e = EncodeHintDictionary::new();
    assert!(e.set_hint(EncodeHintTypes::DataMatrixShape, "ForceSquare".to_string()));
    assert_eq!(e.get_hint(EncodeHintTypes::DataMatrixShape), Some("ForceSquare".to_string()));
    assert!(e.set_hint(EncodeHintTypes::DataMatrixShape, "ForceNone".to_string()));
    assert_eq!(e.get_hint(EncodeHintTypes::DataMatrixShape), Some("ForceNone".to_string()));
    assert!(e.set_hint(EncodeHintTypes::DataMatrixShape, "ForceRectangle".to_string()));
    assert!(!e.set_hint(EncodeHintTypes::DataMatrixShape, "forcesquare".to_string()));
    assert_eq!(e.get_hint(EncodeHintTypes::DataMatrixShape), Some("ForceRectangle".to_string()));
}

#[test]
fn layer_kind_parses_signed_decimals() {
    let mut e = EncodeHintDictionary::new();
    assert!(e.set_hint(EncodeHintTypes::AztecLayers, "-3".to_string()));
    assert_eq!(e.get_hint(EncodeHintTypes::AztecLayers), Some("-3".to_string()));
    assert!(e.set_hint(EncodeHintTypes::AztecLayers, "+7".to_string()));
    assert_eq!(e.get_hint(EncodeHintTypes::AztecLayers), Some("7".to_string()));
    assert!(!e.set_hint(EncodeHintTypes::AztecLayers, "x".to_string()));
    assert!(!e.set_hint(EncodeHintTypes::AztecLayers, "3000000000".to_string()));
}

#[test]
fn free_form_kinds_store_verbatim() {
    let mut d = DecodeHintDictionary::new();
    assert!(d.set_hint(DecodeHintTypes::Other, "anything at all".to_string()));
    assert_eq!(d.get_hint(DecodeHintTypes::Other), Some("anything at all".to_string()));
    let mut e = EncodeHintDictionary::new();
    assert!(e.set_hint(EncodeHintTypes::MARGIN, "12".to_string()));
    assert_eq!(e.get_hint(EncodeHintTypes::MARGIN), Some("12".to_string()));
    assert!(e.set_hint(EncodeHintTypes::ErrorCorrection, "H".to_string()));
    assert_eq!(e.get_hint(EncodeHintTypes::ErrorCorrection), Some("H".to_string()));
}

#[test]
fn set_replaces_an_existing_value() {
    let mut d = DecodeHintDictionary::new();
    assert!(d.set_hint(DecodeHintTypes::CharacterSet, "UTF-8".to_string()));
    assert!(d.set_hint(DecodeHintTypes::CharacterSet, "ISO-8859-1".to_string()));
    assert_eq!(d.get_hint(DecodeHintTypes::CharacterSet), Some("ISO-8859-1".to_string()));
}
