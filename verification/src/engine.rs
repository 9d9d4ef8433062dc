//! The engine entry points: encoding and decoding through the external
//! barcode engine, with the option stores and result adapter of this
//! crate on either side of the call.
//!
//! Every call into the engine goes through a trusted wrapper below; the
//! assembly of options before the call and of the adapted result after it
//! is verified code.

use vstd::prelude::*;
use crate::catalog::DataMatrixShape;
use crate::decode_hints::DecodeHintDictionary;
use crate::encode_hints::EncodeHintDictionary;
use crate::formats::{BarcodeFormat, format_name, spec_format_name, format_from_name};
use crate::result::{BarcodeResult, MetadataValue, MultiDecodeResult, adapt_metadata_entries};
use rxing::RXingResultMetadataValue as MV;
use rxing::Reader;
use rxing::Writer;

verus! {

// ---------------------------------------------------------------------------
// Declarations of the engine's types
// ---------------------------------------------------------------------------
#[verifier::external_type_specification]
#[verifier::external_body]
pub struct ExDecodeHints(rxing::DecodeHints);

#[verifier::external_type_specification]
#[verifier::external_body]
pub struct ExEncodeHints(rxing::EncodeHints);

#[verifier::external_type_specification]
#[verifier::external_body]
pub struct ExRXingResult(rxing::RXingResult);

#[verifier::external_type_specification]
#[verifier::external_body]
pub struct ExRXingResultMetadataValue(rxing::RXingResultMetadataValue);

#[verifier::external_type_specification]
#[verifier::external_body]
pub struct ExSymbolShapeHint(rxing::datamatrix::encoder::SymbolShapeHint);

// ---------------------------------------------------------------------------
// Trusted wrappers around the engine
// ---------------------------------------------------------------------------
/// Relies on `rxing::DecodeHints` being a bag of optional fields: each
/// argument fills the like-named field; format names resolve through
/// `rxing::BarcodeFormat::from`.  The fields this layer cannot carry (the
/// point callback, the module size) stay at their defaults.
#[verifier::external_body]
#[allow(non_snake_case)]
fn build_engine_decode_hints(
    other: Option<String>,
    pure_barcode: Option<bool>,
    possible_formats: Option<Vec<String>>,
    try_harder: Option<bool>,
    character_set: Option<String>,
    allowed_lengths: Option<Vec<u32>>,
    assume_code39_check_digit: Option<bool>,
    assume_gs1: Option<bool>,
    return_codabar_start_end: Option<bool>,
    allowed_ean_extensions: Option<Vec<u32>>,
    also_inverted: Option<bool>,
    telepen_as_numeric: Option<bool>,
) -> rxing::DecodeHints {
    rxing::DecodeHints {
        Other: other, PureBarcode: pure_barcode, TryHarder: try_harder,
        PossibleFormats: possible_formats.map(
            |fs| fs.iter().map(|f| rxing::BarcodeFormat::from(f.as_str())).collect(),
        ),
        CharacterSet: character_set, AllowedLengths: allowed_lengths,
        AssumeCode39CheckDigit: assume_code39_check_digit, AssumeGs1: assume_gs1,
        ReturnCodabarStartEnd: return_codabar_start_end,
        AllowedEanExtensions: allowed_ean_extensions, AlsoInverted: also_inverted,
        TelepenAsNumeric: telepen_as_numeric, ..rxing::DecodeHints::default()
    }
}

/// Relies on `rxing::helpers::detect_in_luma_with_hints`: decodes one
/// barcode from 8-bit luma data, or fails; a zero dimension always fails.
#[verifier::external_body]
fn engine_detect_luma(
    luma: Vec<u8>,
    width: u32,
    height: u32,
    hints: &mut rxing::DecodeHints,
) -> (r: Result<rxing::RXingResult, ()>)
    ensures
        width == 0 || height == 0 ==> r is Err,
{
    rxing::helpers::detect_in_luma_with_hints(luma, width, height, None, hints).map_err(|_| ())
}

/// Relies on `rxing::helpers::detect_in_luma_filtered_with_hints`: as the
/// unfiltered call, after an image-filtering pass; a zero dimension
/// always fails.
#[verifier::external_body]
fn engine_detect_luma_filtered(
    luma: Vec<u8>,
    width: u32,
    height: u32,
    hints: &mut rxing::DecodeHints,
) -> (r: Result<rxing::RXingResult, ()>)
    ensures
        width == 0 || height == 0 ==> r is Err,
{
    rxing::helpers::detect_in_luma_filtered_with_hints(luma, width, height, None, hints).map_err(
        |_| (),
    )
}

/// Relies on `rxing::helpers::detect_multiple_in_luma_with_hints`:
/// decodes every barcode found in 8-bit luma data, or fails; a zero
/// dimension always fails.
#[verifier::external_body]
fn engine_detect_multi(
    luma: Vec<u8>,
    width: u32,
    height: u32,
    hints: &mut rxing::DecodeHints,
) -> (r: Result<Vec<rxing::RXingResult>, ()>)
    ensures
        width == 0 || height == 0 ==> r is Err,
{
    rxing::helpers::detect_multiple_in_luma_with_hints(luma, width, height, hints).map_err(|_| ())
}

/// Relies on `rxing::MultiFormatReader::decode_with_hints` over a
/// `HybridBinarizer` of an `RGBLuminanceSource`: decodes one barcode from
/// packed-RGB pixel words, or fails; a pixel count that does not match
/// the dimensions always fails.
#[verifier::external_body]
fn engine_detect_rgb(
    pixels: &Vec<u32>,
    width: u32,
    height: u32,
    hints: &rxing::DecodeHints,
) -> (r: Result<rxing::RXingResult, ()>)
    ensures
        width as int * height as int != pixels@.len() ==> r is Err,
{
    let Ok(source) = rxing::RGBLuminanceSource::new_with_width_height_pixels(
        width as usize,
        height as usize,
        pixels,
    ) else {
        return Err(());
    };
    let mut reader = rxing::MultiFormatReader::default();
    reader.decode_with_hints(
        &mut rxing::BinaryBitmap::new(rxing::common::HybridBinarizer::new(source)),
        hints,
    ).map_err(|_| ())
}

/// Relies on `rxing::EncodeHints::default`: every option unset.
#[verifier::external_body]
fn new_engine_encode_hints() -> rxing::EncodeHints {
    rxing::EncodeHints::default()
}

/// Relies on `rxing::EncodeHints` being a bag of optional fields: fills
/// the string-valued ones.
#[verifier::external_body]
fn set_encode_text_hints(
    h: &mut rxing::EncodeHints,
    error_correction: Option<String>,
    character_set: Option<String>,
    margin: Option<String>,
    pdf417_compact: Option<String>,
    pdf417_compaction: Option<String>,
    pdf417_auto_eci: Option<String>,
    qr_version: Option<String>,
    qr_mask_pattern: Option<String>,
    qr_compact: Option<String>,
    force_code_set: Option<String>,
) {
    h.ErrorCorrection = error_correction;
    h.CharacterSet = character_set;
    h.Margin = margin;
    h.Pdf417Compact = pdf417_compact;
    h.Pdf417Compaction = pdf417_compaction;
    h.Pdf417AutoEci = pdf417_auto_eci;
    h.QrVersion = qr_version;
    h.QrMaskPattern = qr_mask_pattern;
    h.QrCompact = qr_compact;
    h.ForceCodeSet = force_code_set;
}

/// Relies on `rxing::EncodeHints` being a bag of optional fields: fills
/// the boolean-valued ones and the layer count.
#[verifier::external_body]
fn set_encode_flag_hints(
    h: &mut rxing::EncodeHints,
    data_matrix_compact: Option<bool>,
    gs1_format: Option<bool>,
    force_c40: Option<bool>,
    code128_compact: Option<bool>,
    telepen_as_numeric: Option<bool>,
    aztec_layers: Option<i32>,
) {
    h.DataMatrixCompact = data_matrix_compact;
    h.Gs1Format = gs1_format;
    h.ForceC40 = force_c40;
    h.Code128Compact = code128_compact;
    h.TelepenAsNumeric = telepen_as_numeric;
    h.AztecLayers = aztec_layers;
}

/// Relies on `rxing::EncodeHints` being a bag of optional fields, on
/// `rxing::Dimension::new` and on
/// `rxing::pdf417::encoder::Dimensions::new`: fills the shape and size
/// options from plain values.
#[verifier::external_body]
#[allow(deprecated)]
fn set_encode_shape_hints(
    h: &mut rxing::EncodeHints,
    shape: Option<rxing::datamatrix::encoder::SymbolShapeHint>,
    min_size: Option<(usize, usize)>,
    max_size: Option<(usize, usize)>,
    pdf417_dimensions: Option<(usize, usize, usize, usize)>,
) {
    h.DataMatrixShape = shape;
    h.MinSize = min_size.map(|(w, ht)| rxing::Dimension::new(w, ht));
    h.MaxSize = max_size.map(|(w, ht)| rxing::Dimension::new(w, ht));
    h.Pdf417Dimensions = pdf417_dimensions.map(
        |(minc, maxc, minr, maxr)| rxing::pdf417::encoder::Dimensions::new(minc, maxc, minr, maxr),
    );
}

/// Relies on `rxing::datamatrix::encoder::SymbolShapeHint::FORCE_NONE`.
#[verifier::external_body]
fn engine_shape_force_none() -> rxing::datamatrix::encoder::SymbolShapeHint {
    rxing::datamatrix::encoder::SymbolShapeHint::FORCE_NONE
}

/// Relies on `rxing::datamatrix::encoder::SymbolShapeHint::FORCE_RECTANGLE`.
#[verifier::external_body]
fn engine_shape_force_rectangle() -> rxing::datamatrix::encoder::SymbolShapeHint {
    rxing::datamatrix::encoder::SymbolShapeHint::FORCE_RECTANGLE
}

/// Relies on `rxing::datamatrix::encoder::SymbolShapeHint::FORCE_SQUARE`.
#[verifier::external_body]
fn engine_shape_force_square() -> rxing::datamatrix::encoder::SymbolShapeHint {
    rxing::datamatrix::encoder::SymbolShapeHint::FORCE_SQUARE
}

/// Relies on `rxing::MultiFormatWriter::encode_with_hints`, with the
/// format resolved through `rxing::BarcodeFormat::from`: renders the
/// encoded matrix as its textual form, or fails.  The writer has no
/// encoder for the formats named below, so those always fail.
#[verifier::external_body]
fn engine_encode(
    data: &str,
    format: &str,
    width: u32,
    height: u32,
    hints: &rxing::EncodeHints,
) -> (r: Result<String, ()>)
    ensures
        format@ == "maxicode"@ || format@ == "rss 14"@ || format@ == "rss expanded"@
            || format@ == "upc/ean extension"@ || format@ == "mqr"@ || format@ == "rmqr"@
            || format@ == "unsuported"@ ==> r is Err,
{
    let writer = rxing::MultiFormatWriter;
    match writer.encode_with_hints(
        data,
        &rxing::BarcodeFormat::from(format),
        width as i32,
        height as i32,
        hints,
    ) {
        Ok(matrix) => Ok(matrix.to_string()),
        Err(_) => Err(()),
    }
}

/// Relies on `rxing::RXingResult::getText`.
#[verifier::external_body]
fn result_text(r: &rxing::RXingResult) -> String {
    r.getText().to_owned()
}

/// Relies on `rxing::RXingResult::getRawBytes`.
#[verifier::external_body]
fn result_raw_bytes(r: &rxing::RXingResult) -> Vec<u8> {
    r.getRawBytes().to_vec()
}

/// Relies on `rxing::RXingResult::getNumBits`.
#[verifier::external_body]
fn result_num_bits(r: &rxing::RXingResult) -> usize {
    r.getNumBits()
}

/// Relies on `rxing::RXingResult::getPoints`: each point's coordinates,
/// interleaved, each carried as the bit pattern of its 32-bit float.
#[verifier::external_body]
fn result_points_bits(r: &rxing::RXingResult) -> Vec<u32> {
    r.getPoints().iter().flat_map(|p| [p.x.to_bits(), p.y.to_bits()]).collect()
}

/// Relies on `rxing::RXingResult::getBarcodeFormat` and the `Display`
/// form of `rxing::BarcodeFormat`.
#[verifier::external_body]
fn result_format_name(r: &rxing::RXingResult) -> String {
    r.getBarcodeFormat().to_string()
}

/// Relies on `rxing::RXingResult::getTimestamp`.
#[verifier::external_body]
fn result_timestamp(r: &rxing::RXingResult) -> isize {
    r.getTimestamp() as isize
}

/// Relies on the variants of `rxing::RXingResultMetadataValue`: each arm
/// moves the payload into the matching plain shape; list-shaped payloads
/// are carried as their debug dump.
#[verifier::external_body]
fn metadata_value_of(v: &rxing::RXingResultMetadataValue) -> MetadataValue {
    match v {
        MV::OTHER(s) | MV::ErrorCorrectionLevel(s) | MV::SuggestedPrice(s)
        | MV::PossibleCountry(s) | MV::UpcEanExtension(s) | MV::SymbologyIdentifier(s)
        | MV::ContentType(s) => MetadataValue::Text(s.clone()),
        MV::Orientation(n) | MV::IssueNumber(n) | MV::StructuredAppendSequence(n)
        | MV::StructuredAppendParity(n) => MetadataValue::Number(*n as i64),
        MV::IsMirrored(b) | MV::IsInverted(b) | MV::FilteredClosed(b) => MetadataValue::Flag(*b),
        MV::ByteSegments(v) => MetadataValue::Dump(format!("{v:?}")),
        MV::Pdf417ExtraMetadata(m) => MetadataValue::Dump(format!("{m:?}")),
        MV::FilteredResolution(p) => MetadataValue::Dump(format!("{p:?}")),
    }
}

/// Relies on `rxing::RXingResult::getRXingResultMetadata`: one entry per
/// metadata key, the key carried as its debug identifier.  The engine's
/// map fixes no entry order.
#[verifier::external_body]
fn result_metadata_entries(r: &rxing::RXingResult) -> Vec<(String, MetadataValue)> {
    r.getRXingResultMetadata().iter().map(
        |(k, v)| (format!("{k:?}"), metadata_value_of(v)),
    ).collect()
}

// ---------------------------------------------------------------------------
// Verified assembly around the engine
// ---------------------------------------------------------------------------
/// The engine-facing names of a format list.
fn format_names(fs: &Vec<BarcodeFormat>) -> (r: Vec<String>)
    ensures
        r@.len() == fs@.len(),
        forall|i: int| 0 <= i < fs@.len() ==> #[trigger] r@[i]@ == spec_format_name(fs@[i]),
{
    let mut out: Vec<String> = Vec::new();
    let mut i: usize = 0;
    while i < fs.len()
        invariant
            i <= fs@.len(),
            out@.len() == i,
            forall|j: int| 0 <= j < i ==> #[trigger] out@[j]@ == spec_format_name(fs@[j]),
        decreases fs@.len() - i,
    {
        let name = format_name(fs[i]);
        let ghost namev = name@;
        let ghost out0 = out@;
        out.push(name);
        proof {
            assert forall|j: int| 0 <= j < i + 1 implies #[trigger] out@[j]@ == spec_format_name(
                fs@[j],
            ) by {
                if j < i {
                    assert(out@[j] == out0[j]);
                    assert(out0[j]@ == spec_format_name(fs@[j]));
                } else {
                    assert(out@[j]@ == namev);
                }
            }
        }
        i += 1;
    }
    out
}

/// Shapes one engine result into its boundary-safe form: the format tag
/// resolves through the verified name lookup, the metadata through the
/// verified display-name table and value rendering.
fn adapt_result(r: &rxing::RXingResult) -> BarcodeResult {
    let text = result_text(r);
    let raw_bytes = result_raw_bytes(r);
    let num_bits = result_num_bits(r);
    let points = result_points_bits(r);
    let fname = result_format_name(r);
    let format = match format_from_name(fname.as_str()) {
        Some(f) => f,
        None => BarcodeFormat::UnsuportedFormat,
    };
    let entries = result_metadata_entries(r);
    let metadata = adapt_metadata_entries(&entries);
    let timestamp = result_timestamp(r);
    BarcodeResult::new(text, raw_bytes, num_bits, points, format, metadata, timestamp)
}

/// The engine-facing bag built from a decode dictionary.
fn engine_decode_hints_of(hints: &DecodeHintDictionary) -> rxing::DecodeHints {
    let other = match &hints.other {
        Some(s) => Some(s.clone()),
        None => None,
    };
    let possible_formats = match &hints.possible_formats {
        Some(fs) => Some(format_names(fs)),
        None => None,
    };
    let character_set = match &hints.character_set {
        Some(s) => Some(s.clone()),
        None => None,
    };
    let allowed_lengths = match &hints.allowed_lengths {
        Some(ns) => Some(crate::result::copy_u32s(ns)),
        None => None,
    };
    let allowed_ean_extensions = match &hints.allowed_ean_extensions {
        Some(ns) => Some(crate::result::copy_u32s(ns)),
        None => None,
    };
    build_engine_decode_hints(
        other,
        hints.pure_barcode,
        possible_formats,
        hints.try_harder,
        character_set,
        allowed_lengths,
        hints.assume_code39_check_digit,
        hints.assume_gs1,
        hints.return_codabar_start_end,
        allowed_ean_extensions,
        hints.also_inverted,
        hints.telepen_as_numeric,
    )
}

/// The engine-facing bag built from an encode dictionary.
fn engine_encode_hints_of(hints: &EncodeHintDictionary) -> rxing::EncodeHints {
    let mut eh = new_engine_encode_hints();
    let error_correction = match &hints.error_correction {
        Some(s) => Some(s.clone()),
        None => None,
    };
    let character_set = match &hints.character_set {
        Some(s) => Some(s.clone()),
        None => None,
    };
    let margin = match &hints.margin {
        Some(s) => Some(s.clone()),
        None => None,
    };
    let pdf417_compact = match &hints.pdf417_compact {
        Some(s) => Some(s.clone()),
        None => None,
    };
    let pdf417_compaction = match &hints.pdf417_compaction {
        Some(s) => Some(s.clone()),
        None => None,
    };
    let pdf417_auto_eci = match &hints.pdf417_auto_eci {
        Some(s) => Some(s.clone()),
        None => None,
    };
    let qr_version = match &hints.qr_version {
        Some(s) => Some(s.clone()),
        None => None,
    };
    let qr_mask_pattern = match &hints.qr_mask_pattern {
        Some(s) => Some(s.clone()),
        None => None,
    };
    let qr_compact = match &hints.qr_compact {
        Some(s) => Some(s.clone()),
        None => None,
    };
    let force_code_set = match &hints.force_code_set {
        Some(s) => Some(s.clone()),
        None => None,
    };
    set_encode_text_hints(
        &mut eh,
        error_correction,
        character_set,
        margin,
        pdf417_compact,
        pdf417_compaction,
        pdf417_auto_eci,
        qr_version,
        qr_mask_pattern,
        qr_compact,
        force_code_set,
    );
    set_encode_flag_hints(
        &mut eh,
        hints.data_matrix_compact,
        hints.gs1_format,
        hints.force_c40,
        hints.code128_compact,
        hints.telepen_as_numeric,
        hints.aztec_layers,
    );
    let shape = match hints.data_matrix_shape {
        Some(DataMatrixShape::ForceNone) => Some(engine_shape_force_none()),
        Some(DataMatrixShape::ForceRectangle) => Some(engine_shape_force_rectangle()),
        Some(DataMatrixShape::ForceSquare) => Some(engine_shape_force_square()),
        None => None,
    };
    let min_size = match hints.min_size {
        Some(d) => Some((d.width, d.height)),
        None => None,
    };
    let max_size = match hints.max_size {
        Some(d) => Some((d.width, d.height)),
        None => None,
    };
    let pdf417_dimensions = match hints.pdf417_dimensions {
        Some(d) => Some((d.min_cols, d.max_cols, d.min_rows, d.max_rows)),
        None => None,
    };
    set_encode_shape_hints(&mut eh, shape, min_size, max_size, pdf417_dimensions);
    eh
}

// ---------------------------------------------------------------------------
// Entry points
// ---------------------------------------------------------------------------
/// The formats the engine's writer has no encoder for.
pub open spec fn spec_unencodable_format(f: BarcodeFormat) -> bool {
    match f {
        BarcodeFormat::MAXICODE | BarcodeFormat::Rss14 | BarcodeFormat::RssExpanded
        | BarcodeFormat::UpcEanExtension | BarcodeFormat::MicroQR
        | BarcodeFormat::RectangularMicroQR | BarcodeFormat::UnsuportedFormat => true,
        _ => false,
    }
}


/// Encodes `data` at the given dimensions in the given format.  Whether
/// an encoding exists is the engine's decision; a refusal surfaces as the
/// one encode error.
pub fn encode_barcode(data: &str, width: u32, height: u32, bc_type: BarcodeFormat) -> (r: Result<
    String,
    String,
>)
    ensures
        r matches Err(e) ==> e@ == "couldn't encode"@,
        spec_unencodable_format(bc_type) ==> r is Err,
{
    let eh = new_engine_encode_hints();
    match engine_encode(data, format_name(bc_type).as_str(), width, height, &eh) {
        Ok(s) => Ok(s),
        Err(_) => Err(String::from_str("couldn't encode")),
    }
}

/// As `encode_barcode`, honoring the given encode options; the option
/// store itself is left untouched.
pub fn encode_barcode_with_hints(
    data: &str,
    width: u32,
    height: u32,
    bc_type: BarcodeFormat,
    hints: &mut EncodeHintDictionary,
) -> (r: Result<String, String>)
    ensures
        r matches Err(e) ==> e@ == "couldn't encode"@,
        spec_unencodable_format(bc_type) ==> r is Err,
        final(hints)@ == old(hints)@,
{
    let eh = engine_encode_hints_of(hints);
    match engine_encode(data, format_name(bc_type).as_str(), width, height, &eh) {
        Ok(s) => Ok(s),
        Err(_) => Err(String::from_str("couldn't encode")),
    }
}

/// Decodes one barcode from 8-bit luma data.  Whether one is found is the
/// engine's decision; failure surfaces as the one decode error.
pub fn decode_barcode(
    data: Vec<u8>,
    width: u32,
    height: u32,
    try_harder: Option<bool>,
    filter_image: Option<bool>,
) -> (r: Result<BarcodeResult, String>)
    ensures
        r matches Err(e) ==> e@ == "not found"@,
        width == 0 || height == 0 ==> r is Err,
{
    let th = match try_harder {
        Some(true) => Some(true),
        _ => None,
    };
    let mut dh = build_engine_decode_hints(
        None,
        None,
        None,
        th,
        None,
        None,
        None,
        None,
        None,
        None,
        None,
        None,
    );
    let outcome = match filter_image {
        Some(true) => engine_detect_luma_filtered(data, width, height, &mut dh),
        _ => engine_detect_luma(data, width, height, &mut dh),
    };
    match outcome {
        Ok(res) => Ok(adapt_result(&res)),
        Err(_) => Err(String::from_str("not found")),
    }
}

/// Decodes one barcode from packed-RGB pixel words, one 32-bit word per
/// pixel.
pub fn decode_barcode_rgb(
    data: Vec<u32>,
    width: u32,
    height: u32,
    try_harder: Option<bool>,
) -> (r: Result<BarcodeResult, String>)
    ensures
        r matches Err(e) ==> e@ == "not found"@,
        width as int * height as int != data@.len() ==> r is Err,
{
    let th = match try_harder {
        Some(true) => Some(true),
        _ => None,
    };
    let dh = build_engine_decode_hints(
        None,
        None,
        None,
        th,
        None,
        None,
        None,
        None,
        None,
        None,
        None,
        None,
    );
    match engine_detect_rgb(&data, width, height, &dh) {
        Ok(res) => Ok(adapt_result(&res)),
        Err(_) => Err(String::from_str("not found")),
    }
}

/// Decodes one barcode from 8-bit luma data, honoring the given decode
/// options; the option store itself is left untouched.
pub fn decode_barcode_with_hints(
    data: Vec<u8>,
    width: u32,
    height: u32,
    hints: &mut DecodeHintDictionary,
    filter_image: Option<bool>,
) -> (r: Result<BarcodeResult, String>)
    ensures
        r matches Err(e) ==> e@ == "not found"@,
        width == 0 || height == 0 ==> r is Err,
        final(hints)@ == old(hints)@,
{
    let mut dh = engine_decode_hints_of(hints);
    let outcome = match filter_image {
        Some(true) => engine_detect_luma_filtered(data, width, height, &mut dh),
        _ => engine_detect_luma(data, width, height, &mut dh),
    };
    match outcome {
        Ok(res) => Ok(adapt_result(&res)),
        Err(_) => Err(String::from_str("not found")),
    }
}

/// Decodes every barcode found in 8-bit luma data, honoring the given
/// decode options, and wraps the ordered results in a cursor.
pub fn decode_multi(
    data: Vec<u8>,
    width: u32,
    height: u32,
    hints: &mut DecodeHintDictionary,
) -> (r: Result<MultiDecodeResult, String>)
    ensures
        r matches Ok(c) ==> c@.pointer == 0,
        r matches Err(e) ==> e@ == "not found"@,
        width == 0 || height == 0 ==> r is Err,
        final(hints)@ == old(hints)@,
{
    let mut dh = engine_decode_hints_of(hints);
    match engine_detect_multi(data, width, height, &mut dh) {
        Ok(results) => {
            let mut adapted: Vec<BarcodeResult> = Vec::new();
            let mut i: usize = 0;
            while i < results.len()
                decreases results.len() - i,
            {
                adapted.push(adapt_result(&results[i]));
                i += 1;
            }
            Ok(MultiDecodeResult::with_results(adapted))
        },
        Err(_) => Err(String::from_str("not found")),
    }
}

} // verus!
