//! The result adapter: the boundary-safe form of one engine result, the
//! lossy stringification of its metadata, and the forward-only cursor
//! over a sequence of results.

use vstd::prelude::*;
use crate::chars::{spec_bool_str, spec_signed_dec_string, bool_str, render_i64, str_eq};
use crate::formats::BarcodeFormat;

verus! {

// ---------------------------------------------------------------------------
// Metadata stringification
// ---------------------------------------------------------------------------
/// One metadata value as handed over by the engine, already reduced to
/// plain data: scalar text, a number, a flag, or a pre-rendered dump of a
/// list-shaped value (metadata is diagnostic; dumps are not round-tripped).
pub enum MetadataValue {
    /// Scalar text, rendered verbatim.
    Text(String),
    /// A number, rendered in signed decimal.
    Number(i64),
    /// A flag, rendered as a boolean literal.
    Flag(bool),
    /// A debug-style dump of a structured value, rendered verbatim.
    Dump(String),
}

/// The text a metadata value renders to.
pub open spec fn spec_render_metadata(v: MetadataValue) -> Seq<char> {
    match v {
        MetadataValue::Text(s) => s@,
        MetadataValue::Number(n) => spec_signed_dec_string(n as int),
        MetadataValue::Flag(b) => spec_bool_str(b),
        MetadataValue::Dump(s) => s@,
    }
}

/// Renders one metadata value.
pub fn render_metadata_value(v: &MetadataValue) -> (r: String)
    ensures
        r@ == spec_render_metadata(*v),
{
    match v {
        MetadataValue::Text(s) => s.clone(),
        MetadataValue::Number(n) => render_i64(*n),
        MetadataValue::Flag(b) => bool_str(*b),
        MetadataValue::Dump(s) => s.clone(),
    }
}

/// The display name of a metadata kind, keyed by the engine's identifier
/// for it.  Identifiers outside the table pass through unchanged.
pub open spec fn spec_metadata_display_name(s: Seq<char>) -> Seq<char> {
    if s == "OTHER"@ { "OTHER"@ }
    else if s == "ORIENTATION"@ { "Orientation"@ }
    else if s == "BYTE_SEGMENTS"@ { "Byte_Segments"@ }
    else if s == "ERROR_CORRECTION_LEVEL"@ { "Error_Correction_Level"@ }
    else if s == "ISSUE_NUMBER"@ { "Issue_Number"@ }
    else if s == "SUGGESTED_PRICE"@ { "Suggested_Price"@ }
    else if s == "POSSIBLE_COUNTRY"@ { "Possible_Country"@ }
    else if s == "UPC_EAN_EXTENSION"@ { "UPC/EAN_Extension"@ }
    else if s == "PDF417_EXTRA_METADATA"@ { "PDF417_Extra_MetaData"@ }
    else if s == "STRUCTURED_APPEND_SEQUENCE"@ { "Structured_Append_Sequence"@ }
    else if s == "STRUCTURED_APPEND_PARITY"@ { "Structured_Append_Parity"@ }
    else if s == "SYMBOLOGY_IDENTIFIER"@ { "Symbology_Identifier"@ }
    else if s == "IS_MIRRORED"@ { "Is_Mirrored"@ }
    else if s == "CONTENT_TYPE"@ { "Content_Type"@ }
    else if s == "IS_INVERTED"@ { "Is_Inverted"@ }
    else { s }
}

/// Maps an engine metadata identifier to its display name.
pub fn metadata_display_name(s: &str) -> (r: String)
    ensures
        r@ == spec_metadata_display_name(s@),
{
    if str_eq(s, "OTHER") { String::from_str("OTHER") }
    else if str_eq(s, "ORIENTATION") { String::from_str("Orientation") }
    else if str_eq(s, "BYTE_SEGMENTS") { String::from_str("Byte_Segments") }
    else if str_eq(s, "ERROR_CORRECTION_LEVEL") { String::from_str("Error_Correction_Level") }
    else if str_eq(s, "ISSUE_NUMBER") { String::from_str("Issue_Number") }
    else if str_eq(s, "SUGGESTED_PRICE") { String::from_str("Suggested_Price") }
    else if str_eq(s, "POSSIBLE_COUNTRY") { String::from_str("Possible_Country") }
    else if str_eq(s, "UPC_EAN_EXTENSION") { String::from_str("UPC/EAN_Extension") }
    else if str_eq(s, "PDF417_EXTRA_METADATA") { String::from_str("PDF417_Extra_MetaData") }
    else if str_eq(s, "STRUCTURED_APPEND_SEQUENCE") {
        String::from_str("Structured_Append_Sequence")
    }
    else if str_eq(s, "STRUCTURED_APPEND_PARITY") { String::from_str("Structured_Append_Parity") }
    else if str_eq(s, "SYMBOLOGY_IDENTIFIER") { String::from_str("Symbology_Identifier") }
    else if str_eq(s, "IS_MIRRORED") { String::from_str("Is_Mirrored") }
    else if str_eq(s, "CONTENT_TYPE") { String::from_str("Content_Type") }
    else if str_eq(s, "IS_INVERTED") { String::from_str("Is_Inverted") }
    else { String::from_str(s) }
}

/// Adapts raw metadata entries into display-named, stringified pairs.
pub fn adapt_metadata_entries(entries: &Vec<(String, MetadataValue)>) -> (r: Vec<(String, String)>)
    ensures
        r@.len() == entries@.len(),
        forall|i: int|
            0 <= i < entries@.len() ==> #[trigger] r@[i].0@ == spec_metadata_display_name(
                entries@[i].0@,
            ) && r@[i].1@ == spec_render_metadata(entries@[i].1),
{
    let mut out: Vec<(String, String)> = Vec::new();
    let mut i: usize = 0;
    while i < entries.len()
        invariant
            i <= entries@.len(),
            out@.len() == i,
            forall|j: int|
                0 <= j < i ==> #[trigger] out@[j].0@ == spec_metadata_display_name(
                    entries@[j].0@,
                ) && out@[j].1@ == spec_render_metadata(entries@[j].1),
        decreases entries@.len() - i,
    {
        let entry = &entries[i];
        let name = metadata_display_name(entry.0.as_str());
        let value = render_metadata_value(&entry.1);
        let ghost namev = name@;
        let ghost valuev = value@;
        let ghost out0 = out@;
        out.push((name, value));
        proof {
            assert forall|j: int| 0 <= j < i + 1 implies #[trigger] out@[j].0@
                == spec_metadata_display_name(entries@[j].0@) && out@[j].1@
                == spec_render_metadata(entries@[j].1) by {
                if j < i {
                    assert(out@[j] == out0[j]);
                    assert(out0[j].0@ == spec_metadata_display_name(entries@[j].0@));
                    assert(out0[j].1@ == spec_render_metadata(entries@[j].1));
                } else {
                    assert(out@[j].0@ == namev);
                    assert(out@[j].1@ == valuev);
                }
            }
        }
        i += 1;
    }
    out
}

// ---------------------------------------------------------------------------
// Helper copies with exact contracts
// ---------------------------------------------------------------------------
/// Copies a byte vector.
fn copy_u8s(v: &Vec<u8>) -> (r: Vec<u8>)
    ensures
        r@ == v@,
{
    let mut out: Vec<u8> = Vec::new();
    let mut i: usize = 0;
    while i < v.len()
        invariant
            i <= v@.len(),
            out@ == v@.take(i as int),
        decreases v@.len() - i,
    {
        out.push(v[i]);
        proof {
            assert(out@ =~= v@.take(i + 1));
        }
        i += 1;
    }
    proof {
        assert(v@.take(v@.len() as int) =~= v@);
    }
    out
}

/// Copies a vector of 32-bit words.
pub(crate) fn copy_u32s(v: &Vec<u32>) -> (r: Vec<u32>)
    ensures
        r@ == v@,
{
    let mut out: Vec<u32> = Vec::new();
    let mut i: usize = 0;
    while i < v.len()
        invariant
            i <= v@.len(),
            out@ == v@.take(i as int),
        decreases v@.len() - i,
    {
        out.push(v[i]);
        proof {
            assert(out@ =~= v@.take(i + 1));
        }
        i += 1;
    }
    proof {
        assert(v@.take(v@.len() as int) =~= v@);
    }
    out
}

/// The entry-wise view of a string-pair vector.
pub open spec fn pairs_view(m: Seq<(String, String)>) -> Seq<(Seq<char>, Seq<char>)> {
    Seq::new(m.len(), |i: int| (m[i].0@, m[i].1@))
}

/// Copies a vector of string pairs.
fn clone_string_pairs(v: &Vec<(String, String)>) -> (r: Vec<(String, String)>)
    ensures
        pairs_view(r@) == pairs_view(v@),
        r@.len() == v@.len(),
{
    let mut out: Vec<(String, String)> = Vec::new();
    let mut i: usize = 0;
    while i < v.len()
        invariant
            i <= v@.len(),
            out@.len() == i,
            forall|j: int|
                0 <= j < i ==> #[trigger] out@[j].0@ == v@[j].0@ && out@[j].1@ == v@[j].1@,
        decreases v@.len() - i,
    {
        let entry = &v[i];
        out.push((entry.0.clone(), entry.1.clone()));
        i += 1;
    }
    proof {
        assert(pairs_view(out@) =~= pairs_view(v@));
    }
    out
}

// ---------------------------------------------------------------------------
// The adapted result
// ---------------------------------------------------------------------------
/// The mathematical shape of an adapted result.
#[verifier::ext_equal]
pub struct BarcodeResultModel {
    pub text: Seq<char>,
    pub raw_bytes: Seq<u8>,
    pub num_bits: int,
    pub result_points: Seq<u32>,
    pub format: BarcodeFormat,
    pub metadata: Seq<(Seq<char>, Seq<char>)>,
    pub timestamp: int,
}

/// One decoded barcode, reduced to boundary-safe value data: text, raw
/// payload bytes with their bit count, detection points (each coordinate
/// carried as the bit pattern of the engine's 32-bit float), the format
/// tag, stringified metadata, and the capture timestamp.
pub struct BarcodeResult {
    text: String,
    raw_bytes: Vec<u8>,
    num_bits: usize,
    result_points: Vec<u32>,
    format: BarcodeFormat,
    result_metadata: Vec<(String, String)>,
    timestamp: isize,
}

impl View for BarcodeResult {
    type V = BarcodeResultModel;

    closed spec fn view(&self) -> BarcodeResultModel {
        BarcodeResultModel {
            text: self.text@,
            raw_bytes: self.raw_bytes@,
            num_bits: self.num_bits as int,
            result_points: self.result_points@,
            format: self.format,
            metadata: pairs_view(self.result_metadata@),
            timestamp: self.timestamp as int,
        }
    }
}

impl BarcodeResult {
    /// Assembles a result from its parts.
    pub fn new(
        text: String,
        raw_bytes: Vec<u8>,
        num_bits: usize,
        result_points: Vec<u32>,
        format: BarcodeFormat,
        result_metadata: Vec<(String, String)>,
        timestamp: isize,
    ) -> (r: BarcodeResult)
        ensures
            r@.text == text@,
            r@.raw_bytes == raw_bytes@,
            r@.num_bits == num_bits as int,
            r@.result_points == result_points@,
            r@.format == format,
            r@.metadata == pairs_view(result_metadata@),
            r@.timestamp == timestamp as int,
    {
        BarcodeResult { text, raw_bytes, num_bits, result_points, format, result_metadata, timestamp }
    }

    /// The capture timestamp.
    pub fn timestamp(&self) -> (r: isize)
        ensures
            r as int == self@.timestamp,
    {
        self.timestamp
    }

    /// The format tag.
    pub fn format(&self) -> (r: BarcodeFormat)
        ensures
            r == self@.format,
    {
        self.format
    }

    /// The detection points, flattened as interleaved x,y coordinates;
    /// each coordinate is the raw bit pattern of the engine's 32-bit
    /// float.
    pub fn result_points(&self) -> (r: Vec<u32>)
        ensures
            r@ == self@.result_points,
    {
        copy_u32s(&self.result_points)
    }

    /// The bit length of the raw payload.
    pub fn num_bits(&self) -> (r: usize)
        ensures
            r as int == self@.num_bits,
    {
        self.num_bits
    }

    /// The raw payload bytes.
    pub fn raw_bytes(&self) -> (r: Vec<u8>)
        ensures
            r@ == self@.raw_bytes,
    {
        copy_u8s(&self.raw_bytes)
    }

    /// The decoded text.
    pub fn text(&self) -> (r: String)
        ensures
            r@ == self@.text,
    {
        self.text.clone()
    }

    /// The stringified metadata, as display-name/value pairs.
    pub fn get_meta_data(&self) -> (r: Vec<(String, String)>)
        ensures
            pairs_view(r@) == self@.metadata,
    {
        clone_string_pairs(&self.result_metadata)
    }
}

impl Clone for BarcodeResult {
    /// Results are pure value data, so a clone carries the same model.
    fn clone(&self) -> (r: Self)
        ensures
            r@ == self@,
    {
        let r = BarcodeResult {
            text: self.text.clone(),
            raw_bytes: copy_u8s(&self.raw_bytes),
            num_bits: self.num_bits,
            result_points: copy_u32s(&self.result_points),
            format: self.format,
            result_metadata: clone_string_pairs(&self.result_metadata),
            timestamp: self.timestamp,
        };
        proof {
            assert(r@ =~= self@);
        }
        r
    }
}

// ---------------------------------------------------------------------------
// The multi-result cursor
// ---------------------------------------------------------------------------
/// The mathematical shape of the cursor: an ordered result sequence and a
/// forward-only position.
#[verifier::ext_equal]
pub struct MultiDecodeModel {
    pub pointer: int,
    pub results: Seq<BarcodeResultModel>,
}

/// A forward-only, single-consumer cursor over an ordered sequence of
/// results.  Each `next` reads the element at the position, if any, and
/// advances; the position never decreases.
pub struct MultiDecodeResult {
    pointer: usize,
    results: Vec<BarcodeResult>,
}

impl View for MultiDecodeResult {
    type V = MultiDecodeModel;

    closed spec fn view(&self) -> MultiDecodeModel {
        MultiDecodeModel {
            pointer: self.pointer as int,
            results: Seq::new(self.results@.len(), |i: int| self.results@[i]@),
        }
    }
}

impl MultiDecodeResult {
    /// An empty cursor.
    pub fn new() -> (r: MultiDecodeResult)
        ensures
            r@.pointer == 0,
            r@.results.len() == 0,
    {
        MultiDecodeResult { pointer: 0, results: Vec::new() }
    }

    /// A cursor over a finished result sequence, positioned at its start.
    pub fn with_results(results: Vec<BarcodeResult>) -> (r: MultiDecodeResult)
        ensures
            r@.pointer == 0,
            r@.results.len() == results@.len(),
            forall|i: int| 0 <= i < results@.len() ==> r@.results[i] == #[trigger] results@[i]@,
    {
        MultiDecodeResult { pointer: 0, results }
    }

    /// Reads the element at the position, if any, and advances.  Past the
    /// end the position saturates rather than growing without bound; the
    /// result is empty there either way.
    pub fn next(&mut self) -> (r: Option<BarcodeResult>)
        ensures
            final(self)@.results == old(self)@.results,
            final(self)@.pointer >= old(self)@.pointer,
            old(self)@.pointer < old(self)@.results.len() ==> match r {
                Some(b) => b@ == old(self)@.results[old(self)@.pointer] && final(self)@.pointer
                    == old(self)@.pointer + 1,
                None => false,
            },
            old(self)@.pointer >= old(self)@.results.len() ==> r is None,
            old(self)@.pointer < usize::MAX ==> final(self)@.pointer == old(self)@.pointer + 1,
    {
        let ret = if self.pointer < self.results.len() {
            Some(self.results[self.pointer].clone())
        } else {
            None
        };
        if self.pointer < usize::MAX {
            self.pointer = self.pointer + 1;
        }
        proof {
            assert(self@.results =~= old(self)@.results);
        }
        ret
    }
}

} // verus!
