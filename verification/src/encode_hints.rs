//! The encode-side option store, and the parsers for the two composite
//! payload shapes: a width/height pair, and a min/max row/column range.

use vstd::prelude::*;
use crate::catalog::{HintPayload, render_payload, DataMatrixShape, Dimension, RowColRange};
use crate::chars::{
    spec_parse_bool, spec_parse_i32, spec_parse_usize, parse_bool_str, parse_i32_str,
    parse_usize_str, bool_str, str_eq,
};

verus! {

// ---------------------------------------------------------------------------
// Composite payload parsing
// ---------------------------------------------------------------------------
/// The index of the first occurrence of `c` in `s`, or `s.len()` if there
/// is none.
pub open spec fn spec_first_index(s: Seq<char>, c: char) -> int
    decreases s.len(),
{
    if s.len() == 0 {
        0
    } else if s[0] == c {
        0
    } else {
        1 + spec_first_index(s.drop_first(), c)
    }
}

/// `spec_first_index` finds the first occurrence.
pub proof fn lemma_first_index(s: Seq<char>, c: char)
    ensures
        0 <= spec_first_index(s, c) <= s.len(),
        forall|j: int| 0 <= j < spec_first_index(s, c) ==> s[j] != c,
        spec_first_index(s, c) < s.len() ==> s[spec_first_index(s, c)] == c,
    decreases s.len(),
{
    if s.len() == 0 {
    } else if s[0] == c {
    } else {
        let rest = s.drop_first();
        lemma_first_index(rest, c);
        assert forall|j: int| 0 <= j < spec_first_index(s, c) implies s[j] != c by {
            if j > 0 {
                assert(rest[j - 1] == s[j]);
            }
        }
        if spec_first_index(s, c) < s.len() {
            assert(rest[spec_first_index(rest, c)] == s[spec_first_index(s, c)]);
        }
    }
}

/// Finds the first occurrence of `c` in `s`, or returns the length.
fn find_char(s: &str, c: char) -> (r: usize)
    ensures
        r == spec_first_index(s@, c),
        r <= s@.len(),
        r < s@.len() ==> s@[r as int] == c,
{
    let len = s.unicode_len();
    let mut i: usize = 0;
    proof {
        lemma_first_index(s@, c);
    }
    while i < len
        invariant
            i <= len,
            len == s@.len(),
            forall|j: int| 0 <= j < i ==> s@[j] != c,
            0 <= spec_first_index(s@, c) <= s@.len(),
            forall|j: int| 0 <= j < spec_first_index(s@, c) ==> s@[j] != c,
            spec_first_index(s@, c) < s@.len() ==> s@[spec_first_index(s@, c)] == c,
        decreases len - i,
    {
        if s.get_char(i) == c {
            return i;
        }
        i += 1;
    }
    len
}

/// The width/height grammar: exactly one `x` splitting two non-empty
/// unsigned decimal segments.
pub open spec fn spec_parse_dimension(s: Seq<char>) -> Option<Dimension> {
    let i = spec_first_index(s, 'x');
    if i == s.len() {
        None
    } else {
        match (spec_parse_usize(s.take(i)), spec_parse_usize(s.skip(i + 1))) {
            (Some(w), Some(h)) => Some(Dimension { width: w, height: h }),
            _ => None,
        }
    }
}

/// Parses a `WxH` dimension.
pub fn parse_dimension(dim: &str) -> (r: Option<Dimension>)
    ensures
        r == spec_parse_dimension(dim@),
{
    let len = dim.unicode_len();
    let i = find_char(dim, 'x');
    if i == len {
        return None;
    }
    let p1 = dim.substring_char(0, i);
    let p2 = dim.substring_char(i + 1, len);
    proof {
        assert(p1@ =~= dim@.take(i as int));
        assert(p2@ =~= dim@.skip(i + 1));
    }
    match (parse_usize_str(p1), parse_usize_str(p2)) {
        (Some(w), Some(h)) => Some(Dimension { width: w, height: h }),
        _ => None,
    }
}

/// The grammar of one half of a row/column range: exactly one `/`
/// splitting two non-empty unsigned decimal segments.
pub open spec fn spec_parse_dim_pair(s: Seq<char>) -> Option<(usize, usize)> {
    let i = spec_first_index(s, '/');
    if i == s.len() {
        None
    } else {
        match (spec_parse_usize(s.take(i)), spec_parse_usize(s.skip(i + 1))) {
            (Some(a), Some(b)) => Some((a, b)),
            _ => None,
        }
    }
}

/// Parses one `min/max` half of a row/column range.
pub fn parse_dimensions_sub_part(part: &str) -> (r: Option<(usize, usize)>)
    ensures
        r == spec_parse_dim_pair(part@),
{
    let len = part.unicode_len();
    let i = find_char(part, '/');
    if i == len {
        return None;
    }
    let p1 = part.substring_char(0, i);
    let p2 = part.substring_char(i + 1, len);
    proof {
        assert(p1@ =~= part@.take(i as int));
        assert(p2@ =~= part@.skip(i + 1));
    }
    match (parse_usize_str(p1), parse_usize_str(p2)) {
        (Some(a), Some(b)) => Some((a, b)),
        _ => None,
    }
}

/// The row/column range grammar: two `min/max` halves joined by `||`,
/// where the first `|` of the text must begin that separator.
pub open spec fn spec_parse_dimensions(s: Seq<char>) -> Option<RowColRange> {
    let i = spec_first_index(s, '|');
    if i + 1 < s.len() && s[i + 1] == '|' {
        match (spec_parse_dim_pair(s.take(i)), spec_parse_dim_pair(s.skip(i + 2))) {
            (Some(c), Some(r)) => Some(
                RowColRange { min_cols: c.0, max_cols: c.1, min_rows: r.0, max_rows: r.1 },
            ),
            _ => None,
        }
    } else {
        None
    }
}

/// Parses a `minCols/maxCols||minRows/maxRows` range.
pub fn parse_dimensions(dim: &str) -> (r: Option<RowColRange>)
    ensures
        r == spec_parse_dimensions(dim@),
{
    let len = dim.unicode_len();
    let i = find_char(dim, '|');
    if i == len {
        return None;
    }
    if i + 1 >= len {
        return None;
    }
    if dim.get_char(i + 1) != '|' {
        return None;
    }
    let p1 = dim.substring_char(0, i);
    let p2 = dim.substring_char(i + 2, len);
    proof {
        assert(p1@ =~= dim@.take(i as int));
        assert(p2@ =~= dim@.skip(i + 2));
    }
    match (parse_dimensions_sub_part(p1), parse_dimensions_sub_part(p2)) {
        (Some(c), Some(r)) => Some(
            RowColRange { min_cols: c.0, max_cols: c.1, min_rows: r.0, max_rows: r.1 },
        ),
        _ => None,
    }
}

// ---------------------------------------------------------------------------
// The encode option kinds
// ---------------------------------------------------------------------------
/// The encode option kinds.
#[derive(Debug, Clone, Copy, PartialEq, Eq, Hash, Structural)]
pub enum EncodeHintTypes {
    /// Degree of error correction; shape depends on the target format.
    ErrorCorrection,
    /// What character encoding to use, where applicable.
    CharacterSet,
    /// The matrix shape for Data Matrix.
    DataMatrixShape,
    /// Whether to use compact mode for Data Matrix.
    DataMatrixCompact,
    /// A minimum barcode size.
    MinSize,
    /// A maximum barcode size.
    MaxSize,
    /// Margin, in pixels, to use when generating the barcode.
    MARGIN,
    /// Whether to use compact mode for PDF417.
    Pdf417Compact,
    /// What compaction mode to use for PDF417.
    Pdf417Compaction,
    /// Minimum and maximum number of rows and columns for PDF417.
    Pdf417Dimensions,
    /// Whether to automatically insert ECIs when encoding PDF417.
    Pdf417AutoEci,
    /// The required number of layers for an Aztec code.
    AztecLayers,
    /// The exact version of QR code to be encoded.
    QrVersion,
    /// The QR code mask pattern to be used.
    QrMaskPattern,
    /// Whether to use compact mode for QR code.
    QrCompact,
    /// Whether the data should be encoded to the GS1 standard.
    Gs1Format,
    /// Forces which encoding will be used; Code-128 code sets only.
    ForceCodeSet,
    /// Forces C40 encoding for Data Matrix.
    ForceC40,
    /// Whether to use compact mode for Code-128.
    Code128Compact,
    /// Translate numeric values into the Telepen alphanumeric form.
    TelepenAsNumeric,
}

/// The shape-hint vocabulary: three case-exact spellings.
pub open spec fn spec_parse_shape(v: Seq<char>) -> Option<DataMatrixShape> {
    if v == "ForceNone"@ {
        Some(DataMatrixShape::ForceNone)
    } else if v == "ForceRectangle"@ {
        Some(DataMatrixShape::ForceRectangle)
    } else if v == "ForceSquare"@ {
        Some(DataMatrixShape::ForceSquare)
    } else {
        None
    }
}

/// What a set of the given kind parses the incoming text to, if anything.
/// The empty string never parses: it is reserved to mean "no-op".
pub open spec fn spec_encode_parse(kind: EncodeHintTypes, v: Seq<char>) -> Option<HintPayload> {
    if v.len() == 0 {
        None
    } else {
        match kind {
            EncodeHintTypes::ErrorCorrection | EncodeHintTypes::CharacterSet
            | EncodeHintTypes::MARGIN | EncodeHintTypes::Pdf417Compact
            | EncodeHintTypes::Pdf417Compaction | EncodeHintTypes::Pdf417AutoEci
            | EncodeHintTypes::QrVersion | EncodeHintTypes::QrMaskPattern
            | EncodeHintTypes::QrCompact | EncodeHintTypes::ForceCodeSet => Some(
                HintPayload::Text(v),
            ),
            EncodeHintTypes::DataMatrixCompact | EncodeHintTypes::Gs1Format
            | EncodeHintTypes::ForceC40 | EncodeHintTypes::Code128Compact
            | EncodeHintTypes::TelepenAsNumeric => match spec_parse_bool(v) {
                Some(b) => Some(HintPayload::Flag(b)),
                None => None,
            },
            EncodeHintTypes::DataMatrixShape => match spec_parse_shape(v) {
                Some(h) => Some(HintPayload::Shape(h)),
                None => None,
            },
            EncodeHintTypes::MinSize | EncodeHintTypes::MaxSize => match spec_parse_dimension(v) {
                Some(d) => Some(HintPayload::Size(d)),
                None => None,
            },
            EncodeHintTypes::Pdf417Dimensions => match spec_parse_dimensions(v) {
                Some(d) => Some(HintPayload::Range(d)),
                None => None,
            },
            EncodeHintTypes::AztecLayers => match spec_parse_i32(v) {
                Some(n) => Some(HintPayload::Layers(n)),
                None => None,
            },
        }
    }
}

/// The encode option store.  Absence of a field means "unset"; a stored
/// default is never fabricated.
#[derive(Clone)]
pub struct EncodeHintDictionary {
    pub error_correction: Option<String>,
    pub character_set: Option<String>,
    pub data_matrix_shape: Option<DataMatrixShape>,
    pub data_matrix_compact: Option<bool>,
    pub min_size: Option<Dimension>,
    pub max_size: Option<Dimension>,
    pub margin: Option<String>,
    pub pdf417_compact: Option<String>,
    pub pdf417_compaction: Option<String>,
    pub pdf417_dimensions: Option<RowColRange>,
    pub pdf417_auto_eci: Option<String>,
    pub aztec_layers: Option<i32>,
    pub qr_version: Option<String>,
    pub qr_mask_pattern: Option<String>,
    pub qr_compact: Option<String>,
    pub gs1_format: Option<bool>,
    pub force_code_set: Option<String>,
    pub force_c40: Option<bool>,
    pub code128_compact: Option<bool>,
    pub telepen_as_numeric: Option<bool>,
}

impl EncodeHintDictionary {
    /// The stored payload for one kind, if any.
    pub open spec fn spec_field(&self, kind: EncodeHintTypes) -> Option<HintPayload> {
        match kind {
            EncodeHintTypes::ErrorCorrection => match self.error_correction {
                Some(s) => Some(HintPayload::Text(s@)),
                None => None,
            },
            EncodeHintTypes::CharacterSet => match self.character_set {
                Some(s) => Some(HintPayload::Text(s@)),
                None => None,
            },
            EncodeHintTypes::DataMatrixShape => match self.data_matrix_shape {
                Some(h) => Some(HintPayload::Shape(h)),
                None => None,
            },
            EncodeHintTypes::DataMatrixCompact => match self.data_matrix_compact {
                Some(b) => Some(HintPayload::Flag(b)),
                None => None,
            },
            EncodeHintTypes::MinSize => match self.min_size {
                Some(d) => Some(HintPayload::Size(d)),
                None => None,
            },
            EncodeHintTypes::MaxSize => match self.max_size {
                Some(d) => Some(HintPayload::Size(d)),
                None => None,
            },
            EncodeHintTypes::MARGIN => match self.margin {
                Some(s) => Some(HintPayload::Text(s@)),
                None => None,
            },
            EncodeHintTypes::Pdf417Compact => match self.pdf417_compact {
                Some(s) => Some(HintPayload::Text(s@)),
                None => None,
            },
            EncodeHintTypes::Pdf417Compaction => match self.pdf417_compaction {
                Some(s) => Some(HintPayload::Text(s@)),
                None => None,
            },
            EncodeHintTypes::Pdf417Dimensions => match self.pdf417_dimensions {
                Some(d) => Some(HintPayload::Range(d)),
                None => None,
            },
            EncodeHintTypes::Pdf417AutoEci => match self.pdf417_auto_eci {
                Some(s) => Some(HintPayload::Text(s@)),
                None => None,
            },
            EncodeHintTypes::AztecLayers => match self.aztec_layers {
                Some(n) => Some(HintPayload::Layers(n)),
                None => None,
            },
            EncodeHintTypes::QrVersion => match self.qr_version {
                Some(s) => Some(HintPayload::Text(s@)),
                None => None,
            },
            EncodeHintTypes::QrMaskPattern => match self.qr_mask_pattern {
                Some(s) => Some(HintPayload::Text(s@)),
                None => None,
            },
            EncodeHintTypes::QrCompact => match self.qr_compact {
                Some(s) => Some(HintPayload::Text(s@)),
                None => None,
            },
            EncodeHintTypes::Gs1Format => match self.gs1_format {
                Some(b) => Some(HintPayload::Flag(b)),
                None => None,
            },
            EncodeHintTypes::ForceCodeSet => match self.force_code_set {
                Some(s) => Some(HintPayload::Text(s@)),
                None => None,
            },
            EncodeHintTypes::ForceC40 => match self.force_c40 {
                Some(b) => Some(HintPayload::Flag(b)),
                None => None,
            },
            EncodeHintTypes::Code128Compact => match self.code128_compact {
                Some(b) => Some(HintPayload::Flag(b)),
                None => None,
            },
            EncodeHintTypes::TelepenAsNumeric => match self.telepen_as_numeric {
                Some(b) => Some(HintPayload::Flag(b)),
                None => None,
            },
        }
    }
}

impl View for EncodeHintDictionary {
    type V = Map<EncodeHintTypes, HintPayload>;

    open spec fn view(&self) -> Map<EncodeHintTypes, HintPayload> {
        Map::new(
            |k: EncodeHintTypes| self.spec_field(k) is Some,
            |k: EncodeHintTypes| self.spec_field(k)->0,
        )
    }
}

impl EncodeHintDictionary {
    /// Creates an empty store: every kind unset.
    pub fn new() -> (r: EncodeHintDictionary)
        ensures
            r@ == Map::<EncodeHintTypes, HintPayload>::empty(),
    {
        let r = EncodeHintDictionary {
            error_correction: None,
            character_set: None,
            data_matrix_shape: None,
            data_matrix_compact: None,
            min_size: None,
            max_size: None,
            margin: None,
            pdf417_compact: None,
            pdf417_compaction: None,
            pdf417_dimensions: None,
            pdf417_auto_eci: None,
            aztec_layers: None,
            qr_version: None,
            qr_mask_pattern: None,
            qr_compact: None,
            gs1_format: None,
            force_code_set: None,
            force_c40: None,
            code128_compact: None,
            telepen_as_numeric: None,
        };
        proof {
            assert(r@ =~= Map::<EncodeHintTypes, HintPayload>::empty());
        }
        r
    }

    /// Renders the stored value for `hint` back to text; `None` reports
    /// that the kind is unset.
    pub fn get_hint(&self, hint: EncodeHintTypes) -> (r: Option<String>)
        ensures
            match r {
                Some(s) => self@.contains_key(hint) && s@ == render_payload(self@[hint]),
                None => !self@.contains_key(hint),
            },
    {
        match hint {
            EncodeHintTypes::ErrorCorrection => match &self.error_correction {
                Some(s) => Some(s.clone()),
                None => None,
            },
            EncodeHintTypes::CharacterSet => match &self.character_set {
                Some(s) => Some(s.clone()),
                None => None,
            },
            EncodeHintTypes::DataMatrixShape => match &self.data_matrix_shape {
                Some(h) => Some(crate::catalog::shape_str(*h)),
                None => None,
            },
            EncodeHintTypes::DataMatrixCompact => match &self.data_matrix_compact {
                Some(b) => Some(bool_str(*b)),
                None => None,
            },
            EncodeHintTypes::MinSize => match &self.min_size {
                Some(d) => Some(crate::catalog::dimension_str(*d)),
                None => None,
            },
            EncodeHintTypes::MaxSize => match &self.max_size {
                Some(d) => Some(crate::catalog::dimension_str(*d)),
                None => None,
            },
            EncodeHintTypes::MARGIN => match &self.margin {
                Some(s) => Some(s.clone()),
                None => None,
            },
            EncodeHintTypes::Pdf417Compact => match &self.pdf417_compact {
                Some(s) => Some(s.clone()),
                None => None,
            },
            EncodeHintTypes::Pdf417Compaction => match &self.pdf417_compaction {
                Some(s) => Some(s.clone()),
                None => None,
            },
            EncodeHintTypes::Pdf417Dimensions => match &self.pdf417_dimensions {
                Some(d) => Some(crate::catalog::range_str(*d)),
                None => None,
            },
            EncodeHintTypes::Pdf417AutoEci => match &self.pdf417_auto_eci {
                Some(s) => Some(s.clone()),
                None => None,
            },
            EncodeHintTypes::AztecLayers => match &self.aztec_layers {
                Some(n) => Some(crate::catalog::layers_str(*n)),
                None => None,
            },
            EncodeHintTypes::QrVersion => match &self.qr_version {
                Some(s) => Some(s.clone()),
                None => None,
            },
            EncodeHintTypes::QrMaskPattern => match &self.qr_mask_pattern {
                Some(s) => Some(s.clone()),
                None => None,
            },
            EncodeHintTypes::QrCompact => match &self.qr_compact {
                Some(s) => Some(s.clone()),
                None => None,
            },
            EncodeHintTypes::Gs1Format => match &self.gs1_format {
                Some(b) => Some(bool_str(*b)),
                None => None,
            },
            EncodeHintTypes::ForceCodeSet => match &self.force_code_set {
                Some(s) => Some(s.clone()),
                None => None,
            },
            EncodeHintTypes::ForceC40 => match &self.force_c40 {
                Some(b) => Some(bool_str(*b)),
                None => None,
            },
            EncodeHintTypes::Code128Compact => match &self.code128_compact {
                Some(b) => Some(bool_str(*b)),
                None => None,
            },
            EncodeHintTypes::TelepenAsNumeric => match &self.telepen_as_numeric {
                Some(b) => Some(bool_str(*b)),
                None => None,
            },
        }
    }

    /// Parses `value` under the rules of `hint` and stores the result.
    /// Fails on empty input and on any parse failure, leaving the store
    /// untouched in every failing case.
    pub fn set_hint(&mut self, hint: EncodeHintTypes, value: String) -> (r: bool)
        ensures
            r == (spec_encode_parse(hint, value@) is Some),
            r ==> final(self)@ == old(self)@.insert(hint, spec_encode_parse(hint, value@)->0),
            !r ==> final(self)@ == old(self)@,
    {
        if value.as_str().is_empty() {
            return false;
        }
        match hint {
            EncodeHintTypes::ErrorCorrection => {
                self.error_correction = Some(value);
                proof {
                    assert(self@ =~= old(self)@.insert(hint, spec_encode_parse(hint, value@)->0));
                }
                true
            },
            EncodeHintTypes::CharacterSet => {
                self.character_set = Some(value);
                proof {
                    assert(self@ =~= old(self)@.insert(hint, spec_encode_parse(hint, value@)->0));
                }
                true
            },
            EncodeHintTypes::DataMatrixShape => {
                let shape = if str_eq(value.as_str(), "ForceNone") {
                    Some(DataMatrixShape::ForceNone)
                } else if str_eq(value.as_str(), "ForceRectangle") {
                    Some(DataMatrixShape::ForceRectangle)
                } else if str_eq(value.as_str(), "ForceSquare") {
                    Some(DataMatrixShape::ForceSquare)
                } else {
                    None
                };
                match shape {
                    Some(h) => {
                        self.data_matrix_shape = Some(h);
                        proof {
                            assert(self@ =~= old(self)@.insert(
                                hint,
                                spec_encode_parse(hint, value@)->0,
                            ));
                        }
                        true
                    },
                    None => false,
                }
            },
            EncodeHintTypes::DataMatrixCompact => {
                match parse_bool_str(value.as_str()) {
                    Some(b) => {
                        self.data_matrix_compact = Some(b);
                        proof {
                            assert(self@ =~= old(self)@.insert(
                                hint,
                                spec_encode_parse(hint, value@)->0,
                            ));
                        }
                        true
                    },
                    None => false,
                }
            },
            EncodeHintTypes::MinSize => {
                match parse_dimension(value.as_str()) {
                    Some(d) => {
                        self.min_size = Some(d);
                        proof {
                            assert(self@ =~= old(self)@.insert(
                                hint,
                                spec_encode_parse(hint, value@)->0,
                            ));
                        }
                        true
                    },
                    None => false,
                }
            },
            EncodeHintTypes::MaxSize => {
                match parse_dimension(value.as_str()) {
                    Some(d) => {
                        self.max_size = Some(d);
                        proof {
                            assert(self@ =~= old(self)@.insert(
                                hint,
                                spec_encode_parse(hint, value@)->0,
                            ));
                        }
                        true
                    },
                    None => false,
                }
            },
            EncodeHintTypes::MARGIN => {
                self.margin = Some(value);
                proof {
                    assert(self@ =~= old(self)@.insert(hint, spec_encode_parse(hint, value@)->0));
                }
                true
            },
            EncodeHintTypes::Pdf417Compact => {
                self.pdf417_compact = Some(value);
                proof {
                    assert(self@ =~= old(self)@.insert(hint, spec_encode_parse(hint, value@)->0));
                }
                true
            },
            EncodeHintTypes::Pdf417Compaction => {
                self.pdf417_compaction = Some(value);
                proof {
                    assert(self@ =~= old(self)@.insert(hint, spec_encode_parse(hint, value@)->0));
                }
                true
            },
            EncodeHintTypes::Pdf417Dimensions => {
                match parse_dimensions(value.as_str()) {
                    Some(d) => {
                        self.pdf417_dimensions = Some(d);
                        proof {
                            assert(self@ =~= old(self)@.insert(
                                hint,
                                spec_encode_parse(hint, value@)->0,
                            ));
                        }
                        true
                    },
                    None => false,
                }
            },
            EncodeHintTypes::Pdf417AutoEci => {
                self.pdf417_auto_eci = Some(value);
                proof {
                    assert(self@ =~= old(self)@.insert(hint, spec_encode_parse(hint, value@)->0));
                }
                true
            },
            EncodeHintTypes::AztecLayers => {
                match parse_i32_str(value.as_str()) {
                    Some(n) => {
                        self.aztec_layers = Some(n);
                        proof {
                            assert(self@ =~= old(self)@.insert(
                                hint,
                                spec_encode_parse(hint, value@)->0,
                            ));
                        }
                        true
                    },
                    None => false,
                }
            },
            EncodeHintTypes::QrVersion => {
                self.qr_version = Some(value);
                proof {
                    assert(self@ =~= old(self)@.insert(hint, spec_encode_parse(hint, value@)->0));
                }
                true
            },
            EncodeHintTypes::QrMaskPattern => {
                self.qr_mask_pattern = Some(value);
                proof {
                    assert(self@ =~= old(self)@.insert(hint, spec_encode_parse(hint, value@)->0));
                }
                true
            },
            EncodeHintTypes::QrCompact => {
                self.qr_compact = Some(value);
                proof {
                    assert(self@ =~= old(self)@.insert(hint, spec_encode_parse(hint, value@)->0));
                }
                true
            },
            EncodeHintTypes::Gs1Format => {
                match parse_bool_str(value.as_str()) {
                    Some(b) => {
                        self.gs1_format = Some(b);
                        proof {
                            assert(self@ =~= old(self)@.insert(
                                hint,
                                spec_encode_parse(hint, value@)->0,
                            ));
                        }
                        true
                    },
                    None => false,
                }
            },
            EncodeHintTypes::ForceCodeSet => {
                self.force_code_set = Some(value);
                proof {
                    assert(self@ =~= old(self)@.insert(hint, spec_encode_parse(hint, value@)->0));
                }
                true
            },
            EncodeHintTypes::ForceC40 => {
                match parse_bool_str(value.as_str()) {
                    Some(b) => {
                        self.force_c40 = Some(b);
                        proof {
                            assert(self@ =~= old(self)@.insert(
                                hint,
                                spec_encode_parse(hint, value@)->0,
                            ));
                        }
                        true
                    },
                    None => false,
                }
            },
            EncodeHintTypes::Code128Compact => {
                match parse_bool_str(value.as_str()) {
                    Some(b) => {
                        self.code128_compact = Some(b);
                        proof {
                            assert(self@ =~= old(self)@.insert(
                                hint,
                                spec_encode_parse(hint, value@)->0,
                            ));
                        }
                        true
                    },
                    None => false,
                }
            },
            EncodeHintTypes::TelepenAsNumeric => {
                match parse_bool_str(value.as_str()) {
                    Some(b) => {
                        self.telepen_as_numeric = Some(b);
                        proof {
                            assert(self@ =~= old(self)@.insert(
                                hint,
                                spec_encode_parse(hint, value@)->0,
                            ));
                        }
                        true
                    },
                    None => false,
                }
            },
        }
    }

    /// Clears any stored value for `hint`; always succeeds, and reports
    /// whether a value had actually been present.
    pub fn remove_hint(&mut self, hint: EncodeHintTypes) -> (r: bool)
        ensures
            r == old(self)@.contains_key(hint),
            final(self)@ == old(self)@.remove(hint),
    {
        let r = match hint {
            EncodeHintTypes::ErrorCorrection => {
                let was = self.error_correction.is_some();
                self.error_correction = None;
                was
            },
            EncodeHintTypes::CharacterSet => {
                let was = self.character_set.is_some();
                self.character_set = None;
                was
            },
            EncodeHintTypes::DataMatrixShape => {
                let was = self.data_matrix_shape.is_some();
                self.data_matrix_shape = None;
                was
            },
            EncodeHintTypes::DataMatrixCompact => {
                let was = self.data_matrix_compact.is_some();
                self.data_matrix_compact = None;
                was
            },
            EncodeHintTypes::MinSize => {
                let was = self.min_size.is_some();
                self.min_size = None;
                was
            },
            EncodeHintTypes::MaxSize => {
                let was = self.max_size.is_some();
                self.max_size = None;
                was
            },
            EncodeHintTypes::MARGIN => {
                let was = self.margin.is_some();
                self.margin = None;
                was
            },
            EncodeHintTypes::Pdf417Compact => {
                let was = self.pdf417_compact.is_some();
                self.pdf417_compact = None;
                was
            },
            EncodeHintTypes::Pdf417Compaction => {
                let was = self.pdf417_compaction.is_some();
                self.pdf417_compaction = None;
                was
            },
            EncodeHintTypes::Pdf417Dimensions => {
                let was = self.pdf417_dimensions.is_some();
                self.pdf417_dimensions = None;
                was
            },
            EncodeHintTypes::Pdf417AutoEci => {
                let was = self.pdf417_auto_eci.is_some();
                self.pdf417_auto_eci = None;
                was
            },
            EncodeHintTypes::AztecLayers => {
                let was = self.aztec_layers.is_some();
                self.aztec_layers = None;
                was
            },
            EncodeHintTypes::QrVersion => {
                let was = self.qr_version.is_some();
                self.qr_version = None;
                was
            },
            EncodeHintTypes::QrMaskPattern => {
                let was = self.qr_mask_pattern.is_some();
                self.qr_mask_pattern = None;
                was
            },
            EncodeHintTypes::QrCompact => {
                let was = self.qr_compact.is_some();
                self.qr_compact = None;
                was
            },
            EncodeHintTypes::Gs1Format => {
                let was = self.gs1_format.is_some();
                self.gs1_format = None;
                was
            },
            EncodeHintTypes::ForceCodeSet => {
                let was = self.force_code_set.is_some();
                self.force_code_set = None;
                was
            },
            EncodeHintTypes::ForceC40 => {
                let was = self.force_c40.is_some();
                self.force_c40 = None;
                was
            },
            EncodeHintTypes::Code128Compact => {
                let was = self.code128_compact.is_some();
                self.code128_compact = None;
                was
            },
            EncodeHintTypes::TelepenAsNumeric => {
                let was = self.telepen_as_numeric.is_some();
                self.telepen_as_numeric = None;
                was
            },
        };
        proof {
            assert(self@ =~= old(self)@.remove(hint));
        }
        r
    }
}

} // verus!
