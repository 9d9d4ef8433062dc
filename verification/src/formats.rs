//! The barcode format identifiers, their canonical names, and the
//! case-insensitive name lookup used when a format set crosses the
//! boundary as text.

use vstd::prelude::*;
use crate::chars::{ascii_lower, lower_eq};

verus! {

/// Available barcode types.
#[derive(Debug, Clone, Copy, PartialEq, Eq, Hash, Structural)]
pub enum BarcodeFormat {
    /// Aztec 2D barcode format.
    AZTEC,
    /// CODABAR 1D format.
    CODABAR,
    /// Code 39 1D format.
    Code39,
    /// Code 93 1D format.
    Code93,
    /// Code 128 1D format.
    Code128,
    /// Data Matrix 2D barcode format.
    DataMatrix,
    /// EAN-8 1D format.
    Ean8,
    /// EAN-13 1D format.
    Ean13,
    /// ITF (Interleaved Two of Five) 1D format.
    ITF,
    /// MaxiCode 2D barcode format.
    MAXICODE,
    /// PDF417 format.
    Pdf417,
    /// QR Code 2D barcode format.
    QrCode,
    /// RSS 14.
    Rss14,
    /// RSS EXPANDED.
    RssExpanded,
    /// UPC-A 1D format.
    UpcA,
    /// UPC-E 1D format.
    UpcE,
    /// UPC/EAN extension format.  Not a stand-alone format.
    UpcEanExtension,
    /// Micro QR 2D format.
    MicroQR,
    /// Telepen 1D format.
    Telepen,
    /// Rectangular micro QR 2D format.
    RectangularMicroQR,
    /// A format this layer does not carry.
    UnsuportedFormat,
}

/// The canonical (engine-facing) name of each format.
pub open spec fn spec_format_name(f: BarcodeFormat) -> Seq<char> {
    match f {
        BarcodeFormat::AZTEC => "aztec"@,
        BarcodeFormat::CODABAR => "codabar"@,
        BarcodeFormat::Code39 => "code 39"@,
        BarcodeFormat::Code93 => "code 93"@,
        BarcodeFormat::Code128 => "code 128"@,
        BarcodeFormat::DataMatrix => "datamatrix"@,
        BarcodeFormat::Ean8 => "ean 8"@,
        BarcodeFormat::Ean13 => "ean 13"@,
        BarcodeFormat::ITF => "itf"@,
        BarcodeFormat::MAXICODE => "maxicode"@,
        BarcodeFormat::Pdf417 => "pdf 417"@,
        BarcodeFormat::QrCode => "qrcode"@,
        BarcodeFormat::Rss14 => "rss 14"@,
        BarcodeFormat::RssExpanded => "rss expanded"@,
        BarcodeFormat::UpcA => "upc a"@,
        BarcodeFormat::UpcE => "upc e"@,
        BarcodeFormat::UpcEanExtension => "upc/ean extension"@,
        BarcodeFormat::MicroQR => "mqr"@,
        BarcodeFormat::Telepen => "telepen"@,
        BarcodeFormat::RectangularMicroQR => "rmqr"@,
        BarcodeFormat::UnsuportedFormat => "unsuported"@,
    }
}

/// Renders the canonical name of a format.
pub fn format_name(f: BarcodeFormat) -> (r: String)
    ensures
        r@ == spec_format_name(f),
{
    match f {
        BarcodeFormat::AZTEC => String::from_str("aztec"),
        BarcodeFormat::CODABAR => String::from_str("codabar"),
        BarcodeFormat::Code39 => String::from_str("code 39"),
        BarcodeFormat::Code93 => String::from_str("code 93"),
        BarcodeFormat::Code128 => String::from_str("code 128"),
        BarcodeFormat::DataMatrix => String::from_str("datamatrix"),
        BarcodeFormat::Ean8 => String::from_str("ean 8"),
        BarcodeFormat::Ean13 => String::from_str("ean 13"),
        BarcodeFormat::ITF => String::from_str("itf"),
        BarcodeFormat::MAXICODE => String::from_str("maxicode"),
        BarcodeFormat::Pdf417 => String::from_str("pdf 417"),
        BarcodeFormat::QrCode => String::from_str("qrcode"),
        BarcodeFormat::Rss14 => String::from_str("rss 14"),
        BarcodeFormat::RssExpanded => String::from_str("rss expanded"),
        BarcodeFormat::UpcA => String::from_str("upc a"),
        BarcodeFormat::UpcE => String::from_str("upc e"),
        BarcodeFormat::UpcEanExtension => String::from_str("upc/ean extension"),
        BarcodeFormat::MicroQR => String::from_str("mqr"),
        BarcodeFormat::Telepen => String::from_str("telepen"),
        BarcodeFormat::RectangularMicroQR => String::from_str("rmqr"),
        BarcodeFormat::UnsuportedFormat => String::from_str("unsuported"),
    }
}

/// The name lookup: resolves a spelling (case-insensitively) to a format.
/// A spelling that names no carried format resolves to `None`.
pub open spec fn spec_format_from_name(s: Seq<char>) -> Option<BarcodeFormat> {
    let l = ascii_lower(s);
    if l == "aztec"@ || l == "aztec code"@ || l == "aztec_code"@ {
        Some(BarcodeFormat::AZTEC)
    } else if l == "codabar"@ || l == "coda"@ || l == "coda_bar"@ || l == "cod_a_bar"@
        || l == "cod_a"@ {
        Some(BarcodeFormat::CODABAR)
    } else if l == "code 39"@ || l == "code_39"@ || l == "code39"@ || l == "alpha39"@
        || l == "code_3_of_9"@ || l == "uss_39"@ || l == "usd-3"@ {
        Some(BarcodeFormat::Code39)
    } else if l == "code 93"@ || l == "code_93"@ || l == "code93"@ {
        Some(BarcodeFormat::Code93)
    } else if l == "code 128"@ || l == "code_128"@ || l == "code128"@
        || l == "iso/ied 15417:2007"@ || l == "iso/_15417:2007"@ {
        Some(BarcodeFormat::Code128)
    } else if l == "datamatrix"@ || l == "data matrix"@ || l == "data_matrix"@ {
        Some(BarcodeFormat::DataMatrix)
    } else if l == "ean 8"@ || l == "ean_8"@ || l == "ean8"@ {
        Some(BarcodeFormat::Ean8)
    } else if l == "ean 13"@ || l == "ean_13"@ || l == "ean13"@ {
        Some(BarcodeFormat::Ean13)
    } else if l == "itf"@ || l == "itf_code"@ || l == "itf14"@ || l == "itf 14"@ || l == "itf_14"@
        || l == "interleaved 2 of 5"@ {
        Some(BarcodeFormat::ITF)
    } else if l == "maxicode"@ || l == "maxi_code"@ {
        Some(BarcodeFormat::MAXICODE)
    } else if l == "pdf 417"@ || l == "pdf_417"@ || l == "pdf417"@ || l == "iso 15438"@
        || l == "iso_15438"@ {
        Some(BarcodeFormat::Pdf417)
    } else if l == "qrcode"@ || l == "qr_code"@ || l == "qr code"@ {
        Some(BarcodeFormat::QrCode)
    } else if l == "mqr"@ || l == "microqr"@ || l == "micro_qr"@ || l == "micro_qrcode"@
        || l == "micro_qr_code"@ || l == "mqr_code"@ {
        Some(BarcodeFormat::MicroQR)
    } else if l == "rmqr"@ || l == "rectangular_mqr"@ || l == "rectangular_micro_qr"@
        || l == "rmqr_code"@ {
        Some(BarcodeFormat::RectangularMicroQR)
    } else if l == "rss 14"@ || l == "rss_14"@ || l == "rss14"@ || l == "gs1 databar"@
        || l == "gs1 databar coupon"@ || l == "gs1_databar_coupon"@ {
        Some(BarcodeFormat::Rss14)
    } else if l == "rss expanded"@ || l == "expanded rss"@ || l == "rss_expanded"@ {
        Some(BarcodeFormat::RssExpanded)
    } else if l == "telepen"@ {
        Some(BarcodeFormat::Telepen)
    } else if l == "upc a"@ || l == "upc_a"@ || l == "upca"@ {
        Some(BarcodeFormat::UpcA)
    } else if l == "upc e"@ || l == "upc_e"@ || l == "upce"@ {
        Some(BarcodeFormat::UpcE)
    } else if l == "upc ean extension"@ || l == "upc extension"@ || l == "ean extension"@
        || l == "upc/ean extension"@ || l == "upc_ean_extension"@ {
        Some(BarcodeFormat::UpcEanExtension)
    } else {
        None
    }
}

/// Resolves a spelling to a format, case-insensitively.
pub fn format_from_name(s: &str) -> (r: Option<BarcodeFormat>)
    ensures
        r == spec_format_from_name(s@),
{
    if lower_eq(s, "aztec") || lower_eq(s, "aztec code") || lower_eq(s, "aztec_code") {
        Some(BarcodeFormat::AZTEC)
    } else if lower_eq(s, "codabar") || lower_eq(s, "coda") || lower_eq(s, "coda_bar")
        || lower_eq(s, "cod_a_bar") || lower_eq(s, "cod_a") {
        Some(BarcodeFormat::CODABAR)
    } else if lower_eq(s, "code 39") || lower_eq(s, "code_39") || lower_eq(s, "code39")
        || lower_eq(s, "alpha39") || lower_eq(s, "code_3_of_9") || lower_eq(s, "uss_39")
        || lower_eq(s, "usd-3") {
        Some(BarcodeFormat::Code39)
    } else if lower_eq(s, "code 93") || lower_eq(s, "code_93") || lower_eq(s, "code93") {
        Some(BarcodeFormat::Code93)
    } else if lower_eq(s, "code 128") || lower_eq(s, "code_128") || lower_eq(s, "code128")
        || lower_eq(s, "iso/ied 15417:2007") || lower_eq(s, "iso/_15417:2007") {
        Some(BarcodeFormat::Code128)
    } else if lower_eq(s, "datamatrix") || lower_eq(s, "data matrix") || lower_eq(
        s,
        "data_matrix",
    ) {
        Some(BarcodeFormat::DataMatrix)
    } else if lower_eq(s, "ean 8") || lower_eq(s, "ean_8") || lower_eq(s, "ean8") {
        Some(BarcodeFormat::Ean8)
    } else if lower_eq(s, "ean 13") || lower_eq(s, "ean_13") || lower_eq(s, "ean13") {
        Some(BarcodeFormat::Ean13)
    } else if lower_eq(s, "itf") || lower_eq(s, "itf_code") || lower_eq(s, "itf14") || lower_eq(
        s,
        "itf 14",
    ) || lower_eq(s, "itf_14") || lower_eq(s, "interleaved 2 of 5") {
        Some(BarcodeFormat::ITF)
    } else if lower_eq(s, "maxicode") || lower_eq(s, "maxi_code") {
        Some(BarcodeFormat::MAXICODE)
    } else if lower_eq(s, "pdf 417") || lower_eq(s, "pdf_417") || lower_eq(s, "pdf417")
        || lower_eq(s, "iso 15438") || lower_eq(s, "iso_15438") {
        Some(BarcodeFormat::Pdf417)
    } else if lower_eq(s, "qrcode") || lower_eq(s, "qr_code") || lower_eq(s, "qr code") {
        Some(BarcodeFormat::QrCode)
    } else if lower_eq(s, "mqr") || lower_eq(s, "microqr") || lower_eq(s, "micro_qr") || lower_eq(
        s,
        "micro_qrcode",
    ) || lower_eq(s, "micro_qr_code") || lower_eq(s, "mqr_code") {
        Some(BarcodeFormat::MicroQR)
    } else if lower_eq(s, "rmqr") || lower_eq(s, "rectangular_mqr") || lower_eq(
        s,
        "rectangular_micro_qr",
    ) || lower_eq(s, "rmqr_code") {
        Some(BarcodeFormat::RectangularMicroQR)
    } else if lower_eq(s, "rss 14") || lower_eq(s, "rss_14") || lower_eq(s, "rss14") || lower_eq(
        s,
        "gs1 databar",
    ) || lower_eq(s, "gs1 databar coupon") || lower_eq(s, "gs1_databar_coupon") {
        Some(BarcodeFormat::Rss14)
    } else if lower_eq(s, "rss expanded") || lower_eq(s, "expanded rss") || lower_eq(
        s,
        "rss_expanded",
    ) {
        Some(BarcodeFormat::RssExpanded)
    } else if lower_eq(s, "telepen") {
        Some(BarcodeFormat::Telepen)
    } else if lower_eq(s, "upc a") || lower_eq(s, "upc_a") || lower_eq(s, "upca") {
        Some(BarcodeFormat::UpcA)
    } else if lower_eq(s, "upc e") || lower_eq(s, "upc_e") || lower_eq(s, "upce") {
        Some(BarcodeFormat::UpcE)
    } else if lower_eq(s, "upc ean extension") || lower_eq(s, "upc extension") || lower_eq(
        s,
        "ean extension",
    ) || lower_eq(s, "upc/ean extension") || lower_eq(s, "upc_ean_extension") {
        Some(BarcodeFormat::UpcEanExtension)
    } else {
        None
    }
}

/// The concatenation of the canonical names of `fs`, with no separator.
pub open spec fn spec_format_concat(fs: Seq<BarcodeFormat>) -> Seq<char>
    decreases fs.len(),
{
    if fs.len() == 0 {
        seq![]
    } else {
        spec_format_name(fs[0]) + spec_format_concat(fs.drop_first())
    }
}

/// Renders a format list as the concatenation of canonical names.
pub fn render_format_list(v: &Vec<BarcodeFormat>) -> (r: String)
    ensures
        r@ == spec_format_concat(v@),
{
    let mut out = String::new();
    let mut i: usize = 0;
    proof {
        assert(v@.skip(0) =~= v@);
    }
    while i < v.len()
        invariant
            i <= v@.len(),
            out@ + spec_format_concat(v@.skip(i as int)) == spec_format_concat(v@),
        decreases v@.len() - i,
    {
        let name = format_name(v[i]);
        let ghost rem = v@.skip(i as int);
        proof {
            assert(rem[0] == v@[i as int]);
            assert(rem.drop_first() =~= v@.skip(i + 1));
        }
        out.append(name.as_str());
        proof {
            assert(out@ + spec_format_concat(v@.skip(i + 1)) =~= spec_format_concat(v@));
        }
        i += 1;
    }
    proof {
        assert(v@.skip(v@.len() as int) =~= Seq::<BarcodeFormat>::empty());
        assert(out@ =~= out@ + spec_format_concat(v@.skip(v@.len() as int)));
    }
    out
}

/// Does `v` hold `f`?
pub fn contains_format(v: &Vec<BarcodeFormat>, f: BarcodeFormat) -> (r: bool)
    ensures
        r == v@.contains(f),
{
    let mut i: usize = 0;
    while i < v.len()
        invariant
            i <= v@.len(),
            forall|j: int| 0 <= j < i ==> v@[j] != f,
        decreases v@.len() - i,
    {
        if v[i] == f {
            return true;
        }
        i += 1;
    }
    false
}

/// Resolution of a token list into a duplicate-free format list:
/// unresolvable tokens are dropped, resolvable ones are kept once each,
/// in order of first appearance.
pub open spec fn resolve_formats(ts: Seq<Seq<char>>, acc: Seq<BarcodeFormat>) -> Seq<BarcodeFormat>
    decreases ts.len(),
{
    if ts.len() == 0 {
        acc
    } else {
        resolve_formats(
            ts.drop_first(),
            match spec_format_from_name(ts[0]) {
                Some(f) => if acc.contains(f) {
                    acc
                } else {
                    acc.push(f)
                },
                None => acc,
            },
        )
    }
}

/// The format set that a comma-separated spelling list resolves to.
pub open spec fn spec_resolve_format_list(s: Seq<char>) -> Seq<BarcodeFormat> {
    resolve_formats(crate::chars::spec_split_commas(s), seq![])
}

/// Resolves a comma-separated spelling list, dropping unresolvable tokens
/// and duplicates.
pub fn resolve_format_list(s: &str) -> (r: Vec<BarcodeFormat>)
    ensures
        r@ == spec_resolve_format_list(s@),
{
    let tokens = crate::chars::split_commas(s);
    let mut out: Vec<BarcodeFormat> = Vec::new();
    let mut i: usize = 0;
    proof {
        assert(tokens.deep_view().skip(0) =~= tokens.deep_view());
        assert(out@ =~= Seq::<BarcodeFormat>::empty());
    }
    while i < tokens.len()
        invariant
            i <= tokens.deep_view().len(),
            tokens.deep_view().len() == tokens@.len(),
            forall|j: int| 0 <= j < tokens@.len() ==> tokens.deep_view()[j] == #[trigger] tokens@[j]@,
            spec_resolve_format_list(s@) == resolve_formats(
                tokens.deep_view().skip(i as int),
                out@,
            ),
        decreases tokens@.len() - i,
    {
        let ghost rem = tokens.deep_view().skip(i as int);
        proof {
            assert(rem[0] == tokens.deep_view()[i as int]);
            assert(rem.drop_first() =~= tokens.deep_view().skip(i + 1));
        }
        match format_from_name(tokens[i].as_str()) {
            Some(f) => {
                if !contains_format(&out, f) {
                    out.push(f);
                }
            },
            None => {},
        }
        i += 1;
    }
    proof {
        assert(tokens.deep_view().skip(tokens@.len() as int) =~= Seq::<Seq<char>>::empty());
    }
    out
}

} // verus!
