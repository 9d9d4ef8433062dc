//! The option catalog: the payload shapes an option value can take, the
//! composite payload types, and the canonical rendering of each shape.
//!
//! Parsing rules live with the two dictionaries; rendering is shared here.

use vstd::prelude::*;
use crate::chars::{
    spec_bool_str, spec_dec_string, spec_signed_dec_string, spec_u32_concat, render_u64, render_i64,
};
use crate::formats::{BarcodeFormat, spec_format_concat};

verus! {

/// The matrix-shape vocabulary of the data-matrix shape option.
#[derive(Debug, Clone, Copy, PartialEq, Eq, Structural)]
pub enum DataMatrixShape {
    ForceNone,
    ForceRectangle,
    ForceSquare,
}

/// A width/height pair, the payload of the size options.
#[derive(Debug, Clone, Copy, PartialEq, Eq, Structural)]
pub struct Dimension {
    pub width: usize,
    pub height: usize,
}

/// A min/max column and row range, the payload of the row/column option.
#[derive(Debug, Clone, Copy, PartialEq, Eq, Structural)]
pub struct RowColRange {
    pub min_cols: usize,
    pub max_cols: usize,
    pub min_rows: usize,
    pub max_rows: usize,
}

/// One stored option value.  Each option kind admits exactly one of these
/// shapes; the dictionaries enforce that at write time.
pub enum HintPayload {
    /// A free-form string, stored verbatim.
    Text(Seq<char>),
    /// A boolean.
    Flag(bool),
    /// A duplicate-free format set, in order of first appearance.
    Formats(Seq<BarcodeFormat>),
    /// A list of unsigned integers.
    Numbers(Seq<u32>),
    /// A matrix-shape choice.
    Shape(DataMatrixShape),
    /// A width/height pair.
    Size(Dimension),
    /// A min/max row and column range.
    Range(RowColRange),
    /// A signed layer count.
    Layers(i32),
}

/// The canonical text of a shape choice.
pub open spec fn spec_shape_str(h: DataMatrixShape) -> Seq<char> {
    match h {
        DataMatrixShape::ForceNone => "ForceNone"@,
        DataMatrixShape::ForceRectangle => "ForceRectangle"@,
        DataMatrixShape::ForceSquare => "ForceSquare"@,
    }
}

/// The canonical text of a width/height pair.
pub open spec fn spec_dimension_str(d: Dimension) -> Seq<char> {
    spec_dec_string(d.width as int) + "x"@ + spec_dec_string(d.height as int)
}

/// The canonical text of a row/column range.
pub open spec fn spec_range_str(r: RowColRange) -> Seq<char> {
    spec_dec_string(r.min_cols as int) + "/"@ + spec_dec_string(r.max_cols as int) + "||"@
        + spec_dec_string(r.min_rows as int) + "/"@ + spec_dec_string(r.max_rows as int)
}

/// The canonical rendering of a stored payload back to text.
pub open spec fn render_payload(p: HintPayload) -> Seq<char> {
    match p {
        HintPayload::Text(s) => s,
        HintPayload::Flag(b) => spec_bool_str(b),
        HintPayload::Formats(fs) => spec_format_concat(fs),
        HintPayload::Numbers(ns) => spec_u32_concat(ns),
        HintPayload::Shape(h) => spec_shape_str(h),
        HintPayload::Size(d) => spec_dimension_str(d),
        HintPayload::Range(r) => spec_range_str(r),
        HintPayload::Layers(n) => spec_signed_dec_string(n as int),
    }
}

/// Renders a shape choice.
pub fn shape_str(h: DataMatrixShape) -> (r: String)
    ensures
        r@ == spec_shape_str(h),
{
    match h {
        DataMatrixShape::ForceNone => String::from_str("ForceNone"),
        DataMatrixShape::ForceRectangle => String::from_str("ForceRectangle"),
        DataMatrixShape::ForceSquare => String::from_str("ForceSquare"),
    }
}

/// Renders a width/height pair.
pub fn dimension_str(d: Dimension) -> (r: String)
    ensures
        r@ == spec_dimension_str(d),
{
    let mut out = render_u64(d.width as u64);
    out.append("x");
    let h = render_u64(d.height as u64);
    out.append(h.as_str());
    out
}

/// Renders a row/column range.
pub fn range_str(r: RowColRange) -> (res: String)
    ensures
        res@ == spec_range_str(r),
{
    let mut out = render_u64(r.min_cols as u64);
    out.append("/");
    let a = render_u64(r.max_cols as u64);
    out.append(a.as_str());
    out.append("||");
    let b = render_u64(r.min_rows as u64);
    out.append(b.as_str());
    out.append("/");
    let c = render_u64(r.max_rows as u64);
    out.append(c.as_str());
    out
}

/// Renders a layer-count payload.
pub fn layers_str(n: i32) -> (r: String)
    ensures
        r@ == spec_signed_dec_string(n as int),
{
    render_i64(n as i64)
}

} // verus!
