//! A boundary-marshalling layer around a barcode engine.
//!
//! The host on the far side of the call boundary can only exchange plain
//! scalars, strings and flat arrays.  This crate supplies the verified
//! machinery between that boundary and the engine: a typed option store
//! driven by a string protocol (`decode_hints`, `encode_hints`), a pixel
//! normalizer (`pixels`), an adapter shaping engine results into plain
//! values (`result`), and the engine entry points themselves (`engine`).

pub mod catalog;
pub mod chars;
pub mod decode_hints;
pub mod encode_hints;
pub mod engine;
pub mod formats;
pub mod laws;
pub mod pixels;
pub mod result;

pub use decode_hints::{DecodeHintDictionary, DecodeHintTypes};
pub use encode_hints::{EncodeHintDictionary, EncodeHintTypes};
pub use engine::{
    decode_barcode, decode_barcode_rgb, decode_barcode_with_hints, decode_multi, encode_barcode,
    encode_barcode_with_hints,
};
pub use formats::BarcodeFormat;
pub use pixels::convert_js_image_to_luma;
pub use result::{BarcodeResult, MetadataValue, MultiDecodeResult};
