//! Laws of the option stores, stated and proved once for every kind they
//! speak of.  Scenario-sized facts live in the test suite; these are the
//! statements that hold across all inputs.

use vstd::prelude::*;
use crate::catalog::{HintPayload, render_payload};
use crate::decode_hints::{DecodeHintDictionary, DecodeHintTypes, spec_decode_parse};
use crate::encode_hints::{EncodeHintDictionary, EncodeHintTypes, spec_encode_parse};

verus! {

/// The decode kinds whose payload is a boolean.
pub open spec fn is_decode_bool_kind(k: DecodeHintTypes) -> bool {
    match k {
        DecodeHintTypes::PureBarcode | DecodeHintTypes::TryHarder
        | DecodeHintTypes::AssumeCode39CheckDigit | DecodeHintTypes::AssumeGs1
        | DecodeHintTypes::ReturnCodabarStartEnd | DecodeHintTypes::AlsoInverted
        | DecodeHintTypes::TelepenAsNumeric => true,
        _ => false,
    }
}

/// The encode kinds whose payload is a boolean.
pub open spec fn is_encode_bool_kind(k: EncodeHintTypes) -> bool {
    match k {
        EncodeHintTypes::DataMatrixCompact | EncodeHintTypes::Gs1Format
        | EncodeHintTypes::ForceC40 | EncodeHintTypes::Code128Compact
        | EncodeHintTypes::TelepenAsNumeric => true,
        _ => false,
    }
}

/// Law: for every boolean-shaped decode kind, setting the canonical true
/// literal parses to the true flag, and a store holding that flag renders
/// it back as the canonical literal.
pub proof fn lemma_bool_round_trip_decode(d: DecodeHintDictionary, k: DecodeHintTypes)
    requires
        is_decode_bool_kind(k),
    ensures
        spec_decode_parse(k, "true"@) == Some(HintPayload::Flag(true)),
        render_payload(d@.insert(k, HintPayload::Flag(true))[k]) == "true"@,
        d@.insert(k, HintPayload::Flag(true)).contains_key(k),
{
    reveal_strlit("true");
}

/// Law: for every boolean-shaped encode kind, setting the canonical true
/// literal parses to the true flag, and a store holding that flag renders
/// it back as the canonical literal.
pub proof fn lemma_bool_round_trip_encode(d: EncodeHintDictionary, k: EncodeHintTypes)
    requires
        is_encode_bool_kind(k),
    ensures
        spec_encode_parse(k, "true"@) == Some(HintPayload::Flag(true)),
        render_payload(d@.insert(k, HintPayload::Flag(true))[k]) == "true"@,
        d@.insert(k, HintPayload::Flag(true)).contains_key(k),
{
    reveal_strlit("true");
}

/// Law: the empty string is a no-op marker, never a storable value: a set
/// of any decode kind with it fails.
pub proof fn lemma_empty_set_rejected_decode(k: DecodeHintTypes)
    ensures
        spec_decode_parse(k, Seq::<char>::empty()) is None,
{
}

/// Law: the empty string is a no-op marker, never a storable value: a set
/// of any encode kind with it fails.
pub proof fn lemma_empty_set_rejected_encode(k: EncodeHintTypes)
    ensures
        spec_encode_parse(k, Seq::<char>::empty()) is None,
{
}

/// Law: after removing a decode kind it reads as unset, and removing an
/// unset kind changes nothing.
pub proof fn lemma_remove_unset_decode(d: DecodeHintDictionary, k: DecodeHintTypes)
    ensures
        !d@.remove(k).contains_key(k),
        !d@.contains_key(k) ==> d@.remove(k) == d@,
{
    if !d@.contains_key(k) {
        assert(d@.remove(k) =~= d@);
    }
}

/// Law: after removing an encode kind it reads as unset, and removing an
/// unset kind changes nothing.
pub proof fn lemma_remove_unset_encode(d: EncodeHintDictionary, k: EncodeHintTypes)
    ensures
        !d@.remove(k).contains_key(k),
        !d@.contains_key(k) ==> d@.remove(k) == d@,
{
    if !d@.contains_key(k) {
        assert(d@.remove(k) =~= d@);
    }
}

/// Law: the callback-shaped decode kind is permanently unsupported: no
/// text whatever makes a set of it succeed.
pub proof fn lemma_callback_kind_unsupported(v: Seq<char>)
    ensures
        spec_decode_parse(DecodeHintTypes::NeedResultPointCallback, v) is None,
{
}

/// The payload shape each decode kind is declared with.  The callback
/// kind has no representable payload at all.
pub open spec fn decode_payload_shape_ok(k: DecodeHintTypes, p: HintPayload) -> bool {
    match k {
        DecodeHintTypes::Other | DecodeHintTypes::CharacterSet => p is Text,
        DecodeHintTypes::PureBarcode | DecodeHintTypes::TryHarder
        | DecodeHintTypes::AssumeCode39CheckDigit | DecodeHintTypes::AssumeGs1
        | DecodeHintTypes::ReturnCodabarStartEnd | DecodeHintTypes::AlsoInverted
        | DecodeHintTypes::TelepenAsNumeric => p is Flag,
        DecodeHintTypes::PossibleFormats => p is Formats,
        DecodeHintTypes::AllowedLengths | DecodeHintTypes::AllowedEanExtensions => p is Numbers,
        DecodeHintTypes::NeedResultPointCallback => false,
    }
}

/// The payload shape each encode kind is declared with.
pub open spec fn encode_payload_shape_ok(k: EncodeHintTypes, p: HintPayload) -> bool {
    match k {
        EncodeHintTypes::ErrorCorrection | EncodeHintTypes::CharacterSet
        | EncodeHintTypes::MARGIN | EncodeHintTypes::Pdf417Compact
        | EncodeHintTypes::Pdf417Compaction | EncodeHintTypes::Pdf417AutoEci
        | EncodeHintTypes::QrVersion | EncodeHintTypes::QrMaskPattern
        | EncodeHintTypes::QrCompact | EncodeHintTypes::ForceCodeSet => p is Text,
        EncodeHintTypes::DataMatrixCompact | EncodeHintTypes::Gs1Format
        | EncodeHintTypes::ForceC40 | EncodeHintTypes::Code128Compact
        | EncodeHintTypes::TelepenAsNumeric => p is Flag,
        EncodeHintTypes::DataMatrixShape => p is Shape,
        EncodeHintTypes::MinSize | EncodeHintTypes::MaxSize => p is Size,
        EncodeHintTypes::Pdf417Dimensions => p is Range,
        EncodeHintTypes::AztecLayers => p is Layers,
    }
}

/// Law: a value stored under a decode kind always has that kind's
/// declared payload shape.
pub proof fn lemma_decode_store_shape_invariant(d: DecodeHintDictionary, k: DecodeHintTypes)
    ensures
        d@.contains_key(k) ==> decode_payload_shape_ok(k, d@[k]),
{
}

/// Law: a value stored under an encode kind always has that kind's
/// declared payload shape.
pub proof fn lemma_encode_store_shape_invariant(d: EncodeHintDictionary, k: EncodeHintTypes)
    ensures
        d@.contains_key(k) ==> encode_payload_shape_ok(k, d@[k]),
{
}

} // verus!
