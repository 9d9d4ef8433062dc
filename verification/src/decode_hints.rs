//! The decode-side option store: a bag holding at most one value per
//! decode option kind, driven entirely through a string protocol.

use vstd::prelude::*;
use crate::catalog::{HintPayload, render_payload};
use crate::chars::{
    spec_parse_bool, spec_u32_list, parse_bool_str, parse_u32_list, bool_str,
};
use crate::formats::{BarcodeFormat, spec_resolve_format_list, resolve_format_list};

verus! {

/// The decode option kinds.
#[derive(Debug, Clone, Copy, PartialEq, Eq, Hash, Structural)]
pub enum DecodeHintTypes {
    /// Unspecified, application-specific hint; free-form text.
    Other,
    /// Image is a pure monochrome image of a barcode.
    PureBarcode,
    /// Image is known to be of one of a few possible formats.
    PossibleFormats,
    /// Spend more time to try to find a barcode; optimize for accuracy.
    TryHarder,
    /// What character encoding to use when decoding, where applicable.
    CharacterSet,
    /// Allowed lengths of encoded data; reject anything else.
    AllowedLengths,
    /// Assume Code 39 codes employ a check digit.
    AssumeCode39CheckDigit,
    /// Assume the barcode is processed as a GS1 barcode.
    AssumeGs1,
    /// Return the start and end digits in a Codabar barcode.
    ReturnCodabarStartEnd,
    /// A point-discovery callback; this payload cannot cross the boundary,
    /// so the kind is permanently unsupported.
    NeedResultPointCallback,
    /// Allowed extension lengths for EAN or UPC barcodes.
    AllowedEanExtensions,
    /// Also try to decode the inverted image.
    AlsoInverted,
    /// Translate Telepen ASCII values into the numeric form.
    TelepenAsNumeric,
}

/// What a set of the given kind parses the incoming text to, if anything.
/// The empty string never parses: it is reserved to mean "no-op".
pub open spec fn spec_decode_parse(kind: DecodeHintTypes, v: Seq<char>) -> Option<HintPayload> {
    if v.len() == 0 {
        None
    } else {
        match kind {
            DecodeHintTypes::Other => Some(HintPayload::Text(v)),
            DecodeHintTypes::CharacterSet => Some(HintPayload::Text(v)),
            DecodeHintTypes::PureBarcode | DecodeHintTypes::TryHarder
            | DecodeHintTypes::AssumeCode39CheckDigit | DecodeHintTypes::AssumeGs1
            | DecodeHintTypes::ReturnCodabarStartEnd | DecodeHintTypes::AlsoInverted
            | DecodeHintTypes::TelepenAsNumeric => match spec_parse_bool(v) {
                Some(b) => Some(HintPayload::Flag(b)),
                None => None,
            },
            DecodeHintTypes::PossibleFormats => if spec_resolve_format_list(v).len() > 0 {
                Some(HintPayload::Formats(spec_resolve_format_list(v)))
            } else {
                None
            },
            DecodeHintTypes::AllowedLengths => Some(HintPayload::Numbers(spec_u32_list(v))),
            DecodeHintTypes::AllowedEanExtensions => Some(HintPayload::Numbers(spec_u32_list(v))),
            DecodeHintTypes::NeedResultPointCallback => None,
        }
    }
}

/// The decode option store.  Absence of a field means "unset"; a stored
/// default is never fabricated.
#[derive(Clone)]
pub struct DecodeHintDictionary {
    pub other: Option<String>,
    pub pure_barcode: Option<bool>,
    pub possible_formats: Option<Vec<BarcodeFormat>>,
    pub try_harder: Option<bool>,
    pub character_set: Option<String>,
    pub allowed_lengths: Option<Vec<u32>>,
    pub assume_code39_check_digit: Option<bool>,
    pub assume_gs1: Option<bool>,
    pub return_codabar_start_end: Option<bool>,
    pub allowed_ean_extensions: Option<Vec<u32>>,
    pub also_inverted: Option<bool>,
    pub telepen_as_numeric: Option<bool>,
}

impl DecodeHintDictionary {
    /// The stored payload for one kind, if any.
    pub open spec fn spec_field(&self, kind: DecodeHintTypes) -> Option<HintPayload> {
        match kind {
            DecodeHintTypes::Other => match self.other {
                Some(s) => Some(HintPayload::Text(s@)),
                None => None,
            },
            DecodeHintTypes::PureBarcode => match self.pure_barcode {
                Some(b) => Some(HintPayload::Flag(b)),
                None => None,
            },
            DecodeHintTypes::PossibleFormats => match self.possible_formats {
                Some(ref fs) => Some(HintPayload::Formats(fs@)),
                None => None,
            },
            DecodeHintTypes::TryHarder => match self.try_harder {
                Some(b) => Some(HintPayload::Flag(b)),
                None => None,
            },
            DecodeHintTypes::CharacterSet => match self.character_set {
                Some(s) => Some(HintPayload::Text(s@)),
                None => None,
            },
            DecodeHintTypes::AllowedLengths => match self.allowed_lengths {
                Some(ref ns) => Some(HintPayload::Numbers(ns@)),
                None => None,
            },
            DecodeHintTypes::AssumeCode39CheckDigit => match self.assume_code39_check_digit {
                Some(b) => Some(HintPayload::Flag(b)),
                None => None,
            },
            DecodeHintTypes::AssumeGs1 => match self.assume_gs1 {
                Some(b) => Some(HintPayload::Flag(b)),
                None => None,
            },
            DecodeHintTypes::ReturnCodabarStartEnd => match self.return_codabar_start_end {
                Some(b) => Some(HintPayload::Flag(b)),
                None => None,
            },
            DecodeHintTypes::NeedResultPointCallback => None,
            DecodeHintTypes::AllowedEanExtensions => match self.allowed_ean_extensions {
                Some(ref ns) => Some(HintPayload::Numbers(ns@)),
                None => None,
            },
            DecodeHintTypes::AlsoInverted => match self.also_inverted {
                Some(b) => Some(HintPayload::Flag(b)),
                None => None,
            },
            DecodeHintTypes::TelepenAsNumeric => match self.telepen_as_numeric {
                Some(b) => Some(HintPayload::Flag(b)),
                None => None,
            },
        }
    }
}

impl View for DecodeHintDictionary {
    type V = Map<DecodeHintTypes, HintPayload>;

    open spec fn view(&self) -> Map<DecodeHintTypes, HintPayload> {
        Map::new(
            |k: DecodeHintTypes| self.spec_field(k) is Some,
            |k: DecodeHintTypes| self.spec_field(k)->0,
        )
    }
}

impl DecodeHintDictionary {
    /// Creates an empty store: every kind unset.
    pub fn new() -> (r: DecodeHintDictionary)
        ensures
            r@ == Map::<DecodeHintTypes, HintPayload>::empty(),
    {
        let r = DecodeHintDictionary {
            other: None,
            pure_barcode: None,
            possible_formats: None,
            try_harder: None,
            character_set: None,
            allowed_lengths: None,
            assume_code39_check_digit: None,
            assume_gs1: None,
            return_codabar_start_end: None,
            allowed_ean_extensions: None,
            also_inverted: None,
            telepen_as_numeric: None,
        };
        proof {
            assert(r@ =~= Map::<DecodeHintTypes, HintPayload>::empty());
        }
        r
    }

    /// Renders the stored value for `hint` back to text; `None` reports
    /// that the kind is unset.
    pub fn get_hint(&self, hint: DecodeHintTypes) -> (r: Option<String>)
        ensures
            match r {
                Some(s) => self@.contains_key(hint) && s@ == render_payload(self@[hint]),
                None => !self@.contains_key(hint),
            },
    {
        match hint {
            DecodeHintTypes::Other => match &self.other {
                Some(s) => Some(s.clone()),
                None => None,
            },
            DecodeHintTypes::PureBarcode => match &self.pure_barcode {
                Some(b) => Some(bool_str(*b)),
                None => None,
            },
            DecodeHintTypes::PossibleFormats => match &self.possible_formats {
                Some(fs) => Some(crate::formats::render_format_list(fs)),
                None => None,
            },
            DecodeHintTypes::TryHarder => match &self.try_harder {
                Some(b) => Some(bool_str(*b)),
                None => None,
            },
            DecodeHintTypes::CharacterSet => match &self.character_set {
                Some(s) => Some(s.clone()),
                None => None,
            },
            DecodeHintTypes::AllowedLengths => match &self.allowed_lengths {
                Some(ns) => Some(crate::chars::render_u32_list(ns)),
                None => None,
            },
            DecodeHintTypes::AssumeCode39CheckDigit => match &self.assume_code39_check_digit {
                Some(b) => Some(bool_str(*b)),
                None => None,
            },
            DecodeHintTypes::AssumeGs1 => match &self.assume_gs1 {
                Some(b) => Some(bool_str(*b)),
                None => None,
            },
            DecodeHintTypes::ReturnCodabarStartEnd => match &self.return_codabar_start_end {
                Some(b) => Some(bool_str(*b)),
                None => None,
            },
            DecodeHintTypes::NeedResultPointCallback => None,
            DecodeHintTypes::AllowedEanExtensions => match &self.allowed_ean_extensions {
                Some(ns) => Some(crate::chars::render_u32_list(ns)),
                None => None,
            },
            DecodeHintTypes::AlsoInverted => match &self.also_inverted {
                Some(b) => Some(bool_str(*b)),
                None => None,
            },
            DecodeHintTypes::TelepenAsNumeric => match &self.telepen_as_numeric {
                Some(b) => Some(bool_str(*b)),
                None => None,
            },
        }
    }

    /// Parses `value` under the rules of `hint` and stores the result.
    /// Fails on empty input, on any parse failure, and on the unsupported
    /// callback kind, leaving the store untouched in every failing case.
    pub fn set_hint(&mut self, hint: DecodeHintTypes, value: String) -> (r: bool)
        ensures
            r == (spec_decode_parse(hint, value@) is Some),
            r ==> final(self)@ == old(self)@.insert(hint, spec_decode_parse(hint, value@)->0),
            !r ==> final(self)@ == old(self)@,
    {
        if value.as_str().is_empty() {
            return false;
        }
        match hint {
            DecodeHintTypes::Other => {
                self.other = Some(value);
                proof {
                    assert(self@ =~= old(self)@.insert(hint, spec_decode_parse(hint, value@)->0));
                }
                true
            },
            DecodeHintTypes::PureBarcode => {
                match parse_bool_str(value.as_str()) {
                    Some(b) => {
                        self.pure_barcode = Some(b);
                        proof {
                            assert(self@ =~= old(self)@.insert(
                                hint,
                                spec_decode_parse(hint, value@)->0,
                            ));
                        }
                        true
                    },
                    None => false,
                }
            },
            DecodeHintTypes::PossibleFormats => {
                let formats = resolve_format_list(value.as_str());
                if formats.len() == 0 {
                    false
                } else {
                    self.possible_formats = Some(formats);
                    proof {
                        assert(self@ =~= old(self)@.insert(
                            hint,
                            spec_decode_parse(hint, value@)->0,
                        ));
                    }
                    true
                }
            },
            DecodeHintTypes::TryHarder => {
                match parse_bool_str(value.as_str()) {
                    Some(b) => {
                        self.try_harder = Some(b);
                        proof {
                            assert(self@ =~= old(self)@.insert(
                                hint,
                                spec_decode_parse(hint, value@)->0,
                            ));
                        }
                        true
                    },
                    None => false,
                }
            },
            DecodeHintTypes::CharacterSet => {
                self.character_set = Some(value);
                proof {
                    assert(self@ =~= old(self)@.insert(hint, spec_decode_parse(hint, value@)->0));
                }
                true
            },
            DecodeHintTypes::AllowedLengths => {
                let lengths = parse_u32_list(value.as_str());
                self.allowed_lengths = Some(lengths);
                proof {
                    assert(self@ =~= old(self)@.insert(hint, spec_decode_parse(hint, value@)->0));
                }
                true
            },
            DecodeHintTypes::AssumeCode39CheckDigit => {
                match parse_bool_str(value.as_str()) {
                    Some(b) => {
                        self.assume_code39_check_digit = Some(b);
                        proof {
                            assert(self@ =~= old(self)@.insert(
                                hint,
                                spec_decode_parse(hint, value@)->0,
                            ));
                        }
                        true
                    },
                    None => false,
                }
            },
            DecodeHintTypes::AssumeGs1 => {
                match parse_bool_str(value.as_str()) {
                    Some(b) => {
                        self.assume_gs1 = Some(b);
                        proof {
                            assert(self@ =~= old(self)@.insert(
                                hint,
                                spec_decode_parse(hint, value@)->0,
                            ));
                        }
                        true
                    },
                    None => false,
                }
            },
            DecodeHintTypes::ReturnCodabarStartEnd => {
                match parse_bool_str(value.as_str()) {
                    Some(b) => {
                        self.return_codabar_start_end = Some(b);
                        proof {
                            assert(self@ =~= old(self)@.insert(
                                hint,
                                spec_decode_parse(hint, value@)->0,
                            ));
                        }
                        true
                    },
                    None => false,
                }
            },
            DecodeHintTypes::NeedResultPointCallback => false,
            DecodeHintTypes::AllowedEanExtensions => {
                let extensions = parse_u32_list(value.as_str());
                self.allowed_ean_extensions = Some(extensions);
                proof {
                    assert(self@ =~= old(self)@.insert(hint, spec_decode_parse(hint, value@)->0));
                }
                true
            },
            DecodeHintTypes::AlsoInverted => {
                match parse_bool_str(value.as_str()) {
                    Some(b) => {
                        self.also_inverted = Some(b);
                        proof {
                            assert(self@ =~= old(self)@.insert(
                                hint,
                                spec_decode_parse(hint, value@)->0,
                            ));
                        }
                        true
                    },
                    None => false,
                }
            },
            DecodeHintTypes::TelepenAsNumeric => {
                match parse_bool_str(value.as_str()) {
                    Some(b) => {
                        self.telepen_as_numeric = Some(b);
                        proof {
                            assert(self@ =~= old(self)@.insert(
                                hint,
                                spec_decode_parse(hint, value@)->0,
                            ));
                        }
                        true
                    },
                    None => false,
                }
            },
        }
    }

    /// Clears any stored value for `hint`; always succeeds, and reports
    /// whether a value had actually been present.
    pub fn remove_hint(&mut self, hint: DecodeHintTypes) -> (r: bool)
        ensures
            r == old(self)@.contains_key(hint),
            final(self)@ == old(self)@.remove(hint),
    {
        let r = match hint {
            DecodeHintTypes::Other => {
                let was = self.other.is_some();
                self.other = None;
                was
            },
            DecodeHintTypes::PureBarcode => {
                let was = self.pure_barcode.is_some();
                self.pure_barcode = None;
                was
            },
            DecodeHintTypes::PossibleFormats => {
                let was = self.possible_formats.is_some();
                self.possible_formats = None;
                was
            },
            DecodeHintTypes::TryHarder => {
                let was = self.try_harder.is_some();
                self.try_harder = None;
                was
            },
            DecodeHintTypes::CharacterSet => {
                let was = self.character_set.is_some();
                self.character_set = None;
                was
            },
            DecodeHintTypes::AllowedLengths => {
                let was = self.allowed_lengths.is_some();
                self.allowed_lengths = None;
                was
            },
            DecodeHintTypes::AssumeCode39CheckDigit => {
                let was = self.assume_code39_check_digit.is_some();
                self.assume_code39_check_digit = None;
                was
            },
            DecodeHintTypes::AssumeGs1 => {
                let was = self.assume_gs1.is_some();
                self.assume_gs1 = None;
                was
            },
            DecodeHintTypes::ReturnCodabarStartEnd => {
                let was = self.return_codabar_start_end.is_some();
                self.return_codabar_start_end = None;
                was
            },
            DecodeHintTypes::NeedResultPointCallback => false,
            DecodeHintTypes::AllowedEanExtensions => {
                let was = self.allowed_ean_extensions.is_some();
                self.allowed_ean_extensions = None;
                was
            },
            DecodeHintTypes::AlsoInverted => {
                let was = self.also_inverted.is_some();
                self.also_inverted = None;
                was
            },
            DecodeHintTypes::TelepenAsNumeric => {
                let was = self.telepen_as_numeric.is_some();
                self.telepen_as_numeric = None;
                was
            },
        };
        proof {
            assert(self@ =~= old(self)@.remove(hint));
        }
        r
    }
}

} // verus!
