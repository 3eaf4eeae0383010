//! Recurrence patterns and their persisted form.
//!
//! A pattern is stored as two strings: a type tag (`"daily"`, `"weekly"`,
//! `"monthly"`, `"interval"`, `"custom"`) and a JSON payload holding a day
//! list, an integer, or a pattern string. The JSON encoding itself is done
//! by `serde_json` behind trusted wrappers; everything around the calls is
//! verified.

use vstd::prelude::*;
use vstd::string::StringExecFns;
use crate::text::str_eq;

verus! {

/// How often a habit is due.
#[derive(Debug, Clone, PartialEq)]
pub enum FrequencyPattern {
    /// Every day.
    Daily,
    /// Specific days of the week (1..=7, Monday = 1).
    Weekly { days: Vec<u32> },
    /// Specific days of the month (1..=31).
    Monthly { days: Vec<u32> },
    /// Every `days` days.
    Interval { days: u32 },
    /// An opaque pattern string; evaluation rules are intentionally open.
    Custom { pattern: String },
}

/// Mathematical model of a [`FrequencyPattern`].
#[allow(inconsistent_fields)]
pub enum FrequencyModel {
    Daily,
    Weekly { days: Seq<u32> },
    Monthly { days: Seq<u32> },
    Interval { days: u32 },
    Custom { pattern: Seq<char> },
}

impl View for FrequencyPattern {
    type V = FrequencyModel;

    open spec fn view(&self) -> FrequencyModel {
        match self {
            FrequencyPattern::Daily => FrequencyModel::Daily,
            FrequencyPattern::Weekly { days } => FrequencyModel::Weekly { days: days@ },
            FrequencyPattern::Monthly { days } => FrequencyModel::Monthly { days: days@ },
            FrequencyPattern::Interval { days } => FrequencyModel::Interval { days: *days },
            FrequencyPattern::Custom { pattern } => FrequencyModel::Custom { pattern: pattern@ },
        }
    }
}

/// Why a persisted pattern failed to decode.
#[derive(Debug, Clone, Copy, PartialEq, Eq, Structural)]
pub enum FrequencyDecodeError {
    /// The type tag names no known pattern kind.
    UnknownType,
    /// The payload does not decode into the shape the tag asks for.
    InvalidPayload,
}

/// What `serde_json::to_string` produces for a `Vec<u32>`.
pub uninterp spec fn json_of_u32_list(v: Seq<u32>) -> Seq<char>;

/// What `serde_json::to_string` produces for a `u32`.
pub uninterp spec fn json_of_u32(n: u32) -> Seq<char>;

/// What `serde_json::to_string` produces for a `String`.
pub uninterp spec fn json_of_string(s: Seq<char>) -> Seq<char>;

/// What `serde_json::from_str::<Vec<u32>>` accepts, and the list it yields.
pub uninterp spec fn parsed_u32_list(s: Seq<char>) -> Option<Seq<u32>>;

/// What `serde_json::from_str::<u32>` accepts, and the number it yields.
pub uninterp spec fn parsed_u32(s: Seq<char>) -> Option<u32>;

/// What `serde_json::from_str::<String>` accepts, and the text it yields.
pub uninterp spec fn parsed_json_string(s: Seq<char>) -> Option<Seq<char>>;

/// Relies on `serde_json::to_string` for `Vec<u32>`: the encoding is a
/// function of the list alone, and serializing a plain integer list
/// cannot fail.
#[verifier::external_body]
fn json_encode_u32_list(v: &Vec<u32>) -> (r: String)
    ensures
        r@ == json_of_u32_list(v@),
{
    serde_json::to_string(v).unwrap()
}

/// Relies on `serde_json::to_string` for `u32`: the encoding is a function
/// of the number alone, and serializing a plain integer cannot fail.
#[verifier::external_body]
fn json_encode_u32(n: u32) -> (r: String)
    ensures
        r@ == json_of_u32(n),
{
    serde_json::to_string(&n).unwrap()
}

/// Relies on `serde_json::to_string` for `String`: the encoding is a
/// function of the text alone, and serializing a string cannot fail.
#[verifier::external_body]
fn json_encode_string(s: &String) -> (r: String)
    ensures
        r@ == json_of_string(s@),
{
    serde_json::to_string(s).unwrap()
}

/// Relies on `serde_json::from_str::<Vec<u32>>`: whether the text parses,
/// and what it parses to, depend on the text alone.
#[verifier::external_body]
fn json_decode_u32_list(s: &str) -> (r: Option<Vec<u32>>)
    ensures
        r is Some <==> parsed_u32_list(s@) is Some,
        r matches Some(v) ==> v@ == parsed_u32_list(s@).unwrap(),
{
    serde_json::from_str::<Vec<u32>>(s).ok()
}

/// Relies on `serde_json::from_str::<u32>`: whether the text parses, and
/// what it parses to, depend on the text alone.
#[verifier::external_body]
fn json_decode_u32(s: &str) -> (r: Option<u32>)
    ensures
        r == parsed_u32(s@),
{
    serde_json::from_str::<u32>(s).ok()
}

/// Relies on `serde_json::from_str::<String>`: whether the text parses,
/// and what it parses to, depend on the text alone.
#[verifier::external_body]
fn json_decode_string(s: &str) -> (r: Option<String>)
    ensures
        r is Some <==> parsed_json_string(s@) is Some,
        r matches Some(v) ==> v@ == parsed_json_string(s@).unwrap(),
{
    serde_json::from_str::<String>(s).ok()
}

/// The type tag under which a pattern is persisted.
pub open spec fn spec_frequency_tag(p: FrequencyModel) -> Seq<char> {
    match p {
        FrequencyModel::Daily => "daily"@,
        FrequencyModel::Weekly { .. } => "weekly"@,
        FrequencyModel::Monthly { .. } => "monthly"@,
        FrequencyModel::Interval { .. } => "interval"@,
        FrequencyModel::Custom { .. } => "custom"@,
    }
}

/// The JSON payload under which a pattern is persisted.
pub open spec fn spec_frequency_payload(p: FrequencyModel) -> Seq<char> {
    match p {
        FrequencyModel::Daily => "{}"@,
        FrequencyModel::Weekly { days } => json_of_u32_list(days),
        FrequencyModel::Monthly { days } => json_of_u32_list(days),
        FrequencyModel::Interval { days } => json_of_u32(days),
        FrequencyModel::Custom { pattern } => json_of_string(pattern),
    }
}

/// What decoding a persisted `(tag, payload)` pair yields.
pub open spec fn spec_decode_frequency(t: Seq<char>, d: Seq<char>) -> Result<
    FrequencyModel,
    FrequencyDecodeError,
> {
    if t == "daily"@ {
        Ok(FrequencyModel::Daily)
    } else if t == "weekly"@ {
        match parsed_u32_list(d) {
            Some(v) => Ok(FrequencyModel::Weekly { days: v }),
            None => Err(FrequencyDecodeError::InvalidPayload),
        }
    } else if t == "monthly"@ {
        match parsed_u32_list(d) {
            Some(v) => Ok(FrequencyModel::Monthly { days: v }),
            None => Err(FrequencyDecodeError::InvalidPayload),
        }
    } else if t == "interval"@ {
        match parsed_u32(d) {
            Some(n) => Ok(FrequencyModel::Interval { days: n }),
            None => Err(FrequencyDecodeError::InvalidPayload),
        }
    } else if t == "custom"@ {
        match parsed_json_string(d) {
            Some(s) => Ok(FrequencyModel::Custom { pattern: s }),
            None => Err(FrequencyDecodeError::InvalidPayload),
        }
    } else {
        Err(FrequencyDecodeError::UnknownType)
    }
}

/// Convert a pattern to its persisted `(type tag, JSON payload)` form.
pub fn serialize_frequency(frequency: &FrequencyPattern) -> (r: (String, String))
    ensures
        r.0@ == spec_frequency_tag(frequency@),
        r.1@ == spec_frequency_payload(frequency@),
{
    let tag = match frequency {
        FrequencyPattern::Daily => String::from_str("daily"),
        FrequencyPattern::Weekly { .. } => String::from_str("weekly"),
        FrequencyPattern::Monthly { .. } => String::from_str("monthly"),
        FrequencyPattern::Interval { .. } => String::from_str("interval"),
        FrequencyPattern::Custom { .. } => String::from_str("custom"),
    };
    let data = match frequency {
        FrequencyPattern::Daily => String::from_str("{}"),
        FrequencyPattern::Weekly { days } => json_encode_u32_list(days),
        FrequencyPattern::Monthly { days } => json_encode_u32_list(days),
        FrequencyPattern::Interval { days } => json_encode_u32(*days),
        FrequencyPattern::Custom { pattern } => json_encode_string(pattern),
    };
    (tag, data)
}

/// Convert a persisted `(type tag, JSON payload)` pair back to a pattern.
pub fn deserialize_frequency(freq_type: &str, freq_data: &str) -> (r: Result<
    FrequencyPattern,
    FrequencyDecodeError,
>)
    ensures
        r is Ok <==> spec_decode_frequency(freq_type@, freq_data@) is Ok,
        r matches Ok(p) ==> spec_decode_frequency(freq_type@, freq_data@) == Ok::<
            FrequencyModel,
            FrequencyDecodeError,
        >(p@),
        r matches Err(e) ==> spec_decode_frequency(freq_type@, freq_data@) == Err::<
            FrequencyModel,
            FrequencyDecodeError,
        >(e),
{
    if str_eq(freq_type, "daily") {
        Ok(FrequencyPattern::Daily)
    } else if str_eq(freq_type, "weekly") {
        match json_decode_u32_list(freq_data) {
            Some(days) => Ok(FrequencyPattern::Weekly { days }),
            None => Err(FrequencyDecodeError::InvalidPayload),
        }
    } else if str_eq(freq_type, "monthly") {
        match json_decode_u32_list(freq_data) {
            Some(days) => Ok(FrequencyPattern::Monthly { days }),
            None => Err(FrequencyDecodeError::InvalidPayload),
        }
    } else if str_eq(freq_type, "interval") {
        match json_decode_u32(freq_data) {
            Some(days) => Ok(FrequencyPattern::Interval { days }),
            None => Err(FrequencyDecodeError::InvalidPayload),
        }
    } else if str_eq(freq_type, "custom") {
        match json_decode_string(freq_data) {
            Some(pattern) => Ok(FrequencyPattern::Custom { pattern }),
            None => Err(FrequencyDecodeError::InvalidPayload),
        }
    } else {
        Err(FrequencyDecodeError::UnknownType)
    }
}

} // verus!
