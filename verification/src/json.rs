//! Numbers read out of JSON texts.
use vstd::prelude::*;

use crate::float64::{Float64, Number, NumberModel};

verus! {

/// The number that a JSON text holds under a key of its outermost object, as
/// `serde_json` reads it, by its bits and the text that it prints as; none where
/// the text is no object, where the key is absent, and where something else than
/// a number stands under it.
pub uninterp spec fn json_number(json: Seq<char>, key: Seq<char>) -> Option<(u64, Seq<char>)>;

/// The number that a JSON text holds under a key.
pub open spec fn json_value(json: Seq<char>, key: Seq<char>) -> Option<NumberModel> {
    match json_number(json, key) {
        Some((bits, text)) => Some(NumberModel { value: Float64 { bits }, text }),
        None => None,
    }
}

/// Reads a number with `serde_json`: `from_str` parses the text into a `Value`,
/// `get` looks the key up and `as_f64` gives the number. The result depends on
/// the text and the key alone.
#[verifier::external_body]
pub(crate) fn number_at(json: &str, key: &str) -> (r: Option<Number>)
    ensures
        match r {
            Some(n) => json_number(json@, key@) == Some((n.value.bits, n.text@)),
            None => json_number(json@, key@) is None,
        },
{
    let value = serde_json::from_str::<serde_json::Value>(json).ok()?;
    let number = value.get(key)?.as_f64()?;
    Some(Number { value: Float64 { bits: number.to_bits() }, text: number.to_string() })
}

} // verus!
