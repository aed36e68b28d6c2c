//! JSON text, as `serde_json` writes it.

use crate::fields::{pair_views, strictly_sorted};
use std::collections::BTreeMap;
use vstd::prelude::*;
use vstd::string::*;

verus! {

#[verifier::external_type_specification]
#[verifier::external_body]
pub struct ExJsonError(serde_json::Error);

/// The JSON string literal that `serde_json` writes for the string `s`, quotes
/// and escapes included, where it writes one.
pub uninterp spec fn json_string_text(s: Seq<char>) -> Option<Seq<char>>;

/// The JSON object that `serde_json` writes for a mapping from strings to
/// strings, given as its pairs in the order of their keys, where it writes one.
pub uninterp spec fn json_object_text(fields: Seq<(Seq<char>, Seq<char>)>) -> Option<Seq<char>>;

/// A value that could not be written as JSON.
#[derive(Debug)]
pub struct EncodingError {
    /// What the encoder said of the failure.
    pub details: String,
}

/// `serde_json::to_string` on a string slice. The contract gives the text that
/// comes back a name, and says that the call fails exactly where there is no
/// such text: the same string always has the same outcome.
#[verifier::external_body]
fn string_literal(s: &str) -> (r: Result<String, serde_json::Error>)
    ensures
        match r {
            Ok(t) => json_string_text(s@) == Some(t@),
            Err(_) => json_string_text(s@) is None,
        },
{
    serde_json::to_string(s)
}

/// `serde_json::to_string` on a `BTreeMap` from strings to strings, which
/// writes the keys in the order of the map: for strings, that of their bytes.
/// The pairs come sorted in that order and without a key twice, so that the
/// map holds exactly them, one for one. The contract gives the text that comes
/// back a name, and says that the call fails exactly where there is no such
/// text: the same pairs always have the same outcome.
#[verifier::external_body]
pub(crate) fn object_literal(fields: &Vec<(String, String)>) -> (r: Result<
    String,
    serde_json::Error,
>)
    requires
        strictly_sorted(pair_views(fields@)),
    ensures
        match r {
            Ok(t) => json_object_text(pair_views(fields@)) == Some(t@),
            Err(_) => json_object_text(pair_views(fields@)) is None,
        },
{
    let map: BTreeMap<String, String> = fields.iter().cloned().collect();
    serde_json::to_string(&map)
}

/// Writes `s` as a JSON string literal.
pub fn json_string(s: &str) -> (r: Result<String, EncodingError>)
    ensures
        match r {
            Ok(t) => json_string_text(s@) == Some(t@),
            Err(_) => json_string_text(s@) is None,
        },
{
    match string_literal(s) {
        Ok(t) => Ok(t),
        Err(e) => Err(EncodingError { details: e.to_string() }),
    }
}

} // verus!
