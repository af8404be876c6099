//! Reading the manifest: the raw keys are the top-level object's key set of a
//! JSON document. Parsing is done by serde_json; everything after the parse
//! is verified.

use vstd::prelude::*;

use crate::assemble::assemble;
use crate::assemble::assemble_post;
use crate::assemble::distinct_seqs;
use crate::assemble::str_seqs;
use crate::assemble::GenError;
use crate::assemble::IconEnum;
use crate::synth::prefix_view;

verus! {

/// The key set of the manifest text: the top-level JSON object's keys, in the
/// order serde_json's map hands them out, or nothing when the text is not a
/// JSON document with an object at its root.
pub uninterp spec fn json_object_keys(text: Seq<char>) -> Option<Seq<Seq<char>>>;

/// Relies on serde_json::from_str and serde_json::Value::as_object: parses
/// the text as JSON and hands out the top-level object's keys — unique, since
/// they key a map — or None when the text is not valid JSON or its root is
/// not an object.
#[verifier::external_body]
fn parse_object_keys(text: &str) -> (r: Option<Vec<String>>)
    ensures
        match r {
            Some(ks) => json_object_keys(text@) == Some(str_seqs(ks@)) && distinct_seqs(
                str_seqs(ks@),
            ),
            None => json_object_keys(text@) is None,
        },
{
    match serde_json::from_str::<serde_json::Value>(text) {
        Ok(serde_json::Value::Object(map)) => Some(map.keys().cloned().collect()),
        _ => None,
    }
}

/// Extract the raw keys of the manifest: the top-level object's key set.
pub fn extract_keys(text: &str) -> (r: Result<Vec<String>, GenError>)
    ensures
        match r {
            Ok(ks) => json_object_keys(text@) == Some(str_seqs(ks@)) && distinct_seqs(
                str_seqs(ks@),
            ),
            Err(e) => json_object_keys(text@) is None && e == GenError::SourceParse,
        },
{
    match parse_object_keys(text) {
        Some(ks) => Ok(ks),
        None => Err(GenError::SourceParse),
    }
}

/// Build the whole enumeration from the manifest text: extract the raw keys,
/// synthesize one identifier per key, and resolve the default variant.
pub fn build_enumeration(
    text: &str,
    prefix: Option<&str>,
    always_prefix: bool,
    default_key: &str,
) -> (r: Result<IconEnum, GenError>)
    ensures
        match json_object_keys(text@) {
            Some(ks) => assemble_post(r, ks, prefix_view(prefix), always_prefix, default_key@),
            None => r matches Err(GenError::SourceParse),
        },
{
    let keys = match extract_keys(text) {
        Ok(ks) => ks,
        Err(e) => {
            return Err(e);
        },
    };
    assemble(keys, prefix, always_prefix, default_key)
}

} // verus!
