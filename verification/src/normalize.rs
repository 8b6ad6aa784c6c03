//! The response normalizer: turns a successful RPC body into the canonical
//! output, or classifies why it could not.
//!
//! The issued command list is always `["enable", <cmd>]`, so the payload of
//! interest is the `output` field of the second `result` entry. Two shapes
//! are accepted: an array (its string entries become the output lines, in
//! order) and a single string (taken verbatim). Everything else is a parse
//! failure, which the retry controller treats as retryable.

use vstd::prelude::*;
use vstd::string::StringExecFns;
use crate::errors::ConfigError;

verus! {

/// What structured-data extraction found in a response body: the `output`
/// field of the second `result` entry, shape-tagged, with array entries
/// already reduced to their string values (`None` for a non-string entry).
pub enum Extraction {
    /// The body is not well-formed structured data.
    Unparseable,
    /// The body parsed, but `result[1].output` is absent.
    Missing,
    /// `result[1].output` is an array; each entry is its string value, or
    /// `None` where the entry is not a string.
    Items(Vec<Option<String>>),
    /// `result[1].output` is a single string.
    Text(String),
    /// `result[1].output` is present but neither an array nor a string.
    OtherShape,
}

/// What extraction returns for a given body. JSON parsing takes pages to
/// state, but the result is a function of the body alone, so it only gets
/// a name here; the normalizer's own contract is exact in terms of it.
pub uninterp spec fn extraction_of(body: Seq<char>) -> Extraction;

/// Relies on `serde_json::from_str` to parse the body and on
/// `serde_json::Value::{get, as_str}` to select `result[1].output` and
/// read its shape: the result is a function of the body text alone.
#[verifier::external_body]
pub(crate) fn extract_output(body: &str) -> (r: Extraction)
    ensures
        r == extraction_of(body@),
{
    let v: serde_json::Value = match serde_json::from_str(body) {
        Ok(v) => v,
        Err(_) => return Extraction::Unparseable,
    };
    match v.get("result").and_then(|r| r.get(1)).and_then(|r| r.get("output")) {
        None => Extraction::Missing,
        Some(serde_json::Value::Array(entries)) => Extraction::Items(
            entries.iter().map(|e| e.as_str().map(|s| s.to_string())).collect(),
        ),
        Some(serde_json::Value::String(s)) => Extraction::Text(s.clone()),
        Some(_) => Extraction::OtherShape,
    }
}

/// The canonical form of one device's retrieved configuration.
pub enum CanonicalOutput {
    /// One entry per line; the sink writes each followed by a terminator.
    Lines(Vec<String>),
    /// A single string, written verbatim.
    Verbatim(String),
}

/// The string entries of an extracted array, in order, with non-string
/// entries dropped.
pub open spec fn kept_lines(items: Seq<Option<Seq<char>>>) -> Seq<Seq<char>>
    decreases items.len(),
{
    if items.len() == 0 {
        Seq::empty()
    } else {
        let rest = kept_lines(items.drop_last());
        match items.last() {
            Some(s) => rest.push(s),
            None => rest,
        }
    }
}

/// The exact outcome of normalization, over the named extraction result:
/// which extractions succeed, with what canonical content, and which fail,
/// with which error.
pub open spec fn normalize_spec(host: Seq<char>, x: Extraction, r: Result<
    CanonicalOutput,
    ConfigError,
>) -> bool {
    match x {
        Extraction::Items(items) => r matches Ok(CanonicalOutput::Lines(ls)) && ls.deep_view()
            == kept_lines(items.deep_view()),
        Extraction::Text(s) => r matches Ok(CanonicalOutput::Verbatim(t)) && t@ == s@,
        Extraction::Unparseable => r matches Err(ConfigError::ParseError(m)) && m@
            == "Failed to parse JSON response from "@ + host,
        Extraction::Missing => r matches Err(ConfigError::ParseError(m)) && m@
            == "Unexpected response format from "@ + host,
        Extraction::OtherShape => r matches Err(ConfigError::ParseError(m)) && m@
            == "Output is not in expected format for "@ + host,
    }
}

/// Normalize an extracted `output` field: keep an array's string entries in
/// order, keep a single string verbatim, and classify everything else as a
/// parse failure naming the device.
pub fn normalize(hostname: &str, x: Extraction) -> (r: Result<CanonicalOutput, ConfigError>)
    ensures
        normalize_spec(hostname@, x, r),
{
    match x {
        Extraction::Items(items) => {
            let mut lines: Vec<String> = Vec::new();
            let ghost all = items.deep_view();
            let mut i: usize = 0;
            while i < items.len()
                invariant
                    i <= items.len(),
                    all == items.deep_view(),
                    all.len() == items.len(),
                    lines.deep_view() == kept_lines(all.take(i as int)),
                decreases items.len() - i,
            {
                proof {
                    assert(all.take(i + 1).drop_last() =~= all.take(i as int));
                    assert(all.take(i + 1).last() == all[i as int]);
                }
                match &items[i] {
                    Some(s) => {
                        let line = s.clone();
                        lines.push(line);
                        proof {
                            assert(lines.deep_view() =~= kept_lines(all.take(i + 1)));
                        }
                    },
                    None => {
                        proof {
                            assert(lines.deep_view() =~= kept_lines(all.take(i + 1)));
                        }
                    },
                }
                i = i + 1;
            }
            proof {
                assert(all.take(items.len() as int) =~= all);
            }
            Ok(CanonicalOutput::Lines(lines))
        },
        Extraction::Text(s) => Ok(CanonicalOutput::Verbatim(s)),
        Extraction::Unparseable => Err(
            ConfigError::ParseError(
                String::from_str("Failed to parse JSON response from ").concat(hostname),
            ),
        ),
        Extraction::Missing => Err(
            ConfigError::ParseError(
                String::from_str("Unexpected response format from ").concat(hostname),
            ),
        ),
        Extraction::OtherShape => Err(
            ConfigError::ParseError(
                String::from_str("Output is not in expected format for ").concat(hostname),
            ),
        ),
    }
}

/// Normalize a raw successful response body: extract `result[1].output`
/// and reduce it to the canonical output, or classify the failure.
pub fn normalize_body(hostname: &str, body: &str) -> (r: Result<CanonicalOutput, ConfigError>)
    ensures
        normalize_spec(hostname@, extraction_of(body@), r),
{
    normalize(hostname, extract_output(body))
}

} // verus!
