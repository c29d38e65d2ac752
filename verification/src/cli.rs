//! The one-shot command-line mode's computations.
//!
//! In batch mode the input is a JSON array of diagram texts and the output
//! is a JSON array of exactly as many strings: each entry the rendered
//! markup, or empty where rendering failed — one bad entry never aborts the
//! rest. Otherwise the input is a single diagram text and the output is its
//! markup, or empty on failure. The renderer itself is driven by the
//! caller; this module decides what is rendered and what is written.

use vstd::prelude::*;

verus! {

/// What `serde_json::from_str::<Vec<String>>` returns for a given input: the
/// parsed array of strings, or nothing when the input is not such an array.
/// A pure function of the characters alone.
pub uninterp spec fn parsed_texts_of(s: Seq<char>) -> Option<Seq<Seq<char>>>;

/// Relies on `serde_json::from_str::<Vec<String>>`: parses the batch input
/// as a JSON array of strings.
#[verifier::external_body]
fn parse_json_texts(s: &str) -> (r: Option<Vec<String>>)
    ensures
        match r {
            Some(v) => parsed_texts_of(s@) == Some(v@.map_values(|t: String| t@)),
            None => parsed_texts_of(s@) is None,
        },
{
    serde_json::from_str::<Vec<String>>(s).ok()
}

/// What `serde_json::to_string_pretty::<Vec<String>>` returns for a given
/// array of strings. A pure function of the strings alone.
pub uninterp spec fn pretty_json_of(items: Seq<Seq<char>>) -> Seq<char>;

/// Relies on `serde_json::to_string_pretty::<Vec<String>>`: renders the
/// batch output as a pretty-printed JSON array of strings. Its
/// documentation limits failure to a failing `Serialize` implementation or
/// non-string map keys, so for a vector of strings it cannot fail.
#[verifier::external_body]
fn pretty_json_texts(items: &Vec<String>) -> (r: String)
    ensures
        r@ == pretty_json_of(items@.map_values(|t: String| t@)),
{
    serde_json::to_string_pretty(items).unwrap_or_default()
}

/// The diagram texts one invocation renders: in batch mode the parsed JSON
/// array — rejected input rejects the invocation — and otherwise the whole
/// input as the single text.
pub fn cli_texts(input: &str, batch: bool) -> (r: Option<Vec<String>>)
    ensures
        (if batch {
            match r {
                Some(v) => parsed_texts_of(input@) == Some(v@.map_values(|t: String| t@)),
                None => parsed_texts_of(input@) is None,
            }
        } else {
            r matches Some(v) && v@.len() == 1 && v@[0]@ == input@
        }),
{
    if batch {
        parse_json_texts(input)
    } else {
        let mut v: Vec<String> = Vec::new();
        v.push(input.to_owned());
        Some(v)
    }
}

/// One output entry per render result, in order: the markup where rendering
/// succeeded, the empty string where it failed. Never fewer or more entries
/// than results.
pub fn collect_outputs(results: &Vec<Option<String>>) -> (out: Vec<String>)
    ensures
        out@.len() == results@.len(),
        forall|i: int|
            0 <= i < results@.len() ==> out@[i]@ == (match results@[i] {
                Some(m) => m@,
                None => Seq::<char>::empty(),
            }),
{
    let mut out: Vec<String> = Vec::new();
    let mut i: usize = 0;
    while i < results.len()
        invariant
            i <= results@.len(),
            out@.len() == i,
            forall|j: int|
                0 <= j < i ==> out@[j]@ == (match results@[j] {
                    Some(m) => m@,
                    None => Seq::<char>::empty(),
                }),
        decreases results@.len() - i,
    {
        match &results[i] {
            Some(m) => out.push(m.clone()),
            None => out.push(String::new()),
        }
        i = i + 1;
    }
    out
}

/// The document one invocation writes: in batch mode the JSON array of the
/// outputs, otherwise the single output itself.
pub fn cli_document(outs: &Vec<String>, batch: bool) -> (r: String)
    requires
        batch || outs@.len() == 1,
    ensures
        (if batch {
            r@ == pretty_json_of(outs@.map_values(|t: String| t@))
        } else {
            r@ == outs@[0]@
        }),
{
    if batch {
        pretty_json_texts(outs)
    } else {
        let first = &outs[0];
        first.clone()
    }
}

} // verus!
