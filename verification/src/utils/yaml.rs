//! YAML text to and from plain values, by way of `serde_yaml`.
//!
//! The files this crate keeps are YAML maps of maps of text: a key, and under
//! it named text fields. Such a document travels as a list of sections, each a
//! key with its list of `(name, text)` fields. What `serde_yaml` makes of a
//! text, and of a list of sections, is not proved here: both results are only
//! given a name, and the rest of the crate is verified for every value of them.
//!
//! Verified code reaches the reader through `read_sections` and the writer
//! through `write_sections`, both in the module `sections`.

use crate::utils::nesting::{nesting_bound, MAX_NESTING};
use crate::utils::text_map::distinct_keys;
use std::collections::BTreeMap;
use vstd::prelude::*;
use vstd::string::StringSliceAdditionalSpecFns;

verus! {

/// The error type of `serde_yaml`, carried through as it is.
#[verifier::external_type_specification]
#[verifier::external_body]
pub struct ExYamlError(serde_yaml::Error);

/// The sections that `serde_yaml::from_str` reads from `text` when asked for
/// a map of maps of text, or `None` where it reports an error.
pub uninterp spec fn yaml_sections(text: Seq<char>) -> Option<
    Seq<(Seq<char>, Seq<(Seq<char>, Seq<char>)>)>,
>;

/// The text that `serde_yaml::to_string` writes for a map holding `sections`
/// in their order, or `None` where it reports an error.
pub uninterp spec fn yaml_text(sections: Seq<(Seq<char>, Seq<(Seq<char>, Seq<char>)>)>) -> Option<
    Seq<char>,
>;

/// No section stands under the key of another, and in no section do two
/// fields have one name.
pub open spec fn distinct_sections(sections: Seq<(Seq<char>, Seq<(Seq<char>, Seq<char>)>)>)
    -> bool {
    &&& distinct_keys(sections)
    &&& forall|i: int| 0 <= i < sections.len() ==> distinct_keys((#[trigger] sections[i]).1)
}

/// Calls `serde_yaml::from_str` for a `BTreeMap<String, BTreeMap<String, String>>`
/// and lists the map's sections, and each section's fields, in the order of
/// their keys.
///
/// The reader calls itself once for each collection that stands in another,
/// so a text is handed to it only where the nesting of its collections is
/// bounded.
///
/// Trusted: the result is a function of `text` alone, named [`yaml_sections`],
/// and, as the keys of a map, the keys of the sections differ from each other
/// and so do the names of the fields of each section.
#[verifier::external_body]
pub(crate) fn parse_sections(text: &str) -> (parsed: Result<
    Vec<(String, Vec<(String, String)>)>,
    serde_yaml::Error,
>)
    requires
        nesting_bound(text.spec_bytes()) <= MAX_NESTING,
    ensures
        match parsed {
            Ok(sections) => yaml_sections(text@) == Some(sections.deep_view())
                && distinct_sections(sections.deep_view()),
            Err(_) => yaml_sections(text@) is None,
        },
{
    let document: BTreeMap<String, BTreeMap<String, String>> = serde_yaml::from_str(text)?;
    Ok(document.into_iter().map(|(key, fields)| (key, fields.into_iter().collect())).collect())
}

/// Builds a `serde_yaml::Mapping` of the sections in their order, each a
/// mapping of its fields in their order, and calls `serde_yaml::to_string` on it.
///
/// Trusted: the result is a function of `sections` alone, named [`yaml_text`].
#[verifier::external_body]
pub(crate) fn emit_sections(sections: &Vec<(String, Vec<(String, String)>)>) -> (emitted: Result<
    String,
    serde_yaml::Error,
>)
    ensures
        match emitted {
            Ok(text) => yaml_text(sections.deep_view()) == Some(text@),
            Err(_) => yaml_text(sections.deep_view()) is None,
        },
{
    let document: serde_yaml::Mapping = sections.iter().map(
        |(key, fields)| {
            let inner: serde_yaml::Mapping = fields.iter().map(
                |(name, text)| (name.as_str().into(), text.as_str().into()),
            ).collect();
            (key.as_str().into(), serde_yaml::Value::Mapping(inner))
        },
    ).collect();
    serde_yaml::to_string(&document)
}

/// What `serde_yaml` says of an error, through its `Display`.
///
/// Trusted: nothing is claimed of the text.
#[verifier::external_body]
pub(crate) fn error_text(error: &serde_yaml::Error) -> String {
    error.to_string()
}

} // verus!
