//! Sections and fields: the plain form of the YAML files the crate keeps.
//!
//! A document is a list of sections, each a key with a list of fields, and a
//! field is a name with its text. In what the YAML reader hands over no key
//! and no name occurs twice: of a key or a name that a file gives twice, the
//! reader keeps the last. A list that is put together by hand may repeat
//! them. A lookup then finds the first, and a manifest refuses a repeated key.

use crate::error::{ShranError, ShranErrorView};
use crate::utils::nesting::{nesting_bound, within_nesting_limit, MAX_NESTING};
use crate::utils::text_map::{distinct_keys, has_key, key_index, lemma_pair_in_map, pairs_map};
use crate::utils::yaml::{
    distinct_sections, emit_sections, error_text, parse_sections, yaml_sections, yaml_text,
};
use vstd::prelude::*;
use vstd::string::StringSliceAdditionalSpecFns;
use vstd::utf8::encode_utf8;

verus! {

/// The value of the first pair of `pairs` that is keyed by `key`.
pub open spec fn first_value<V>(pairs: Seq<(Seq<char>, V)>, key: Seq<char>) -> Option<V>
    decreases pairs.len(),
{
    if pairs.len() == 0 {
        None
    } else if pairs[0].0 == key {
        Some(pairs[0].1)
    } else {
        first_value(pairs.drop_first(), key)
    }
}

/// Where no pair before position `i` is keyed by `key`, the first value is
/// that of the pair at `i`, if `i` is keyed by `key`, and nothing if `i` is
/// the end.
pub proof fn lemma_first_value_at<V>(pairs: Seq<(Seq<char>, V)>, key: Seq<char>, i: int)
    requires
        0 <= i <= pairs.len(),
        forall|j: int| 0 <= j < i ==> (#[trigger] pairs[j]).0 != key,
        i < pairs.len() ==> pairs[i].0 == key,
    ensures
        first_value(pairs, key) == (if i < pairs.len() {
            Some(pairs[i].1)
        } else {
            None
        }),
    decreases i,
{
    if i > 0 {
        let rest = pairs.drop_first();
        assert(pairs[0].0 != key);
        assert forall|j: int| 0 <= j < i - 1 implies (#[trigger] rest[j]).0 != key by {
            assert(rest[j] == pairs[j + 1]);
        }
        if i < pairs.len() {
            assert(rest[i - 1] == pairs[i]);
        }
        lemma_first_value_at(rest, key, i - 1);
    }
}

/// A lookup in pairs of which none repeats a key finds what the map of the
/// pairs holds.
pub proof fn lemma_first_value_is_map_value<V>(pairs: Seq<(Seq<char>, V)>, key: Seq<char>)
    requires
        distinct_keys(pairs),
    ensures
        first_value(pairs, key) == (if pairs_map(pairs).contains_key(key) {
            Some(pairs_map(pairs)[key])
        } else {
            None
        }),
{
    if has_key(pairs, key) {
        let i = key_index(pairs, key);
        lemma_pair_in_map(pairs, i);
        lemma_first_value_at(pairs, key, i);
    } else {
        lemma_first_value_at(pairs, key, pairs.len() as int);
    }
}

/// A pair at the end counts only for a key that no pair before it is keyed by.
pub proof fn lemma_first_value_push<V>(
    pairs: Seq<(Seq<char>, V)>,
    pair: (Seq<char>, V),
    key: Seq<char>,
)
    ensures
        first_value(pairs.push(pair), key) == (match first_value(pairs, key) {
            Some(value) => Some(value),
            None => if pair.0 == key {
                Some(pair.1)
            } else {
                None
            },
        }),
    decreases pairs.len(),
{
    if pairs.len() == 0 {
        assert(pairs.push(pair).drop_first() =~= pairs);
    } else {
        assert(pairs.push(pair).drop_first() =~= pairs.drop_first().push(pair));
        lemma_first_value_push(pairs.drop_first(), pair, key);
    }
}

/// The first item of `items` that is keyed by `key`.
pub fn find_first<'a, T: DeepView>(items: &'a Vec<(String, T)>, key: &str) -> (found: Option<&'a T>)
    ensures
        match found {
            Some(item) => first_value(items.deep_view(), key@) == Some(item.deep_view()),
            None => first_value(items.deep_view(), key@) is None,
        },
{
    let wanted: String = key.to_owned();
    let mut i: usize = 0;
    while i < items.len()
        invariant
            i <= items.len(),
            wanted@ == key@,
            forall|j: int| 0 <= j < i ==> (#[trigger] items.deep_view()[j]).0 != key@,
        decreases items.len() - i,
    {
        if items[i].0 == wanted {
            proof {
                lemma_first_value_at(items.deep_view(), key@, i as int);
            }
            return Some(&items[i].1);
        }
        i += 1;
    }
    proof {
        lemma_first_value_at(items.deep_view(), key@, i as int);
    }
    None
}

/// The fields of a section: names with their texts.
pub type FieldsView = Seq<(Seq<char>, Seq<char>)>;

/// The sections of a document: keys with their fields.
pub type SectionsView = Seq<(Seq<char>, FieldsView)>;

/// What sections say, whatever the order in which they and their fields
/// stand: under each key the texts of its fields by name.
pub open spec fn sections_meaning(sections: SectionsView) -> Map<
    Seq<char>,
    Map<Seq<char>, Seq<char>>,
> {
    pairs_map(sections).map_values(|fields: FieldsView| pairs_map(fields))
}

/// Whether a text can be handed to the YAML reader: its nesting bound is
/// within the limit.
pub open spec fn is_readable(text: Seq<char>) -> bool {
    nesting_bound(encode_utf8(text)) <= MAX_NESTING
}

/// The sections that a text is read as: what the YAML reader makes of it
/// where it can be handed to the reader, and nothing where it cannot.
pub open spec fn sections_read(text: Seq<char>) -> Option<SectionsView> {
    if is_readable(text) {
        yaml_sections(text)
    } else {
        None
    }
}

/// What is said of a text whose nesting bound is over the limit.
pub open spec fn too_deep() -> Seq<char> {
    "the text is nested too deeply"@
}

/// Reads a text as sections.
///
/// Fails with `DeserializeError` where the nesting bound of the text is over
/// the limit, and where the YAML reader refuses the text; the reason is then
/// what the reader says of it. In the sections read no key and no name occurs
/// twice.
pub fn read_sections(text: &str) -> (result: Result<
    Vec<(String, Vec<(String, String)>)>,
    ShranError,
>)
    ensures
        match result {
            Ok(sections) => sections_read(text@) == Some(sections.deep_view())
                && distinct_sections(sections.deep_view()),
            Err(error) => sections_read(text@) is None && error is DeserializeError,
        },
        !is_readable(text@) ==> result is Err && result->Err_0@
            == (ShranErrorView::DeserializeError { reason: too_deep() }),
{
    if !within_nesting_limit(text) {
        return Err(
            ShranError::DeserializeError { reason: "the text is nested too deeply".to_owned() },
        );
    }
    match parse_sections(text) {
        Ok(sections) => Ok(sections),
        Err(error) => Err(ShranError::DeserializeError { reason: error_text(&error) }),
    }
}

/// What writing sections gives, from the text that the YAML writer makes of
/// them: that text, unless the writer fails or the text could not be handed
/// to the reader again.
pub open spec fn text_written(text: Option<Seq<char>>) -> Option<Seq<char>> {
    match text {
        Some(text) => if is_readable(text) {
            Some(text)
        } else {
            None
        },
        None => None,
    }
}

/// Writes sections as a text.
///
/// No text is handed out that [`read_sections`] would refuse for its
/// nesting. Fails with `SerializeError` where the YAML writer refuses the
/// sections, with what the writer says as the reason, and where the text
/// written is nested too deeply to be read again.
pub fn write_sections(sections: &Vec<(String, Vec<(String, String)>)>) -> (result: Result<
    String,
    ShranError,
>)
    ensures
        match result {
            Ok(text) => text_written(yaml_text(sections.deep_view())) == Some(text@)
                && sections_read(text@) == yaml_sections(text@),
            Err(error) => text_written(yaml_text(sections.deep_view())) is None
                && error is SerializeError,
        },
        yaml_text(sections.deep_view()) is Some && text_written(yaml_text(sections.deep_view()))
            is None ==> result is Err && result->Err_0@ == (ShranErrorView::SerializeError {
            reason: too_deep(),
        }),
{
    match emit_sections(sections) {
        Ok(text) => if within_nesting_limit(text.as_str()) {
            Ok(text)
        } else {
            Err(ShranError::SerializeError { reason: "the text is nested too deeply".to_owned() })
        },
        Err(error) => Err(ShranError::SerializeError { reason: error_text(&error) }),
    }
}

} // verus!
