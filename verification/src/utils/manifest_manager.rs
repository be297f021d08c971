//! The manifest: the index of the versions that are installed.

use crate::error::{outcome_view, ShranError, ShranErrorView};
use crate::utils::sections::{
    find_first, first_value, is_readable, lemma_first_value_at, lemma_first_value_is_map_value,
    read_sections, sections_meaning, sections_read, text_written, too_deep, write_sections,
    FieldsView, SectionsView,
};
use crate::utils::text_map::{
    distinct_keys, has_key, key_index, lemma_map_len, lemma_pair_in_map, lemma_push_pair,
    lemma_remove_pair, lemma_same_keys, pairs_map, same_keys, TextMap,
};
use crate::utils::yaml::{distinct_sections, yaml_sections, yaml_text};
use vstd::prelude::*;

verus! {

/// The record of one installed version.
#[derive(PartialEq, Eq, Debug)]
pub struct ManifestEntry {
    pub version: String,
    pub published_date: String,
    pub installation_location: String,
}

/// A manifest entry with its texts taken as character sequences.
pub struct ManifestEntryView {
    pub version: Seq<char>,
    pub published_date: Seq<char>,
    pub installation_location: Seq<char>,
}

impl View for ManifestEntry {
    type V = ManifestEntryView;

    open spec fn view(&self) -> ManifestEntryView {
        ManifestEntryView {
            version: self.version@,
            published_date: self.published_date@,
            installation_location: self.installation_location@,
        }
    }
}

impl ManifestEntry {
    pub fn new(version: String, published_date: String, installation_location: String) -> (entry:
        Self)
        ensures
            entry.version == version,
            entry.published_date == published_date,
            entry.installation_location == installation_location,
    {
        Self { version, published_date, installation_location }
    }
}

impl Clone for ManifestEntry {
    fn clone(&self) -> (copy: Self)
        ensures
            copy == *self,
    {
        Self {
            version: self.version.clone(),
            published_date: self.published_date.clone(),
            installation_location: self.installation_location.clone(),
        }
    }
}

/// The full description of a blockchain version, such as `Bitcoin core v21.0`.
pub type BlockchainDescription = String;

/// A manifest as a mathematical map from descriptions to entries.
pub type ManifestView = Map<Seq<char>, ManifestEntryView>;

/// The entries of a manifest in the order in which they were added.
pub type ManifestRecords = Seq<(Seq<char>, ManifestEntryView)>;

/// Whether an entry can be added under `key`: yes, unless the key is taken,
/// which is a `DuplicateEntryError`.
pub open spec fn add_outcome(manifest: ManifestView, key: Seq<char>) -> Result<(), ShranErrorView> {
    if manifest.contains_key(key) {
        Err(ShranErrorView::DuplicateEntryError { key })
    } else {
        Ok(())
    }
}

/// The manifest after an attempt to add `entry` under `key`: with the entry
/// where the key was free, as it was where the key was taken.
pub open spec fn after_add(manifest: ManifestView, key: Seq<char>, entry: ManifestEntryView)
    -> ManifestView {
    if manifest.contains_key(key) {
        manifest
    } else {
        manifest.insert(key, entry)
    }
}

/// What removing `key` hands back: the entry under it, or
/// `EntryNotFoundError` where the key is absent.
pub open spec fn remove_outcome(manifest: ManifestView, key: Seq<char>) -> Result<
    ManifestEntryView,
    ShranErrorView,
> {
    if manifest.contains_key(key) {
        Ok(manifest[key])
    } else {
        Err(ShranErrorView::EntryNotFoundError { key })
    }
}

/// The manifest after an attempt to remove `key`: without the key.
pub open spec fn after_remove(manifest: ManifestView, key: Seq<char>) -> ManifestView {
    manifest.remove(key)
}

/// What a lookup gives: the entry under the key, or `EntryNotFoundError`
/// where the key is absent.
pub open spec fn found_entry(manifest: ManifestView, key: Seq<char>) -> Result<
    ManifestEntryView,
    ShranErrorView,
> {
    if manifest.contains_key(key) {
        Ok(manifest[key])
    } else {
        Err(ShranErrorView::EntryNotFoundError { key })
    }
}

/// The fields under which an entry is written to the manifest file.
pub open spec fn fields_of_entry(entry: ManifestEntryView) -> FieldsView {
    seq![
        ("version"@, entry.version),
        ("published_date"@, entry.published_date),
        ("installation_location"@, entry.installation_location),
    ]
}

/// The entry that a section's fields describe, if all three are there.
/// Fields of other names are passed over.
pub open spec fn entry_of_fields(fields: FieldsView) -> Option<ManifestEntryView> {
    match (
        first_value(fields, "version"@),
        first_value(fields, "published_date"@),
        first_value(fields, "installation_location"@),
    ) {
        (Some(version), Some(published_date), Some(installation_location)) => Some(
            ManifestEntryView { version, published_date, installation_location },
        ),
        _ => None,
    }
}

/// The sections under which a manifest is written to its file.
pub open spec fn sections_of_records(records: ManifestRecords) -> SectionsView {
    records.map_values(
        |record: (Seq<char>, ManifestEntryView)| (record.0, fields_of_entry(record.1)),
    )
}

/// The manifest that a file's sections describe, read from first to last.
///
/// The first section that repeats a key gives `DuplicateEntryError`, the
/// first one that lacks a field gives `IncompleteEntryError`.
pub open spec fn records_of_sections(sections: SectionsView) -> Result<
    ManifestRecords,
    ShranErrorView,
>
    decreases sections.len(),
{
    if sections.len() == 0 {
        Ok(Seq::empty())
    } else {
        let key = sections.last().0;
        match records_of_sections(sections.drop_last()) {
            Err(error) => Err(error),
            Ok(records) => if has_key(records, key) {
                Err(ShranErrorView::DuplicateEntryError { key })
            } else {
                match entry_of_fields(sections.last().1) {
                    None => Err(ShranErrorView::IncompleteEntryError { key }),
                    Some(entry) => Ok(records.push((key, entry))),
                }
            },
        }
    }
}

/// What reading gives once a prefix of the sections has failed.
pub proof fn lemma_failed_prefix(sections: SectionsView, n: int)
    requires
        0 <= n <= sections.len(),
        records_of_sections(sections.take(n)) is Err,
    ensures
        records_of_sections(sections) == records_of_sections(sections.take(n)),
    decreases sections.len() - n,
{
    if n < sections.len() {
        assert(sections.drop_last().take(n) =~= sections.take(n));
        lemma_failed_prefix(sections.drop_last(), n);
    } else {
        assert(sections.take(n) =~= sections);
    }
}

/// Reading keeps keys apart: the records of any sections have distinct keys.
pub proof fn lemma_records_distinct(sections: SectionsView)
    ensures
        records_of_sections(sections) matches Ok(records) ==> distinct_keys(records),
    decreases sections.len(),
{
    if sections.len() > 0 {
        lemma_records_distinct(sections.drop_last());
        if let Ok(front) = records_of_sections(sections.drop_last()) {
            let key = sections.last().0;
            if !has_key(front, key) {
                if let Some(entry) = entry_of_fields(sections.last().1) {
                    lemma_push_pair(front, key, entry);
                }
            }
        }
    }
}

/// An entry added under a key that was free is what a lookup of the key
/// then finds.
pub proof fn lemma_add_then_get(manifest: ManifestView, key: Seq<char>, entry: ManifestEntryView)
    requires
        !manifest.contains_key(key),
    ensures
        add_outcome(manifest, key) == Ok::<(), ShranErrorView>(()),
        found_entry(after_add(manifest, key, entry), key) == Ok::<ManifestEntryView, ShranErrorView>(
            entry,
        ),
{
}

/// Adding under a key that is taken fails with `DuplicateEntryError` and
/// leaves the manifest, and so the entry under the key, as it was.
pub proof fn lemma_add_duplicate(manifest: ManifestView, key: Seq<char>, entry: ManifestEntryView)
    requires
        manifest.contains_key(key),
    ensures
        add_outcome(manifest, key) == Err::<(), ShranErrorView>(
            ShranErrorView::DuplicateEntryError { key },
        ),
        after_add(manifest, key, entry) == manifest,
        found_entry(after_add(manifest, key, entry), key) == Ok::<ManifestEntryView, ShranErrorView>(
            manifest[key],
        ),
{
}

/// Removing and looking up a key that is absent both fail with
/// `EntryNotFoundError`, and the removal leaves the manifest as it was.
pub proof fn lemma_absent_key(manifest: ManifestView, key: Seq<char>)
    requires
        !manifest.contains_key(key),
    ensures
        remove_outcome(manifest, key) == Err::<ManifestEntryView, ShranErrorView>(
            ShranErrorView::EntryNotFoundError { key },
        ),
        found_entry(manifest, key) == Err::<ManifestEntryView, ShranErrorView>(
            ShranErrorView::EntryNotFoundError { key },
        ),
        after_remove(manifest, key) == manifest,
{
    assert(manifest.remove(key) =~= manifest);
}

/// A removal is a true deletion: once a key is removed, an entry, the same
/// or another, can be added under it again and is then what a lookup finds.
pub proof fn lemma_remove_then_add(
    manifest: ManifestView,
    key: Seq<char>,
    entry: ManifestEntryView,
)
    requires
        manifest.contains_key(key),
    ensures
        remove_outcome(manifest, key) == Ok::<ManifestEntryView, ShranErrorView>(manifest[key]),
        add_outcome(after_remove(manifest, key), key) == Ok::<(), ShranErrorView>(()),
        found_entry(after_add(after_remove(manifest, key), key, entry), key) == Ok::<
            ManifestEntryView,
            ShranErrorView,
        >(entry),
        after_add(after_remove(manifest, key), key, entry) == manifest.insert(key, entry),
{
    assert(manifest.remove(key).insert(key, entry) =~= manifest.insert(key, entry));
}

/// The fields of an entry describe that entry.
pub proof fn lemma_fields_round_trip(entry: ManifestEntryView)
    ensures
        entry_of_fields(fields_of_entry(entry)) == Some(entry),
{
    reveal_strlit("version");
    reveal_strlit("published_date");
    reveal_strlit("installation_location");
    let fields = fields_of_entry(entry);
    assert("version"@.len() != "published_date"@.len());
    assert("version"@.len() != "installation_location"@.len());
    assert("published_date"@.len() != "installation_location"@.len());
    lemma_first_value_at(fields, "version"@, 0);
    lemma_first_value_at(fields, "published_date"@, 1);
    lemma_first_value_at(fields, "installation_location"@, 2);
}

/// Writing a manifest as sections and reading the sections back gives the
/// manifest again: the same entries under the same keys, in the same order.
pub proof fn lemma_sections_round_trip(records: ManifestRecords)
    requires
        distinct_keys(records),
    ensures
        records_of_sections(sections_of_records(records)) == Ok::<ManifestRecords, ShranErrorView>(
            records,
        ),
    decreases records.len(),
{
    let sections = sections_of_records(records);
    if records.len() == 0 {
        assert(records =~= ManifestRecords::empty());
    } else {
        let front = records.drop_last();
        assert(sections.drop_last() =~= sections_of_records(front));
        assert forall|i: int, j: int|
            0 <= i < front.len() && 0 <= j < front.len() && i != j implies (
        #[trigger] front[i]).0 != (#[trigger] front[j]).0 by {
            assert(front[i] == records[i]);
            assert(front[j] == records[j]);
        }
        lemma_sections_round_trip(front);
        let last = records.last();
        if has_key(front, last.0) {
            let i = key_index(front, last.0);
            assert(front[i] == records[i]);
            assert(records[records.len() - 1] == last);
        }
        lemma_fields_round_trip(last.1);
        assert(front.push((last.0, last.1)) =~= records);
    }
}

/// Reading keeps the keys of the sections, in their order.
pub proof fn lemma_records_keep_keys(sections: SectionsView)
    ensures
        records_of_sections(sections) matches Ok(records) ==> same_keys(sections, records),
    decreases sections.len(),
{
    if sections.len() > 0 {
        let front = sections.drop_last();
        lemma_records_keep_keys(front);
        if let Ok(records) = records_of_sections(sections) {
            let before = records_of_sections(front)->Ok_0;
            assert forall|i: int| 0 <= i < sections.len() implies (#[trigger] sections[i]).0
                == records[i].0 by {
                if i < sections.len() - 1 {
                    assert(front[i] == sections[i]);
                    assert(records[i] == before[i]);
                }
            }
        }
    }
}

/// Sections of which none repeats a key are refused only for an entry that
/// lacks a field.
pub proof fn lemma_distinct_sections_are_no_duplicates(sections: SectionsView)
    requires
        distinct_keys(sections),
    ensures
        records_of_sections(sections) matches Err(error) ==> error is IncompleteEntryError,
    decreases sections.len(),
{
    if sections.len() > 0 {
        let front = sections.drop_last();
        assert forall|i: int, j: int|
            0 <= i < front.len() && 0 <= j < front.len() && i != j implies (
        #[trigger] front[i]).0 != (#[trigger] front[j]).0 by {
            assert(front[i] == sections[i]);
            assert(front[j] == sections[j]);
        }
        lemma_distinct_sections_are_no_duplicates(front);
        lemma_records_keep_keys(front);
        if let Ok(records) = records_of_sections(front) {
            let key = sections.last().0;
            if has_key(records, key) {
                let i = key_index(records, key);
                assert(front[i].0 == records[i].0);
                assert(front[i] == sections[i]);
                assert(sections[sections.len() - 1] == sections.last());
            }
        }
    }
}

/// The entry that fields describe when they are taken by their names.
pub open spec fn entry_of_named_fields(fields: Map<Seq<char>, Seq<char>>) -> Option<
    ManifestEntryView,
> {
    if fields.contains_key("version"@) && fields.contains_key("published_date"@)
        && fields.contains_key("installation_location"@) {
        Some(
            ManifestEntryView {
                version: fields["version"@],
                published_date: fields["published_date"@],
                installation_location: fields["installation_location"@],
            },
        )
    } else {
        None
    }
}

/// Fields of which none repeats a name describe the entry that they describe
/// by name, whatever their order.
pub proof fn lemma_entry_by_name(fields: FieldsView)
    requires
        distinct_keys(fields),
    ensures
        entry_of_fields(fields) == entry_of_named_fields(pairs_map(fields)),
{
    lemma_first_value_is_map_value(fields, "version"@);
    lemma_first_value_is_map_value(fields, "published_date"@);
    lemma_first_value_is_map_value(fields, "installation_location"@);
}

/// The fields of an entry have three different names.
pub proof fn lemma_fields_distinct(entry: ManifestEntryView)
    ensures
        distinct_keys(fields_of_entry(entry)),
{
    reveal_strlit("version");
    reveal_strlit("published_date");
    reveal_strlit("installation_location");
    assert("version"@.len() != "published_date"@.len());
    assert("version"@.len() != "installation_location"@.len());
    assert("published_date"@.len() != "installation_location"@.len());
}

/// Sections of which none repeats a key and each describes an entry are read
/// as these entries under these keys, in the order of the sections.
pub proof fn lemma_complete_sections(sections: SectionsView)
    requires
        distinct_keys(sections),
        forall|i: int| 0 <= i < sections.len() ==> entry_of_fields((#[trigger] sections[i]).1)
            is Some,
    ensures
        records_of_sections(sections) is Ok,
        same_keys(sections, records_of_sections(sections)->Ok_0),
        forall|i: int|
            0 <= i < sections.len() ==> entry_of_fields(sections[i].1) == Some(
                (#[trigger] records_of_sections(sections)->Ok_0[i]).1,
            ),
    decreases sections.len(),
{
    if sections.len() > 0 {
        let front = sections.drop_last();
        assert forall|i: int, j: int|
            0 <= i < front.len() && 0 <= j < front.len() && i != j implies (
        #[trigger] front[i]).0 != (#[trigger] front[j]).0 by {
            assert(front[i] == sections[i]);
            assert(front[j] == sections[j]);
        }
        assert forall|i: int| 0 <= i < front.len() implies entry_of_fields(
            (#[trigger] front[i]).1,
        ) is Some by {
            assert(front[i] == sections[i]);
        }
        lemma_complete_sections(front);
        lemma_distinct_sections_are_no_duplicates(sections);
        lemma_records_keep_keys(sections);
        let before = records_of_sections(front)->Ok_0;
        let key = sections.last().0;
        assert(sections[sections.len() - 1] == sections.last());
        if has_key(before, key) {
            let i = key_index(before, key);
            assert(front[i].0 == before[i].0);
            assert(front[i] == sections[i]);
        }
        let records = records_of_sections(sections)->Ok_0;
        assert forall|i: int| 0 <= i < sections.len() implies entry_of_fields(sections[i].1)
            == Some((#[trigger] records[i]).1) by {
            if i < sections.len() - 1 {
                assert(front[i] == sections[i]);
                assert(records[i] == before[i]);
            }
        }
    }
}

/// What the section at `i` of sections that are read back describes: the
/// entry that the manifest holds under its key.
proof fn lemma_section_read_back(records: ManifestRecords, read: SectionsView, i: int)
    requires
        distinct_keys(records),
        distinct_sections(read),
        sections_meaning(read) == sections_meaning(sections_of_records(records)),
        0 <= i < read.len(),
    ensures
        has_key(records, read[i].0),
        entry_of_fields(read[i].1) == Some(pairs_map(records)[read[i].0]),
{
    let written = sections_of_records(records);
    let key = read[i].0;
    assert(same_keys(records, written));
    lemma_same_keys(records, written, key);
    lemma_pair_in_map(read, i);
    assert(sections_meaning(read).contains_key(key));
    assert(sections_meaning(read)[key] == pairs_map(read[i].1));
    assert(sections_meaning(written).contains_key(key));
    assert(pairs_map(written).contains_key(key));
    assert(has_key(written, key));
    let j = key_index(records, key);
    lemma_pair_in_map(written, j);
    lemma_pair_in_map(records, j);
    assert(written[j] == (records[j].0, fields_of_entry(records[j].1)));
    assert(sections_meaning(written)[key] == pairs_map(fields_of_entry(records[j].1)));
    lemma_entry_by_name(read[i].1);
    lemma_fields_distinct(records[j].1);
    lemma_entry_by_name(fields_of_entry(records[j].1));
    lemma_fields_round_trip(records[j].1);
}

/// Where the sections that are read back say what the sections of a manifest
/// say, in whatever order, and repeat no key and no name, they are read as a
/// manifest that holds the same entries under the same keys.
pub proof fn lemma_read_back(records: ManifestRecords, read: SectionsView)
    requires
        distinct_keys(records),
        distinct_sections(read),
        sections_meaning(read) == sections_meaning(sections_of_records(records)),
    ensures
        records_of_sections(read) is Ok,
        pairs_map(records_of_sections(read)->Ok_0) == pairs_map(records),
{
    let written = sections_of_records(records);
    assert forall|i: int| 0 <= i < read.len() implies entry_of_fields((#[trigger] read[i]).1)
        is Some by {
        lemma_section_read_back(records, read, i);
    }
    lemma_complete_sections(read);
    let back = records_of_sections(read)->Ok_0;
    assert(same_keys(records, written));
    assert forall|key: Seq<char>| #[trigger]
        pairs_map(back).contains_key(key) == pairs_map(records).contains_key(key) by {
        lemma_same_keys(read, back, key);
        lemma_same_keys(records, written, key);
        assert(sections_meaning(read).contains_key(key) == pairs_map(read).contains_key(key));
        assert(sections_meaning(written).contains_key(key) == pairs_map(written).contains_key(
            key,
        ));
    }
    assert forall|key: Seq<char>| #[trigger] pairs_map(back).contains_key(key) implies pairs_map(
        back,
    )[key] == pairs_map(records)[key] by {
        lemma_same_keys(read, back, key);
        let i = key_index(back, key);
        lemma_pair_in_map(back, i);
        lemma_section_read_back(records, read, i);
    }
    assert(pairs_map(back) =~= pairs_map(records));
}

/// A manifest, or the failure to make one, with the manifest taken by its
/// records and the failure by its view.
pub open spec fn records_view(result: Result<ManifestManager, ShranError>) -> Result<
    ManifestRecords,
    ShranErrorView,
> {
    match result {
        Ok(manifest) => Ok(manifest.records()),
        Err(error) => Err(error@),
    }
}

/// The index of installed versions, keyed by a description chosen by the caller.
///
/// Entries are added and removed whole; an entry is never changed in place.
#[derive(Debug)]
pub struct ManifestManager {
    entries: TextMap<ManifestEntry>,
}

impl View for ManifestManager {
    type V = ManifestView;

    open spec fn view(&self) -> ManifestView {
        pairs_map(self.records())
    }
}

impl ManifestManager {
    /// The entries in the order in which they were added.
    pub closed spec fn records(&self) -> ManifestRecords {
        self.entries.pairs().map_values(|pair: (Seq<char>, ManifestEntry)| (pair.0, pair.1@))
    }

    /// A manifest without entries.
    pub fn empty() -> (manifest: Self)
        ensures
            manifest.records() == ManifestRecords::empty(),
            manifest@ == ManifestView::empty(),
    {
        let manifest = ManifestManager { entries: TextMap::new() };
        assert(manifest.records() =~= ManifestRecords::empty());
        assert(manifest@ =~= ManifestView::empty());
        manifest
    }

    /// Returns the number of entries.
    #[inline(always)]
    pub fn len(&self) -> (n: usize)
        ensures
            n == self@.len(),
            n == self.records().len(),
            self@.dom().finite(),
            distinct_keys(self.records()),
    {
        let n = self.entries.len();
        proof {
            self.lemma_records(Seq::empty());
            lemma_map_len(self.records());
        }
        n
    }

    /// How the records stand to the pairs of the map that holds them.
    proof fn lemma_records(&self, key: Seq<char>)
        requires
            distinct_keys(self.entries.pairs()),
        ensures
            same_keys(self.entries.pairs(), self.records()),
            distinct_keys(self.records()),
            self.entries@.contains_key(key) == self@.contains_key(key),
            self@.contains_key(key) ==> self@[key] == self.entries@[key]@,
            self@.contains_key(key) ==> key_index(self.records(), key) == key_index(
                self.entries.pairs(),
                key,
            ),
    {
        lemma_same_keys(self.entries.pairs(), self.records(), key);
    }

    /// Adds an entry to the manifest.
    ///
    /// Fails with `DuplicateEntryError`, and changes nothing, where `key` is
    /// taken: an entry is replaced only by removing it first. A new entry goes
    /// to the end of the records.
    ///
    /// * `key` the full description of the blockchain, e.g. `Bitcoin core v21.0`
    /// * `entry` the entry to store under it
    pub fn add_entry(&mut self, key: BlockchainDescription, entry: &ManifestEntry) -> (result:
        Result<(), ShranError>)
        ensures
            outcome_view(result) == add_outcome(old(self)@, key@),
            final(self)@ == after_add(old(self)@, key@, entry@),
            result is Ok ==> final(self).records() == old(self).records().push((key@, entry@)),
            result is Err ==> *final(self) == *old(self),
    {
        let present = self.entries.contains_key(key.as_str());
        proof {
            self.lemma_records(key@);
        }
        if !present {
            let ghost before = self.records();
            let ghost key_view = key@;
            let stored = entry.clone();
            let _ = self.entries.insert(key, stored);
            proof {
                assert(self.records() =~= before.push((key_view, entry@)));
                lemma_push_pair(before, key_view, entry@);
            }
            return Ok(());
        }
        Err(ShranError::DuplicateEntryError { key })
    }

    /// Removes an entry from the manifest and hands it back.
    ///
    /// Fails with `EntryNotFoundError`, and changes nothing, where `key` is
    /// absent. The other records keep their order.
    ///
    /// * `key` the full description of the blockchain, e.g. `Bitcoin core v21.0`
    pub fn remove_entry(&mut self, key: BlockchainDescription) -> (result: Result<
        ManifestEntry,
        ShranError,
    >)
        ensures
            outcome_view(result) == remove_outcome(old(self)@, key@),
            final(self)@ == after_remove(old(self)@, key@),
            result is Ok ==> final(self).records() == old(self).records().remove(
                key_index(old(self).records(), key@),
            ),
            result is Err ==> *final(self) == *old(self),
    {
        let present = self.entries.contains_key(key.as_str());
        proof {
            self.lemma_records(key@);
        }
        let ghost before = self.records();
        let ghost at = key_index(before, key@);
        if present {
            if let Some(entry) = self.entries.remove(key.as_str()) {
                proof {
                    assert(self.records() =~= before.remove(at));
                    lemma_pair_in_map(before, at);
                    lemma_remove_pair(before, at);
                }
                return Ok(entry);
            }
        }
        assert(self@.remove(key@) =~= self@);
        Err(ShranError::EntryNotFoundError { key })
    }

    /// Gets a reference to an entry of the manifest.
    ///
    /// Fails with `EntryNotFoundError` where `key` is absent.
    ///
    /// * `key` the full description of the blockchain, e.g. `Bitcoin core v21.0`
    pub fn get_entry(&self, key: BlockchainDescription) -> (result: Result<
        &ManifestEntry,
        ShranError,
    >)
        ensures
            outcome_view(result) == found_entry(self@, key@),
    {
        let present = self.entries.contains_key(key.as_str());
        proof {
            self.lemma_records(key@);
        }
        if present {
            if let Some(entry) = self.entries.get(key.as_str()) {
                return Ok(entry);
            }
        }
        Err(ShranError::EntryNotFoundError { key })
    }
    /// The entry that a section's fields describe, if all three are there.
    pub fn entry_from_fields(fields: &Vec<(String, String)>) -> (entry: Option<ManifestEntry>)
        ensures
            match entry {
                Some(entry) => entry_of_fields(fields.deep_view()) == Some(entry@),
                None => entry_of_fields(fields.deep_view()) is None,
            },
    {
        let version = find_first(fields, "version");
        let published_date = find_first(fields, "published_date");
        let installation_location = find_first(fields, "installation_location");
        match (version, published_date, installation_location) {
            (Some(version), Some(published_date), Some(installation_location)) => Some(
                ManifestEntry::new(
                    version.clone(),
                    published_date.clone(),
                    installation_location.clone(),
                ),
            ),
            _ => None,
        }
    }

    /// The fields under which an entry is written to the manifest file.
    pub fn fields_from_entry(entry: &ManifestEntry) -> (fields: Vec<(String, String)>)
        ensures
            fields.deep_view() == fields_of_entry(entry@),
    {
        let mut fields: Vec<(String, String)> = Vec::new();
        fields.push(("version".to_owned(), entry.version.clone()));
        fields.push(("published_date".to_owned(), entry.published_date.clone()));
        fields.push(("installation_location".to_owned(), entry.installation_location.clone()));
        assert(fields.deep_view() =~= fields_of_entry(entry@));
        fields
    }

    /// Builds the manifest that a file's sections describe.
    ///
    /// The sections are read from first to last. Fails with
    /// `DuplicateEntryError` at the first section that repeats a key, and with
    /// `IncompleteEntryError` at the first one that lacks a field.
    pub fn from_sections(sections: &Vec<(String, Vec<(String, String)>)>) -> (result: Result<
        Self,
        ShranError,
    >)
        ensures
            records_view(result) == records_of_sections(sections.deep_view()),
    {
        let ghost all = sections.deep_view();
        let mut manifest = ManifestManager::empty();
        let mut i: usize = 0;
        assert(all.take(0) =~= SectionsView::empty());
        while i < sections.len()
            invariant
                i <= sections.len(),
                all == sections.deep_view(),
                records_of_sections(all.take(i as int)) == Ok::<ManifestRecords, ShranErrorView>(
                    manifest.records(),
                ),
            decreases sections.len() - i,
        {
            let ghost upto = all.take(i as int + 1);
            assert(upto.drop_last() =~= all.take(i as int));
            assert(upto.last() == all[i as int]);
            let key = sections[i].0.clone();
            let present = manifest.entries.contains_key(key.as_str());
            proof {
                manifest.lemma_records(key@);
            }
            if present {
                proof {
                    lemma_failed_prefix(all, i as int + 1);
                }
                return Err(ShranError::DuplicateEntryError { key });
            }
            match Self::entry_from_fields(&sections[i].1) {
                None => {
                    proof {
                        lemma_failed_prefix(all, i as int + 1);
                    }
                    return Err(ShranError::IncompleteEntryError { key });
                },
                Some(entry) => {
                    let ghost before = manifest.records();
                    let ghost added = (key@, entry@);
                    let _ = manifest.entries.insert(key, entry);
                    assert(manifest.records() =~= before.push(added));
                },
            }
            i += 1;
        }
        assert(all.take(i as int) =~= all);
        Ok(manifest)
    }

    /// The sections under which the manifest is written to its file, in the
    /// order of the records.
    pub fn to_sections(&self) -> (sections: Vec<(String, Vec<(String, String)>)>)
        ensures
            sections.deep_view() == sections_of_records(self.records()),
    {
        let mut sections: Vec<(String, Vec<(String, String)>)> = Vec::new();
        let n = self.entries.len();
        let mut i: usize = 0;
        while i < n
            invariant
                i == sections.len(),
                i <= n,
                n == self.records().len(),
                forall|j: int|
                    0 <= j < i ==> #[trigger] sections.deep_view()[j] == sections_of_records(
                        self.records(),
                    )[j],
            decreases n - i,
        {
            if let Some((key, entry)) = self.entries.entry_at(i) {
                let ghost before = sections.deep_view();
                sections.push((key.to_owned(), Self::fields_from_entry(entry)));
                assert forall|j: int| 0 <= j < i + 1 implies #[trigger] sections.deep_view()[j]
                    == sections_of_records(self.records())[j] by {
                    if j < i {
                        assert(sections.deep_view()[j] == before[j]);
                    }
                }
            }
            i += 1;
        }
        assert(sections.deep_view() =~= sections_of_records(self.records()));
        sections
    }

    /// Creates the manifest that a manifest file holds.
    ///
    /// An empty file is a manifest without entries. Any other contents are
    /// read as YAML: where that fails, or the contents are nested too deeply
    /// to be read, the result is `DeserializeError`, and where it succeeds the
    /// result is that of [`ManifestManager::from_sections`] on the sections
    /// read. Of a key that the file gives twice the reader keeps the last, so
    /// the only other failure is `IncompleteEntryError`.
    ///
    /// * `contents` what the manifest file holds
    pub fn new(contents: &str) -> (result: Result<Self, ShranError>)
        ensures
            contents@.len() == 0 ==> records_view(result) == Ok::<ManifestRecords, ShranErrorView>(
                Seq::empty(),
            ),
            contents@.len() > 0 ==> match sections_read(contents@) {
                Some(sections) => records_view(result) == records_of_sections(sections),
                None => result is Err && result->Err_0 is DeserializeError,
            },
            contents@.len() > 0 && !is_readable(contents@) ==> records_view(result) == Err::<
                ManifestRecords,
                ShranErrorView,
            >(ShranErrorView::DeserializeError { reason: too_deep() }),
            result is Err ==> result->Err_0 is DeserializeError || result->Err_0
                is IncompleteEntryError,
    {
        if contents.is_empty() {
            return Ok(ManifestManager::empty());
        }
        match read_sections(contents) {
            Ok(sections) => {
                proof {
                    lemma_distinct_sections_are_no_duplicates(sections.deep_view());
                }
                Self::from_sections(&sections)
            },
            Err(error) => Err(error),
        }
    }

    /// The text to write to the manifest file: the YAML of
    /// [`ManifestManager::to_sections`], or `SerializeError` where it cannot
    /// be written. No text is handed out that [`ManifestManager::new`] would
    /// refuse for its nesting.
    pub fn to_yaml(&self) -> (result: Result<String, ShranError>)
        ensures
            match result {
                Ok(text) => text_written(yaml_text(sections_of_records(self.records()))) == Some(
                    text@,
                ) && sections_read(text@) == yaml_sections(text@),
                Err(error) => text_written(yaml_text(sections_of_records(self.records())))
                    is None && error is SerializeError,
            },
    {
        write_sections(&self.to_sections())
    }
}

} // verus!
