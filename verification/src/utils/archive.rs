//! Archives of source releases.

use vstd::prelude::*;

verus! {

/// A tape archive with its paths taken as character sequences.
pub struct TapeArchiveView {
    pub archive: Seq<char>,
    pub destination_dir: Seq<char>,
}

/// A gzip-compressed tar archive and the directory it is to be unpacked to.
///
/// Unpacking reads and writes files, so it is left to the program around this
/// library; it must not remove or change the archive.
#[derive(Debug, Clone, Copy)]
pub struct TapeArchive<'archive> {
    archive: &'archive str,
    destination_dir: &'archive str,
}

impl<'archive> View for TapeArchive<'archive> {
    type V = TapeArchiveView;

    closed spec fn view(&self) -> TapeArchiveView {
        TapeArchiveView { archive: self.archive@, destination_dir: self.destination_dir@ }
    }
}

impl<'archive> TapeArchive<'archive> {
    /// Build a new TapeArchive object
    ///
    /// * `archive` the file that needs to be decompressed (`file.tar.gz`)
    /// * `destination_dir` the absolute path of the directory to unpack to
    pub fn new(archive: &'archive str, destination_dir: &'archive str) -> (tape: Self)
        ensures
            tape@ == (TapeArchiveView { archive: archive@, destination_dir: destination_dir@ }),
    {
        Self { archive, destination_dir }
    }

    /// The file that needs to be decompressed.
    pub fn archive(&self) -> (archive: &'archive str)
        ensures
            archive@ == self@.archive,
    {
        self.archive
    }

    /// The directory to unpack to.
    pub fn destination_dir(&self) -> (destination_dir: &'archive str)
        ensures
            destination_dir@ == self@.destination_dir,
    {
        self.destination_dir
    }
}

} // verus!
