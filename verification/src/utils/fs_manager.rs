//! The cache of downloaded sources and the credential file.
//!
//! Nothing here touches the file system. The functions decide what is to be
//! read, written, unpacked and removed, and in which order; the program around
//! this library does the work and reports how it went.

use crate::config::default::{join, joined, supported_blockchain_names, ShranDefault, ShranFile};
use crate::error::{outcome_view, ShranError, ShranErrorView};
use crate::utils::archive::{TapeArchive, TapeArchiveView};
use crate::utils::misc_serde::{authentication_of_sections, GithubAuth};
use crate::utils::sections::{
    lemma_first_value_is_map_value, read_sections, sections_meaning, sections_read, text_written,
    SectionsView,
};
use crate::utils::text_map::{key_index, lemma_pair_in_map, pairs_map};
use crate::utils::yaml::{distinct_sections, yaml_sections, yaml_text};
use vstd::prelude::*;

verus! {

/// Tells the reading and writing functions where to keep the source tree of
/// a blockchain.
#[derive(Debug, Clone, Copy, PartialEq, Eq, Structural)]
pub enum BlockchainKind {
    Bitcoin,
}

/// The name of the directory that the cache keeps for a blockchain.
pub open spec fn chain_directory(kind: BlockchainKind) -> Seq<char> {
    match kind {
        BlockchainKind::Bitcoin => "bitcoin"@,
    }
}

impl BlockchainKind {
    /// The name of the directory that the cache keeps for the blockchain.
    pub fn directory(&self) -> (name: &'static str)
        ensures
            name@ == chain_directory(*self),
    {
        match self {
            BlockchainKind::Bitcoin => "bitcoin",
        }
    }
}

/// The directories that must exist before anything is stored: the
/// configuration directory, the cache directory, and under the cache directory
/// one directory for each supported blockchain.
pub open spec fn required_directories_of(config_dir: Seq<char>, cache_dir: Seq<char>) -> Seq<
    Seq<char>,
> {
    seq![config_dir, cache_dir] + supported_blockchain_names().map_values(
        |name: Seq<char>| joined(cache_dir, name),
    )
}

/// The directory that an archive of any blockchain is stored in is one of the
/// directories that must exist.
pub proof fn lemma_chain_directory_is_required(
    kind: BlockchainKind,
    config_dir: Seq<char>,
    cache_dir: Seq<char>,
)
    ensures
        required_directories_of(config_dir, cache_dir).contains(
            joined(cache_dir, chain_directory(kind)),
        ),
{
    let required = required_directories_of(config_dir, cache_dir);
    assert(required[2] == joined(cache_dir, chain_directory(kind)));
}

/// The token that the sections of a credential file hold, if they hold one.
pub open spec fn token_of_sections(sections: Seq<(Seq<char>, Seq<(Seq<char>, Seq<char>)>)>)
    -> Option<Seq<char>> {
    match authentication_of_sections(sections) {
        Some(authentication) => if authentication.contains_key("token"@) {
            Some(authentication["token"@])
        } else {
            None
        },
        None => None,
    }
}

/// What a credential file that exists gives, from what the YAML reader makes
/// of its text: the token, or `CredentialReadError` where the text is not
/// YAML or holds no token.
pub open spec fn token_found(
    path: Seq<char>,
    sections: Option<Seq<(Seq<char>, Seq<(Seq<char>, Seq<char>)>)>>,
) -> Result<Seq<char>, ShranErrorView> {
    match sections {
        None => Err(ShranErrorView::CredentialReadError { path }),
        Some(sections) => match token_of_sections(sections) {
            Some(token) => Ok(token),
            None => Err(ShranErrorView::CredentialReadError { path }),
        },
    }
}

/// Where the sections that are read back say what the sections of a
/// credential say, in whatever order, and repeat no key and no name, the token
/// found in them is the token of the credential.
pub proof fn lemma_token_read_back(path: Seq<char>, token: Seq<char>, read: SectionsView)
    requires
        distinct_sections(read),
        sections_meaning(read) == sections_meaning(
            seq![("github_authentication"@, seq![("token"@, token)])],
        ),
    ensures
        token_found(path, Some(read)) == Ok::<Seq<char>, ShranErrorView>(token),
{
    let single = seq![("token"@, token)];
    let written = seq![("github_authentication"@, single)];
    let key = "github_authentication"@;
    assert(written[0].0 == key);
    lemma_pair_in_map(written, 0);
    assert(sections_meaning(written).contains_key(key));
    assert(sections_meaning(written)[key] == pairs_map(single));
    assert(single[0].0 == "token"@);
    lemma_pair_in_map(single, 0);
    assert(sections_meaning(read).contains_key(key));
    assert(pairs_map(read).contains_key(key));
    lemma_first_value_is_map_value(read, key);
    let i = key_index(read, key);
    lemma_pair_in_map(read, i);
    let fields = read[i].1;
    assert(sections_meaning(read)[key] == pairs_map(fields));
    lemma_first_value_is_map_value(fields, "token"@);
}

/// What reading the token gives, from the text of the credential file `path`,
/// which is `None` where the file does not exist.
pub open spec fn token_read(path: Seq<char>, contents: Option<&str>) -> Result<
    Seq<char>,
    ShranErrorView,
> {
    match contents {
        None => Err(ShranErrorView::CredentialNotFoundError { path }),
        Some(text) => token_found(path, sections_read(text@)),
    }
}

/// The steps of storing an archive, in the order in which they are taken.
#[derive(Debug, Clone, Copy, PartialEq, Eq, Structural)]
pub enum StoreStep {
    /// Write the downloaded bytes to the archive path.
    WriteArchive,
    /// Unpack the archive into the directory of its blockchain.
    UnpackArchive,
    /// Remove the archive, which is no longer needed.
    RemoveArchive,
}

/// Where storing an archive stands once a step has been reported.
#[derive(Debug)]
pub enum StoreProgress<E> {
    /// The step to take next.
    Next(StoreStep),
    /// All steps are done: the sources are in the directory of their blockchain.
    Installed,
    /// A step failed with the error given. Nothing more is to be done; an
    /// archive that was written stays where it is.
    Failed(E),
}

/// What follows a step: after a failure nothing, after a success the next
/// step, and after the last step the end.
pub open spec fn progress_after<E>(step: StoreStep, outcome: Result<(), E>) -> StoreProgress<E> {
    match outcome {
        Err(error) => StoreProgress::Failed(error),
        Ok(()) => match step {
            StoreStep::WriteArchive => StoreProgress::Next(StoreStep::UnpackArchive),
            StoreStep::UnpackArchive => StoreProgress::Next(StoreStep::RemoveArchive),
            StoreStep::RemoveArchive => StoreProgress::Installed,
        },
    }
}

/// The archive is removed only once it has been unpacked, the sources count
/// as installed only once the archive has been removed, and nothing follows a
/// step that failed: an archive whose unpacking failed stays in place.
pub proof fn lemma_store_order<E>(step: StoreStep, outcome: Result<(), E>)
    ensures
        progress_after(step, outcome) == StoreProgress::<E>::Next(StoreStep::RemoveArchive) <==> (
        step == StoreStep::UnpackArchive && outcome is Ok),
        progress_after(step, outcome) is Installed <==> (step == StoreStep::RemoveArchive
            && outcome is Ok),
        outcome is Err <==> progress_after(step, outcome) is Failed,
        progress_after(step, outcome) != StoreProgress::<E>::Next(StoreStep::WriteArchive),
{
}

/// An archive that is to be stored, with its places taken as character sequences.
pub struct ArchiveInstallView {
    pub directory: Seq<char>,
    pub archive_path: Seq<char>,
    pub bytes: Seq<u8>,
}

/// An archive that is cleared to be stored: no file stands at its path.
#[derive(Debug)]
pub struct ArchiveInstall {
    directory: String,
    archive_path: String,
    bytes: Vec<u8>,
}

impl View for ArchiveInstall {
    type V = ArchiveInstallView;

    closed spec fn view(&self) -> ArchiveInstallView {
        ArchiveInstallView {
            directory: self.directory@,
            archive_path: self.archive_path@,
            bytes: self.bytes@,
        }
    }
}

impl ArchiveInstall {
    /// The directory that the archive is unpacked into. Once the archive is
    /// installed, this is where its sources are.
    pub fn directory(&self) -> (directory: &str)
        ensures
            directory@ == self@.directory,
    {
        self.directory.as_str()
    }

    /// The path that the archive is written to.
    pub fn archive_path(&self) -> (archive_path: &str)
        ensures
            archive_path@ == self@.archive_path,
    {
        self.archive_path.as_str()
    }

    /// What is written to the archive path.
    pub fn bytes(&self) -> (bytes: &Vec<u8>)
        ensures
            bytes@ == self@.bytes,
    {
        &self.bytes
    }

    /// The archive and the directory to unpack it into.
    pub fn tape_archive(&self) -> (tape: TapeArchive<'_>)
        ensures
            tape@ == (TapeArchiveView {
                archive: self@.archive_path,
                destination_dir: self@.directory,
            }),
    {
        TapeArchive::new(self.archive_path.as_str(), self.directory.as_str())
    }

    /// The step that storing begins with.
    pub fn first_step(&self) -> (step: StoreStep)
        ensures
            step == StoreStep::WriteArchive,
    {
        StoreStep::WriteArchive
    }

    /// What to do once `step` has ended as `outcome` says.
    pub fn after_step<E>(&self, step: StoreStep, outcome: Result<(), E>) -> (progress:
        StoreProgress<E>)
        ensures
            progress == progress_after(step, outcome),
    {
        match outcome {
            Err(error) => StoreProgress::Failed(error),
            Ok(()) => match step {
                StoreStep::WriteArchive => StoreProgress::Next(StoreStep::UnpackArchive),
                StoreStep::UnpackArchive => StoreProgress::Next(StoreStep::RemoveArchive),
                StoreStep::RemoveArchive => StoreProgress::Installed,
            },
        }
    }
}

/// What the decision on storing an archive is, from whether a file already
/// stands at the archive's path.
pub open spec fn store_decision(
    cache_dir: Seq<char>,
    kind: BlockchainKind,
    filename: Seq<char>,
    bytes: Seq<u8>,
    archive_exists: bool,
) -> Result<ArchiveInstallView, ShranErrorView> {
    let directory = joined(cache_dir, chain_directory(kind));
    let archive_path = joined(directory, filename);
    if archive_exists {
        Err(ShranErrorView::AlreadyInstalledError { path: archive_path })
    } else {
        Ok(ArchiveInstallView { directory, archive_path, bytes })
    }
}

/// The file system manager with its paths taken as character sequences.
pub struct FileSystemManagerView {
    pub config_dir: Seq<char>,
    pub cache_dir: Seq<char>,
    pub gh_token_file: Seq<char>,
}

/// Decides on the directories and files that the program relies on.
#[derive(Debug)]
pub struct FileSystemManager {
    config_dir: String,
    cache_dir: String,
    gh_token_file: String,
}

impl View for FileSystemManager {
    type V = FileSystemManagerView;

    closed spec fn view(&self) -> FileSystemManagerView {
        FileSystemManagerView {
            config_dir: self.config_dir@,
            cache_dir: self.cache_dir@,
            gh_token_file: self.gh_token_file@,
        }
    }
}

impl FileSystemManager {
    /// A manager for the given configuration and cache directories. The
    /// credential file is `gh.yaml` in the configuration directory.
    ///
    /// The directories of [`FileSystemManager::required_directories`] are to be
    /// created, where they are missing, before the manager is used.
    pub fn new(config_dir: &str, cache_dir: &str) -> (manager: Self)
        ensures
            manager@.config_dir == config_dir@,
            manager@.cache_dir == cache_dir@,
            manager@.gh_token_file == joined(config_dir@, ShranDefault::GH_TOKEN_FILENAME@),
    {
        Self {
            config_dir: config_dir.to_owned(),
            cache_dir: cache_dir.to_owned(),
            gh_token_file: ShranDefault::forfile(ShranFile::GhToken, config_dir, ""),
        }
    }

    /// The path of the credential file.
    pub fn gh_token_file(&self) -> (path: &str)
        ensures
            path@ == self@.gh_token_file,
    {
        self.gh_token_file.as_str()
    }

    /// The directories that must exist, in the order in which they are to be
    /// created: the configuration directory, the cache directory, and the
    /// directory of each supported blockchain under the cache directory.
    pub fn required_directories(&self) -> (directories: Vec<String>)
        ensures
            directories.deep_view() == required_directories_of(self@.config_dir, self@.cache_dir),
    {
        let ghost chains = supported_blockchain_names().map_values(
            |name: Seq<char>| joined(self@.cache_dir, name),
        );
        let mut directories: Vec<String> = Vec::new();
        directories.push(self.config_dir.clone());
        directories.push(self.cache_dir.clone());
        let blockchains = ShranDefault::supported_blockchains();
        let mut i: usize = 0;
        assert(directories.deep_view() =~= seq![self@.config_dir, self@.cache_dir] + chains.take(
            0,
        ));
        while i < blockchains.len()
            invariant
                i <= blockchains.len(),
                blockchains@.map_values(|name: &str| name@) == supported_blockchain_names(),
                chains == supported_blockchain_names().map_values(
                    |name: Seq<char>| joined(self@.cache_dir, name),
                ),
                directories.deep_view() == seq![self@.config_dir, self@.cache_dir] + chains.take(
                    i as int,
                ),
            decreases blockchains.len() - i,
        {
            let ghost before = directories.deep_view();
            assert(blockchains@.map_values(|name: &str| name@)[i as int]
                == blockchains@[i as int]@);
            directories.push(join(self.cache_dir.as_str(), blockchains[i]));
            assert(directories.deep_view() =~= before.push(chains[i as int]));
            assert(chains.take(i as int + 1) =~= chains.take(i as int).push(chains[i as int]));
            i += 1;
        }
        assert(chains.take(i as int) =~= chains);
        directories
    }

    /// The text to write to the credential file so that it holds `token`.
    /// What the file held before is to be overwritten.
    ///
    /// Fails with `SerializeError` where the credential cannot be written as
    /// YAML. No text is handed out that [`FileSystemManager::read_token`]
    /// would refuse for its nesting.
    pub fn write_token(&self, token: String) -> (result: Result<String, ShranError>)
        ensures
            match result {
                Ok(text) => text_written(
                    yaml_text(seq![("github_authentication"@, seq![("token"@, token@)])]),
                ) == Some(text@) && sections_read(text@) == yaml_sections(text@),
                Err(error) => text_written(
                    yaml_text(seq![("github_authentication"@, seq![("token"@, token@)])]),
                ) is None && error is SerializeError,
            },
    {
        GithubAuth::new(&token).to_yaml()
    }

    /// The token that the sections of the credential file hold, or
    /// `CredentialReadError` where they hold none.
    pub fn token_from_sections(&self, sections: &Vec<(String, Vec<(String, String)>)>) -> (result:
        Result<String, ShranError>)
        ensures
            outcome_view(result) == token_found(self@.gh_token_file, Some(sections.deep_view())),
    {
        if let Some(auth) = GithubAuth::from_sections(sections) {
            if auth.has_token() {
                return Ok(auth.extract_token());
            }
        }
        Err(ShranError::CredentialReadError { path: self.gh_token_file.clone() })
    }

    /// Reads the token from what the credential file holds.
    ///
    /// * `contents` the text of the credential file, or `None` where the
    ///   file does not exist
    ///
    /// Fails with `CredentialNotFoundError` where the file does not exist,
    /// and with `CredentialReadError` where its text is not YAML or holds no
    /// token under `github_authentication`.
    pub fn read_token(&self, contents: Option<&str>) -> (result: Result<String, ShranError>)
        ensures
            outcome_view(result) == token_read(self@.gh_token_file, contents),
    {
        match contents {
            None => Err(
                ShranError::CredentialNotFoundError { path: self.gh_token_file.clone() },
            ),
            Some(text) => match read_sections(text) {
                Ok(sections) => self.token_from_sections(&sections),
                Err(_) => Err(ShranError::CredentialReadError { path: self.gh_token_file.clone() }),
            },
        }
    }

    /// The directory that the cache keeps for a blockchain.
    pub fn archive_directory(&self, blockchain_kind: BlockchainKind) -> (directory: String)
        ensures
            directory@ == joined(self@.cache_dir, chain_directory(blockchain_kind)),
    {
        join(self.cache_dir.as_str(), blockchain_kind.directory())
    }

    /// The path at which the archive called `filename` is written.
    pub fn archive_file_path(&self, filename: &str, blockchain_kind: BlockchainKind) -> (path:
        String)
        ensures
            path@ == joined(joined(self@.cache_dir, chain_directory(blockchain_kind)), filename@),
    {
        let directory = self.archive_directory(blockchain_kind);
        join(directory.as_str(), filename)
    }

    /// Decides on storing an archive in the cache directory of its blockchain.
    ///
    /// * `filename` name of the archive file with no path attached
    /// * `file_bytes` the contents of the archive
    /// * `blockchain_kind` the blockchain that the archive belongs to
    /// * `archive_exists` whether a file stands at
    ///   [`FileSystemManager::archive_file_path`] already
    ///
    /// Fails with `AlreadyInstalledError` where the file exists: nothing is
    /// then to be written. Otherwise the result tells what to write, where to
    /// unpack it, and what to remove once it is unpacked.
    pub fn write_and_extract_blockchain_archive(
        &self,
        filename: &str,
        file_bytes: Vec<u8>,
        blockchain_kind: BlockchainKind,
        archive_exists: bool,
    ) -> (result: Result<ArchiveInstall, ShranError>)
        ensures
            outcome_view(result) == store_decision(
                self@.cache_dir,
                blockchain_kind,
                filename@,
                file_bytes@,
                archive_exists,
            ),
    {
        let directory = self.archive_directory(blockchain_kind);
        let archive_path = join(directory.as_str(), filename);
        if archive_exists {
            return Err(ShranError::AlreadyInstalledError { path: archive_path });
        }
        Ok(ArchiveInstall { directory, archive_path, bytes: file_bytes })
    }
}

} // verus!
