//! The failures that the crate reports.

use vstd::prelude::*;
use vstd::string::StringExecFns;

verus! {

/// Every failure the crate reports, with the key, name or path it is about.
#[derive(Debug)]
pub enum ShranError {
    /// The command line names a subcommand that is not known.
    UnrecognizedSubcommandError { name: String },
    /// The command line lacks the argument that its subcommand needs.
    MissingArgumentError { name: String },
    /// The build strategy file named on the command line does not exist.
    BuildFileError { path: String },
    /// A build option name that is not part of the catalog.
    UnrecognizedOptionError { name: String },
    /// The credential file is missing.
    CredentialNotFoundError { path: String },
    /// The credential file is there but does not hold a token.
    CredentialReadError { path: String },
    /// An archive of that name is already in the cache.
    AlreadyInstalledError { path: String },
    /// The manifest already has an entry under that key.
    DuplicateEntryError { key: String },
    /// The manifest has no entry under that key.
    EntryNotFoundError { key: String },
    /// A manifest entry read from a file lacks one of its fields.
    IncompleteEntryError { key: String },
    /// A file's contents are not the YAML they should be.
    DeserializeError { reason: String },
    /// A value could not be written as YAML.
    SerializeError { reason: String },
}

/// A failure with its text taken as a character sequence.
pub enum ShranErrorView {
    UnrecognizedSubcommandError { name: Seq<char> },
    MissingArgumentError { name: Seq<char> },
    BuildFileError { path: Seq<char> },
    UnrecognizedOptionError { name: Seq<char> },
    CredentialNotFoundError { path: Seq<char> },
    CredentialReadError { path: Seq<char> },
    AlreadyInstalledError { path: Seq<char> },
    DuplicateEntryError { key: Seq<char> },
    EntryNotFoundError { key: Seq<char> },
    IncompleteEntryError { key: Seq<char> },
    DeserializeError { reason: Seq<char> },
    SerializeError { reason: Seq<char> },
}

impl View for ShranError {
    type V = ShranErrorView;

    open spec fn view(&self) -> ShranErrorView {
        match *self {
            ShranError::UnrecognizedSubcommandError { name } => ShranErrorView::UnrecognizedSubcommandError {
                name: name@,
            },
            ShranError::MissingArgumentError { name } => ShranErrorView::MissingArgumentError {
                name: name@,
            },
            ShranError::BuildFileError { path } => ShranErrorView::BuildFileError { path: path@ },
            ShranError::UnrecognizedOptionError { name } => ShranErrorView::UnrecognizedOptionError {
                name: name@,
            },
            ShranError::CredentialNotFoundError { path } => ShranErrorView::CredentialNotFoundError {
                path: path@,
            },
            ShranError::CredentialReadError { path } => ShranErrorView::CredentialReadError {
                path: path@,
            },
            ShranError::AlreadyInstalledError { path } => ShranErrorView::AlreadyInstalledError {
                path: path@,
            },
            ShranError::DuplicateEntryError { key } => ShranErrorView::DuplicateEntryError {
                key: key@,
            },
            ShranError::EntryNotFoundError { key } => ShranErrorView::EntryNotFoundError {
                key: key@,
            },
            ShranError::IncompleteEntryError { key } => ShranErrorView::IncompleteEntryError {
                key: key@,
            },
            ShranError::DeserializeError { reason } => ShranErrorView::DeserializeError {
                reason: reason@,
            },
            ShranError::SerializeError { reason } => ShranErrorView::SerializeError {
                reason: reason@,
            },
        }
    }
}

impl ShranErrorView {
    /// The text that the failure is about: a key, a name, a path or a reason.
    pub open spec fn subject(self) -> Seq<char> {
        match self {
            ShranErrorView::UnrecognizedSubcommandError { name } => name,
            ShranErrorView::MissingArgumentError { name } => name,
            ShranErrorView::BuildFileError { path } => path,
            ShranErrorView::UnrecognizedOptionError { name } => name,
            ShranErrorView::CredentialNotFoundError { path } => path,
            ShranErrorView::CredentialReadError { path } => path,
            ShranErrorView::AlreadyInstalledError { path } => path,
            ShranErrorView::DuplicateEntryError { key } => key,
            ShranErrorView::EntryNotFoundError { key } => key,
            ShranErrorView::IncompleteEntryError { key } => key,
            ShranErrorView::DeserializeError { reason } => reason,
            ShranErrorView::SerializeError { reason } => reason,
        }
    }

    /// What is said of the subject.
    pub open spec fn complaint(self) -> Seq<char> {
        match self {
            ShranErrorView::UnrecognizedSubcommandError { .. } => " is not a subcommand"@,
            ShranErrorView::MissingArgumentError { .. } => " argument is missing"@,
            ShranErrorView::BuildFileError { .. } => " file does not exist"@,
            ShranErrorView::UnrecognizedOptionError { .. } => " does not match a build option"@,
            ShranErrorView::CredentialNotFoundError { .. } => " not found"@,
            ShranErrorView::CredentialReadError { .. } => " does not hold a token"@,
            ShranErrorView::AlreadyInstalledError { .. } => " already exists"@,
            ShranErrorView::DuplicateEntryError { .. } => " already exists in manifest file"@,
            ShranErrorView::EntryNotFoundError { .. } => " does not exist in manifest file"@,
            ShranErrorView::IncompleteEntryError { .. } => " is not a complete manifest entry"@,
            ShranErrorView::DeserializeError { .. } => " (while reading YAML)"@,
            ShranErrorView::SerializeError { .. } => " (while writing YAML)"@,
        }
    }

    /// The line shown to the operator.
    pub open spec fn message(self) -> Seq<char> {
        "Error: "@ + self.subject() + self.complaint()
    }
}

impl ShranError {
    /// The text that the failure is about: a key, a name, a path or a reason.
    pub fn subject(&self) -> (subject: &str)
        ensures
            subject@ == self@.subject(),
    {
        match self {
            ShranError::UnrecognizedSubcommandError { name } => name.as_str(),
            ShranError::MissingArgumentError { name } => name.as_str(),
            ShranError::BuildFileError { path } => path.as_str(),
            ShranError::UnrecognizedOptionError { name } => name.as_str(),
            ShranError::CredentialNotFoundError { path } => path.as_str(),
            ShranError::CredentialReadError { path } => path.as_str(),
            ShranError::AlreadyInstalledError { path } => path.as_str(),
            ShranError::DuplicateEntryError { key } => key.as_str(),
            ShranError::EntryNotFoundError { key } => key.as_str(),
            ShranError::IncompleteEntryError { key } => key.as_str(),
            ShranError::DeserializeError { reason } => reason.as_str(),
            ShranError::SerializeError { reason } => reason.as_str(),
        }
    }

    /// The line shown to the operator: what failed, and on which key or path.
    pub fn message(&self) -> (text: String)
        ensures
            text@ == self@.message(),
    {
        let complaint = match self {
            ShranError::UnrecognizedSubcommandError { .. } => " is not a subcommand",
            ShranError::MissingArgumentError { .. } => " argument is missing",
            ShranError::BuildFileError { .. } => " file does not exist",
            ShranError::UnrecognizedOptionError { .. } => " does not match a build option",
            ShranError::CredentialNotFoundError { .. } => " not found",
            ShranError::CredentialReadError { .. } => " does not hold a token",
            ShranError::AlreadyInstalledError { .. } => " already exists",
            ShranError::DuplicateEntryError { .. } => " already exists in manifest file",
            ShranError::EntryNotFoundError { .. } => " does not exist in manifest file",
            ShranError::IncompleteEntryError { .. } => " is not a complete manifest entry",
            ShranError::DeserializeError { .. } => " (while reading YAML)",
            ShranError::SerializeError { .. } => " (while writing YAML)",
        };
        let mut text = String::from_str("Error: ");
        text.append(self.subject());
        text.append(complaint);
        text
    }
}

/// A result with its value and its failure taken by their views.
pub open spec fn outcome_view<T: View>(result: Result<T, ShranError>) -> Result<
    T::V,
    ShranErrorView,
> {
    match result {
        Ok(value) => Ok(value@),
        Err(error) => Err(error@),
    }
}

} // verus!
