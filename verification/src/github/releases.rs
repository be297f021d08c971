//! What is kept of a release, where its archive is found, and how the list
//! of tags is put together from the pages in which it arrives.

use crate::config::default::{joined, ShranDefault};
use crate::utils::timestamp::{format_utc, utc_text};
use vstd::prelude::*;
use vstd::string::StringExecFns;

verus! {

/// A release with its texts taken as character sequences.
pub struct GitReleaseView {
    pub name: Seq<char>,
    pub author: Seq<char>,
    pub tag_name: Seq<char>,
    pub release_branch: Seq<char>,
    pub published_at: Option<Seq<char>>,
}

/// What is kept of a release of a github repository: a small part of what
/// github tells of it.
#[derive(Debug)]
pub struct GitRelease {
    pub name: String,
    pub author: String,
    pub tag_name: String,
    pub release_branch: String,
    /// When the release was published; absent where that is not known.
    pub published_at: Option<String>,
}

impl View for GitRelease {
    type V = GitReleaseView;

    open spec fn view(&self) -> GitReleaseView {
        GitReleaseView {
            name: self.name@,
            author: self.author@,
            tag_name: self.tag_name@,
            release_branch: self.release_branch@,
            published_at: match self.published_at {
                Some(text) => Some(text@),
                None => None,
            },
        }
    }
}

/// The name of the archive of the release tagged `tag_name`.
pub open spec fn archive_name_of(tag_name: Seq<char>) -> Seq<char> {
    tag_name + ShranDefault::FILE_EXTENSION@
}

/// The address of the archive of the release tagged `tag_name`.
pub open spec fn archive_url_of(tag_name: Seq<char>) -> Seq<char> {
    joined(ShranDefault::BITCOIN_BASE_URL@, archive_name_of(tag_name))
}

/// The text of a moment given in seconds and nanoseconds, if it is known.
pub open spec fn published_text(published_at: Option<(i64, u32)>) -> Option<Seq<char>> {
    match published_at {
        Some((secs, nanos)) => utc_text(secs, nanos),
        None => None,
    }
}

/// The release that github's account of it gives. A release without a name
/// is called `None`.
pub open spec fn release_of(
    name: Option<Seq<char>>,
    author: Seq<char>,
    tag_name: Seq<char>,
    target_commitish: Seq<char>,
    published_at: Option<Seq<char>>,
) -> GitReleaseView {
    GitReleaseView {
        name: match name {
            Some(name) => name,
            None => "None"@,
        },
        author,
        tag_name,
        release_branch: target_commitish,
        published_at,
    }
}

/// The lines in which a release is shown.
pub open spec fn release_text(release: GitReleaseView) -> Seq<char> {
    "Name: "@ + release.name + "\nAuthor: "@ + release.author + "\nTag: "@ + release.tag_name
        + "\nRelease Branch: "@ + release.release_branch + "\nPublished: "@ + (
    match release.published_at {
        Some(text) => text,
        None => "None"@,
    })
}

impl GitRelease {
    /// The name of the archive of the release tagged `tag_name`.
    pub fn archive_file_name(tag_name: &str) -> (file_name: String)
        ensures
            file_name@ == archive_name_of(tag_name@),
    {
        let mut file_name = String::from_str(tag_name);
        file_name.append(ShranDefault::FILE_EXTENSION);
        file_name
    }

    /// The address from which the archive of the release tagged `tag_name` is
    /// downloaded.
    pub fn archive_url(tag_name: &str) -> (url: String)
        ensures
            url@ == archive_url_of(tag_name@),
    {
        let mut url = String::from_str(ShranDefault::BITCOIN_BASE_URL);
        url.append("/");
        url.append(tag_name);
        url.append(ShranDefault::FILE_EXTENSION);
        assert(url@ =~= archive_url_of(tag_name@));
        url
    }

    /// The release with the given texts.
    pub fn describe(
        name: Option<String>,
        author: String,
        tag_name: String,
        target_commitish: String,
        published_at: Option<String>,
    ) -> (release: Self)
        ensures
            release@ == release_of(
                match name {
                    Some(name) => Some(name@),
                    None => None,
                },
                author@,
                tag_name@,
                target_commitish@,
                match published_at {
                    Some(text) => Some(text@),
                    None => None,
                },
            ),
    {
        let name = match name {
            Some(name) => name,
            None => "None".to_owned(),
        };
        GitRelease { name, author, tag_name, release_branch: target_commitish, published_at }
    }

    /// The release that github's account of it gives.
    ///
    /// * `name` the name of the release, if it has one
    /// * `author` the login of its author
    /// * `tag_name` its tag
    /// * `target_commitish` the branch or commit it was made from
    /// * `published_at` when it was published, in seconds and nanoseconds
    ///   since the start of 1970 in UTC, if that is known
    pub fn from_release(
        name: Option<String>,
        author: String,
        tag_name: String,
        target_commitish: String,
        published_at: Option<(i64, u32)>,
    ) -> (release: Self)
        ensures
            release@ == release_of(
                match name {
                    Some(name) => Some(name@),
                    None => None,
                },
                author@,
                tag_name@,
                target_commitish@,
                published_text(published_at),
            ),
    {
        let published = match published_at {
            Some((secs, nanos)) => format_utc(secs, nanos),
            None => None,
        };
        Self::describe(name, author, tag_name, target_commitish, published)
    }

    /// The lines in which the release is shown.
    pub fn to_text(&self) -> (text: String)
        ensures
            text@ == release_text(self@),
    {
        let mut text = String::from_str("Name: ");
        text.append(self.name.as_str());
        text.append("\nAuthor: ");
        text.append(self.author.as_str());
        text.append("\nTag: ");
        text.append(self.tag_name.as_str());
        text.append("\nRelease Branch: ");
        text.append(self.release_branch.as_str());
        text.append("\nPublished: ");
        match &self.published_at {
            Some(published) => text.append(published.as_str()),
            None => text.append("None"),
        }
        text
    }
}

/// The texts of a list of names.
pub open spec fn names_view(names: Seq<String>) -> Seq<Seq<char>> {
    names.map_values(|name: String| name@)
}

/// Puts the list of tags together from the pages in which github hands it out.
///
/// The names of a page are held back until the page after it arrives, and are
/// then released together with the names of that page. What is still held
/// back when the pages end is not part of the list.
#[derive(Debug)]
pub struct TagCollector {
    page_of_tags: Vec<String>,
    tags: Vec<String>,
}

impl TagCollector {
    /// The names that are held back.
    pub closed spec fn held_back(&self) -> Seq<Seq<char>> {
        names_view(self.page_of_tags@)
    }

    /// The names that are released.
    pub closed spec fn released(&self) -> Seq<Seq<char>> {
        names_view(self.tags@)
    }

    /// Starts with the names of the first page, which are held back.
    pub fn new(first_page: Vec<String>) -> (collector: Self)
        ensures
            collector.held_back() == names_view(first_page@),
            collector.released() == Seq::<Seq<char>>::empty(),
    {
        let collector = TagCollector { page_of_tags: first_page, tags: Vec::new() };
        assert(collector.released() =~= Seq::<Seq<char>>::empty());
        collector
    }

    /// Takes in the names of the page that follows: what was held back is
    /// released, and the names of the page after it.
    pub fn next_page(&mut self, names: Vec<String>)
        ensures
            final(self).released() == old(self).released() + old(self).held_back() + names_view(
                names@,
            ),
            final(self).held_back() == Seq::<Seq<char>>::empty(),
    {
        let ghost arrived = names_view(names@);
        let mut names = names;
        self.tags.append(&mut self.page_of_tags);
        self.tags.append(&mut names);
        assert(self.released() =~= old(self).released() + old(self).held_back() + arrived);
        assert(self.held_back() =~= Seq::<Seq<char>>::empty());
    }

    /// The list of tags: the names that are released.
    pub fn finish(self) -> (tags: Vec<String>)
        ensures
            names_view(tags@) == self.released(),
    {
        self.tags
    }
}

} // verus!
