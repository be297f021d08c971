//! Names and places of the files the program keeps.
//!
//! Nothing here reads the environment: the directories that a place depends
//! on are handed in by the caller.

use vstd::prelude::*;
use vstd::string::StringExecFns;

verus! {

/// The files the program keeps.
#[derive(Debug, Clone, Copy, PartialEq, Eq, Structural)]
pub enum ShranFile {
    GhToken,
    BitcoinBuildLog,
    BitcoinBuildConfig,
    DownloadManifest,
}

/// `directory` and `name` joined by a slash.
pub open spec fn joined(directory: Seq<char>, name: Seq<char>) -> Seq<char> {
    directory + "/"@ + name
}

/// The configuration directory: `shran` under `$XDG_CONFIG_HOME` where that
/// is set, else under `.config` in the home directory.
pub open spec fn config_dir_of(xdg_config_home: Option<Seq<char>>, home: Seq<char>) -> Seq<char> {
    match xdg_config_home {
        Some(xdg) => joined(xdg, ShranDefault::PROGNAME@),
        None => joined(home + "/.config"@, ShranDefault::PROGNAME@),
    }
}

/// The cache directory: `shran` under `.cache` in the home directory.
pub open spec fn cache_dir_of(home: Seq<char>) -> Seq<char> {
    joined(home + "/.cache"@, ShranDefault::PROGNAME@)
}

/// The name under which a file is kept.
pub open spec fn file_name_of(file: ShranFile) -> Seq<char> {
    match file {
        ShranFile::GhToken => ShranDefault::GH_TOKEN_FILENAME@,
        ShranFile::BitcoinBuildLog => ShranDefault::BUILD_LOG_FILENAME@,
        ShranFile::BitcoinBuildConfig => ShranDefault::BUILD_CONFIG_FILENAME@,
        ShranFile::DownloadManifest => ShranDefault::DOWNLOAD_MANIFEST_FILENAME@,
    }
}

/// The place of a file: the token and the manifest live in the configuration
/// directory, the build log and the build configuration in the build directory.
pub open spec fn place_of(file: ShranFile, config_dir: Seq<char>, build_dir: Seq<char>) -> Seq<
    char,
> {
    match file {
        ShranFile::GhToken | ShranFile::DownloadManifest => joined(config_dir, file_name_of(file)),
        ShranFile::BitcoinBuildLog | ShranFile::BitcoinBuildConfig => joined(
            build_dir,
            file_name_of(file),
        ),
    }
}

/// The names of the blockchains whose sources can be kept in the cache.
pub open spec fn supported_blockchain_names() -> Seq<Seq<char>> {
    seq!["bitcoin"@]
}

/// `directory` and `name` joined by a slash.
pub fn join(directory: &str, name: &str) -> (path: String)
    ensures
        path@ == joined(directory@, name@),
{
    let mut path = String::from_str(directory);
    path.append("/");
    path.append(name);
    path
}

pub struct ShranDefault;

impl ShranDefault {
    pub const PROGNAME: &'static str = "shran";

    pub const GH_TOKEN_FILENAME: &'static str = "gh.yaml";

    pub const BUILD_CONFIG_FILENAME: &'static str = "build.yaml";

    pub const BUILD_LOG_FILENAME: &'static str = "build.log";

    pub const BITCOIN_BASE_URL: &'static str = "https://github.com/bitcoin/bitcoin/archive/refs/tags";

    pub const FILE_EXTENSION: &'static str = ".tar.gz";

    pub const DOWNLOAD_MANIFEST_FILENAME: &'static str = "manifest.yaml";

    /// The blockchains whose sources can be kept in the cache.
    pub fn supported_blockchains() -> (names: Vec<&'static str>)
        ensures
            names@.map_values(|name: &str| name@) == supported_blockchain_names(),
    {
        let mut names: Vec<&'static str> = Vec::new();
        names.push("bitcoin");
        assert(names@.map_values(|name: &str| name@) =~= supported_blockchain_names());
        names
    }

    /// The configuration directory, from the value of `$XDG_CONFIG_HOME`, if
    /// it is set, and the home directory.
    #[inline(always)]
    pub fn config_dir(xdg_config_home: Option<&str>, home: &str) -> (directory: String)
        ensures
            directory@ == config_dir_of(
                match xdg_config_home {
                    Some(xdg) => Some(xdg@),
                    None => None,
                },
                home@,
            ),
    {
        match xdg_config_home {
            Some(xdg) => join(xdg, Self::PROGNAME),
            None => {
                let mut base = String::from_str(home);
                base.append("/.config");
                join(base.as_str(), Self::PROGNAME)
            },
        }
    }

    /// The cache directory, from the home directory.
    #[inline(always)]
    pub fn cache_dir(home: &str) -> (directory: String)
        ensures
            directory@ == cache_dir_of(home@),
    {
        let mut base = String::from_str(home);
        base.append("/.cache");
        join(base.as_str(), Self::PROGNAME)
    }

    /// The place of `file`, given the configuration directory and the
    /// directory in which builds are made.
    #[inline(never)]
    pub fn forfile(file: ShranFile, config_dir: &str, build_dir: &str) -> (path: String)
        ensures
            path@ == place_of(file, config_dir@, build_dir@),
    {
        match file {
            ShranFile::GhToken => join(config_dir, Self::GH_TOKEN_FILENAME),
            ShranFile::BitcoinBuildLog => join(build_dir, Self::BUILD_LOG_FILENAME),
            ShranFile::BitcoinBuildConfig => join(build_dir, Self::BUILD_CONFIG_FILENAME),
            ShranFile::DownloadManifest => join(config_dir, Self::DOWNLOAD_MANIFEST_FILENAME),
        }
    }
}

} // verus!
