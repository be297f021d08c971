use shran::config::default::join;
use shran::config::{ShranDefault, ShranFile};

const HOME: &str = "/home/matt";
const BUILD_DIR: &str = "/home/matt/src/node";

#[test]
fn test_build_dir_buildlog() {
    let expected: String = format!("{}/{}", BUILD_DIR, ShranDefault::BUILD_LOG_FILENAME);
    let config_dir = ShranDefault::config_dir(None, HOME);
    assert_eq!(
        expected,
        ShranDefault::forfile(ShranFile::BitcoinBuildLog, &config_dir, BUILD_DIR)
    )
}

#[test]
fn test_build_dir_buildconfig() {
    let expected: String = format!("{}/{}", BUILD_DIR, ShranDefault::BUILD_CONFIG_FILENAME);
    let config_dir = ShranDefault::config_dir(None, HOME);
    assert_eq!(
        expected,
        ShranDefault::forfile(ShranFile::BitcoinBuildConfig, &config_dir, BUILD_DIR)
    )
}

#[test]
fn test_shran_config_dir() {
    let expected: String = format!("{}/.config/{}", HOME, ShranDefault::PROGNAME);
    assert_eq!(expected, ShranDefault::config_dir(None, HOME));
}

#[test]
fn test_shran_cache_dir() {
    let expected: String = format!("{}/.cache/{}", HOME, ShranDefault::PROGNAME);
    assert_eq!(expected, ShranDefault::cache_dir(HOME));
}

#[test]
fn config_dir_prefers_xdg_config_home() {
    assert_eq!(ShranDefault::config_dir(Some("/etc/xdg"), HOME), "/etc/xdg/shran");
    assert_eq!(ShranDefault::config_dir(None, HOME), "/home/matt/.config/shran");
}

#[test]
fn cache_dir_is_under_home() {
    assert_eq!(ShranDefault::cache_dir("/root"), "/root/.cache/shran");
}

#[test]
fn forfile_places_each_file() {
    let config = "/home/matt/.config/shran";
    assert_eq!(
        ShranDefault::forfile(ShranFile::GhToken, config, BUILD_DIR),
        "/home/matt/.config/shran/gh.yaml"
    );
    assert_eq!(
        ShranDefault::forfile(ShranFile::DownloadManifest, config, BUILD_DIR),
        "/home/matt/.config/shran/manifest.yaml"
    );
    assert_eq!(
        ShranDefault::forfile(ShranFile::BitcoinBuildLog, config, BUILD_DIR),
        "/home/matt/src/node/build.log"
    );
    assert_eq!(
        ShranDefault::forfile(ShranFile::BitcoinBuildConfig, config, BUILD_DIR),
        "/home/matt/src/node/build.yaml"
    );
}

#[test]
fn join_puts_one_slash_between() {
    assert_eq!(join("a", "b"), "a/b");
    assert_eq!(join("", "b"), "/b");
    assert_eq!(join("a/", ""), "a//");
}

#[test]
fn defaults_have_their_values() {
    assert_eq!(ShranDefault::PROGNAME, "shran");
    assert_eq!(ShranDefault::GH_TOKEN_FILENAME, "gh.yaml");
    assert_eq!(ShranDefault::FILE_EXTENSION, ".tar.gz");
    assert_eq!(
        ShranDefault::BITCOIN_BASE_URL,
        "https://github.com/bitcoin/bitcoin/archive/refs/tags"
    );
    assert_eq!(ShranDefault::supported_blockchains(), vec!["bitcoin"]);
}
