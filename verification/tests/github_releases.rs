use shran::github::releases::{GitRelease, TagCollector};

fn names(list: &[&str]) -> Vec<String> {
    list.iter().map(|name| name.to_string()).collect()
}

#[test]
fn archive_name_and_url_follow_the_tag() {
    assert_eq!(GitRelease::archive_file_name("v23.0"), "v23.0.tar.gz");
    assert_eq!(
        GitRelease::archive_url("v23.0"),
        "https://github.com/bitcoin/bitcoin/archive/refs/tags/v23.0.tar.gz"
    );
    assert_eq!(GitRelease::archive_file_name(""), ".tar.gz");
}

#[test]
fn release_keeps_what_github_tells() {
    let release = GitRelease::from_release(
        Some("Bitcoin Core 23.0".to_string()),
        "fanquake".to_string(),
        "v23.0".to_string(),
        "master".to_string(),
        Some((1650896252, 0)),
    );
    assert_eq!(release.name, "Bitcoin Core 23.0");
    assert_eq!(release.author, "fanquake");
    assert_eq!(release.tag_name, "v23.0");
    assert_eq!(release.release_branch, "master");
    assert_eq!(release.published_at, Some("2022-04-25 14:17:32 UTC".to_string()));
}

#[test]
fn release_without_name_or_date() {
    let release = GitRelease::from_release(
        None,
        "laanwj".to_string(),
        "v0.21.0".to_string(),
        "0.21".to_string(),
        None,
    );
    assert_eq!(release.name, "None");
    assert_eq!(release.published_at, None);
    assert_eq!(
        release.to_text(),
        "Name: None\nAuthor: laanwj\nTag: v0.21.0\nRelease Branch: 0.21\nPublished: None"
    );
}

#[test]
fn published_moment_is_written_in_utc() {
    let at = |secs: i64, nanos: u32| {
        let moment = Some((secs, nanos));
        GitRelease::from_release(None, String::new(), String::new(), String::new(), moment)
            .published_at
    };
    assert_eq!(at(0, 0), Some("1970-01-01 00:00:00 UTC".to_string()));
    assert_eq!(at(1431648000, 0), Some("2015-05-15 00:00:00 UTC".to_string()));
    assert_eq!(at(-1, 500_000_000), Some("1969-12-31 23:59:59.500 UTC".to_string()));
    assert_eq!(at(i64::MAX, 0), None);
    assert_eq!(at(i64::MIN, 0), None);
    assert_eq!(at(0, 2_000_000_000), None);
    assert_eq!(at(0, 1_000_000_000), None);
    assert_eq!(at(59, 1_000_000_000), Some("1970-01-01 00:00:60 UTC".to_string()));
    assert_eq!(at(8_210_266_876_799, 0), Some("+262142-12-31 23:59:59 UTC".to_string()));
    assert_eq!(at(8_210_266_876_800, 0), None);
    assert_eq!(at(-8_334_601_228_800, 0), Some("-262143-01-01 00:00:00 UTC".to_string()));
    assert_eq!(at(-8_334_601_228_801, 0), None);
}

#[test]
fn release_is_shown_in_lines() {
    let release = GitRelease::describe(
        Some("Bitcoin Core 23.0".to_string()),
        "fanquake".to_string(),
        "v23.0".to_string(),
        "master".to_string(),
        Some("2022-04-25 14:17:32 UTC".to_string()),
    );
    assert_eq!(
        release.to_text(),
        "Name: Bitcoin Core 23.0\nAuthor: fanquake\nTag: v23.0\nRelease Branch: master\nPublished: 2022-04-25 14:17:32 UTC"
    );
}

#[test]
fn tags_of_several_pages_are_all_released() {
    let mut collector = TagCollector::new(names(&["v23.0", "v22.0"]));
    collector.next_page(names(&["v0.21.1"]));
    collector.next_page(names(&["v0.21.0", "v0.20.1"]));
    assert_eq!(
        collector.finish(),
        names(&["v23.0", "v22.0", "v0.21.1", "v0.21.0", "v0.20.1"])
    );
}

#[test]
fn tags_of_a_single_page_stay_held_back() {
    let collector = TagCollector::new(names(&["v23.0", "v22.0"]));
    assert_eq!(collector.finish(), Vec::<String>::new());
}

#[test]
fn an_empty_following_page_releases_the_first() {
    let mut collector = TagCollector::new(names(&["v23.0"]));
    collector.next_page(Vec::new());
    assert_eq!(collector.finish(), names(&["v23.0"]));
}
