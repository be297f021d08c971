use shran::error::ShranError;
use shran::utils::manifest_manager::ManifestManager;
use shran::utils::nesting::within_nesting_limit;
use shran::utils::sections::{find_first, read_sections, write_sections};
use shran::utils::FileSystemManager;

fn block(depth: usize) -> String {
    let mut text = String::new();
    for i in 0..depth {
        text.push_str(&" ".repeat(i));
        text.push_str("a:\n");
    }
    text
}

fn dashes(depth: usize) -> String {
    let mut text = "- ".repeat(depth);
    text.push('x');
    text
}

fn brackets(depth: usize) -> String {
    let mut text = "[".repeat(depth);
    text.push_str(&"]".repeat(depth));
    text
}

/// A mapping, and under it a sequence at the same column, at each of the
/// first `columns` columns; then `flows` sequences of one pair in each other.
fn deepest(columns: usize, flows: usize) -> String {
    let mut text = String::new();
    for column in 0..columns {
        text.push_str(&" ".repeat(column));
        text.push_str("k:\n");
        text.push_str(&" ".repeat(column));
        text.push_str("-\n");
    }
    text.push_str(&" ".repeat(columns));
    text.push_str("k: ");
    text.push_str(&"[a: ".repeat(flows));
    text.push('b');
    text.push_str(&"]".repeat(flows));
    text.push('\n');
    text
}

#[test]
fn nesting_limit_follows_columns_and_brackets() {
    assert!(within_nesting_limit(""));
    assert!(within_nesting_limit("a:\n  b: c\n"));
    assert!(within_nesting_limit("---\nkey:\n  version: 2022-04-25 - - - - - \n"));
    // a key at column 270 gives 2 * (270 + 1) = 542
    assert!(within_nesting_limit(&format!("{}a: b", " ".repeat(270))));
    assert!(!within_nesting_limit(&format!("{}a: b", " ".repeat(271))));
    assert!(within_nesting_limit(&format!("x{}a: b", " ".repeat(5000))));
    assert!(!within_nesting_limit(&"-".repeat(272)));
    assert!(!within_nesting_limit(&"- ".repeat(136)));
    assert!(!within_nesting_limit(&"?:\t".repeat(91)));
    // the line feed at the end of a line of blanks stands at a column too
    assert!(within_nesting_limit(&format!("{}\n", " ".repeat(270))));
    assert!(!within_nesting_limit(&format!("a\n{}\n", " ".repeat(271))));
    // brackets count twice each, up to 255 of them: 2 * (0 + 1) + 2 * 255 = 512
    assert!(within_nesting_limit(&"[".repeat(100_000)));
    assert!(within_nesting_limit(&"{".repeat(100_000)));
    // with 255 brackets or more, a key may begin at the first sixteen columns
    assert!(within_nesting_limit(&format!("{}a: {}", " ".repeat(15), "[".repeat(255))));
    assert!(!within_nesting_limit(&format!("{}a: {}", " ".repeat(16), "[".repeat(255))));
    assert!(within_nesting_limit(&format!("{}a: {}", " ".repeat(16), "[".repeat(254))));
    assert!(within_nesting_limit(&format!("{}a: {}", " ".repeat(260), "[".repeat(10))));
    assert!(!within_nesting_limit(&format!("{}a: {}", " ".repeat(261), "[".repeat(10))));
}

#[test]
fn columns_go_on_after_a_carriage_return() {
    // after a line feed the column starts anew
    assert!(within_nesting_limit(&" \n".repeat(1000)));
    assert!(within_nesting_limit(&"a:\n".repeat(1000)));
    assert!(within_nesting_limit(&"a:\r\n".repeat(1000)));
    // after a carriage return alone it goes on: the last key is at column 3 * 90
    assert!(within_nesting_limit(&"a:\r".repeat(91)));
    assert!(!within_nesting_limit(&"a:\r".repeat(92)));
    assert!(within_nesting_limit(&format!("{}\r{}k", " ".repeat(135), " ".repeat(134))));
    assert!(!within_nesting_limit(&format!("{}\r{}k", " ".repeat(135), " ".repeat(135))));
    assert!(within_nesting_limit(&format!("{}\r\n{}k", " ".repeat(200), " ".repeat(200))));
}

#[test]
fn keys_after_carriage_returns_are_refused_before_they_are_read() {
    for text in ["a:\r".repeat(5000), "- \r".repeat(5000), "k:\r-\r".repeat(5000)] {
        match read_sections(&text) {
            Err(ShranError::DeserializeError { reason }) => {
                assert_eq!(reason, "the text is nested too deeply")
            }
            other => panic!("expected DeserializeError, got {:?}", other.map(|s| s.len())),
        }
    }
    let nested = read_sections("a:\rb: c\r").unwrap();
    assert_eq!(
        nested,
        vec![("a".to_string(), vec![("b".to_string(), "c".to_string())])]
    );
}

#[test]
fn deeply_nested_text_is_refused_before_it_is_read() {
    for text in [block(1000), block(20_000), dashes(1000), dashes(100_000), deepest(271, 0)] {
        match read_sections(&text) {
            Err(ShranError::DeserializeError { reason }) => {
                assert_eq!(reason, "the text is nested too deeply")
            }
            other => panic!("expected DeserializeError, got {:?}", other.map(|s| s.len())),
        }
        assert!(matches!(
            ManifestManager::new(&text),
            Err(ShranError::DeserializeError { .. })
        ));
        assert!(matches!(
            FileSystemManager::new("/c", "/d").read_token(Some(&text)),
            Err(ShranError::CredentialReadError { .. })
        ));
    }
}

#[test]
fn deepest_nesting_within_the_limit_is_read() {
    let texts = [
        block(270),
        dashes(135),
        brackets(255),
        brackets(100_000),
        deepest(270, 0),
        deepest(15, 255),
        deepest(15, 100_000),
        deepest(143, 127),
    ];
    for text in texts {
        assert!(within_nesting_limit(&text));
        match read_sections(&text) {
            Err(ShranError::DeserializeError { reason }) => {
                assert_ne!(reason, "the text is nested too deeply")
            }
            other => panic!("expected DeserializeError, got {:?}", other.map(|s| s.len())),
        }
    }
}

#[test]
fn large_manifest_is_read() {
    let mut text = String::new();
    for i in 0..2000 {
        text.push_str(&format!(
            "Bitcoin core v{i}.0:\n  version: v{i}.0\n  published_date: \"2022-04-25 14:17:32 UTC\"\n  installation_location: /home/matt/.cache/shran/bitcoin/bitcoin-{i}.0\n"
        ));
    }
    let manifest = ManifestManager::new(&text).unwrap();
    assert_eq!(manifest.len(), 2000);
    assert_eq!(
        manifest.get_entry("Bitcoin core v1999.0".to_string()).unwrap().version,
        "v1999.0"
    );
}

#[test]
fn sections_are_read_in_the_order_of_their_keys() {
    let sections = read_sections("b:\n  y: 2\n  x: '1'\na:\n  z: three\n").unwrap();
    assert_eq!(
        sections,
        vec![
            ("a".to_string(), vec![("z".to_string(), "three".to_string())]),
            (
                "b".to_string(),
                vec![
                    ("x".to_string(), "1".to_string()),
                    ("y".to_string(), "2".to_string())
                ]
            ),
        ]
    );
}

#[test]
fn sections_are_written_in_their_order() {
    let sections = vec![
        (
            "b".to_string(),
            vec![
                ("y".to_string(), "2".to_string()),
                ("x".to_string(), "one".to_string()),
            ],
        ),
        ("a".to_string(), vec![]),
    ];
    assert_eq!(
        write_sections(&sections).unwrap(),
        "---\nb:\n  y: \"2\"\n  x: one\na: {}\n"
    );
    assert_eq!(write_sections(&Vec::new()).unwrap(), "---\n{}\n");
}

#[test]
fn text_that_is_not_sections_is_refused() {
    for text in ["", "just a scalar", "- a\n- b\n", "a: b\n", "a:\n  b:\n    c: d\n", "a: [1, 2"] {
        match read_sections(text) {
            Err(ShranError::DeserializeError { reason }) => assert!(!reason.is_empty()),
            other => panic!("expected DeserializeError for {:?}, got {:?}", text, other),
        }
    }
}

#[test]
fn find_first_gives_the_first_of_a_key() {
    let items = vec![
        ("a".to_string(), "1".to_string()),
        ("b".to_string(), "2".to_string()),
        ("a".to_string(), "3".to_string()),
    ];
    assert_eq!(find_first(&items, "a"), Some(&"1".to_string()));
    assert_eq!(find_first(&items, "b"), Some(&"2".to_string()));
    assert_eq!(find_first(&items, "c"), None);
}

#[test]
fn texts_with_many_brackets_are_written_and_read_back() {
    let mut manifest = ManifestManager::empty();
    let entry = shran::utils::manifest_manager::ManifestEntry::new(
        "v1 {x}".to_string(),
        "[today]".to_string(),
        "/cache/[bitcoin]/{tree}".to_string(),
    );
    for i in 0..300 {
        manifest.add_entry(format!("[key {i}]"), &entry).unwrap();
    }
    let text = manifest.to_yaml().unwrap();
    assert!(within_nesting_limit(&text));
    let back = ManifestManager::new(&text).unwrap();
    assert_eq!(back.len(), 300);
    for i in 0..300 {
        assert_eq!(back.get_entry(format!("[key {i}]")).unwrap(), &entry);
    }

    let files = FileSystemManager::new("/c", "/d");
    let token = "[{".repeat(500);
    let text = files.write_token(token.clone()).unwrap();
    assert_eq!(files.read_token(Some(&text)).unwrap(), token);
}

#[test]
fn texts_that_begin_with_blanks_and_indicators_are_written_and_read_back() {
    let odd = ["- - - - x", "   lead", "?: ?: ?: x", "-\r-\r-\r- x", "\r\r\rx", ": : :", "\t\t- x"];
    let mut manifest = ManifestManager::empty();
    for (i, text) in odd.iter().enumerate() {
        let entry = shran::utils::manifest_manager::ManifestEntry::new(
            text.repeat(100),
            text.to_string(),
            format!("{} {}", i, text.repeat(300)),
        );
        manifest.add_entry(text.repeat(i + 1), &entry).unwrap();
    }
    let text = manifest.to_yaml().unwrap();
    let back = ManifestManager::new(&text).unwrap();
    assert_eq!(back.len(), odd.len());
    assert_eq!(back.to_sections().len(), odd.len());
    for (i, text) in odd.iter().enumerate() {
        let found = back.get_entry(text.repeat(i + 1)).unwrap();
        assert_eq!(found.version, text.repeat(100));
        assert_eq!(found.published_date, *text);
    }
}

#[test]
fn of_a_key_or_a_name_given_twice_the_reader_keeps_the_last() {
    let text = "k:\n  version: v1\n  version: v2\n  published_date: d\n  installation_location: l\nk:\n  version: v3\n  published_date: e\n  installation_location: m\n";
    let sections = read_sections(text).unwrap();
    assert_eq!(sections.len(), 1);
    let manifest = ManifestManager::new(text).unwrap();
    assert_eq!(manifest.len(), 1);
    assert_eq!(manifest.get_entry("k".to_string()).unwrap().version, "v3");
    let text = "k:\n  version: v1\n  version: v2\n  published_date: d\n  installation_location: l\n";
    let manifest = ManifestManager::new(text).unwrap();
    assert_eq!(manifest.get_entry("k".to_string()).unwrap().version, "v2");
}
