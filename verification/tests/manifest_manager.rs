use shran::error::ShranError;
use shran::utils::manifest_manager::{ManifestEntry, ManifestManager};
use std::collections::HashMap;

/// The manifest file as it stands once the three versions below are installed.
const THREE_VERSIONS: &str = "---
Bitcoin core v23.0:
  version: v23.0
  published_date: \"2022-04-25 14:17:32 UTC\"
  installation_location: /home/matt/.cache/shran/bitcoin/bitcoin-23.0
Bitcoin core v22.0:
  version: v22.0
  published_date: \"2022-04-25 14:17:32 UTC\"
  installation_location: /home/matt/.cache/shran/bitcoin/bitcoin-22.0
Bitcoin core v21.0:
  version: v21.0
  published_date: \"2022-04-25 14:17:32 UTC\"
  installation_location: /home/matt/.cache/shran/bitcoin/bitcoin-21.0
";

fn entry(version: &str, published_date: &str, installation_location: &str) -> ManifestEntry {
    ManifestEntry::new(
        version.to_string(),
        published_date.to_string(),
        installation_location.to_string(),
    )
}

#[test]
fn test_manifest_manager_1_new() {
    match ManifestManager::new("") {
        Ok(mm) => {
            assert_eq!(mm.len(), 0);
        }
        Err(e) => {
            panic!("{}", e.message());
        }
    }
}

#[test]
fn test_manifest_manager_add_entry() {
    match ManifestManager::new("") {
        Ok(mut mm) => {
            let blck_desc = String::from("Bitcoin core v23.0");
            let entry = ManifestEntry::new(
                "v23.0".to_string(),
                "2022-04-25 14:17:32 UTC".to_string(),
                "/home/matt/.cache/shra/bitcoin/bitcoin-23.0".to_string(),
            );
            if let Err(e) = mm.add_entry(blck_desc, &entry) {
                panic!("{}", e.message());
            } else {
                assert!(true);
            }
        }
        Err(e) => {
            panic!("ManifestManager::new() failed: {}", e.message());
        }
    }
}

#[test]
fn test_manifest_manager_add_multiple_entries() {
    match ManifestManager::new("") {
        Ok(mut mm) => {
            let mut test_entries: HashMap<&str, ManifestEntry> = HashMap::new();
            test_entries.insert(
                "Bitcoin core v23.0",
                ManifestEntry::new(
                    "v23.0".to_string(),
                    "2022-04-25 14:17:32 UTC".to_string(),
                    "/home/matt/.cache/shran/bitcoin/bitcoin-23.0".to_string(),
                ),
            );
            test_entries.insert(
                "Bitcoin core v22.0",
                ManifestEntry::new(
                    "v22.0".to_string(),
                    "2022-04-25 14:17:32 UTC".to_string(),
                    "/home/matt/.cache/shran/bitcoin/bitcoin-22.0".to_string(),
                ),
            );
            test_entries.insert(
                "Bitcoin core v21.0",
                ManifestEntry::new(
                    "v21.0".to_string(),
                    "2022-04-25 14:17:32 UTC".to_string(),
                    "/home/matt/.cache/shran/bitcoin/bitcoin-21.0".to_string(),
                ),
            );
            for (key, value) in &test_entries {
                if let Ok(()) = mm.add_entry(key.to_string(), value) {
                    assert!(true);
                } else {
                    assert!(false, "failed adding entry");
                }
            }
            assert_eq!(test_entries.len(), mm.len());
        }
        Err(e) => {
            panic!("{}", e.message());
        }
    }
}

#[test]
fn test_manifest_manager_get_entry() {
    match ManifestManager::new(THREE_VERSIONS) {
        Ok(mm) => {
            if let Ok(entry) = mm.get_entry("Bitcoin core v21.0".to_string()) {
                assert_eq!(entry.version, "v21.0".to_string());
                assert_eq!(entry.published_date, "2022-04-25 14:17:32 UTC".to_string());
                assert_eq!(
                    entry.installation_location,
                    "/home/matt/.cache/shran/bitcoin/bitcoin-21.0".to_string()
                );
            } else {
                assert!(false, "failed getting entry");
            }
        }
        Err(e) => {
            panic!("{}", e.message());
        }
    }
}

#[test]
fn test_manifest_manager_remove_entry() {
    match ManifestManager::new(THREE_VERSIONS) {
        Ok(mut mm) => match mm.remove_entry("Bitcoin core v21.0".to_string()) {
            Ok(entry) => {
                assert_eq!(entry.version, "v21.0".to_string());
                assert_eq!(entry.published_date, "2022-04-25 14:17:32 UTC".to_string());
                assert_eq!(
                    entry.installation_location,
                    "/home/matt/.cache/shran/bitcoin/bitcoin-21.0".to_string()
                );
            }
            Err(e) => {
                panic!("{}", e.message());
            }
        },
        Err(e) => {
            panic!("{}", e.message());
        }
    }
}

#[test]
fn add_then_get_returns_the_entry() {
    let mut mm = ManifestManager::empty();
    let e = entry("v24.0", "2022-11-25 10:00:00 UTC", "/cache/bitcoin/bitcoin-24.0");
    assert!(mm.add_entry("Bitcoin core v24.0".to_string(), &e).is_ok());
    assert_eq!(mm.get_entry("Bitcoin core v24.0".to_string()).unwrap(), &e);
}

#[test]
fn add_under_a_taken_key_fails_and_keeps_the_entry() {
    let mut mm = ManifestManager::empty();
    let first = entry("v24.0", "2022-11-25 10:00:00 UTC", "/cache/bitcoin/bitcoin-24.0");
    let second = entry("v24.1", "2023-05-18 10:00:00 UTC", "/cache/bitcoin/bitcoin-24.1");
    mm.add_entry("Bitcoin core".to_string(), &first).unwrap();
    match mm.add_entry("Bitcoin core".to_string(), &second) {
        Err(ShranError::DuplicateEntryError { key }) => assert_eq!(key, "Bitcoin core"),
        other => panic!("expected DuplicateEntryError, got {:?}", other),
    }
    assert_eq!(mm.len(), 1);
    assert_eq!(mm.get_entry("Bitcoin core".to_string()).unwrap(), &first);
}

#[test]
fn absent_key_is_not_found() {
    let mut mm = ManifestManager::new(THREE_VERSIONS).unwrap();
    match mm.remove_entry("Bitcoin core v20.0".to_string()) {
        Err(ShranError::EntryNotFoundError { key }) => assert_eq!(key, "Bitcoin core v20.0"),
        other => panic!("expected EntryNotFoundError, got {:?}", other),
    }
    match mm.get_entry("Bitcoin core v20.0".to_string()) {
        Err(ShranError::EntryNotFoundError { key }) => assert_eq!(key, "Bitcoin core v20.0"),
        other => panic!("expected EntryNotFoundError, got {:?}", other),
    }
    assert_eq!(mm.len(), 3);
}

#[test]
fn remove_then_add_with_another_entry_succeeds() {
    let mut mm = ManifestManager::new(THREE_VERSIONS).unwrap();
    let removed = mm.remove_entry("Bitcoin core v22.0".to_string()).unwrap();
    assert_eq!(removed.version, "v22.0");
    assert_eq!(mm.len(), 2);
    let other = entry("v22.1", "2023-01-01 00:00:00 UTC", "/elsewhere/bitcoin-22.1");
    assert!(mm.add_entry("Bitcoin core v22.0".to_string(), &other).is_ok());
    assert_eq!(mm.len(), 3);
    assert_eq!(mm.get_entry("Bitcoin core v22.0".to_string()).unwrap(), &other);
}

#[test]
fn end_to_end_add_get_remove() {
    let mut mm = ManifestManager::empty();
    let e = entry("v23.0", "2022-04-25 14:17:32 UTC", "/cache/bitcoin/bitcoin-23.0");
    mm.add_entry("Bitcoin core v23.0".to_string(), &e).unwrap();
    assert_eq!(mm.len(), 1);
    assert_eq!(mm.get_entry("Bitcoin core v23.0".to_string()).unwrap(), &e);
    assert_eq!(mm.remove_entry("Bitcoin core v23.0".to_string()).unwrap(), e);
    assert_eq!(mm.len(), 0);
}

#[test]
fn yaml_round_trip_reproduces_the_manifest() {
    let mut mm = ManifestManager::empty();
    let a = entry("v23.0", "2022-04-25 14:17:32 UTC", "/cache/bitcoin/bitcoin-23.0");
    let b = entry("v0.21.1", "2021-05-01 09:30:00 UTC", "/cache/bitcoin/bitcoin: 0.21.1 #x");
    mm.add_entry("Bitcoin core v23.0".to_string(), &a).unwrap();
    mm.add_entry("Bitcoin core v0.21.1".to_string(), &b).unwrap();
    let text = mm.to_yaml().unwrap();
    let back = ManifestManager::new(&text).unwrap();
    assert_eq!(back.len(), 2);
    assert_eq!(back.get_entry("Bitcoin core v23.0".to_string()).unwrap(), &a);
    assert_eq!(back.get_entry("Bitcoin core v0.21.1".to_string()).unwrap(), &b);
}

#[test]
fn yaml_text_has_the_fields_in_order() {
    let mut mm = ManifestManager::empty();
    let a = entry("v23.0", "2022-04-25", "/cache/bitcoin/bitcoin-23.0");
    mm.add_entry("Bitcoin core v23.0".to_string(), &a).unwrap();
    assert_eq!(
        mm.to_yaml().unwrap(),
        "---\nBitcoin core v23.0:\n  version: v23.0\n  published_date: 2022-04-25\n  installation_location: /cache/bitcoin/bitcoin-23.0\n"
    );
}

#[test]
fn sections_round_trip() {
    let mm = ManifestManager::new(THREE_VERSIONS).unwrap();
    let sections = mm.to_sections();
    assert_eq!(sections.len(), 3);
    assert_eq!(
        sections[0].1,
        vec![
            ("version".to_string(), "v21.0".to_string()),
            ("published_date".to_string(), "2022-04-25 14:17:32 UTC".to_string()),
            (
                "installation_location".to_string(),
                "/home/matt/.cache/shran/bitcoin/bitcoin-21.0".to_string()
            ),
        ]
    );
    let back = ManifestManager::from_sections(&sections).unwrap();
    assert_eq!(back.to_sections(), sections);
}

#[test]
fn malformed_manifest_is_reported() {
    match ManifestManager::new("Bitcoin core v23.0: [unclosed") {
        Err(ShranError::DeserializeError { .. }) => {}
        other => panic!("expected DeserializeError, got {:?}", other),
    }
    match ManifestManager::new("- just\n- a list\n") {
        Err(ShranError::DeserializeError { .. }) => {}
        other => panic!("expected DeserializeError, got {:?}", other),
    }
}

#[test]
fn entry_without_a_field_is_reported() {
    let text = "Bitcoin core v23.0:\n  version: v23.0\n  published_date: today\n";
    match ManifestManager::new(text) {
        Err(ShranError::IncompleteEntryError { key }) => assert_eq!(key, "Bitcoin core v23.0"),
        other => panic!("expected IncompleteEntryError, got {:?}", other),
    }
}

#[test]
fn sections_with_a_repeated_key_are_reported() {
    let fields = vec![
        ("version".to_string(), "v1".to_string()),
        ("published_date".to_string(), "d".to_string()),
        ("installation_location".to_string(), "l".to_string()),
    ];
    let sections = vec![
        ("a".to_string(), fields.clone()),
        ("b".to_string(), fields.clone()),
        ("a".to_string(), fields.clone()),
    ];
    match ManifestManager::from_sections(&sections) {
        Err(ShranError::DuplicateEntryError { key }) => assert_eq!(key, "a"),
        other => panic!("expected DuplicateEntryError, got {:?}", other),
    }
}

#[test]
fn unknown_fields_are_passed_over() {
    let text = "k:\n  version: v1\n  note: extra\n  published_date: d\n  installation_location: l\n";
    let mm = ManifestManager::new(text).unwrap();
    assert_eq!(mm.get_entry("k".to_string()).unwrap(), &entry("v1", "d", "l"));
}

#[test]
fn error_messages_name_the_key() {
    let mut mm = ManifestManager::empty();
    let err = mm.remove_entry("Bitcoin core v1".to_string()).unwrap_err();
    assert_eq!(err.message(), "Error: Bitcoin core v1 does not exist in manifest file");
    let e = entry("v1", "d", "l");
    mm.add_entry("Bitcoin core v1".to_string(), &e).unwrap();
    let err = mm.add_entry("Bitcoin core v1".to_string(), &e).unwrap_err();
    assert_eq!(err.message(), "Error: Bitcoin core v1 already exists in manifest file");
}
