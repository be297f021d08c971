use shran::error::ShranError;
use shran::strategies::bitcoin::{BuildOption, BuildOptionName, BuildStrategy, OptionEnabled};
use shran::utils::text_map::TextMap;

#[test]
fn catalog_has_one_option_for_each_name() {
    let strategy = BuildStrategy::new();
    assert_eq!(strategy.build_options().len(), 35);
}

#[test]
fn update_wallet_changes_only_its_state() {
    let fresh = BuildStrategy::new();
    let mut updated = BuildStrategy::new();
    assert!(updated.update_build_option("wallet", OptionEnabled::No).is_ok());
    let wallet = updated.build_options().get("wallet").unwrap();
    assert_eq!(wallet.enabled(), &OptionEnabled::No);
    assert_eq!(wallet.flag(), "--disable-wallet");
    assert_eq!(wallet.description(), "disable wallet (enabled by default)");
    assert_eq!(updated.build_options().len(), fresh.build_options().len());
    let mut i = 0;
    while let Some((name, before)) = fresh.build_options().entry_at(i) {
        let after = updated.build_options().get(name).unwrap();
        assert_eq!(after.flag(), before.flag());
        assert_eq!(after.description(), before.description());
        if name != "wallet" {
            assert_eq!(after.enabled(), before.enabled());
        }
        i += 1;
    }
    assert_eq!(i, 35);
}

#[test]
fn update_of_an_unknown_name_changes_nothing() {
    let fresh = BuildStrategy::new();
    let mut strategy = BuildStrategy::new();
    match strategy.update_build_option("does-not-exist", OptionEnabled::No) {
        Err(ShranError::UnrecognizedOptionError { name }) => assert_eq!(name, "does-not-exist"),
        other => panic!("expected UnrecognizedOptionError, got {:?}", other),
    }
    assert_eq!(strategy.build_options().len(), 35);
    let mut i = 0;
    while let Some((name, before)) = fresh.build_options().entry_at(i) {
        let after = strategy.build_options().get(name).unwrap();
        assert_eq!(after.flag(), before.flag());
        assert_eq!(after.enabled(), before.enabled());
        assert_eq!(after.description(), before.description());
        i += 1;
    }
}

#[test]
fn lookup_by_name() {
    let strategy = BuildStrategy::new();
    let sqlite = strategy.build_option(BuildOptionName::SQLITE).unwrap();
    assert_eq!(sqlite.flag(), "--with-sqlite");
    assert_eq!(sqlite.enabled(), &OptionEnabled::Auto);
    match strategy.build_option("sqlite3") {
        Err(ShranError::UnrecognizedOptionError { name }) => assert_eq!(name, "sqlite3"),
        other => panic!("expected UnrecognizedOptionError, got {:?}", other),
    }
}

#[test]
fn defaults_follow_configure_ac() {
    let strategy = BuildStrategy::new();
    let expect = |name: &str, flag: &str, enabled: OptionEnabled| {
        let option = strategy.build_option(name).unwrap();
        assert_eq!(option.flag(), flag);
        assert_eq!(option.enabled(), &enabled);
    };
    expect(BuildOptionName::WALLET, "--disable-wallet", OptionEnabled::Yes);
    expect(BuildOptionName::BDB, "--without-bdb", OptionEnabled::Auto);
    expect(BuildOptionName::UPNP_DEFAULT, "--enable-upnp-default", OptionEnabled::No);
    expect(BuildOptionName::ZMQ, "--disable-zmq", OptionEnabled::Yes);
    expect(BuildOptionName::MPGEN, "--with-mpgen", OptionEnabled::Auto);
    expect(BuildOptionName::WERROR, "--enable-werror", OptionEnabled::No);
    expect(
        BuildOptionName::EXTERNAL_SIGNER,
        "--enable-external-signer",
        OptionEnabled::Yes,
    );
    assert_eq!(
        strategy
            .build_option(BuildOptionName::EXTERNAL_SIGNER)
            .unwrap()
            .description(),
        "compile external signer support (default is yes, requires Boost::Process)"
    );
}

#[test]
fn auto_is_a_state_of_its_own() {
    let mut strategy = BuildStrategy::new();
    strategy
        .update_build_option(BuildOptionName::TESTS, OptionEnabled::Auto)
        .unwrap();
    let tests = strategy.build_option(BuildOptionName::TESTS).unwrap();
    assert_eq!(tests.enabled(), &OptionEnabled::Auto);
    assert_ne!(tests.enabled(), &OptionEnabled::Yes);
    assert_ne!(tests.enabled(), &OptionEnabled::No);
}

#[test]
fn option_setters_and_getters() {
    let mut option = BuildOption::new("--with-x", OptionEnabled::Auto, "use x");
    assert_eq!(option.flag(), "--with-x");
    assert_eq!(option.description(), "use x");
    option.update_enabled(OptionEnabled::Yes);
    assert_eq!(option.enabled(), &OptionEnabled::Yes);
    assert_eq!(option.flag(), "--with-x");
}

#[test]
fn text_map_keeps_insertion_order_and_replaces_in_place() {
    let mut map: TextMap<u32> = TextMap::new();
    assert_eq!(map.len(), 0);
    assert_eq!(map.insert("b".to_string(), 1), None);
    assert_eq!(map.insert("a".to_string(), 2), None);
    assert_eq!(map.insert("b".to_string(), 3), Some(1));
    assert_eq!(map.len(), 2);
    assert_eq!(map.entry_at(0), Some(("b", &3)));
    assert_eq!(map.entry_at(1), Some(("a", &2)));
    assert_eq!(map.entry_at(2), None);
    assert!(map.contains_key("a"));
    assert!(!map.contains_key("c"));
    assert_eq!(map.get("a"), Some(&2));
    assert_eq!(map.remove("b"), Some(3));
    assert_eq!(map.remove("b"), None);
    assert_eq!(map.len(), 1);
    assert_eq!(map.entry_at(0), Some(("a", &2)));
}

#[test]
fn names_flags_and_descriptions_are_those_of_configure_ac() {
    assert_eq!(BuildOptionName::ZMQ, "zmq");
    let strategy = BuildStrategy::new();
    let zmq = strategy.build_option("zmq").unwrap();
    assert_eq!(zmq.flag(), "--disable-zmq");
    let ebpf = strategy.build_option(BuildOptionName::EBPF).unwrap();
    assert_eq!(ebpf.flag(), "--enable-ebpf");
    let bdb = strategy.build_option(BuildOptionName::BDB).unwrap();
    assert_eq!(
        bdb.description(),
        "disable bdb wallet support (default is enabled if wallet is enabled)"
    );
    let sqlite = strategy.build_option(BuildOptionName::SQLITE).unwrap();
    assert_eq!(
        sqlite.description(),
        "enable sqlite wallet support (default: auto, i.e., enabled if wallet is enabled and sqlite is found)"
    );
}
