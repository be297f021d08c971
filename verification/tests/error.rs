use shran::error::ShranError;

#[test]
fn messages_name_what_failed() {
    let cases = vec![
        (
            ShranError::UnrecognizedSubcommandError { name: "deploy".to_string() },
            "Error: deploy is not a subcommand",
        ),
        (
            ShranError::MissingArgumentError { name: "tag".to_string() },
            "Error: tag argument is missing",
        ),
        (
            ShranError::BuildFileError { path: "build.yaml".to_string() },
            "Error: build.yaml file does not exist",
        ),
        (
            ShranError::UnrecognizedOptionError { name: "walet".to_string() },
            "Error: walet does not match a build option",
        ),
        (
            ShranError::CredentialNotFoundError { path: "/c/gh.yaml".to_string() },
            "Error: /c/gh.yaml not found",
        ),
        (
            ShranError::CredentialReadError { path: "/c/gh.yaml".to_string() },
            "Error: /c/gh.yaml does not hold a token",
        ),
        (
            ShranError::AlreadyInstalledError { path: "/c/v1.tar.gz".to_string() },
            "Error: /c/v1.tar.gz already exists",
        ),
        (
            ShranError::DuplicateEntryError { key: "Bitcoin core v1".to_string() },
            "Error: Bitcoin core v1 already exists in manifest file",
        ),
        (
            ShranError::EntryNotFoundError { key: "Bitcoin core v1".to_string() },
            "Error: Bitcoin core v1 does not exist in manifest file",
        ),
        (
            ShranError::IncompleteEntryError { key: "Bitcoin core v1".to_string() },
            "Error: Bitcoin core v1 is not a complete manifest entry",
        ),
        (
            ShranError::DeserializeError { reason: "EOF".to_string() },
            "Error: EOF (while reading YAML)",
        ),
        (
            ShranError::SerializeError { reason: "fmt".to_string() },
            "Error: fmt (while writing YAML)",
        ),
    ];
    for (error, message) in cases {
        assert_eq!(error.message(), message);
        assert!(message.contains(error.subject()));
    }
}
