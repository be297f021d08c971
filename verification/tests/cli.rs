use shran::cli::commands::{ActiveCommand, ArgName, Argument, SubCommandName};
use shran::cli::shran_cli::find_argument;
use shran::cli::Cli;
use shran::error::ShranError;

fn flag(name: &str) -> Argument {
    Argument {
        value: None,
        name: name.to_string(),
    }
}

fn valued(name: &str, value: &str) -> Argument {
    Argument {
        value: Some(value.to_string()),
        name: name.to_string(),
    }
}

#[test]
fn auth_takes_the_token() {
    let cli = Cli::new(SubCommandName::AUTH, &vec![valued(ArgName::TOKEN, "ghp_abc")], false)
        .unwrap();
    assert!(cli.subcommand_auth());
    assert!(!cli.subcommand_build());
    assert!(!cli.subcommand_fetch());
    assert!(!cli.subcommand_generate());
    assert_eq!(cli.args().name, "token");
    assert_eq!(cli.args().value, Some("ghp_abc".to_string()));
    assert_eq!(cli.active_command().sub_command(), "auth");
}

#[test]
fn auth_without_a_token_is_an_error() {
    match Cli::new(SubCommandName::AUTH, &vec![], false) {
        Err(ShranError::MissingArgumentError { name }) => assert_eq!(name, "token"),
        other => panic!("expected MissingArgumentError, got {:?}", other),
    }
    match Cli::new(SubCommandName::AUTH, &vec![flag(ArgName::TOKEN)], true) {
        Err(ShranError::MissingArgumentError { name }) => assert_eq!(name, "token"),
        other => panic!("expected MissingArgumentError, got {:?}", other),
    }
}

#[test]
fn build_takes_an_existing_strategy_file() {
    let args = vec![valued(ArgName::STRATEGY, "/tmp/build.yaml")];
    let cli = Cli::new(SubCommandName::BUILD, &args, true).unwrap();
    assert!(cli.subcommand_build());
    assert_eq!(cli.args().name, "strategy");
    assert_eq!(cli.args().value, Some("/tmp/build.yaml".to_string()));
}

#[test]
fn build_with_a_missing_strategy_file_is_an_error() {
    let args = vec![valued(ArgName::STRATEGY, "/tmp/none.yaml")];
    match Cli::new(SubCommandName::BUILD, &args, false) {
        Err(ShranError::BuildFileError { path }) => assert_eq!(path, "/tmp/none.yaml"),
        other => panic!("expected BuildFileError, got {:?}", other),
    }
    match Cli::new(SubCommandName::BUILD, &vec![], false) {
        Err(ShranError::MissingArgumentError { name }) => assert_eq!(name, "strategy"),
        other => panic!("expected MissingArgumentError, got {:?}", other),
    }
}

#[test]
fn fetch_prefers_listing_over_latest_over_tag() {
    let all = vec![
        valued(ArgName::TAG, "v23.0"),
        flag(ArgName::LATEST),
        flag(ArgName::LIST_LOCAL),
        flag(ArgName::LIST_REMOTE),
    ];
    let cli = Cli::new(SubCommandName::FETCH, &all, false).unwrap();
    assert!(cli.subcommand_fetch());
    assert_eq!(cli.args().name, ArgName::LIST_REMOTE);
    assert_eq!(cli.args().value, None);

    let cli = Cli::new(SubCommandName::FETCH, &all[..3].to_vec(), false).unwrap();
    assert_eq!(cli.args().name, ArgName::LIST_LOCAL);

    let cli = Cli::new(SubCommandName::FETCH, &all[..2].to_vec(), false).unwrap();
    assert_eq!(cli.args().name, ArgName::LATEST);
    assert_eq!(cli.args().value, None);

    let cli = Cli::new(SubCommandName::FETCH, &all[..1].to_vec(), false).unwrap();
    assert_eq!(cli.args().name, ArgName::TAG);
    assert_eq!(cli.args().value, Some("v23.0".to_string()));
}

#[test]
fn fetch_without_arguments_is_an_error() {
    match Cli::new(SubCommandName::FETCH, &vec![], false) {
        Err(ShranError::MissingArgumentError { name }) => assert_eq!(name, "tag"),
        other => panic!("expected MissingArgumentError, got {:?}", other),
    }
}

#[test]
fn generate_is_bitcoin_or_else_litecoin() {
    let cli = Cli::new(SubCommandName::GENERATE, &vec![flag(ArgName::BITCOIN)], false).unwrap();
    assert!(cli.subcommand_generate());
    assert_eq!(cli.args().name, "bitcoin");
    let cli = Cli::new(SubCommandName::GENERATE, &vec![flag(ArgName::LITECOIN)], false).unwrap();
    assert_eq!(cli.args().name, "litecoin");
    let cli = Cli::new(SubCommandName::GENERATE, &vec![], false).unwrap();
    assert_eq!(cli.args().name, "litecoin");
    assert_eq!(cli.args().value, None);
}

#[test]
fn unknown_subcommand_is_an_error() {
    match Cli::new("deploy", &vec![flag(ArgName::BITCOIN)], true) {
        Err(ShranError::UnrecognizedSubcommandError { name }) => assert_eq!(name, "deploy"),
        other => panic!("expected UnrecognizedSubcommandError, got {:?}", other),
    }
}

#[test]
fn get_active_command_gives_the_command_of_new() {
    let args = vec![valued(ArgName::TAG, "v22.0")];
    let command = Cli::get_active_command(SubCommandName::FETCH, &args, false).unwrap();
    assert_eq!(command.sub_command(), "fetch");
    assert_eq!(command.arg().name, "tag");
    assert_eq!(command.arg().value, Some("v22.0".to_string()));
}

#[test]
fn find_argument_gives_the_first_of_a_name() {
    let args = vec![
        flag("latest"),
        valued("tag", "v1"),
        valued("tag", "v2"),
    ];
    assert_eq!(find_argument(&args, "tag").unwrap().value, Some("v1".to_string()));
    assert!(find_argument(&args, "latest").is_some());
    assert!(find_argument(&args, "token").is_none());
}

#[test]
fn argument_default_is_empty() {
    let argument: Argument = Default::default();
    assert_eq!(argument.value, None);
    assert_eq!(argument.name, "");
}

#[test]
fn argument_clone_is_equal() {
    let argument = valued("tag", "v1");
    let copy = argument.clone();
    assert_eq!(copy.name, argument.name);
    assert_eq!(copy.value, argument.value);
}

#[test]
fn commands_are_shown_in_lines() {
    assert_eq!(
        valued("tag", "v23.0").to_text(),
        "Argument Name: tag\nValue: v23.0"
    );
    assert_eq!(flag("latest").to_text(), "Argument Name: latest\nValue: None");
    let command = ActiveCommand::new("fetch", valued("tag", "v23.0"));
    assert_eq!(
        command.to_text(),
        "Subcommand Name: fetch\nArgument Name: tag\nValue: v23.0"
    );
    let cli = Cli::new("fetch", &vec![flag("latest")], false).unwrap();
    assert_eq!(
        cli.to_text(),
        "Subcommand Name: fetch\nArgument Name: latest\nValue: None"
    );
}

#[test]
fn names_have_their_values() {
    assert_eq!(SubCommandName::GENERATE, "generate");
    assert_eq!(SubCommandName::BUILD, "build");
    assert_eq!(SubCommandName::AUTH, "auth");
    assert_eq!(SubCommandName::FETCH, "fetch");
    assert_eq!(ArgName::LIST_REMOTE, "list_remote");
    assert_eq!(ArgName::LIST_LOCAL, "list_local");
    assert_eq!(ArgName::STRATEGY, "strategy");
}
