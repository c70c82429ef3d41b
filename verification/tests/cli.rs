use simls::cli::{validate_platform_request, Cli, CliError, Command};
use simls::platform::{PlatformKind, PlatformRegistry, ToolStatus};

#[test]
fn test_cli_list_command() {
    let cli = Cli::try_parse_from(&["simls", "list"]).unwrap();
    match cli.command {
        Command::List { ios, android } => {
            assert!(!ios);
            assert!(!android);
        }
        _ => panic!("Expected List command"),
    }
}

#[test]
fn test_cli_list_with_ios_flag() {
    let cli = Cli::try_parse_from(&["simls", "list", "--ios"]).unwrap();
    match cli.command {
        Command::List { ios, android } => {
            assert!(ios);
            assert!(!android);
        }
        _ => panic!("Expected List command"),
    }
}

#[test]
fn test_cli_list_with_android_flag() {
    let cli = Cli::try_parse_from(&["simls", "list", "--android"]).unwrap();
    match cli.command {
        Command::List { ios, android } => {
            assert!(!ios);
            assert!(android);
        }
        _ => panic!("Expected List command"),
    }
}

#[test]
fn test_cli_list_with_both_flags() {
    let cli = Cli::try_parse_from(&["simls", "list", "--ios", "--android"]).unwrap();
    match cli.command {
        Command::List { ios, android } => {
            assert!(ios);
            assert!(android);
        }
        _ => panic!("Expected List command"),
    }
}

#[test]
fn test_cli_list_with_short_flags() {
    let cli = Cli::try_parse_from(&["simls", "list", "-i", "-a"]).unwrap();
    match cli.command {
        Command::List { ios, android } => {
            assert!(ios);
            assert!(android);
        }
        _ => panic!("Expected List command"),
    }
}

#[test]
fn test_cli_start_command() {
    let cli = Cli::try_parse_from(&["simls", "start"]).unwrap();
    assert!(matches!(cli.command, Command::Start { .. }));
}

#[test]
fn test_cli_start_with_ios_flag() {
    let cli = Cli::try_parse_from(&["simls", "start", "--ios"]).unwrap();
    match cli.command {
        Command::Start { ios, android } => {
            assert!(ios);
            assert!(!android);
        }
        _ => panic!("Expected Start command"),
    }
}

#[test]
fn test_cli_create_command() {
    let cli = Cli::try_parse_from(&["simls", "create"]).unwrap();
    assert!(matches!(cli.command, Command::Create { .. }));
}

#[test]
fn test_cli_create_with_android_flag() {
    let cli = Cli::try_parse_from(&["simls", "create", "-a"]).unwrap();
    match cli.command {
        Command::Create { ios, android } => {
            assert!(!ios);
            assert!(android);
        }
        _ => panic!("Expected Create command"),
    }
}

#[test]
fn test_cli_delete_command() {
    let cli = Cli::try_parse_from(&["simls", "delete"]).unwrap();
    assert!(matches!(cli.command, Command::Delete { .. }));
}

#[test]
fn test_cli_erase_command() {
    let cli = Cli::try_parse_from(&["simls", "erase"]).unwrap();
    assert!(matches!(cli.command, Command::Erase { .. }));
}

#[test]
fn test_cli_invalid_command() {
    let result = Cli::try_parse_from(&["simls", "invalid"]);
    assert!(result.is_err());
}

#[test]
fn test_cli_no_command() {
    let result = Cli::try_parse_from(&["simls"]);
    assert!(result.is_err());
}

#[test]
fn cli_clustered_and_reordered_flags() {
    for args in [
        vec!["simls", "erase", "-ia"],
        vec!["simls", "erase", "-ai"],
        vec!["simls", "erase", "--android", "--ios"],
        vec!["simls", "erase", "-a", "--ios"],
        vec!["simls", "erase", "--ios", "--android", "--"],
    ] {
        let cli = Cli::try_parse_from(&args).unwrap();
        assert_eq!(cli.command, Command::Erase { ios: true, android: true });
    }
}

#[test]
fn cli_error_kinds() {
    assert_eq!(Cli::try_parse_from(&[]), Err(CliError::MissingSubcommand));
    assert_eq!(Cli::try_parse_from(&["simls"]), Err(CliError::MissingSubcommand));
    assert_eq!(Cli::try_parse_from(&["simls", "help"]), Err(CliError::HelpRequested));
    assert_eq!(Cli::try_parse_from(&["simls", "-h"]), Err(CliError::HelpRequested));
    assert_eq!(Cli::try_parse_from(&["simls", "--help"]), Err(CliError::HelpRequested));
    assert_eq!(Cli::try_parse_from(&["simls", "list", "-ih"]), Err(CliError::HelpRequested));
    assert_eq!(Cli::try_parse_from(&["simls", "stop"]), Err(CliError::UnrecognizedSubcommand));
    assert_eq!(Cli::try_parse_from(&["simls", "--ios", "list"]), Err(CliError::UnexpectedArgument));
    assert_eq!(Cli::try_parse_from(&["simls", "list", "-x"]), Err(CliError::UnexpectedArgument));
    assert_eq!(Cli::try_parse_from(&["simls", "list", "extra"]), Err(CliError::UnexpectedArgument));
    assert_eq!(Cli::try_parse_from(&["simls", "list", "--", "x"]), Err(CliError::UnexpectedArgument));
    assert_eq!(Cli::try_parse_from(&["simls", "list", "--ios=true"]), Err(CliError::UnexpectedArgument));
    assert_eq!(Cli::try_parse_from(&["simls", "list", "-i", "--ios"]), Err(CliError::RepeatedArgument));
    assert_eq!(Cli::try_parse_from(&["simls", "list", "-aa"]), Err(CliError::RepeatedArgument));
}

/// The same grammar built with clap's builder, as the program declares it.
fn clap_command() -> clap::Command {
    let flags = |name: &'static str, about: &'static str| {
        clap::Command::new(name)
            .about(about)
            .arg(clap::Arg::new("ios").short('i').long("ios").action(clap::ArgAction::SetTrue))
            .arg(
                clap::Arg::new("android")
                    .short('a')
                    .long("android")
                    .action(clap::ArgAction::SetTrue),
            )
    };
    clap::Command::new("simls")
        .subcommand_required(true)
        .arg_required_else_help(true)
        .subcommand(flags("list", "list all simulator/emulator"))
        .subcommand(flags("start", "start a simulator/emulator"))
        .subcommand(flags("create", "create a simulator/emulator"))
        .subcommand(flags("delete", "delete a simulator/emulator"))
        .subcommand(flags("erase", "erase all settings and content from a simulator/emulator"))
}

#[test]
fn cli_agrees_with_clap() {
    let words = [
        "list", "start", "create", "delete", "erase", "help", "stop", "-i", "-a", "-ia", "-ai",
        "-ii", "-h", "-x", "--ios", "--android", "--help", "--", "-", "", "--ios=true", "x",
    ];
    let mut cases: Vec<Vec<&str>> = vec![vec![], vec!["simls"]];
    for a in words.iter() {
        cases.push(vec!["simls", a]);
        for b in words.iter() {
            cases.push(vec!["simls", a, b]);
            for c in words.iter() {
                cases.push(vec!["simls", a, b, c]);
            }
        }
    }
    for args in cases {
        let ours = Cli::try_parse_from(&args);
        let theirs = clap_command().try_get_matches_from(args.clone());
        match (&ours, &theirs) {
            (Ok(cli), Ok(m)) => {
                let (name, sub) = m.subcommand().unwrap();
                let ios = sub.get_flag("ios");
                let android = sub.get_flag("android");
                let expected = match name {
                    "list" => Command::List { ios, android },
                    "start" => Command::Start { ios, android },
                    "create" => Command::Create { ios, android },
                    "delete" => Command::Delete { ios, android },
                    _ => Command::Erase { ios, android },
                };
                assert_eq!(cli.command, expected, "{:?}", args);
            }
            (Err(_), Err(_)) => {}
            _ => panic!("disagreement on {:?}: ours {:?}, clap {:?}", args, ours, theirs.is_ok()),
        }
    }
}

#[test]
fn validate_platform_request_messages() {
    let only_ios = PlatformRegistry::detect(&ToolStatus::available(), &ToolStatus::unavailable("no"));
    assert!(validate_platform_request(&Command::List { ios: true, android: false }, &only_ios).is_ok());
    assert!(validate_platform_request(&Command::List { ios: false, android: false }, &only_ios).is_ok());
    assert_eq!(
        validate_platform_request(&Command::Start { ios: false, android: true }, &only_ios),
        Err("Android tools are not available. Make sure Android SDK is installed.".to_string())
    );
    let only_android =
        PlatformRegistry::detect(&ToolStatus::unavailable("no"), &ToolStatus::available());
    assert_eq!(
        validate_platform_request(&Command::Create { ios: true, android: true }, &only_android),
        Err("iOS tools are not available. Make sure Xcode is installed.".to_string())
    );
    assert_eq!(only_android.get(PlatformKind::Android), Some(PlatformKind::Android));
}
