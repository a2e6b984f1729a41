use quickstart_lib::args::{
    validate_edition, validate_license, Cli, Commands, CompletionsArgs, InitArgs,
    NewArgs, Shell,
};
use quickstart_lib::errors::CliError;
use quickstart_lib::mode::wizard::CommonArgs;

#[test]
fn test_validate_edition_valid() {
    assert_eq!(validate_edition("2015").unwrap(), "2015");
    assert_eq!(validate_edition("2018").unwrap(), "2018");
    assert_eq!(validate_edition("2021").unwrap(), "2021");
    assert_eq!(validate_edition("2024").unwrap(), "2024");
}

#[test]
fn test_validate_edition_invalid() {
    assert!(validate_edition("2014").is_err());
    assert!(validate_edition("2025").is_err());
    assert!(validate_edition("nonexistent").is_err());
}

#[test]
fn test_validate_license_valid() {
    assert_eq!(validate_license("MIT").unwrap(), "MIT");
    assert_eq!(validate_license("Apache-2.0").unwrap(), "Apache-2.0");
    assert_eq!(
        validate_license("MIT OR Apache-2.0").unwrap(),
        "MIT OR Apache-2.0"
    );
}

#[test]
fn test_validate_license_invalid() {
    assert!(validate_license("GPL").is_err());
    assert!(validate_license("BSD").is_err());
    assert!(validate_license("invalid").is_err());
}

#[test]
fn validation_failures_say_what_is_accepted() {
    assert_eq!(
        validate_edition("").unwrap_err(),
        "Invalid edition: must be one of 2015, 2018, 2021, 2024"
    );
    assert_eq!(
        validate_license("mit").unwrap_err(),
        "Invalid license: must be MIT, Apache-2.0, or MIT OR Apache-2.0"
    );
}

#[test]
fn test_main_error_handling() {
    let err = CliError::Other("Test error".to_string());
    assert!(err.message().contains("Test error"));
}

#[test]
fn test_error_conversion() {
    let err = CliError::Other("Test error".to_string());
    assert_eq!(err.message(), "Error: Test error");

    let err = CliError::CommandError("Test command error".to_string());
    assert_eq!(err.message(), "Command failed: Test command error");
}

#[test]
fn test_command_routing() {
    let new_args = NewArgs {
        name: "test-project".to_string(),
        bin: true,
        lib: false,
        edition: "2021".to_string(),
        license: "MIT".to_string(),
        git: false,
        path: None,
        yes: false,
    };

    let result = match Commands::New(new_args) {
        Commands::New(_) => Ok(()),
        _ => Err(CliError::Other("Wrong command matched".to_string())),
    };
    assert!(result.is_ok());

    let init_args = InitArgs {
        bin: false,
        lib: true,
        name: Some("test-lib".to_string()),
        edition: "2021".to_string(),
        license: "MIT".to_string(),
        git: false,
        path: ".".to_string(),
        yes: false,
    };

    let result = match Commands::Init(init_args) {
        Commands::Init(_) => Ok(()),
        _ => Err(CliError::Other("Wrong command matched".to_string())),
    };
    assert!(result.is_ok());

    let result = match Commands::ListTemplates {
        Commands::ListTemplates => Ok(()),
        _ => Err(CliError::Other("Wrong command matched".to_string())),
    };
    assert!(result.is_ok());
}

#[test]
fn shells_have_their_command_line_names() {
    let shells = [
        (Shell::Bash, "bash"),
        (Shell::Zsh, "zsh"),
        (Shell::Fish, "fish"),
        (Shell::Powershell, "powershell"),
        (Shell::Elvish, "elvish"),
    ];
    for (shell, expected) in shells {
        assert_eq!(shell.name(), expected);
    }
    let cli = Cli {
        command: Commands::Completions(CompletionsArgs { shell: Shell::Zsh, output: None }),
    };
    assert!(matches!(cli.command, Commands::Completions(_)));
}

#[test]
fn common_args_report_the_yes_flag() {
    let new_args = NewArgs {
        name: "p".to_string(),
        bin: false,
        lib: false,
        edition: "2021".to_string(),
        license: "MIT".to_string(),
        git: false,
        path: None,
        yes: true,
    };
    let init_args = InitArgs {
        bin: false,
        lib: false,
        name: None,
        edition: "2021".to_string(),
        license: "MIT".to_string(),
        git: false,
        path: ".".to_string(),
        yes: false,
    };
    assert!(new_args.get_yes());
    assert!(!init_args.get_yes());
}

#[test]
fn every_error_kind_has_its_own_message() {
    assert_eq!(CliError::FileSystemError("x".to_string()).message(), "File system error: x");
    assert_eq!(CliError::ConfigError("x".to_string()).message(), "Configuration error: x");
    assert_eq!(CliError::TemplateError("x".to_string()).message(), "Template error: x");
    assert_eq!(CliError::InquireError("x".to_string()).message(), "Interactive prompt error: x");
    assert_eq!(
        CliError::LibraryError(quickstart_lib::errors::ErrorReport::msg("x")).message(),
        "Library error: x"
    );
}
