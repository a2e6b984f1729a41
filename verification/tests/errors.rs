use quickstart_lib::errors::{
    cli_error, with_path_context, CommandErrorExt, ErrorReport, SuggestionsExt,
};

#[test]
fn test_with_path_context() {
    let path = "/test/path";
    let err = ErrorReport::msg("Original error");
    let err_with_context = with_path_context(err, path);

    let error_string = err_with_context.message().to_string();
    assert!(
        error_string.contains("Original error"),
        "Error should contain the original message"
    );
    assert_eq!(err_with_context.sections(), &vec!["Path: /test/path".to_string()]);
}

#[test]
fn test_cli_error() {
    let error_message = "Test CLI error";
    let err = cli_error(error_message);

    let error_string = err.message().to_string();
    assert!(
        error_string.contains(error_message),
        "Error should contain the original message"
    );
}

#[test]
fn test_command_error_ext() {
    let success: Result<i32, ErrorReport> = Ok(42);
    let result = success.command_context("test-command");
    assert!(result.is_ok());
    if let Ok(val) = result {
        assert_eq!(val, 42);
    }

    let err: Result<i32, ErrorReport> = Err(ErrorReport::msg("Original error"));
    let result = err.command_context("test-command");
    assert!(result.is_err());

    if let Err(error) = result {
        let error_string = error.message().to_string();
        assert!(
            error_string.contains("Original error"),
            "Error should contain original message"
        );
        assert_eq!(error.sections(), &vec!["Command: test-command".to_string()]);
    }
}

#[test]
fn test_suggestions_ext() {
    let success: Result<i32, ErrorReport> = Ok(42);
    let result = success.suggest(&["Try this", "Or try that"]);
    assert!(result.is_ok());
    if let Ok(val) = result {
        assert_eq!(val, 42);
    }

    let err: Result<i32, ErrorReport> = Err(ErrorReport::msg("Original error"));
    let result = err.suggest(&["Try this", "Or try that"]);
    assert!(result.is_err());

    if let Err(error) = result {
        let error_string = error.message().to_string();
        assert!(
            error_string.contains("Original error"),
            "Error should contain original message"
        );
        assert_eq!(
            error.sections(),
            &vec![
                "Suggestions:".to_string(),
                "- Try this".to_string(),
                "- Or try that".to_string()
            ]
        );
    }

    let err: Result<i32, ErrorReport> = Err(ErrorReport::msg("Original error"));
    let result = err.suggest(&[]);
    assert!(result.is_err());

    if let Err(error) = result {
        let error_string = error.message().to_string();
        assert!(
            error_string.contains("Original error"),
            "Error should contain original message"
        );
        assert!(error.sections().is_empty());
    }
}

#[test]
fn notes_accumulate_in_order() {
    let err: Result<(), ErrorReport> = Err(with_path_context(ErrorReport::msg("boom"), "/a"));
    let err = err.command_context("init").suggest(&["retry"]);
    let report = err.unwrap_err();
    assert_eq!(report.message(), "boom");
    assert_eq!(
        report.sections(),
        &vec![
            "Path: /a".to_string(),
            "Command: init".to_string(),
            "Suggestions:".to_string(),
            "- retry".to_string()
        ]
    );
}
