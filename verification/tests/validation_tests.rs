//! Tests for the validator: URL checks, conflicting flags, missing
//! values, and soft warnings.

use curl_builder::models::{CurlCommand, CurlOption, HttpMethod};
use curl_builder::validation::{CommandValidator, ValidationResult};

fn command_with_url(url: &str) -> CurlCommand {
    let mut command = CurlCommand::new(url.to_string());
    command.method = Some(HttpMethod::GET);
    command
}

fn option(id: &str, flag: &str, value: Option<&str>) -> CurlOption {
    CurlOption {
        id: id.to_string(),
        flag: flag.to_string(),
        value: value.map(|v| v.to_string()),
        enabled: true,
    }
}

#[test]
fn test_validate_valid_command() {
    let command = command_with_url("https://example.com");
    let result = CommandValidator::validate(&command);
    assert!(matches!(result, ValidationResult::Valid));
}

#[test]
fn test_validate_invalid_url() {
    let command = command_with_url("not a url");
    let result = CommandValidator::validate(&command);
    assert!(matches!(result, ValidationResult::Error(_)));
}

#[test]
fn test_validate_conflicting_options() {
    let mut command = command_with_url("https://example.com");
    command.options.push(option("1", "-s", None));
    command.options.push(option("2", "-v", None));
    let result = CommandValidator::validate(&command);
    assert!(matches!(result, ValidationResult::Error(_)));
}

#[test]
fn test_validate_missing_values() {
    let mut command = command_with_url("https://example.com");
    command.options.push(option("1", "-H", None));
    let result = CommandValidator::validate(&command);
    assert!(matches!(result, ValidationResult::Error(_)));
}

#[test]
fn test_validate_insecure_warning() {
    let mut command = command_with_url("https://example.com");
    command.options.push(option("1", "-k", None));
    let result = CommandValidator::validate(&command);
    assert!(matches!(result, ValidationResult::Warning(_)));
}

#[test]
fn test_validate_empty_url_message() {
    let command = command_with_url("   ");
    let result = CommandValidator::validate(&command);
    assert!(result.has_errors());
    let errors = result.errors();
    assert_eq!(errors[0], "Invalid URL: URL cannot be empty");
}

#[test]
fn test_validate_placeholder_url_passes() {
    let command = command_with_url("{{base}}/path");
    let result = CommandValidator::validate(&command);
    assert!(result.is_valid());
}

#[test]
fn test_validate_missing_value_message() {
    let mut command = command_with_url("https://example.com");
    command.options.push(option("1", "--max-time", Some("  ")));
    let result = CommandValidator::validate(&command);
    let errors = result.errors();
    assert_eq!(errors, vec!["Option --max-time requires a value".to_string()]);
}

#[test]
fn test_validate_long_timeout_warning() {
    let mut command = command_with_url("https://example.com");
    command.options.push(option("1", "--max-time", Some("301")));
    let result = CommandValidator::validate(&command);
    assert!(result.has_warnings());
    let warnings = result.warnings();
    assert_eq!(warnings, vec![
        "Long timeout value (301s) may cause the command to hang".to_string(),
    ]);
}

#[test]
fn test_validate_timeout_at_limit_no_warning() {
    let mut command = command_with_url("https://example.com");
    command.options.push(option("1", "--max-time", Some("300")));
    let result = CommandValidator::validate(&command);
    assert!(result.is_valid());
}

#[test]
fn test_validate_conflict_regardless_of_other_fields() {
    // The silent/verbose conflict is raised whatever else the command
    // holds, even when the URL is itself broken.
    let mut command = command_with_url("not a url");
    command.options.push(option("1", "-s", None));
    command.options.push(option("2", "-v", None));
    let result = CommandValidator::validate(&command);
    assert!(result.has_errors());
    let errors = result.errors();
    assert!(errors.contains(
        &"Conflicting options: -s (silent) and -v (verbose) cannot be used together".to_string()
    ));
}

#[test]
fn test_validate_head_with_body_conflict() {
    let mut command = command_with_url("https://example.com");
    command.options.push(option("1", "-I", None));
    command.body = Some(curl_builder::models::RequestBody::Raw("x".to_string()));
    let result = CommandValidator::validate(&command);
    let errors = result.errors();
    assert_eq!(errors, vec![
        "Conflicting options: -I (head) cannot be used with a request body".to_string(),
    ]);
}
