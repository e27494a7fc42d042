//! Tests for the command model, environments, templates, and the
//! option catalog.

use curl_builder::catalog::{CurlOptions, OptionCategory, OptionTier};
use curl_builder::executor::CommandExecutor;
use curl_builder::models::{CurlCommand, Environment, HttpMethod, RequestBody};

#[test]
fn test_add_header_appends_enabled_entry() {
    let mut command = CurlCommand::new("https://example.com".to_string());
    command.add_header("Accept".to_string(), "text/plain".to_string());
    assert_eq!(command.headers.len(), 1);
    assert_eq!(command.headers[0].key, "Accept");
    assert_eq!(command.headers[0].value, "text/plain");
    assert!(command.headers[0].enabled);
    // Entry ids come from the generator of hyphenated identifiers.
    assert_eq!(command.headers[0].id.len(), 36);
}

#[test]
fn test_add_query_param_and_option() {
    let mut command = CurlCommand::new("https://example.com".to_string());
    command.add_query_param("q".to_string(), "1".to_string());
    command.add_option("-v".to_string(), None);
    assert_eq!(command.query_params.len(), 1);
    assert_eq!(command.options.len(), 1);
    assert_eq!(command.options[0].flag, "-v");
}

#[test]
fn test_set_method_and_body() {
    let mut command = CurlCommand::new("https://example.com".to_string());
    command.set_method(HttpMethod::PUT);
    command.set_body(RequestBody::Raw("data".to_string()));
    assert_eq!(command.method, Some(HttpMethod::PUT));
    assert!(matches!(command.body, Some(RequestBody::Raw(_))));
}

#[test]
fn test_environment_variable_lookup_first_match() {
    let mut env = Environment::new("test".to_string());
    env.add_variable("k".to_string(), "v1".to_string(), false);
    env.add_variable("k".to_string(), "v2".to_string(), false);
    assert_eq!(env.get_variable("k"), Some("v1"));
    assert_eq!(env.get_variable("missing"), None);
}

#[test]
fn test_environment_update_variable() {
    let mut env = Environment::new("test".to_string());
    env.add_variable("k".to_string(), "old".to_string(), false);
    assert!(env.update_variable("k", "new".to_string()));
    assert_eq!(env.get_variable("k"), Some("new"));
    assert!(!env.update_variable("absent", "x".to_string()));
}

#[test]
fn test_environment_remove_variable_keeps_order() {
    let mut env = Environment::new("test".to_string());
    env.add_variable("a".to_string(), "1".to_string(), false);
    env.add_variable("b".to_string(), "2".to_string(), false);
    env.add_variable("c".to_string(), "3".to_string(), false);
    assert!(env.remove_variable("b"));
    let keys: Vec<&str> = env.variables.iter().map(|v| v.key.as_str()).collect();
    assert_eq!(keys, vec!["a", "c"]);
    assert!(!env.remove_variable("b"));
}

#[test]
fn test_catalog_lookup() {
    let catalog = CurlOptions::new();
    let d = catalog.get_option("-d").expect("-d is in the catalog");
    assert!(d.takes_value);
    assert_eq!(d.long_flag.as_deref(), Some("--data"));
    let v = catalog.get_option("-v").expect("-v is in the catalog");
    assert!(!v.takes_value);
    assert!(catalog.get_option("--no-such-flag").is_none());
}

#[test]
fn test_catalog_by_category() {
    let catalog = CurlOptions::new();
    let cl = catalog.get_options_by_category(&OptionCategory::CommandLine);
    assert_eq!(cl.len(), 12);
    let basic_tier = catalog.get_options_by_category_and_tier(
        &OptionCategory::Ssl,
        &OptionTier::Expert,
    );
    let flags: Vec<&str> = basic_tier.iter().map(|d| d.flag.as_str()).collect();
    assert_eq!(flags, vec!["--ciphers", "--tls-max"]);
}

#[test]
fn test_catalog_create_option() {
    let catalog = CurlOptions::new();
    let with_value = catalog.create_option("-H").expect("-H is in the catalog");
    assert_eq!(with_value.flag, "-H");
    assert_eq!(with_value.value.as_deref(), Some(""));
    assert!(with_value.enabled);
    let without_value = catalog.create_option("-v").expect("-v is in the catalog");
    assert!(without_value.value.is_none());
    assert!(catalog.create_option("--bogus").is_none());
}

#[test]
fn test_curl_error_messages() {
    assert_eq!(CommandExecutor::get_curl_error_message(6), "Couldn't resolve host");
    assert_eq!(CommandExecutor::get_curl_error_message(28), "Operation timeout");
    assert_eq!(CommandExecutor::get_curl_error_message(1234), "Unknown error");
}

#[test]
fn test_template_snapshot_is_independent() {
    let mut command = CurlCommand::new("https://example.com".to_string());
    command.add_header("A".to_string(), "1".to_string());
    let template = curl_builder::models::CommandTemplate::new("snap".to_string(), command.clone());
    command.add_header("B".to_string(), "2".to_string());
    assert_eq!(template.command.headers.len(), 1);
    assert_eq!(command.headers.len(), 2);
}
