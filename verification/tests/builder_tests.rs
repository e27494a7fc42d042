//! Tests for the command builder: argument assembly, quoting,
//! wrapping, query-string encoding, and environment-variable
//! substitution.

use curl_builder::builder::CommandBuilder;
use curl_builder::models::{CurlCommand, CurlOption, Header, HttpMethod, QueryParam, RequestBody};
use curl_builder::models::Environment;

fn bare_command(url: &str) -> CurlCommand {
    let mut command = CurlCommand::new(url.to_string());
    command.method = Some(HttpMethod::GET);
    command
}

#[test]
fn test_build_simple_command() {
    let command = bare_command("https://example.com");
    let environment = Environment::new("test".to_string());
    let result = CommandBuilder::build(&command, &environment);
    assert_eq!(result, "curl https://example.com");
}

#[test]
fn test_build_command_with_options() {
    let mut command = bare_command("https://example.com");
    command.options.push(CurlOption {
        id: "1".to_string(),
        flag: "-v".to_string(),
        value: None,
        enabled: true,
    });
    let environment = Environment::new("test".to_string());
    let result = CommandBuilder::build(&command, &environment);
    assert_eq!(result, "curl -v https://example.com");
}

#[test]
fn test_build_command_with_headers() {
    let mut command = bare_command("https://example.com");
    command.headers.push(Header {
        id: "1".to_string(),
        key: "Content-Type".to_string(),
        value: "application/json".to_string(),
        enabled: true,
    });
    let environment = Environment::new("test".to_string());
    let result = CommandBuilder::build(&command, &environment);
    assert_eq!(result, "curl -H \"Content-Type: application/json\" https://example.com");
}

#[test]
fn test_build_command_with_method() {
    let mut command = bare_command("https://example.com");
    command.method = Some(HttpMethod::POST);
    let environment = Environment::new("test".to_string());
    let result = CommandBuilder::build(&command, &environment);
    assert_eq!(result, "curl -X POST https://example.com");
}

#[test]
fn test_build_command_with_query_params() {
    let mut command = bare_command("https://example.com");
    command.query_params.push(QueryParam {
        id: "1".to_string(),
        key: "q".to_string(),
        value: "test query".to_string(),
        enabled: true,
    });
    let environment = Environment::new("test".to_string());
    let result = CommandBuilder::build(&command, &environment);
    assert_eq!(result, "curl https://example.com?q=test%20query");
}

#[test]
fn test_substitute_env_vars() {
    let mut environment = Environment::new("test".to_string());
    environment.add_variable("api_url".to_string(), "https://api.example.com".to_string(), false);
    environment.add_variable("api_key".to_string(), "secret-key".to_string(), true);

    let input = "{{api_url}}/users?key={{api_key}}";
    let result = CommandBuilder::substitute_env_vars(input, &environment);

    assert_eq!(result, "https://api.example.com/users?key=secret-key");
}

#[test]
fn test_substitute_env_vars_with_default() {
    let environment = Environment::new("test".to_string());

    let input = "{{api_url:https://default.example.com}}/users";
    let result = CommandBuilder::substitute_env_vars(input, &environment);

    assert_eq!(result, "https://default.example.com/users");
}

#[test]
fn test_substitute_missing_var_stays_literal() {
    let environment = Environment::new("test".to_string());
    let result = CommandBuilder::substitute_env_vars("{{x}}", &environment);
    assert_eq!(result, "{{x}}");
}

#[test]
fn test_substitute_first_match_wins() {
    let mut environment = Environment::new("test".to_string());
    environment.add_variable("x".to_string(), "first".to_string(), false);
    environment.add_variable("x".to_string(), "second".to_string(), false);
    let result = CommandBuilder::substitute_env_vars("{{x}}", &environment);
    assert_eq!(result, "first");
}

#[test]
fn test_substitute_value_not_rescanned() {
    let mut environment = Environment::new("test".to_string());
    environment.add_variable("a".to_string(), "{{b}}".to_string(), false);
    environment.add_variable("b".to_string(), "deep".to_string(), false);
    let result = CommandBuilder::substitute_env_vars("{{a}}", &environment);
    assert_eq!(result, "{{b}}");
}

#[test]
fn test_build_disabled_entries_skipped() {
    let mut command = bare_command("https://example.com");
    command.options.push(CurlOption {
        id: "1".to_string(),
        flag: "-v".to_string(),
        value: None,
        enabled: false,
    });
    command.headers.push(Header {
        id: "2".to_string(),
        key: "X-Skip".to_string(),
        value: "yes".to_string(),
        enabled: false,
    });
    command.query_params.push(QueryParam {
        id: "3".to_string(),
        key: "q".to_string(),
        value: "x".to_string(),
        enabled: false,
    });
    let environment = Environment::new("test".to_string());
    let result = CommandBuilder::build(&command, &environment);
    assert_eq!(result, "curl https://example.com");
}

#[test]
fn test_build_full_post_scenario() {
    let mut command = bare_command("https://httpbin.org/post");
    command.method = Some(HttpMethod::POST);
    command.headers.push(Header {
        id: "1".to_string(),
        key: "Content-Type".to_string(),
        value: "application/json".to_string(),
        enabled: true,
    });
    command.body = Some(RequestBody::Raw("{\"key\":\"value\"}".to_string()));
    let environment = Environment::new("test".to_string());
    let result = CommandBuilder::build(&command, &environment);
    assert_eq!(
        result,
        "curl -X POST -H \"Content-Type: application/json\" -d {\"key\":\"value\"} \\\n       https://httpbin.org/post"
    );
}

#[test]
fn test_build_empty_raw_body_emits_nothing() {
    let mut command = bare_command("https://example.com");
    command.body = Some(RequestBody::Raw("   \t ".to_string()));
    let environment = Environment::new("test".to_string());
    let result = CommandBuilder::build(&command, &environment);
    assert_eq!(result, "curl https://example.com");
}

#[test]
fn test_build_query_appends_with_ampersand() {
    let mut command = bare_command("https://example.com?a=1");
    command.query_params.push(QueryParam {
        id: "1".to_string(),
        key: "b".to_string(),
        value: "2".to_string(),
        enabled: true,
    });
    let environment = Environment::new("test".to_string());
    let result = CommandBuilder::build(&command, &environment);
    assert_eq!(result, "curl https://example.com?a=1&b=2");
}
