//! Tests for the output parser: status-line and header splitting,
//! body extraction, and human-readable formatting.

use curl_builder::executor::ExecutionResult;
use curl_builder::output::{OutputFormat, OutputParser};

#[test]
fn test_parse_status() {
    let output = "HTTP/1.1 200 OK\r\nContent-Type: text/html\r\n\r\n<html></html>";
    let (code, message) = OutputParser::parse_status(output);
    assert_eq!(code, Some(200));
    assert_eq!(message, Some("OK".to_string()));
}

#[test]
fn test_parse_headers_and_body() {
    let output = "HTTP/1.1 200 OK\r\nContent-Type: text/html\r\nContent-Length: 13\r\n\r\n<html></html>";
    let (headers, body) = OutputParser::parse_headers_and_body(output);

    assert_eq!(headers.len(), 2);
    assert_eq!(headers[0].0, "Content-Type");
    assert_eq!(headers[0].1, "text/html");
    assert_eq!(headers[1].0, "Content-Length");
    assert_eq!(headers[1].1, "13");

    assert_eq!(body, "<html></html>");
}

#[test]
fn test_parse_execution_result() {
    let result = ExecutionResult {
        command: "curl https://example.com".to_string(),
        exit_code: Some(0),
        stdout: "HTTP/1.1 200 OK\r\nContent-Type: text/html\r\n\r\n<html></html>".to_string(),
        stderr: String::new(),
        execution_time_ms: 100,
        error: None,
    };

    let info = OutputParser::parse(&result);

    assert_eq!(info.status_code, Some(200));
    assert_eq!(info.status_message, Some("OK".to_string()));
    assert_eq!(info.headers.len(), 1);
    assert_eq!(info.body, "<html></html>");
    assert_eq!(info.size, 13);
    assert_eq!(info.time_ms, 100);
}

#[test]
fn test_format_size() {
    assert_eq!(OutputParser::format_size(100), "100 B");
    assert_eq!(OutputParser::format_size(1500), "1.5 KB");
    assert_eq!(OutputParser::format_size(1500000), "1.4 MB");
    assert_eq!(OutputParser::format_size(1500000000), "1.4 GB");
}

#[test]
fn test_parse_status_absent() {
    let (code, message) = OutputParser::parse_status("no status line here\njust text");
    assert_eq!(code, None);
    assert_eq!(message, None);
}

#[test]
fn test_parse_status_multi_word_message() {
    let (code, message) = OutputParser::parse_status("HTTP/1.1 404 Not Found\r\n\r\n");
    assert_eq!(code, Some(404));
    assert_eq!(message, Some("Not Found".to_string()));
}

#[test]
fn test_format_response_raw() {
    let result = ExecutionResult {
        command: "curl https://example.com".to_string(),
        exit_code: Some(0),
        stdout: "HTTP/1.1 200 OK\r\nContent-Type: text/html\r\n\r\n<html></html>".to_string(),
        stderr: String::new(),
        execution_time_ms: 100,
        error: None,
    };
    let info = OutputParser::parse(&result);
    let raw = OutputParser::format_response(&info, OutputFormat::Raw);
    assert_eq!(raw, "HTTP/1.1 200 OK\nContent-Type: text/html\n\n<html></html>");
}

#[test]
fn test_format_response_formatted() {
    let result = ExecutionResult {
        command: "curl https://example.com".to_string(),
        exit_code: Some(0),
        stdout: "HTTP/1.1 200 OK\r\nContent-Type: text/html\r\n\r\n<html></html>".to_string(),
        stderr: String::new(),
        execution_time_ms: 100,
        error: None,
    };
    let info = OutputParser::parse(&result);
    let formatted = OutputParser::format_response(&info, OutputFormat::Formatted);
    assert_eq!(
        formatted,
        "Status: 200 OK\nTime: 100ms\nSize: 13 B\n\nHeaders:\n  Content-Type: text/html\n\nBody:\n<html></html>"
    );
}
