//! Tests for the state machine: argument splitting, navigation
//! bounds, toggling, the method dropdown's circular motion, and the
//! execution round trip.

use curl_builder::app::{
    App, AppState, BodyField, KeyCode, KeyPress, SelectedField, Tab, UrlField,
};
use curl_builder::executor::{ExecutionResult, MockCommandExecutor};

fn plain(code: KeyCode) -> KeyPress {
    KeyPress { code, ctrl: false }
}

#[test]
fn test_parse_command_args() {
    let args = App::parse_command_args("curl https://example.com");
    assert_eq!(args, vec!["curl", "https://example.com"]);

    let args = App::parse_command_args(
        "curl -X POST -H 'Content-Type: application/json' -d '{\"key\": \"value\"}' https://httpbin.org/post",
    );
    assert_eq!(args, vec![
        "curl",
        "-X",
        "POST",
        "-H",
        "Content-Type: application/json",
        "-d",
        "{\"key\": \"value\"}",
        "https://httpbin.org/post",
    ]);

    let args = App::parse_command_args(
        "curl -H \"Authorization: Bearer token123\" https://api.example.com",
    );
    assert_eq!(args, vec![
        "curl",
        "-H",
        "Authorization: Bearer token123",
        "https://api.example.com",
    ]);

    let args = App::parse_command_args(
        "curl -d '{\"name\": \"John\"}' -H \"Content-Type: application/json\"",
    );
    assert_eq!(args, vec![
        "curl",
        "-d",
        "{\"name\": \"John\"}",
        "-H",
        "Content-Type: application/json",
    ]);
}

#[test]
fn test_round_trip_built_command() {
    // A built command splits back into exactly the argument list that
    // was assembled, quotes removed.
    let mut app = App::default();
    app.current_command.url = "https://example.com".to_string();
    app.current_command.add_header("Content-Type".to_string(), "application/json".to_string());
    let env = curl_builder::models::Environment::new("test".to_string());
    let built = curl_builder::builder::CommandBuilder::build(&app.current_command, &env);
    let args = App::parse_command_args(&built);
    assert_eq!(args, vec![
        "curl",
        "-i",
        "-H",
        "Content-Type: application/json",
        "https://example.com",
    ]);
}

#[test]
fn test_options_navigation_stays_in_bounds() {
    // The default command attaches `-i`; the catalog offers twelve
    // command-line entries, one of which (`-i`) is attached, so the
    // combined list has 1 + 11 rows.
    let mut app = App::default();
    app.ui_state.active_tab = Tab::Options;
    app.ui_state.selected_field = SelectedField::Options(0);
    for _ in 0..40 {
        app.navigate_field_down();
        match app.ui_state.selected_field {
            SelectedField::Options(i) => assert!(i <= 11),
            _ => panic!("selection left the options list"),
        }
    }
    match app.ui_state.selected_field {
        SelectedField::Options(i) => assert_eq!(i, 11),
        _ => unreachable!(),
    }
}

#[test]
fn test_options_navigation_up_at_first_row() {
    let mut app = App::default();
    app.ui_state.selected_field = SelectedField::Options(0);
    app.navigate_field_up();
    assert!(matches!(app.ui_state.selected_field, SelectedField::Options(0)));
}

#[test]
fn test_toggle_header_twice_restores() {
    let mut app = App::default();
    app.current_command.add_header("A".to_string(), "1".to_string());
    app.current_command.add_header("B".to_string(), "2".to_string());
    app.ui_state.selected_field = SelectedField::Headers(0);
    let before: Vec<(String, String, bool)> = app
        .current_command
        .headers
        .iter()
        .map(|h| (h.key.clone(), h.value.clone(), h.enabled))
        .collect();
    app.navigate_field_right();
    assert!(!app.current_command.headers[0].enabled);
    app.navigate_field_right();
    let after: Vec<(String, String, bool)> = app
        .current_command
        .headers
        .iter()
        .map(|h| (h.key.clone(), h.value.clone(), h.enabled))
        .collect();
    assert_eq!(before, after);
}

#[test]
fn test_method_dropdown_wraps_both_ways() {
    let mut app = App::default();
    app.open_method_dropdown();
    assert!(matches!(app.state, AppState::MethodDropdown));
    assert_eq!(app.ui_state.method_dropdown_index, 0);
    app.handle_method_dropdown_key(plain(KeyCode::Up));
    assert_eq!(app.ui_state.method_dropdown_index, 6);
    app.handle_method_dropdown_key(plain(KeyCode::Down));
    assert_eq!(app.ui_state.method_dropdown_index, 0);
}

#[test]
fn test_tab_switch_resets_selection() {
    let mut app = App::default();
    let quit = app.handle_key(plain(KeyCode::Tab));
    assert!(!quit);
    assert!(matches!(app.ui_state.active_tab, Tab::Headers));
    assert!(matches!(app.ui_state.selected_field, SelectedField::Headers(0)));
    app.handle_key(plain(KeyCode::Tab));
    assert!(matches!(app.ui_state.active_tab, Tab::Body));
    assert!(matches!(
        app.ui_state.selected_field,
        SelectedField::Body(BodyField::Content)
    ));
}

#[test]
fn test_left_from_method_enters_templates() {
    let mut app = App::default();
    app.ui_state.selected_field = SelectedField::Url(UrlField::Method);
    app.navigate_field_left();
    assert_eq!(app.ui_state.selected_template, Some(0));
    // Right leaves template selection back to Method.
    app.handle_key(plain(KeyCode::Right));
    assert_eq!(app.ui_state.selected_template, None);
    assert!(matches!(
        app.ui_state.selected_field,
        SelectedField::Url(UrlField::Method)
    ));
}

#[test]
fn test_edit_url_commit_and_cancel() {
    let mut app = App::default();
    app.ui_state.selected_field = SelectedField::Url(UrlField::Url);
    app.handle_key(plain(KeyCode::Enter));
    assert!(matches!(app.state, AppState::Editing(_)));
    app.handle_key(plain(KeyCode::Char('x')));
    app.handle_key(plain(KeyCode::Enter));
    assert!(matches!(app.state, AppState::Normal));
    assert_eq!(app.current_command.url, "https://x");

    app.handle_key(plain(KeyCode::Enter));
    app.handle_key(plain(KeyCode::Char('y')));
    app.handle_key(plain(KeyCode::Esc));
    assert_eq!(app.current_command.url, "https://x");
}

#[test]
fn test_quit_key() {
    let mut app = App::default();
    let quit = app.handle_key(KeyPress { code: KeyCode::Char('q'), ctrl: true });
    assert!(quit);
    assert!(matches!(app.state, AppState::Exiting));
}

#[test]
fn test_add_command_line_option_from_catalog() {
    let mut app = App::default();
    // Row 1 is the first unattached catalog entry (the attached `-i`
    // occupies row 0); sorted by flag, that entry is `--trace`.
    app.ui_state.selected_field = SelectedField::Options(1);
    app.handle_key(plain(KeyCode::Enter));
    assert_eq!(app.current_command.options.len(), 2);
    assert_eq!(app.current_command.options[1].flag, "--trace");
    assert!(app.current_command.options[1].enabled);
    assert!(matches!(app.ui_state.selected_field, SelectedField::Options(1)));
}

#[test]
fn test_remove_option() {
    let mut app = App::default();
    app.current_command.add_option("-v".to_string(), None);
    assert_eq!(app.current_command.options.len(), 2);
    app.ui_state.selected_field = SelectedField::Options(1);
    app.handle_key(plain(KeyCode::Delete));
    assert_eq!(app.current_command.options.len(), 1);
    assert_eq!(app.current_command.options[0].flag, "-i");
    assert!(matches!(app.ui_state.selected_field, SelectedField::Options(0)));
}

#[test]
fn test_execute_without_executor_refuses() {
    let mut app = App::default();
    app.executor = None;
    app.execute_command();
    assert_eq!(app.output, Some("Error: curl executable not found in PATH".to_string()));
    assert!(app.pending_execution.is_none());
}

#[test]
fn test_apply_execution_result_success() {
    let mut app = App::default();
    let result = ExecutionResult {
        command: "curl https://example.com".to_string(),
        exit_code: Some(0),
        stdout: "ok".to_string(),
        stderr: String::new(),
        execution_time_ms: 5,
        error: None,
    };
    app.apply_execution_result(result);
    assert_eq!(app.history.len(), 1);
    let shown = app.output.clone().unwrap();
    assert!(shown.contains("Status: Success (0)"));
    assert!(shown.contains("STDOUT:\nok"));
}

#[test]
fn test_apply_execution_result_failure_message() {
    let mut app = App::default();
    let result = ExecutionResult {
        command: "curl https://nowhere.invalid".to_string(),
        exit_code: Some(6),
        stdout: String::new(),
        stderr: "curl: (6) Could not resolve host".to_string(),
        execution_time_ms: 3,
        error: None,
    };
    app.apply_execution_result(result);
    assert_eq!(app.history.len(), 0);
    let shown = app.output.clone().unwrap();
    assert!(shown.contains("Status: Error (6) - Couldn't resolve host"));
}

#[test]
fn test_mock_executor() {
    let executor = MockCommandExecutor::new();
    let result = executor.execute("curl https://example.com");

    assert_eq!(result.command, "curl https://example.com");
    assert_eq!(result.exit_code, Some(0));
    assert_eq!(result.stdout, "Mock stdout output");
    assert!(result.stderr.is_empty());
    assert!(result.error.is_none());
}

#[test]
fn test_body_editing_saves_with_newlines() {
    let mut app = App::default();
    app.ui_state.active_tab = Tab::Body;
    app.ui_state.selected_field = SelectedField::Body(BodyField::Content);
    app.handle_key(plain(KeyCode::Enter));
    assert!(matches!(app.state, AppState::Editing(_)));
    app.handle_key(plain(KeyCode::Char('a')));
    app.handle_key(plain(KeyCode::Enter));
    app.handle_key(plain(KeyCode::Char('b')));
    app.handle_key(plain(KeyCode::F(2)));
    assert!(matches!(app.state, AppState::Normal));
    match &app.current_command.body {
        Some(curl_builder::models::RequestBody::Raw(text)) => assert_eq!(text, "a\nb"),
        other => panic!("unexpected body: {:?}", other),
    }
}
