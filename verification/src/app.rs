//! The navigation/editing state machine: what is selected, what is
//! being edited, and how discrete intents mutate the command model.
//! Selection indices are re-checked against current list lengths on
//! every step; a stale index degrades to a no-op, never a panic.

use vstd::prelude::*;

verus! {

use vstd::string::StringExecFns;
use crate::builder::{build_spec, CommandBuilder};
use crate::catalog::{cl_unattached, catalog_table, CurlOptions};
use crate::executor::{curl_error_message_spec, CommandExecutor, ExecutionResult};
use crate::models::{
    cmd_eq, CommandTemplate, CurlCommand, CurlOption, Environment, EnvironmentVariable, Header,
    HttpMethod, QueryParam, RequestBody,
};
use crate::strutil::{
    dec_chars, dec_digits, eq_ignore_case, str_eq_ignore_case, str_eq_str, string_push_char,
    string_pop_char, chars_of, string_from_chars,
};

/// The mode the application is in; exactly one at a time.
#[derive(Clone, Copy, PartialEq, Eq, Structural, Debug)]
pub enum AppState {
    /// Building and executing commands.
    Normal,
    /// Editing a field.
    Editing(EditField),
    /// The method dropdown is open.
    MethodDropdown,
    /// Editing a template name.
    EditingTemplateName,
    /// Editing environment variables.
    EditingEnvironment,
    /// Viewing help.
    Help,
    /// Exiting the application.
    Exiting,
}

/// The field being edited; an index is valid only while the list it
/// points into has at least that many entries.
#[derive(Clone, Copy, PartialEq, Eq, Structural, Debug)]
pub enum EditField {
    /// The URL field.
    Url,
    /// The method field.
    Method,
    /// A header's name.
    HeaderKey(usize),
    /// A header's value.
    HeaderValue(usize),
    /// A query parameter's name.
    QueryParamKey(usize),
    /// A query parameter's value.
    QueryParamValue(usize),
    /// The body content.
    Body,
    /// An attached option's value.
    OptionValue(usize),
}

/// The selected field, tagged by the tab family it belongs to.
#[derive(Clone, Copy, PartialEq, Eq, Structural, Debug)]
pub enum SelectedField {
    /// A field of the URL tab.
    Url(UrlField),
    /// A header row.
    Headers(usize),
    /// A field of the body tab.
    Body(BodyField),
    /// A row of the combined options list.
    Options(usize),
}

/// The fields of the URL tab.
#[derive(Clone, Copy, PartialEq, Eq, Structural, Debug)]
pub enum UrlField {
    /// The URL input.
    Url,
    /// The method selector.
    Method,
    /// A query parameter row.
    QueryParam(usize),
}

/// The fields of the body tab.
#[derive(Clone, Copy, PartialEq, Eq, Structural, Debug)]
pub enum BodyField {
    /// The body type selector; never directly editable.
    Type,
    /// The body content.
    Content,
}

/// The tabs of the editor.
#[derive(Clone, Copy, PartialEq, Eq, Structural, Debug)]
pub enum Tab {
    /// URL and method.
    Url,
    /// Headers.
    Headers,
    /// Body.
    Body,
    /// Command-line options.
    Options,
}

/// Option categories as shown in the options panel.
#[derive(Clone, Copy, PartialEq, Eq, Structural, Debug)]
pub enum OptionCategory {
    /// Basic options.
    Basic,
    /// Request options.
    Request,
    /// Authentication options.
    Authentication,
    /// Connection options.
    Connection,
    /// Header options.
    Header,
    /// SSL/TLS options.
    Ssl,
    /// Proxy options.
    Proxy,
    /// Output options.
    Output,
    /// Command-line options.
    CommandLine,
}

/// A decoded key, independent of any terminal library.
#[derive(Clone, Copy, PartialEq, Eq, Structural, Debug)]
pub enum KeyCode {
    /// A printable character.
    Char(char),
    /// A function key.
    F(u8),
    /// Enter.
    Enter,
    /// Escape.
    Esc,
    /// Backspace.
    Backspace,
    /// Delete.
    Delete,
    /// Arrow up.
    Up,
    /// Arrow down.
    Down,
    /// Arrow left.
    Left,
    /// Arrow right.
    Right,
    /// Tab.
    Tab,
    /// Shift-tab.
    BackTab,
    /// Any other key.
    Other,
}

/// One key press: the key and whether control was held.
#[derive(Clone, Copy, PartialEq, Eq, Structural, Debug)]
pub struct KeyPress {
    /// The key.
    pub code: KeyCode,
    /// Whether control was held.
    pub ctrl: bool,
}

/// Interface state that lives only for the session.
#[derive(Debug)]
pub struct UiState {
    /// The active tab.
    pub active_tab: Tab,
    /// The selected field within the active tab.
    pub selected_field: SelectedField,
    /// The selected template index; when set it takes navigational
    /// precedence over the in-tab selection.
    pub selected_template: Option<usize>,
    /// Whether the templates panel is expanded.
    pub templates_expanded: bool,
    /// Whether the environments panel is expanded.
    pub environments_expanded: bool,
    /// Whether the history panel is expanded.
    pub history_expanded: bool,
    /// The option category shown in the options panel.
    pub selected_option_category: OptionCategory,
    /// Scratch text while a single-line field is edited.
    pub edit_buffer: String,
    /// The highlighted row while the method dropdown is open.
    pub method_dropdown_index: usize,
    /// Cursor visibility for the blinking effect.
    pub cursor_visible: bool,
    /// Counter that slows the cursor blink.
    pub cursor_blink_counter: u8,
    /// Scratch multi-line text while the body is edited.
    pub body_buffer: String,
    /// Scroll offset of the options tab.
    pub options_scroll_offset: usize,
}

/// The application state: the command under construction, saved
/// templates, environments, the last output, and the interface state.
#[derive(Debug)]
pub struct App {
    /// The mode the application is in.
    pub state: AppState,
    /// The command under construction.
    pub current_command: CurlCommand,
    /// Saved templates.
    pub templates: Vec<CommandTemplate>,
    /// Environments; lookup by name takes the first match.
    pub environments: Vec<Environment>,
    /// Name of the current environment.
    pub current_environment: String,
    /// Text shown in the output panel.
    pub output: Option<String>,
    /// The last execution's result.
    pub execution_result: Option<ExecutionResult>,
    /// Commands that executed successfully.
    pub history: Vec<CurlCommand>,
    /// Interface state.
    pub ui_state: UiState,
    /// The located executor, when the external tool was found.
    pub executor: Option<CommandExecutor>,
    /// A command string waiting to be run by the execution
    /// collaborator.
    pub pending_execution: Option<String>,
}

/// The number of rows in the combined options list: attached options,
/// then the catalog's command-line entries not already attached.
pub open spec fn combined_options_len(cmd: CurlCommand) -> int {
    cmd.options@.len() + catalog_table().filter(cl_unattached(cmd.options@)).len() as int
}

/// The tab after a given tab, cycling forward.
pub open spec fn next_tab(t: Tab) -> Tab {
    match t {
        Tab::Url => Tab::Headers,
        Tab::Headers => Tab::Body,
        Tab::Body => Tab::Options,
        Tab::Options => Tab::Url,
    }
}

/// The tab before a given tab, cycling backward.
pub open spec fn prev_tab(t: Tab) -> Tab {
    match t {
        Tab::Url => Tab::Options,
        Tab::Headers => Tab::Url,
        Tab::Body => Tab::Headers,
        Tab::Options => Tab::Body,
    }
}

/// The field selected when a tab is entered.
pub open spec fn tab_first_field(t: Tab) -> SelectedField {
    match t {
        Tab::Url => SelectedField::Url(UrlField::Url),
        Tab::Headers => SelectedField::Headers(0),
        Tab::Body => SelectedField::Body(BodyField::Content),
        Tab::Options => SelectedField::Options(0),
    }
}

/// Where Up moves the selection: one step within the current family,
/// without wrapping; within the URL tab the first query parameter
/// hands over to Method, and Method to the URL input.
pub open spec fn field_up(f: SelectedField) -> SelectedField {
    match f {
        SelectedField::Url(u) => match u {
            UrlField::Url => f,
            UrlField::Method => SelectedField::Url(UrlField::Url),
            UrlField::QueryParam(i) => if i > 0 {
                SelectedField::Url(UrlField::QueryParam((i - 1) as usize))
            } else {
                SelectedField::Url(UrlField::Method)
            },
        },
        SelectedField::Headers(i) => if i > 0 {
            SelectedField::Headers((i - 1) as usize)
        } else {
            f
        },
        SelectedField::Body(b) => match b {
            BodyField::Type => f,
            BodyField::Content => SelectedField::Body(BodyField::Type),
        },
        SelectedField::Options(i) => if i > 0 {
            SelectedField::Options((i - 1) as usize)
        } else {
            f
        },
    }
}

/// Where Down moves the selection: one step within the current
/// family, bounded by the current list lengths, without wrapping.
pub open spec fn field_down(f: SelectedField, cmd: CurlCommand) -> SelectedField {
    match f {
        SelectedField::Url(u) => match u {
            UrlField::Url => SelectedField::Url(UrlField::Method),
            UrlField::Method => if cmd.query_params@.len() > 0 {
                SelectedField::Url(UrlField::QueryParam(0))
            } else {
                f
            },
            UrlField::QueryParam(i) => if cmd.query_params@.len() > 0 && (i as int) + 1
                < cmd.query_params@.len() {
                SelectedField::Url(UrlField::QueryParam((i + 1) as usize))
            } else {
                f
            },
        },
        SelectedField::Headers(i) => if cmd.headers@.len() > 0 && (i as int) + 1
            < cmd.headers@.len() {
            SelectedField::Headers((i + 1) as usize)
        } else {
            f
        },
        SelectedField::Body(b) => match b {
            BodyField::Type => SelectedField::Body(BodyField::Content),
            BodyField::Content => f,
        },
        SelectedField::Options(i) => if (i as int) + 1 < combined_options_len(cmd) && i
            < usize::MAX {
            SelectedField::Options((i + 1) as usize)
        } else {
            f
        },
    }
}

/// Navigating Down from an options row never advances past the end of
/// the combined list, and Up from the first row is a no-op: repeated
/// Down from any in-range row stays in range forever.
pub proof fn lemma_options_navigation_bounds(i: usize, cmd: CurlCommand)
    requires
        (i as int) < combined_options_len(cmd),
    ensures
        field_down(SelectedField::Options(i), cmd) matches SelectedField::Options(j) && (j as int)
            < combined_options_len(cmd),
        field_up(SelectedField::Options(0)) == SelectedField::Options(0),
{
}

/// A header list with the enabled flag of one entry toggled in place;
/// a stale index leaves the list unchanged.
pub open spec fn toggle_header_at(hs: Seq<Header>, i: int) -> Seq<Header> {
    if 0 <= i < hs.len() {
        hs.update(i, (Header { enabled: !hs[i].enabled, ..hs[i] }))
    } else {
        hs
    }
}

/// A query-parameter list with the enabled flag of one entry toggled
/// in place; a stale index leaves the list unchanged.
pub open spec fn toggle_param_at(ps: Seq<QueryParam>, i: int) -> Seq<QueryParam> {
    if 0 <= i < ps.len() {
        ps.update(i, (QueryParam { enabled: !ps[i].enabled, ..ps[i] }))
    } else {
        ps
    }
}

/// An option list with the enabled flag of one entry toggled in
/// place; a stale index leaves the list unchanged.
pub open spec fn toggle_option_at(os: Seq<CurlOption>, i: int) -> Seq<CurlOption> {
    if 0 <= i < os.len() {
        os.update(i, (CurlOption { enabled: !os[i].enabled, ..os[i] }))
    } else {
        os
    }
}

/// Toggling an entry's enabled flag twice returns the list to its
/// original state, ordering included.
pub proof fn lemma_toggle_header_twice(hs: Seq<Header>, i: int)
    ensures
        toggle_header_at(toggle_header_at(hs, i), i) == hs,
{
    if 0 <= i < hs.len() {
        let once = toggle_header_at(hs, i);
        assert(once[i] == (Header { enabled: !hs[i].enabled, ..hs[i] }));
        assert(toggle_header_at(once, i)[i] == hs[i]);
        assert(toggle_header_at(once, i) =~= hs);
    }
}

/// The fixed method list shown by the dropdown, by index; seven rows.
pub open spec fn dropdown_method(i: int) -> HttpMethod {
    if i == 1 {
        HttpMethod::POST
    } else if i == 2 {
        HttpMethod::PUT
    } else if i == 3 {
        HttpMethod::DELETE
    } else if i == 4 {
        HttpMethod::PATCH
    } else if i == 5 {
        HttpMethod::HEAD
    } else if i == 6 {
        HttpMethod::OPTIONS
    } else {
        HttpMethod::GET
    }
}

/// The dropdown row of a method, defaulting to the first row for the
/// methods the dropdown does not offer.
pub open spec fn dropdown_index_of(m: HttpMethod) -> int {
    match m {
        HttpMethod::POST => 1,
        HttpMethod::PUT => 2,
        HttpMethod::DELETE => 3,
        HttpMethod::PATCH => 4,
        HttpMethod::HEAD => 5,
        HttpMethod::OPTIONS => 6,
        _ => 0,
    }
}

/// How free-typed method text parses: case-insensitive match against
/// the seven dropdown methods, anything else defaulting to GET.
pub open spec fn method_from_text(t: Seq<char>) -> HttpMethod {
    if eq_ignore_case(t, "GET"@) {
        HttpMethod::GET
    } else if eq_ignore_case(t, "POST"@) {
        HttpMethod::POST
    } else if eq_ignore_case(t, "PUT"@) {
        HttpMethod::PUT
    } else if eq_ignore_case(t, "DELETE"@) {
        HttpMethod::DELETE
    } else if eq_ignore_case(t, "PATCH"@) {
        HttpMethod::PATCH
    } else if eq_ignore_case(t, "HEAD"@) {
        HttpMethod::HEAD
    } else if eq_ignore_case(t, "OPTIONS"@) {
        HttpMethod::OPTIONS
    } else {
        HttpMethod::GET
    }
}

/// First environment whose name matches, if any.
pub open spec fn env_lookup(envs: Seq<Environment>, name: Seq<char>) -> Option<Environment>
    decreases envs.len(),
{
    if envs.len() == 0 {
        Option::None
    } else if envs[0].name@ == name {
        Option::Some(envs[0])
    } else {
        env_lookup(envs.skip(1), name)
    }
}

/// The variables substitution will use: those of the current
/// environment, or none when it is missing.
pub open spec fn current_vars(app: App) -> Seq<EnvironmentVariable> {
    match env_lookup(app.environments@, app.current_environment@) {
        Option::Some(e) => e.variables@,
        Option::None => Seq::empty(),
    }
}

/// If no environment before `i` matches, the rest decides.
proof fn lemma_env_lookup_skip(envs: Seq<Environment>, name: Seq<char>, i: int)
    requires
        0 <= i <= envs.len(),
        forall|j: int| 0 <= j < i ==> envs[j].name@ != name,
    ensures
        env_lookup(envs, name) == env_lookup(envs.skip(i), name),
    decreases i,
{
    if i > 0 {
        assert forall|j: int| 0 <= j < i - 1 implies envs.skip(1)[j].name@ != name by {
            assert(envs.skip(1)[j] == envs[j + 1]);
        }
        lemma_env_lookup_skip(envs.skip(1), name, i - 1);
        assert(envs.skip(1).skip(i - 1) =~= envs.skip(i));
    } else {
        assert(envs.skip(0) =~= envs);
    }
}

/// Parse free-typed method text, case-insensitively, defaulting to
/// GET.
fn parse_method_text(s: &str) -> (m: HttpMethod)
    ensures
        m == method_from_text(s@),
{
    if str_eq_ignore_case(s, "GET") {
        HttpMethod::GET
    } else if str_eq_ignore_case(s, "POST") {
        HttpMethod::POST
    } else if str_eq_ignore_case(s, "PUT") {
        HttpMethod::PUT
    } else if str_eq_ignore_case(s, "DELETE") {
        HttpMethod::DELETE
    } else if str_eq_ignore_case(s, "PATCH") {
        HttpMethod::PATCH
    } else if str_eq_ignore_case(s, "HEAD") {
        HttpMethod::HEAD
    } else if str_eq_ignore_case(s, "OPTIONS") {
        HttpMethod::OPTIONS
    } else {
        HttpMethod::GET
    }
}

impl Default for App {
    /// A fresh session: normal mode, a default command with `-i`
    /// attached, no templates or environments, and the URL field
    /// selected.
    fn default() -> (r: Self)
        ensures
            r.state is Normal,
            r.current_command.url@ == "https://"@,
            r.current_command.method == Some(HttpMethod::GET),
            r.current_command.headers@.len() == 0,
            r.current_command.query_params@.len() == 0,
            r.current_command.body is None,
            r.current_command.options@.len() == 1,
            r.current_command.options@[0].flag@ == "-i"@,
            r.current_command.options@[0].value is None,
            r.current_command.options@[0].enabled,
            r.templates@.len() == 0,
            r.environments@.len() == 0,
            r.current_environment@ == "default"@,
            r.output is None,
            r.execution_result is None,
            r.history@.len() == 0,
            r.ui_state.active_tab == Tab::Url,
            r.ui_state.selected_field == SelectedField::Url(UrlField::Url),
            r.ui_state.selected_template is None,
            r.ui_state.templates_expanded,
            r.ui_state.environments_expanded,
            !r.ui_state.history_expanded,
            r.ui_state.selected_option_category == OptionCategory::CommandLine,
            r.ui_state.edit_buffer@.len() == 0,
            r.ui_state.method_dropdown_index == 0,
            r.ui_state.cursor_visible,
            r.ui_state.cursor_blink_counter == 0,
            r.ui_state.body_buffer@.len() == 0,
            r.ui_state.options_scroll_offset == 0,
            r.executor is None,
            r.pending_execution is None,
    {
        let mut default_command = CurlCommand::default();
        default_command.add_option(String::from_str("-i"), None);
        App {
            state: AppState::Normal,
            current_command: default_command,
            templates: Vec::new(),
            environments: Vec::new(),
            current_environment: String::from_str("default"),
            output: None,
            execution_result: None,
            history: Vec::new(),
            ui_state: UiState {
                active_tab: Tab::Url,
                selected_field: SelectedField::Url(UrlField::Url),
                selected_template: None,
                templates_expanded: true,
                environments_expanded: true,
                history_expanded: false,
                selected_option_category: OptionCategory::CommandLine,
                edit_buffer: String::new(),
                method_dropdown_index: 0,
                cursor_visible: true,
                cursor_blink_counter: 0,
                body_buffer: String::new(),
                options_scroll_offset: 0,
            },
            executor: None,
            pending_execution: None,
        }
    }
}

impl App {
    /// A fresh session with the default environment, the located
    /// executor when the external tool is present, and two sample
    /// templates.
    pub fn new() -> (r: Self)
        ensures
            r.state is Normal,
            r.environments@.len() == 1,
            r.environments@[0].name@ == "Default"@,
            r.environments@[0].variables@.len() == 0,
            r.current_environment@ == "default"@,
            r.templates@.len() == 2,
            r.templates@[0].name@ == "GET Example"@,
            r.templates@[1].name@ == "POST JSON"@,
            r.history@.len() == 0,
            r.pending_execution is None,
    {
        let mut environments: Vec<Environment> = Vec::new();
        let mut default_env = Environment::new(String::from_str("Default"));
        default_env.id = String::from_str("env_default");
        environments.push(default_env);

        let executor = match CommandExecutor::new() {
            Ok(e) => Some(e),
            Err(_) => None,
        };

        let mut templates: Vec<CommandTemplate> = Vec::new();

        let mut get_command = CurlCommand::default();
        get_command.name = String::from_str("GET Example");
        get_command.url = String::from_str("https://httpbin.org/get");
        get_command.method = Some(HttpMethod::GET);
        get_command.add_option(String::from_str("-i"), None);
        let mut get_template = CommandTemplate::new(String::from_str("GET Example"), get_command);
        get_template.set_description(String::from_str("Simple GET request"));
        get_template.set_category(String::from_str("Examples"));
        templates.push(get_template);

        let mut post_command = CurlCommand::default();
        post_command.name = String::from_str("POST JSON");
        post_command.url = String::from_str("https://httpbin.org/post");
        post_command.method = Some(HttpMethod::POST);
        post_command.add_header(
            String::from_str("Content-Type"),
            String::from_str("application/json"),
        );
        post_command.body = Some(RequestBody::Raw(String::from_str("{\"key\": \"value\"}")));
        post_command.add_option(String::from_str("-i"), None);
        let mut post_template = CommandTemplate::new(String::from_str("POST JSON"), post_command);
        post_template.set_description(String::from_str("POST with JSON body"));
        post_template.set_category(String::from_str("Examples"));
        templates.push(post_template);

        let mut app = App::default();
        app.environments = environments;
        app.executor = executor;
        app.templates = templates;
        app
    }

    /// Update hook for derived command state; the command model is
    /// mutated directly by the intent handlers, so nothing is left to
    /// recompute here.
    pub fn update_command(&mut self)
        ensures
            *final(self) == *old(self),
    {
    }

    /// Advance the cursor blink: every sixth tick flips visibility.
    pub fn toggle_cursor(&mut self)
        ensures
            final(self).ui_state.cursor_blink_counter == (old(self).ui_state.cursor_blink_counter as int + 1) % 6,
            final(self).ui_state.cursor_visible == if (old(self).ui_state.cursor_blink_counter as int + 1) % 6 == 0 {
                !old(self).ui_state.cursor_visible
            } else {
                old(self).ui_state.cursor_visible
            },
            final(self).ui_state == (UiState {
                cursor_blink_counter: final(self).ui_state.cursor_blink_counter,
                cursor_visible: final(self).ui_state.cursor_visible,
                ..old(self).ui_state
            }),
            *final(self) == (App { ui_state: final(self).ui_state, ..*old(self) }),
    {
        self.ui_state.cursor_blink_counter = ((self.ui_state.cursor_blink_counter as u32 + 1)
            % 6) as u8;
        if self.ui_state.cursor_blink_counter == 0 {
            self.ui_state.cursor_visible = !self.ui_state.cursor_visible;
        }
    }

    /// Save the current command as a template under the given name.
    pub fn save_template(&mut self, name: String)
        ensures
            final(self).templates@.len() == old(self).templates@.len() + 1,
            forall|i: int|
                0 <= i < old(self).templates@.len() ==> final(self).templates@[i] == old(self).templates@[i],
            final(self).templates@.last().name == name,
            cmd_eq(final(self).templates@.last().command, old(self).current_command),
            final(self).templates@.last().description is None,
            final(self).templates@.last().category is None,
            *final(self) == (App { templates: final(self).templates, ..*old(self) }),
    {
        let template = CommandTemplate::new(name, self.current_command.clone());
        self.templates.push(template);
    }

    /// Load a template: replace the current command with a copy of
    /// the template's command; a stale index is a no-op.
    pub fn load_template(&mut self, index: usize)
        ensures
            index < old(self).templates@.len() ==> cmd_eq(
                final(self).current_command,
                old(self).templates@[index as int].command,
            ),
            index >= old(self).templates@.len() ==> final(self).current_command == old(self).current_command,
            *final(self) == (App { current_command: final(self).current_command, ..*old(self) }),
    {
        if index < self.templates.len() {
            self.current_command = self.templates[index].command.clone();
        }
    }

    /// Move the template selection up by one, stopping at the first
    /// entry.
    pub fn navigate_template_up(&mut self)
        ensures
            final(self).ui_state.selected_template == (match old(self).ui_state.selected_template {
                Option::Some(t) => if t > 0 {
                    Option::Some((t - 1) as usize)
                } else {
                    Option::Some(t)
                },
                Option::None => Option::None::<usize>,
            }),
            final(self).ui_state == (UiState {
                selected_template: final(self).ui_state.selected_template,
                ..old(self).ui_state
            }),
            *final(self) == (App { ui_state: final(self).ui_state, ..*old(self) }),
    {
        match self.ui_state.selected_template {
            Some(current_idx) => {
                if current_idx > 0 {
                    self.ui_state.selected_template = Some(current_idx - 1);
                }
            },
            None => {},
        }
    }

    /// Move the template selection down by one, stopping at the last
    /// entry; with no templates the selection stays at the first row.
    pub fn navigate_template_down(&mut self)
        ensures
            final(self).ui_state.selected_template == (match old(self).ui_state.selected_template {
                Option::Some(t) => if (t as int) + 1 < old(self).templates@.len() {
                    Option::Some((t + 1) as usize)
                } else {
                    Option::Some(t)
                },
                Option::None => Option::None::<usize>,
            }),
            final(self).ui_state == (UiState {
                selected_template: final(self).ui_state.selected_template,
                ..old(self).ui_state
            }),
            *final(self) == (App { ui_state: final(self).ui_state, ..*old(self) }),
    {
        match self.ui_state.selected_template {
            Some(current_idx) => {
                if current_idx < self.templates.len() && self.templates.len() - current_idx > 1 {
                    self.ui_state.selected_template = Some(current_idx + 1);
                }
            },
            None => {},
        }
    }

    /// Move the field selection up one step; at an options row the
    /// scroll offset follows the selection.
    pub fn navigate_field_up(&mut self)
        ensures
            final(self).ui_state.selected_field == field_up(old(self).ui_state.selected_field),
            final(self).ui_state.options_scroll_offset == (match old(self).ui_state.selected_field {
                SelectedField::Options(i) => if i > 0 && i <= old(self).ui_state.options_scroll_offset {
                    if old(self).ui_state.options_scroll_offset > 0 {
                        (old(self).ui_state.options_scroll_offset - 1) as usize
                    } else {
                        0
                    }
                } else {
                    old(self).ui_state.options_scroll_offset
                },
                _ => old(self).ui_state.options_scroll_offset,
            }),
            final(self).ui_state == (UiState {
                selected_field: final(self).ui_state.selected_field,
                options_scroll_offset: final(self).ui_state.options_scroll_offset,
                ..old(self).ui_state
            }),
            *final(self) == (App { ui_state: final(self).ui_state, ..*old(self) }),
    {
        let current_field = self.ui_state.selected_field;
        match current_field {
            SelectedField::Url(field) => match field {
                UrlField::Url => {},
                UrlField::Method => {
                    self.ui_state.selected_field = SelectedField::Url(UrlField::Url);
                },
                UrlField::QueryParam(idx) => {
                    if idx > 0 {
                        self.ui_state.selected_field = SelectedField::Url(
                            UrlField::QueryParam(idx - 1),
                        );
                    } else {
                        self.ui_state.selected_field = SelectedField::Url(UrlField::Method);
                    }
                },
            },
            SelectedField::Headers(idx) => {
                if idx > 0 {
                    self.ui_state.selected_field = SelectedField::Headers(idx - 1);
                }
            },
            SelectedField::Body(field) => match field {
                BodyField::Type => {},
                BodyField::Content => {
                    self.ui_state.selected_field = SelectedField::Body(BodyField::Type);
                },
            },
            SelectedField::Options(idx) => {
                if idx > 0 {
                    self.ui_state.selected_field = SelectedField::Options(idx - 1);
                    if idx <= self.ui_state.options_scroll_offset {
                        if self.ui_state.options_scroll_offset > 0 {
                            self.ui_state.options_scroll_offset =
                                self.ui_state.options_scroll_offset - 1;
                        }
                    }
                }
            },
        }
    }

    /// Move the field selection down one step, bounded by the current
    /// list lengths; at an options row the scroll offset follows.
    pub fn navigate_field_down(&mut self)
        ensures
            final(self).ui_state.selected_field == field_down(
                old(self).ui_state.selected_field,
                old(self).current_command,
            ),
            final(self).ui_state.options_scroll_offset == (match old(self).ui_state.selected_field {
                SelectedField::Options(i) => if (i as int) + 1 < combined_options_len(
                    old(self).current_command,
                ) && i < usize::MAX && i >= old(self).ui_state.options_scroll_offset + 8 {
                    (old(self).ui_state.options_scroll_offset + 1) as usize
                } else {
                    old(self).ui_state.options_scroll_offset
                },
                _ => old(self).ui_state.options_scroll_offset,
            }),
            final(self).ui_state == (UiState {
                selected_field: final(self).ui_state.selected_field,
                options_scroll_offset: final(self).ui_state.options_scroll_offset,
                ..old(self).ui_state
            }),
            *final(self) == (App { ui_state: final(self).ui_state, ..*old(self) }),
    {
        let current_field = self.ui_state.selected_field;
        match current_field {
            SelectedField::Url(field) => match field {
                UrlField::Url => {
                    self.ui_state.selected_field = SelectedField::Url(UrlField::Method);
                },
                UrlField::Method => {
                    if self.current_command.query_params.len() > 0 {
                        self.ui_state.selected_field = SelectedField::Url(UrlField::QueryParam(0));
                    }
                },
                UrlField::QueryParam(idx) => {
                    let n = self.current_command.query_params.len();
                    if n > 0 && idx < n && n - idx > 1 {
                        self.ui_state.selected_field = SelectedField::Url(
                            UrlField::QueryParam(idx + 1),
                        );
                    }
                },
            },
            SelectedField::Headers(idx) => {
                let n = self.current_command.headers.len();
                if n > 0 && idx < n && n - idx > 1 {
                    self.ui_state.selected_field = SelectedField::Headers(idx + 1);
                }
            },
            SelectedField::Body(field) => match field {
                BodyField::Type => {
                    self.ui_state.selected_field = SelectedField::Body(BodyField::Content);
                },
                BodyField::Content => {},
            },
            SelectedField::Options(idx) => {
                let curl_options = CurlOptions::new();
                let unattached = curl_options.command_line_unattached(&self.current_command);
                let opts = self.current_command.options.len();
                let cln = unattached.len();
                let moves = if idx < usize::MAX {
                    if idx + 1 < opts {
                        true
                    } else {
                        (idx + 1) - opts < cln
                    }
                } else {
                    false
                };
                if moves {
                    self.ui_state.selected_field = SelectedField::Options(idx + 1);
                    if idx >= self.ui_state.options_scroll_offset && idx
                        - self.ui_state.options_scroll_offset >= 8 {
                        self.ui_state.options_scroll_offset =
                            self.ui_state.options_scroll_offset + 1;
                    }
                }
            },
        }
    }

    /// Move left: the URL input hands over to Method; Method enters
    /// template selection (even when the template list is empty);
    /// every other field converges on Method.
    pub fn navigate_field_left(&mut self)
        ensures
            old(self).ui_state.selected_field == SelectedField::Url(UrlField::Method) ==> {
                &&& final(self).ui_state.selected_template == Some(0usize)
                &&& final(self).ui_state.selected_field == old(self).ui_state.selected_field
            },
            old(self).ui_state.selected_field != SelectedField::Url(UrlField::Method) ==> {
                &&& final(self).ui_state.selected_field == SelectedField::Url(UrlField::Method)
                &&& final(self).ui_state.selected_template == old(self).ui_state.selected_template
            },
            final(self).ui_state == (UiState {
                selected_field: final(self).ui_state.selected_field,
                selected_template: final(self).ui_state.selected_template,
                ..old(self).ui_state
            }),
            *final(self) == (App { ui_state: final(self).ui_state, ..*old(self) }),
    {
        match self.ui_state.selected_field {
            SelectedField::Url(UrlField::Url) => {
                self.ui_state.selected_field = SelectedField::Url(UrlField::Method);
            },
            SelectedField::Url(UrlField::Method) => {
                self.ui_state.selected_template = Some(0);
            },
            SelectedField::Headers(_) | SelectedField::Body(_) | SelectedField::Options(_) => {
                self.ui_state.selected_field = SelectedField::Url(UrlField::Method);
            },
            SelectedField::Url(UrlField::QueryParam(_)) => {
                self.ui_state.selected_field = SelectedField::Url(UrlField::Method);
            },
        }
    }

    /// Move right: Method re-enters the active tab's first field; a
    /// header or query-parameter row toggles its entry's enabled flag
    /// in place, without changing the selection.
    pub fn navigate_field_right(&mut self)
        ensures
            final(self).ui_state.selected_field == (match old(self).ui_state.selected_field {
                SelectedField::Url(UrlField::Method) => tab_first_field(
                    old(self).ui_state.active_tab,
                ),
                _ => old(self).ui_state.selected_field,
            }),
            final(self).current_command.headers@ == (match old(self).ui_state.selected_field {
                SelectedField::Headers(i) => toggle_header_at(
                    old(self).current_command.headers@,
                    i as int,
                ),
                _ => old(self).current_command.headers@,
            }),
            final(self).current_command.query_params@ == (match old(self).ui_state.selected_field {
                SelectedField::Url(UrlField::QueryParam(i)) => toggle_param_at(
                    old(self).current_command.query_params@,
                    i as int,
                ),
                _ => old(self).current_command.query_params@,
            }),
            final(self).current_command == (CurlCommand {
                headers: final(self).current_command.headers,
                query_params: final(self).current_command.query_params,
                ..old(self).current_command
            }),
            final(self).ui_state == (UiState {
                selected_field: final(self).ui_state.selected_field,
                ..old(self).ui_state
            }),
            *final(self) == (App {
                ui_state: final(self).ui_state,
                current_command: final(self).current_command,
                ..*old(self)
            }),
    {
        match self.ui_state.selected_field {
            SelectedField::Url(UrlField::Method) => {
                match self.ui_state.active_tab {
                    Tab::Url => {
                        self.ui_state.selected_field = SelectedField::Url(UrlField::Url);
                    },
                    Tab::Headers => {
                        self.ui_state.selected_field = SelectedField::Headers(0);
                    },
                    Tab::Body => {
                        self.ui_state.selected_field = SelectedField::Body(BodyField::Content);
                    },
                    Tab::Options => {
                        self.ui_state.selected_field = SelectedField::Options(0);
                    },
                }
            },
            SelectedField::Url(UrlField::Url) => {},
            SelectedField::Headers(idx) => {
                if idx < self.current_command.headers.len() {
                    let was = self.current_command.headers[idx].enabled;
                    self.current_command.headers[idx].enabled = !was;
                    proof {
                        assert(self.current_command.headers@ =~= toggle_header_at(
                            old(self).current_command.headers@,
                            idx as int,
                        ));
                    }
                }
            },
            SelectedField::Url(UrlField::QueryParam(idx)) => {
                if idx < self.current_command.query_params.len() {
                    let was = self.current_command.query_params[idx].enabled;
                    self.current_command.query_params[idx].enabled = !was;
                    proof {
                        assert(self.current_command.query_params@ =~= toggle_param_at(
                            old(self).current_command.query_params@,
                            idx as int,
                        ));
                    }
                }
            },
            SelectedField::Body(_) | SelectedField::Options(_) => {},
        }
    }
}

/// Whether the selection sits on an unattached catalog row of the
/// options tab.
pub open spec fn cl_row_selected(app: App) -> bool {
    match app.ui_state.selected_field {
        SelectedField::Options(i) => i >= app.current_command.options@.len(),
        _ => false,
    }
}

/// What attaching the catalog row at `idx` does: outside the combined
/// list nothing happens; inside it, some not-yet-attached command-line
/// entry is appended, enabled, with an empty value exactly when its
/// flag takes one, and the selection moves to the new row.
pub open spec fn attach_effect(pre: App, post: App, idx: usize) -> bool {
    &&& (((idx as int) < pre.current_command.options@.len() || (idx as int)
        >= combined_options_len(pre.current_command)) ==> post == pre)
    &&& ((pre.current_command.options@.len() <= idx as int && (idx as int)
        < combined_options_len(pre.current_command)) ==> exists|
        d: crate::catalog::OptionDefinitionView,
    |
        {
            &&& #[trigger] cl_unattached(pre.current_command.options@)(d)
            &&& post.current_command.options@.len() == pre.current_command.options@.len() + 1
            &&& forall|j: int|
                0 <= j < pre.current_command.options@.len() ==> post.current_command.options@[j]
                    == pre.current_command.options@[j]
            &&& post.current_command.options@.last().flag@ == d.flag
            &&& post.current_command.options@.last().enabled
            &&& if d.takes_value {
                post.current_command.options@.last().value matches Some(v) && v@.len() == 0
            } else {
                post.current_command.options@.last().value is None
            }
            &&& post.ui_state.selected_field == SelectedField::Options(
                pre.current_command.options@.len() as usize,
            )
            &&& post.current_command == (CurlCommand {
                options: post.current_command.options,
                updated_at: post.current_command.updated_at,
                ..pre.current_command
            })
            &&& post.ui_state == (UiState {
                selected_field: post.ui_state.selected_field,
                ..pre.ui_state
            })
            &&& post == (App {
                current_command: post.current_command,
                ui_state: post.ui_state,
                ..pre
            })
        })
}

/// A header list with one entry's name replaced; a stale index
/// leaves the list unchanged.
pub open spec fn set_header_key(hs: Seq<Header>, i: int, k: String) -> Seq<Header> {
    if 0 <= i < hs.len() {
        hs.update(i, (Header { key: k, ..hs[i] }))
    } else {
        hs
    }
}

/// A header list with one entry's value replaced; a stale index
/// leaves the list unchanged.
pub open spec fn set_header_value(hs: Seq<Header>, i: int, v: String) -> Seq<Header> {
    if 0 <= i < hs.len() {
        hs.update(i, (Header { value: v, ..hs[i] }))
    } else {
        hs
    }
}

/// A query-parameter list with one entry's name replaced; a stale
/// index leaves the list unchanged.
pub open spec fn set_param_key(ps: Seq<QueryParam>, i: int, k: String) -> Seq<QueryParam> {
    if 0 <= i < ps.len() {
        ps.update(i, (QueryParam { key: k, ..ps[i] }))
    } else {
        ps
    }
}

/// A query-parameter list with one entry's value replaced; a stale
/// index leaves the list unchanged.
pub open spec fn set_param_value(ps: Seq<QueryParam>, i: int, v: String) -> Seq<QueryParam> {
    if 0 <= i < ps.len() {
        ps.update(i, (QueryParam { value: v, ..ps[i] }))
    } else {
        ps
    }
}

/// An option list with one entry's value replaced; a stale index
/// leaves the list unchanged.
pub open spec fn set_option_value(os: Seq<CurlOption>, i: int, v: String) -> Seq<CurlOption> {
    if 0 <= i < os.len() {
        os.update(i, (CurlOption { value: Some(v), ..os[i] }))
    } else {
        os
    }
}

/// The decimal rendering of a possibly negative number.
pub open spec fn dec_signed(c: int) -> Seq<char> {
    if c < 0 {
        "-"@ + dec_digits(-c)
    } else {
        dec_digits(c)
    }
}

/// The text shown after an execution: the command, a status line
/// derived from the exit code, the timing, and the captured streams.
pub open spec fn execution_display(res: ExecutionResult) -> Seq<char> {
    "Command: "@ + res.command@ + "\n"@ + (match res.exit_code {
        Option::Some(c) => if c == 0 {
            "Status: Success (0)\n"@
        } else {
            "Status: Error ("@ + dec_signed(c as int) + ") - "@ + curl_error_message_spec(c as int)
                + "\n"@
        },
        Option::None => "Status: Process terminated by signal\n"@,
    }) + "Execution Time: "@ + dec_digits(res.execution_time_ms as int) + "ms\n\n"@ + (
    if res.stdout@.len() > 0 {
        "STDOUT:\n"@ + res.stdout@ + "\n\n"@
    } else {
        Seq::<char>::empty()
    }) + (if res.stderr@.len() > 0 {
        "STDERR:\n"@ + res.stderr@
    } else {
        Seq::<char>::empty()
    })
}

impl App {
    /// Open the method dropdown, highlighting the current method's
    /// row (the first row when no method is set or the method is not
    /// offered).
    pub fn open_method_dropdown(&mut self)
        ensures
            final(self).state is MethodDropdown,
            final(self).ui_state.method_dropdown_index as int == dropdown_index_of(
                match old(self).current_command.method {
                    Option::Some(m) => m,
                    Option::None => HttpMethod::GET,
                },
            ),
            final(self).ui_state == (UiState {
                method_dropdown_index: final(self).ui_state.method_dropdown_index,
                ..old(self).ui_state
            }),
            *final(self) == (App {
                state: final(self).state,
                ui_state: final(self).ui_state,
                ..*old(self)
            }),
    {
        let current = match &self.current_command.method {
            Some(m) => *m,
            None => HttpMethod::GET,
        };
        let idx: usize = match current {
            HttpMethod::POST => 1,
            HttpMethod::PUT => 2,
            HttpMethod::DELETE => 3,
            HttpMethod::PATCH => 4,
            HttpMethod::HEAD => 5,
            HttpMethod::OPTIONS => 6,
            _ => 0,
        };
        self.ui_state.method_dropdown_index = idx;
        self.state = AppState::MethodDropdown;
    }

    /// Drive the method dropdown: Up and Down move the highlight
    /// through the seven rows circularly — the one place navigation
    /// wraps — Enter commits the highlighted method, Escape leaves
    /// the method unchanged.
    pub fn handle_method_dropdown_key(&mut self, key: KeyPress) -> (r: bool)
        ensures
            !r,
            key.code == KeyCode::Up ==> {
                &&& final(self).ui_state.method_dropdown_index as int == if old(self).ui_state.method_dropdown_index > 0 {
                    old(self).ui_state.method_dropdown_index - 1
                } else {
                    6int
                }
                &&& final(self).state == old(self).state
                &&& final(self).current_command == old(self).current_command
            },
            key.code == KeyCode::Down ==> {
                &&& final(self).ui_state.method_dropdown_index as int == if old(self).ui_state.method_dropdown_index < 6 {
                    old(self).ui_state.method_dropdown_index + 1
                } else {
                    0int
                }
                &&& final(self).state == old(self).state
                &&& final(self).current_command == old(self).current_command
            },
            key.code == KeyCode::Enter ==> {
                &&& final(self).current_command.method == Some(
                    dropdown_method(old(self).ui_state.method_dropdown_index as int),
                )
                &&& final(self).state is Normal
                &&& final(self).ui_state.method_dropdown_index == old(self).ui_state.method_dropdown_index
                &&& final(self).current_command == (CurlCommand {
                    method: final(self).current_command.method,
                    updated_at: final(self).current_command.updated_at,
                    ..old(self).current_command
                })
            },
            key.code == KeyCode::Esc ==> {
                &&& final(self).state is Normal
                &&& final(self).current_command == old(self).current_command
                &&& final(self).ui_state.method_dropdown_index == old(self).ui_state.method_dropdown_index
            },
            !(key.code == KeyCode::Up || key.code == KeyCode::Down || key.code == KeyCode::Enter
                || key.code == KeyCode::Esc) ==> *final(self) == *old(self),
            final(self).ui_state == (UiState {
                method_dropdown_index: final(self).ui_state.method_dropdown_index,
                ..old(self).ui_state
            }),
            *final(self) == (App {
                state: final(self).state,
                ui_state: final(self).ui_state,
                current_command: final(self).current_command,
                ..*old(self)
            }),
    {
        match key.code {
            KeyCode::Up => {
                if self.ui_state.method_dropdown_index > 0 {
                    self.ui_state.method_dropdown_index = self.ui_state.method_dropdown_index - 1;
                } else {
                    self.ui_state.method_dropdown_index = 6;
                }
                false
            },
            KeyCode::Down => {
                if self.ui_state.method_dropdown_index < 6 {
                    self.ui_state.method_dropdown_index = self.ui_state.method_dropdown_index + 1;
                } else {
                    self.ui_state.method_dropdown_index = 0;
                }
                false
            },
            KeyCode::Enter => {
                let selected = match self.ui_state.method_dropdown_index {
                    1 => HttpMethod::POST,
                    2 => HttpMethod::PUT,
                    3 => HttpMethod::DELETE,
                    4 => HttpMethod::PATCH,
                    5 => HttpMethod::HEAD,
                    6 => HttpMethod::OPTIONS,
                    _ => HttpMethod::GET,
                };
                self.current_command.set_method(selected);
                self.state = AppState::Normal;
                false
            },
            KeyCode::Esc => {
                self.state = AppState::Normal;
                false
            },
            _ => false,
        }
    }

    /// Whether the selected options row refers to an unattached
    /// catalog entry rather than an attached option.
    pub fn is_command_line_option_selected(&self, idx: usize) -> (r: bool)
        ensures
            r == (idx >= self.current_command.options@.len()),
    {
        idx >= self.current_command.options.len()
    }

    /// Attach the catalog entry behind an unattached options row: the
    /// entry is appended, enabled, with an empty value when its flag
    /// takes one, and the selection moves to it.  A row outside the
    /// combined list is a no-op.
    pub fn add_selected_command_line_option(&mut self, idx: usize)
        ensures
            attach_effect(*old(self), *final(self), idx),
    {
        let opts = self.current_command.options.len();
        if idx < opts {
            return ;
        }
        let curl_options = CurlOptions::new();
        let unattached = curl_options.command_line_unattached(&self.current_command);
        let rel = idx - opts;
        if rel < unattached.len() {
            let def = &unattached[rel];
            proof {
                assert(cl_unattached(self.current_command.options@)(
                    unattached@[rel as int]@,
                ));
            }
            if !crate::catalog::is_flag_attached(&self.current_command, def.flag.as_str()) {
                let value = if def.takes_value {
                    Some(String::new())
                } else {
                    None
                };
                self.current_command.add_option(def.flag.clone(), value);
                let new_len = self.current_command.options.len();
                self.ui_state.selected_field = SelectedField::Options(new_len - 1);
            }
        }
    }

    /// Remove an attached option by row; the selection falls back to
    /// the previous row while any rows remain.  A stale index is a
    /// no-op.
    pub fn remove_option(&mut self, idx: usize)
        ensures
            (idx as int) >= old(self).current_command.options@.len() ==> *final(self) == *old(self),
            (idx as int) < old(self).current_command.options@.len() ==> {
                &&& final(self).current_command.options@ == old(self).current_command.options@.remove(idx as int)
                &&& final(self).ui_state.selected_field == if old(self).current_command.options@.len() > 1 {
                    SelectedField::Options(
                        if idx > 0 {
                            (idx - 1) as usize
                        } else {
                            0
                        },
                    )
                } else {
                    old(self).ui_state.selected_field
                }
                &&& final(self).current_command == (CurlCommand {
                    options: final(self).current_command.options,
                    ..old(self).current_command
                })
                &&& final(self).ui_state == (UiState {
                    selected_field: final(self).ui_state.selected_field,
                    ..old(self).ui_state
                })
                &&& *final(self) == (App {
                    current_command: final(self).current_command,
                    ui_state: final(self).ui_state,
                    ..*old(self)
                })
            },
    {
        if idx < self.current_command.options.len() {
            self.current_command.options.remove(idx);
            if self.current_command.options.len() > 0 {
                let new_idx: usize = if idx > 0 {
                    idx - 1
                } else {
                    0
                };
                self.ui_state.selected_field = SelectedField::Options(new_idx);
            }
        }
    }

    /// Toggle an attached option's enabled flag in place; a stale
    /// index is a no-op.
    pub fn toggle_option(&mut self, idx: usize)
        ensures
            final(self).current_command.options@ == toggle_option_at(
                old(self).current_command.options@,
                idx as int,
            ),
            final(self).current_command == (CurlCommand {
                options: final(self).current_command.options,
                ..old(self).current_command
            }),
            *final(self) == (App { current_command: final(self).current_command, ..*old(self) }),
    {
        if idx < self.current_command.options.len() {
            let was = self.current_command.options[idx].enabled;
            self.current_command.options[idx].enabled = !was;
            proof {
                assert(self.current_command.options@ =~= toggle_option_at(
                    old(self).current_command.options@,
                    idx as int,
                ));
            }
        }
    }

    /// Hand back and clear the command string waiting to be run.
    pub fn take_pending(&mut self) -> (r: Option<String>)
        ensures
            r == old(self).pending_execution,
            final(self).pending_execution is None,
            *final(self) == (App { pending_execution: None, ..*old(self) }),
    {
        let r = match &self.pending_execution {
            Some(s) => Some(s.clone()),
            None => None,
        };
        self.pending_execution = None;
        proof {
            assert(r == old(self).pending_execution);
        }
        r
    }

    /// The index of the current environment: the first whose name
    /// matches, if any.
    fn find_env_index(&self) -> (r: Option<usize>)
        ensures
            match r {
                Some(i) => i < self.environments@.len() && env_lookup(
                    self.environments@,
                    self.current_environment@,
                ) == Some(self.environments@[i as int]),
                None => env_lookup(self.environments@, self.current_environment@) is None,
            },
    {
        let n = self.environments.len();
        let mut i: usize = 0;
        while i < n
            invariant
                n == self.environments@.len(),
                i <= n,
                forall|j: int|
                    0 <= j < i ==> self.environments@[j].name@ != self.current_environment@,
            decreases n - i,
        {
            if str_eq_str(self.environments[i].name.as_str(), self.current_environment.as_str()) {
                proof {
                    lemma_env_lookup_skip(self.environments@, self.current_environment@, i as int);
                    assert(self.environments@.skip(i as int)[0] == self.environments@[i as int]);
                }
                return Some(i);
            }
            i += 1;
        }
        proof {
            lemma_env_lookup_skip(self.environments@, self.current_environment@, n as int);
        }
        None
    }

    /// Build the current command against the current environment and
    /// queue it for the execution collaborator; when the external
    /// tool was not found, refuse with a fixed message instead.
    pub fn execute_command(&mut self)
        ensures
            old(self).executor is None ==> {
                &&& final(self).output matches Some(m) && m@
                    == "Error: curl executable not found in PATH"@
                &&& final(self).execution_result is None
                &&& final(self).pending_execution is None
            },
            old(self).executor is Some ==> {
                &&& final(self).output matches Some(m) && m@ == "Executing command..."@
                &&& final(self).execution_result is None
                &&& final(self).pending_execution matches Some(c) && c@ == build_spec(
                    old(self).current_command,
                    current_vars(*old(self)),
                )
            },
            *final(self) == (App {
                output: final(self).output,
                execution_result: final(self).execution_result,
                pending_execution: final(self).pending_execution,
                ..*old(self)
            }),
    {
        let available = match &self.executor {
            Some(_) => true,
            None => false,
        };
        if !available {
            self.output = Some(String::from_str("Error: curl executable not found in PATH"));
            self.execution_result = None;
            self.pending_execution = None;
            return ;
        }
        let command_string = match self.find_env_index() {
            Some(found) => CommandBuilder::build(&self.current_command, &self.environments[found]),
            None => {
                let fallback = Environment {
                    id: String::from_str("default"),
                    name: String::from_str("Default"),
                    variables: Vec::new(),
                    created_at: 0,
                    updated_at: 0,
                };
                CommandBuilder::build(&self.current_command, &fallback)
            },
        };
        self.output = Some(String::from_str("Executing command..."));
        self.execution_result = None;
        self.pending_execution = Some(command_string);
    }

    /// Record an execution's result: format it for display, store it,
    /// and append the command to the history when the run succeeded.
    pub fn apply_execution_result(&mut self, result: ExecutionResult)
        ensures
            final(self).output matches Some(m) && m@ == execution_display(result),
            final(self).execution_result matches Some(r2) && r2 == result,
            result.exit_code == Some(0i32) ==> {
                &&& final(self).history@.len() == old(self).history@.len() + 1
                &&& forall|j: int|
                    0 <= j < old(self).history@.len() ==> final(self).history@[j] == old(self).history@[j]
                &&& cmd_eq(final(self).history@.last(), old(self).current_command)
            },
            result.exit_code != Some(0i32) ==> final(self).history == old(self).history,
            *final(self) == (App {
                output: final(self).output,
                execution_result: final(self).execution_result,
                history: final(self).history,
                ..*old(self)
            }),
    {
        let mut out = chars_of("Command: ");
        let mut cmd_text = chars_of(result.command.as_str());
        out.append(&mut cmd_text);
        let mut nl = chars_of("\n");
        out.append(&mut nl);
        match &result.exit_code {
            Some(code) => {
                if *code == 0 {
                    let mut t = chars_of("Status: Success (0)\n");
                    out.append(&mut t);
                } else {
                    let mut t = chars_of("Status: Error (");
                    out.append(&mut t);
                    if *code < 0 {
                        let mut dash = chars_of("-");
                        out.append(&mut dash);
                        let mut num = dec_chars((-(*code as i64)) as u128);
                        out.append(&mut num);
                    } else {
                        let mut num = dec_chars(*code as u128);
                        out.append(&mut num);
                    }
                    let mut t2 = chars_of(") - ");
                    out.append(&mut t2);
                    let mut msg = chars_of(CommandExecutor::get_curl_error_message(*code));
                    out.append(&mut msg);
                    let mut t3 = chars_of("\n");
                    out.append(&mut t3);
                }
            },
            None => {
                let mut t = chars_of("Status: Process terminated by signal\n");
                out.append(&mut t);
            },
        }
        let mut t4 = chars_of("Execution Time: ");
        out.append(&mut t4);
        let mut num = dec_chars(result.execution_time_ms as u128);
        out.append(&mut num);
        let mut t5 = chars_of("ms\n\n");
        out.append(&mut t5);
        if result.stdout.as_str().unicode_len() > 0 {
            let mut t6 = chars_of("STDOUT:\n");
            out.append(&mut t6);
            let mut so = chars_of(result.stdout.as_str());
            out.append(&mut so);
            let mut t7 = chars_of("\n\n");
            out.append(&mut t7);
        }
        if result.stderr.as_str().unicode_len() > 0 {
            let mut t8 = chars_of("STDERR:\n");
            out.append(&mut t8);
            let mut se = chars_of(result.stderr.as_str());
            out.append(&mut se);
        }
        proof {
            assert(out@ =~= execution_display(result));
        }
        self.output = Some(string_from_chars(&out));
        let success = match &result.exit_code {
            Some(code) => *code == 0,
            None => false,
        };
        if success {
            self.history.push(self.current_command.clone());
        }
        self.execution_result = Some(result);
    }

    /// Begin editing the selected field: scalar fields copy their
    /// current value into the edit buffer; Method opens the dropdown
    /// instead; the body type selector is never editable; the body
    /// content copies the raw text into the multi-line buffer; an
    /// attached option is editable only when the catalog says its
    /// flag takes a value and it already has one; any stale index is
    /// a no-op.
    pub fn start_editing_field(&mut self) -> (r: bool)
        ensures
            !r,
            match old(self).ui_state.selected_field {
                SelectedField::Url(UrlField::Url) => {
                    &&& final(self).state == AppState::Editing(EditField::Url)
                    &&& final(self).ui_state.edit_buffer == old(self).current_command.url
                    &&& final(self).ui_state.method_dropdown_index == old(self).ui_state.method_dropdown_index
                },
                SelectedField::Url(UrlField::Method) => {
                    &&& final(self).state is MethodDropdown
                    &&& final(self).ui_state.method_dropdown_index as int == dropdown_index_of(
                        match old(self).current_command.method {
                            Option::Some(m) => m,
                            Option::None => HttpMethod::GET,
                        },
                    )
                    &&& final(self).ui_state.edit_buffer == old(self).ui_state.edit_buffer
                },
                SelectedField::Url(UrlField::QueryParam(i)) => {
                    &&& (i as int) < old(self).current_command.query_params@.len() ==> {
                        &&& final(self).state == AppState::Editing(EditField::QueryParamValue(i))
                        &&& final(self).ui_state.edit_buffer == old(self).current_command.query_params@[i as int].value
                    }
                    &&& (i as int) >= old(self).current_command.query_params@.len() ==> *final(self) == *old(self)
                    &&& final(self).ui_state.method_dropdown_index == old(self).ui_state.method_dropdown_index
                },
                SelectedField::Headers(i) => {
                    &&& (i as int) < old(self).current_command.headers@.len() ==> {
                        &&& final(self).state == AppState::Editing(EditField::HeaderValue(i))
                        &&& final(self).ui_state.edit_buffer == old(self).current_command.headers@[i as int].value
                    }
                    &&& (i as int) >= old(self).current_command.headers@.len() ==> *final(self)
                        == *old(self)
                    &&& final(self).ui_state.method_dropdown_index == old(self).ui_state.method_dropdown_index
                },
                SelectedField::Body(BodyField::Type) => *final(self) == *old(self),
                SelectedField::Body(BodyField::Content) => {
                    &&& final(self).state == AppState::Editing(EditField::Body)
                    &&& final(self).ui_state.body_buffer@ == (
                    match old(self).current_command.body {
                        Option::Some(RequestBody::Raw(c)) => c@,
                        _ => Seq::<char>::empty(),
                    })
                    &&& final(self).ui_state.edit_buffer == old(self).ui_state.edit_buffer
                    &&& final(self).ui_state.method_dropdown_index == old(self).ui_state.method_dropdown_index
                },
                SelectedField::Options(i) => {
                    &&& ((i as int) < old(self).current_command.options@.len() && ({
                        let o = old(self).current_command.options@[i as int];
                        crate::catalog::spec_lookup(catalog_table(), o.flag@) matches Some(d)
                            && d.takes_value && o.value is Some
                    })) ==> {
                        &&& final(self).state == AppState::Editing(EditField::OptionValue(i))
                        &&& final(self).ui_state.edit_buffer == old(self).current_command.options@[i as int].value->0
                    }
                    &&& !((i as int) < old(self).current_command.options@.len() && ({
                        let o = old(self).current_command.options@[i as int];
                        crate::catalog::spec_lookup(catalog_table(), o.flag@) matches Some(d)
                            && d.takes_value && o.value is Some
                    })) ==> *final(self) == *old(self)
                },
            },
            final(self).ui_state == (UiState {
                edit_buffer: final(self).ui_state.edit_buffer,
                body_buffer: final(self).ui_state.body_buffer,
                method_dropdown_index: final(self).ui_state.method_dropdown_index,
                ..old(self).ui_state
            }),
            *final(self) == (App {
                state: final(self).state,
                ui_state: final(self).ui_state,
                ..*old(self)
            }),
    {
        match self.ui_state.selected_field {
            SelectedField::Url(UrlField::Url) => {
                self.ui_state.edit_buffer = self.current_command.url.clone();
                self.state = AppState::Editing(EditField::Url);
            },
            SelectedField::Url(UrlField::Method) => {
                self.open_method_dropdown();
            },
            SelectedField::Url(UrlField::QueryParam(idx)) => {
                if idx < self.current_command.query_params.len() {
                    self.ui_state.edit_buffer =
                        self.current_command.query_params[idx].value.clone();
                    self.state = AppState::Editing(EditField::QueryParamValue(idx));
                }
            },
            SelectedField::Headers(idx) => {
                if idx < self.current_command.headers.len() {
                    self.ui_state.edit_buffer = self.current_command.headers[idx].value.clone();
                    self.state = AppState::Editing(EditField::HeaderValue(idx));
                }
            },
            SelectedField::Body(BodyField::Type) => {},
            SelectedField::Body(BodyField::Content) => {
                let content = match &self.current_command.body {
                    Some(RequestBody::Raw(content)) => content.clone(),
                    _ => String::new(),
                };
                self.ui_state.body_buffer = content;
                self.state = AppState::Editing(EditField::Body);
            },
            SelectedField::Options(idx) => {
                if idx < self.current_command.options.len() {
                    let curl_options = CurlOptions::new();
                    let editable = {
                        let def = curl_options.get_option(
                            self.current_command.options[idx].flag.as_str(),
                        );
                        match def {
                            Some(d) => d.takes_value,
                            None => false,
                        }
                    };
                    if editable {
                        match &self.current_command.options[idx].value {
                            Some(v) => {
                                self.ui_state.edit_buffer = v.clone();
                                self.state = AppState::Editing(EditField::OptionValue(idx));
                            },
                            None => {},
                        }
                    }
                }
            },
        }
        false
    }

    /// Drive field editing.  For the body: Escape cancels, F2 saves
    /// the multi-line buffer as the raw body (Enter stays available
    /// for newlines), characters and Backspace edit the buffer.  For
    /// every other field: Enter commits the edit buffer into the
    /// model, Escape discards it, characters and Backspace edit the
    /// buffer; a stale index commits nowhere.
    pub fn handle_editing_field_key(&mut self, key: KeyPress, field: EditField) -> (r: bool)
        ensures
            !r,
            field == EditField::Body ==> match key.code {
                KeyCode::Esc => {
                    &&& final(self).state is Normal
                    &&& final(self).current_command == old(self).current_command
                    &&& final(self).ui_state == old(self).ui_state
                },
                KeyCode::F(2u8) => {
                    &&& final(self).state is Normal
                    &&& final(self).current_command.body matches Some(b) && b matches
                        RequestBody::Raw(c) && c == old(self).ui_state.body_buffer
                    &&& final(self).current_command == (CurlCommand {
                        body: final(self).current_command.body,
                        updated_at: final(self).current_command.updated_at,
                        ..old(self).current_command
                    })
                    &&& final(self).ui_state == old(self).ui_state
                },
                KeyCode::Char(c) => {
                    &&& final(self).ui_state.body_buffer@ == old(self).ui_state.body_buffer@.push(c)
                    &&& final(self).state == old(self).state
                    &&& final(self).current_command == old(self).current_command
                },
                KeyCode::Enter => {
                    &&& final(self).ui_state.body_buffer@ == old(self).ui_state.body_buffer@.push('\n')
                    &&& final(self).state == old(self).state
                    &&& final(self).current_command == old(self).current_command
                },
                KeyCode::Backspace => {
                    &&& final(self).ui_state.body_buffer@ == if old(self).ui_state.body_buffer@.len() > 0 {
                        old(self).ui_state.body_buffer@.drop_last()
                    } else {
                        old(self).ui_state.body_buffer@
                    }
                    &&& final(self).state == old(self).state
                    &&& final(self).current_command == old(self).current_command
                },
                _ => *final(self) == *old(self),
            },
            field != EditField::Body ==> match key.code {
                KeyCode::Enter => {
                    &&& final(self).state is Normal
                    &&& final(self).current_command.url == (if field == EditField::Url {
                        old(self).ui_state.edit_buffer
                    } else {
                        old(self).current_command.url
                    })
                    &&& final(self).current_command.method == (if field == EditField::Method {
                        Some(method_from_text(old(self).ui_state.edit_buffer@))
                    } else {
                        old(self).current_command.method
                    })
                    &&& final(self).current_command.headers@ == (match field {
                        EditField::HeaderKey(i) => set_header_key(
                            old(self).current_command.headers@,
                            i as int,
                            old(self).ui_state.edit_buffer,
                        ),
                        EditField::HeaderValue(i) => set_header_value(
                            old(self).current_command.headers@,
                            i as int,
                            old(self).ui_state.edit_buffer,
                        ),
                        _ => old(self).current_command.headers@,
                    })
                    &&& final(self).current_command.query_params@ == (match field {
                        EditField::QueryParamKey(i) => set_param_key(
                            old(self).current_command.query_params@,
                            i as int,
                            old(self).ui_state.edit_buffer,
                        ),
                        EditField::QueryParamValue(i) => set_param_value(
                            old(self).current_command.query_params@,
                            i as int,
                            old(self).ui_state.edit_buffer,
                        ),
                        _ => old(self).current_command.query_params@,
                    })
                    &&& final(self).current_command.options@ == (match field {
                        EditField::OptionValue(i) => set_option_value(
                            old(self).current_command.options@,
                            i as int,
                            old(self).ui_state.edit_buffer,
                        ),
                        _ => old(self).current_command.options@,
                    })
                    &&& final(self).current_command == (CurlCommand {
                        url: final(self).current_command.url,
                        method: final(self).current_command.method,
                        headers: final(self).current_command.headers,
                        query_params: final(self).current_command.query_params,
                        options: final(self).current_command.options,
                        ..old(self).current_command
                    })
                    &&& final(self).ui_state == old(self).ui_state
                },
                KeyCode::Esc => {
                    &&& final(self).state is Normal
                    &&& final(self).current_command == old(self).current_command
                    &&& final(self).ui_state == old(self).ui_state
                },
                KeyCode::Char(c) => {
                    &&& final(self).ui_state.edit_buffer@ == old(self).ui_state.edit_buffer@.push(c)
                    &&& final(self).state == old(self).state
                    &&& final(self).current_command == old(self).current_command
                },
                KeyCode::Backspace => {
                    &&& final(self).ui_state.edit_buffer@ == if old(self).ui_state.edit_buffer@.len() > 0 {
                        old(self).ui_state.edit_buffer@.drop_last()
                    } else {
                        old(self).ui_state.edit_buffer@
                    }
                    &&& final(self).state == old(self).state
                    &&& final(self).current_command == old(self).current_command
                },
                _ => *final(self) == *old(self),
            },
            final(self).ui_state == (UiState {
                edit_buffer: final(self).ui_state.edit_buffer,
                body_buffer: final(self).ui_state.body_buffer,
                ..old(self).ui_state
            }),
            *final(self) == (App {
                state: final(self).state,
                current_command: final(self).current_command,
                ui_state: final(self).ui_state,
                ..*old(self)
            }),
    {
        if matches!(field, EditField::Body) {
            match key.code {
                KeyCode::Esc => {
                    self.state = AppState::Normal;
                },
                KeyCode::F(2) => {
                    let content = self.ui_state.body_buffer.clone();
                    self.current_command.set_body(RequestBody::Raw(content));
                    self.state = AppState::Normal;
                },
                KeyCode::Char(c) => {
                    self.ui_state.body_buffer = string_push_char(&self.ui_state.body_buffer, c);
                },
                KeyCode::Enter => {
                    self.ui_state.body_buffer = string_push_char(&self.ui_state.body_buffer, '\n');
                },
                KeyCode::Backspace => {
                    self.ui_state.body_buffer = string_pop_char(&self.ui_state.body_buffer);
                },
                _ => {},
            }
            false
        } else {
            match key.code {
                KeyCode::Enter => {
                    match field {
                        EditField::Url => {
                            self.current_command.url = self.ui_state.edit_buffer.clone();
                        },
                        EditField::Method => {
                            let m = parse_method_text(self.ui_state.edit_buffer.as_str());
                            self.current_command.method = Some(m);
                        },
                        EditField::HeaderKey(idx) => {
                            if idx < self.current_command.headers.len() {
                                self.current_command.headers[idx].key =
                                    self.ui_state.edit_buffer.clone();
                                proof {
                                    assert(self.current_command.headers@ =~= set_header_key(
                                        old(self).current_command.headers@,
                                        idx as int,
                                        old(self).ui_state.edit_buffer,
                                    ));
                                }
                            }
                        },
                        EditField::HeaderValue(idx) => {
                            if idx < self.current_command.headers.len() {
                                self.current_command.headers[idx].value =
                                    self.ui_state.edit_buffer.clone();
                                proof {
                                    assert(self.current_command.headers@ =~= set_header_value(
                                        old(self).current_command.headers@,
                                        idx as int,
                                        old(self).ui_state.edit_buffer,
                                    ));
                                }
                            }
                        },
                        EditField::QueryParamKey(idx) => {
                            if idx < self.current_command.query_params.len() {
                                self.current_command.query_params[idx].key =
                                    self.ui_state.edit_buffer.clone();
                                proof {
                                    assert(self.current_command.query_params@ =~= set_param_key(
                                        old(self).current_command.query_params@,
                                        idx as int,
                                        old(self).ui_state.edit_buffer,
                                    ));
                                }
                            }
                        },
                        EditField::QueryParamValue(idx) => {
                            if idx < self.current_command.query_params.len() {
                                self.current_command.query_params[idx].value =
                                    self.ui_state.edit_buffer.clone();
                                proof {
                                    assert(self.current_command.query_params@ =~= set_param_value(
                                        old(self).current_command.query_params@,
                                        idx as int,
                                        old(self).ui_state.edit_buffer,
                                    ));
                                }
                            }
                        },
                        EditField::Body => {},
                        EditField::OptionValue(idx) => {
                            if idx < self.current_command.options.len() {
                                self.current_command.options[idx].value = Some(
                                    self.ui_state.edit_buffer.clone(),
                                );
                                proof {
                                    assert(self.current_command.options@ =~= set_option_value(
                                        old(self).current_command.options@,
                                        idx as int,
                                        old(self).ui_state.edit_buffer,
                                    ));
                                }
                            }
                        },
                    }
                    self.state = AppState::Normal;
                },
                KeyCode::Esc => {
                    self.state = AppState::Normal;
                },
                KeyCode::Char(c) => {
                    self.ui_state.edit_buffer = string_push_char(&self.ui_state.edit_buffer, c);
                },
                KeyCode::Backspace => {
                    self.ui_state.edit_buffer = string_pop_char(&self.ui_state.edit_buffer);
                },
                _ => {},
            }
            false
        }
    }

    /// Escape leaves template-name editing; everything else is
    /// ignored.
    pub fn handle_editing_template_name_key(&mut self, key: KeyPress) -> (r: bool)
        ensures
            !r,
            key.code == KeyCode::Esc ==> final(self).state is Normal,
            key.code != KeyCode::Esc ==> *final(self) == *old(self),
            *final(self) == (App { state: final(self).state, ..*old(self) }),
    {
        match key.code {
            KeyCode::Esc => {
                self.state = AppState::Normal;
            },
            _ => {},
        }
        false
    }

    /// Escape leaves environment editing; everything else is ignored.
    pub fn handle_editing_environment_key(&mut self, key: KeyPress) -> (r: bool)
        ensures
            !r,
            key.code == KeyCode::Esc ==> final(self).state is Normal,
            key.code != KeyCode::Esc ==> *final(self) == *old(self),
            *final(self) == (App { state: final(self).state, ..*old(self) }),
    {
        match key.code {
            KeyCode::Esc => {
                self.state = AppState::Normal;
            },
            _ => {},
        }
        false
    }

    /// Escape or F1 leaves help; everything else is ignored.
    pub fn handle_help_key(&mut self, key: KeyPress) -> (r: bool)
        ensures
            !r,
            key.code == KeyCode::Esc || key.code == KeyCode::F(1u8) ==> final(self).state
                is Normal,
            !(key.code == KeyCode::Esc || key.code == KeyCode::F(1u8)) ==> *final(self) == *old(self),
            *final(self) == (App { state: final(self).state, ..*old(self) }),
    {
        match key.code {
            KeyCode::Esc | KeyCode::F(1) => {
                self.state = AppState::Normal;
            },
            _ => {},
        }
        false
    }

    /// Handle a key in normal mode.  Control-q quits; Tab and
    /// control-arrows switch tabs, resetting the in-tab selection;
    /// plain arrows navigate (or toggle, for Right on a list row);
    /// F5 or control-r builds and queues the command; Enter attaches
    /// a catalog row, loads a template, or begins editing; Delete and
    /// Backspace detach an option; Space toggles one; control-t/e/h
    /// fold panels; F1 opens help.  Anything else is ignored.
    pub fn handle_normal_mode_key(&mut self, key: KeyPress) -> (r: bool)
        ensures
            r == (key.ctrl && key.code == KeyCode::Char('q')),
            key.ctrl && key.code == KeyCode::Char('q') ==> final(self).state is Exiting && *final(self) == (App { state: final(self).state, ..*old(self) }),
            (!key.ctrl && key.code == KeyCode::Tab) || (key.ctrl && key.code == KeyCode::Right)
                ==> {
                &&& final(self).ui_state.active_tab == next_tab(old(self).ui_state.active_tab)
                &&& final(self).ui_state.selected_field == tab_first_field(
                    next_tab(old(self).ui_state.active_tab),
                )
                &&& final(self).ui_state.selected_template == old(self).ui_state.selected_template
                &&& final(self).ui_state == (UiState {
                    active_tab: final(self).ui_state.active_tab,
                    selected_field: final(self).ui_state.selected_field,
                    ..old(self).ui_state
                })
                &&& *final(self) == (App { ui_state: final(self).ui_state, ..*old(self) })
            },
            (key.code == KeyCode::BackTab) || (key.ctrl && key.code == KeyCode::Left) ==> {
                &&& final(self).ui_state.active_tab == prev_tab(old(self).ui_state.active_tab)
                &&& final(self).ui_state.selected_field == tab_first_field(
                    prev_tab(old(self).ui_state.active_tab),
                )
                &&& final(self).ui_state.selected_template == old(self).ui_state.selected_template
                &&& final(self).ui_state == (UiState {
                    active_tab: final(self).ui_state.active_tab,
                    selected_field: final(self).ui_state.selected_field,
                    ..old(self).ui_state
                })
                &&& *final(self) == (App { ui_state: final(self).ui_state, ..*old(self) })
            },
            !key.ctrl && key.code == KeyCode::Up ==> {
                &&& old(self).ui_state.selected_template matches Some(t) ==> {
                    &&& final(self).ui_state.selected_template == Some(
                        if t > 0 {
                            (t - 1) as usize
                        } else {
                            t
                        },
                    )
                    &&& final(self).ui_state.selected_field == old(self).ui_state.selected_field
                }
                &&& (old(self).ui_state.selected_template is None) ==> {
                    &&& final(self).ui_state.selected_field == field_up(
                        old(self).ui_state.selected_field,
                    )
                    &&& final(self).ui_state.selected_template is None
                }
                &&& final(self).current_command == old(self).current_command
                &&& *final(self) == (App { ui_state: final(self).ui_state, ..*old(self) })
            },
            !key.ctrl && key.code == KeyCode::Down ==> {
                &&& old(self).ui_state.selected_template matches Some(t) ==> {
                    &&& final(self).ui_state.selected_template == Some(
                        if (t as int) + 1 < old(self).templates@.len() {
                            (t + 1) as usize
                        } else {
                            t
                        },
                    )
                    &&& final(self).ui_state.selected_field == old(self).ui_state.selected_field
                }
                &&& (old(self).ui_state.selected_template is None) ==> {
                    &&& final(self).ui_state.selected_field == field_down(
                        old(self).ui_state.selected_field,
                        old(self).current_command,
                    )
                    &&& final(self).ui_state.selected_template is None
                }
                &&& final(self).current_command == old(self).current_command
                &&& *final(self) == (App { ui_state: final(self).ui_state, ..*old(self) })
            },
            !key.ctrl && key.code == KeyCode::Left ==> {
                &&& old(self).ui_state.selected_field == SelectedField::Url(UrlField::Method)
                    ==> final(self).ui_state.selected_template == Some(0usize) && final(self).ui_state.selected_field == old(self).ui_state.selected_field
                &&& old(self).ui_state.selected_field != SelectedField::Url(UrlField::Method)
                    ==> final(self).ui_state.selected_field == SelectedField::Url(UrlField::Method)
                    && final(self).ui_state.selected_template == old(self).ui_state.selected_template
                &&& final(self).current_command == old(self).current_command
                &&& *final(self) == (App { ui_state: final(self).ui_state, ..*old(self) })
            },
            !key.ctrl && key.code == KeyCode::Right ==> {
                &&& (old(self).ui_state.selected_template is Some) ==> {
                    &&& final(self).ui_state.selected_template is None
                    &&& final(self).ui_state.selected_field == SelectedField::Url(UrlField::Method)
                    &&& final(self).current_command == old(self).current_command
                }
                &&& (old(self).ui_state.selected_template is None) ==> {
                    &&& final(self).ui_state.selected_field == (
                    match old(self).ui_state.selected_field {
                        SelectedField::Url(UrlField::Method) => tab_first_field(
                            old(self).ui_state.active_tab,
                        ),
                        _ => old(self).ui_state.selected_field,
                    })
                    &&& final(self).current_command.headers@ == (
                    match old(self).ui_state.selected_field {
                        SelectedField::Headers(i) => toggle_header_at(
                            old(self).current_command.headers@,
                            i as int,
                        ),
                        _ => old(self).current_command.headers@,
                    })
                    &&& final(self).current_command.query_params@ == (
                    match old(self).ui_state.selected_field {
                        SelectedField::Url(UrlField::QueryParam(i)) => toggle_param_at(
                            old(self).current_command.query_params@,
                            i as int,
                        ),
                        _ => old(self).current_command.query_params@,
                    })
                    &&& final(self).current_command == (CurlCommand {
                        headers: final(self).current_command.headers,
                        query_params: final(self).current_command.query_params,
                        ..old(self).current_command
                    })
                }
                &&& *final(self) == (App {
                    ui_state: final(self).ui_state,
                    current_command: final(self).current_command,
                    ..*old(self)
                })
            },
            (!key.ctrl && key.code == KeyCode::F(5u8)) || (key.ctrl && key.code == KeyCode::Char(
                'r',
            )) ==> {
                &&& old(self).executor is None ==> ({
                    &&& final(self).output matches Some(m) && m@
                        == "Error: curl executable not found in PATH"@
                    &&& final(self).pending_execution is None
                })
                &&& old(self).executor is Some ==> ({
                    &&& final(self).output matches Some(m) && m@ == "Executing command..."@
                    &&& final(self).pending_execution matches Some(c) && c@ == build_spec(
                        old(self).current_command,
                        current_vars(*old(self)),
                    )
                })
                &&& final(self).execution_result is None
                &&& *final(self) == (App {
                    output: final(self).output,
                    execution_result: final(self).execution_result,
                    pending_execution: final(self).pending_execution,
                    ..*old(self)
                })
            },
            (!key.ctrl && (key.code == KeyCode::Delete || key.code == KeyCode::Backspace)) ==> {
                &&& (match old(self).ui_state.selected_field {
                    SelectedField::Options(i) => (i as int) < old(self).current_command.options@.len() ==> final(self).current_command.options@
                        == old(self).current_command.options@.remove(i as int),
                    _ => *final(self) == *old(self),
                })
                &&& *final(self) == (App {
                    ui_state: final(self).ui_state,
                    current_command: final(self).current_command,
                    ..*old(self)
                })
            },
            (!key.ctrl && key.code == KeyCode::Char(' ')) ==> {
                &&& final(self).current_command.options@ == (
                match old(self).ui_state.selected_field {
                    SelectedField::Options(i) => if (i as int) < old(self).current_command.options@.len() {
                        toggle_option_at(old(self).current_command.options@, i as int)
                    } else {
                        old(self).current_command.options@
                    },
                    _ => old(self).current_command.options@,
                })
                &&& final(self).current_command == (CurlCommand {
                    options: final(self).current_command.options,
                    ..old(self).current_command
                })
                &&& *final(self) == (App { current_command: final(self).current_command, ..*old(self) })
            },
            key.ctrl && key.code == KeyCode::Char('t') ==> *final(self) == (App {
                ui_state: final(self).ui_state,
                ..*old(self)
            }) && final(self).ui_state == (UiState {
                templates_expanded: !old(self).ui_state.templates_expanded,
                ..old(self).ui_state
            }),
            key.ctrl && key.code == KeyCode::Char('e') ==> *final(self) == (App {
                ui_state: final(self).ui_state,
                ..*old(self)
            }) && final(self).ui_state == (UiState {
                environments_expanded: !old(self).ui_state.environments_expanded,
                ..old(self).ui_state
            }),
            key.ctrl && key.code == KeyCode::Char('h') ==> *final(self) == (App {
                ui_state: final(self).ui_state,
                ..*old(self)
            }) && final(self).ui_state == (UiState {
                history_expanded: !old(self).ui_state.history_expanded,
                ..old(self).ui_state
            }),
            !key.ctrl && key.code == KeyCode::Enter ==> {
                &&& cl_row_selected(*old(self)) ==> (match old(self).ui_state.selected_field {
                    SelectedField::Options(idx) => attach_effect(*old(self), *final(self), idx),
                    _ => true,
                })
                &&& !cl_row_selected(*old(self)) ==> (
                old(self).ui_state.selected_template matches Some(t) ==> {
                    &&& (t as int) < old(self).templates@.len() ==> cmd_eq(
                        final(self).current_command,
                        old(self).templates@[t as int].command,
                    )
                    &&& (t as int) >= old(self).templates@.len() ==> final(self).current_command
                        == old(self).current_command
                    &&& final(self).ui_state.selected_template is None
                    &&& final(self).ui_state.selected_field == SelectedField::Url(UrlField::Url)
                    &&& *final(self) == (App {
                        current_command: final(self).current_command,
                        ui_state: final(self).ui_state,
                        ..*old(self)
                    })
                })
                &&& !cl_row_selected(*old(self)) && old(self).ui_state.selected_template is None
                    ==> *final(self) == (App {
                    state: final(self).state,
                    ui_state: final(self).ui_state,
                    ..*old(self)
                })
            },
            !key.ctrl && key.code == KeyCode::F(1u8) ==> final(self).state is Help && *final(self)
                == (App { state: final(self).state, ..*old(self) }),
            !(matches!(
                key.code,
                KeyCode::Char(_) | KeyCode::Tab | KeyCode::BackTab | KeyCode::Up | KeyCode::Down
                    | KeyCode::Left | KeyCode::Right | KeyCode::Enter | KeyCode::Delete
                    | KeyCode::Backspace | KeyCode::F(_),
            )) ==> *final(self) == *old(self),
    {
        if key.ctrl && matches!(key.code, KeyCode::Char('q')) {
            self.state = AppState::Exiting;
            return true;
        }
        if (!key.ctrl && matches!(key.code, KeyCode::Tab)) || (key.ctrl && matches!(
            key.code,
            KeyCode::Right,
        )) {
            self.ui_state.active_tab = match self.ui_state.active_tab {
                Tab::Url => Tab::Headers,
                Tab::Headers => Tab::Body,
                Tab::Body => Tab::Options,
                Tab::Options => Tab::Url,
            };
            self.ui_state.selected_field = match self.ui_state.active_tab {
                Tab::Url => SelectedField::Url(UrlField::Url),
                Tab::Headers => SelectedField::Headers(0),
                Tab::Body => SelectedField::Body(BodyField::Content),
                Tab::Options => SelectedField::Options(0),
            };
            return false;
        }
        if matches!(key.code, KeyCode::BackTab) || (key.ctrl && matches!(key.code, KeyCode::Left)) {
            self.ui_state.active_tab = match self.ui_state.active_tab {
                Tab::Url => Tab::Options,
                Tab::Headers => Tab::Url,
                Tab::Body => Tab::Headers,
                Tab::Options => Tab::Body,
            };
            self.ui_state.selected_field = match self.ui_state.active_tab {
                Tab::Url => SelectedField::Url(UrlField::Url),
                Tab::Headers => SelectedField::Headers(0),
                Tab::Body => SelectedField::Body(BodyField::Content),
                Tab::Options => SelectedField::Options(0),
            };
            return false;
        }
        if !key.ctrl && matches!(key.code, KeyCode::Up) {
            let in_templates = match self.ui_state.selected_template {
                Some(_) => true,
                None => false,
            };
            if in_templates {
                self.navigate_template_up();
            } else {
                self.navigate_field_up();
            }
            return false;
        }
        if !key.ctrl && matches!(key.code, KeyCode::Down) {
            let in_templates = match self.ui_state.selected_template {
                Some(_) => true,
                None => false,
            };
            if in_templates {
                self.navigate_template_down();
            } else {
                self.navigate_field_down();
            }
            return false;
        }
        if !key.ctrl && matches!(key.code, KeyCode::Left) {
            self.navigate_field_left();
            return false;
        }
        if !key.ctrl && matches!(key.code, KeyCode::Right) {
            let in_templates = match self.ui_state.selected_template {
                Some(_) => true,
                None => false,
            };
            if in_templates {
                self.ui_state.selected_template = None;
                self.ui_state.selected_field = SelectedField::Url(UrlField::Method);
            } else {
                self.navigate_field_right();
            }
            return false;
        }
        if (!key.ctrl && matches!(key.code, KeyCode::F(5))) || (key.ctrl && matches!(
            key.code,
            KeyCode::Char('r'),
        )) {
            self.execute_command();
            return false;
        }
        if !key.ctrl && matches!(key.code, KeyCode::Enter) {
            match self.ui_state.selected_field {
                SelectedField::Options(idx) => {
                    if self.is_command_line_option_selected(idx) {
                        self.add_selected_command_line_option(idx);
                        return false;
                    }
                },
                _ => {},
            }
            match self.ui_state.selected_template {
                Some(template_idx) => {
                    self.load_template(template_idx);
                    self.ui_state.selected_template = None;
                    self.ui_state.selected_field = SelectedField::Url(UrlField::Url);
                },
                None => {
                    self.start_editing_field();
                },
            }
            return false;
        }
        if !key.ctrl && (matches!(key.code, KeyCode::Delete) || matches!(
            key.code,
            KeyCode::Backspace,
        )) {
            match self.ui_state.selected_field {
                SelectedField::Options(idx) => {
                    if !self.is_command_line_option_selected(idx) {
                        self.remove_option(idx);
                    }
                },
                _ => {},
            }
            return false;
        }
        if !key.ctrl && matches!(key.code, KeyCode::Char(' ')) {
            match self.ui_state.selected_field {
                SelectedField::Options(idx) => {
                    if !self.is_command_line_option_selected(idx) {
                        self.toggle_option(idx);
                    }
                },
                _ => {},
            }
            return false;
        }
        if key.ctrl && matches!(key.code, KeyCode::Char('t')) {
            self.ui_state.templates_expanded = !self.ui_state.templates_expanded;
            return false;
        }
        if key.ctrl && matches!(key.code, KeyCode::Char('e')) {
            self.ui_state.environments_expanded = !self.ui_state.environments_expanded;
            return false;
        }
        if key.ctrl && matches!(key.code, KeyCode::Char('h')) {
            self.ui_state.history_expanded = !self.ui_state.history_expanded;
            return false;
        }
        if !key.ctrl && matches!(key.code, KeyCode::F(1)) {
            self.state = AppState::Help;
            return false;
        }
        false
    }

    /// Route one key press to the handler of the current mode.  The
    /// result says whether the application should exit; each mode's
    /// handler carries the exact contract for its transitions.
    pub fn handle_key(&mut self, key: KeyPress) -> (r: bool)
        ensures
            r == (old(self).state is Exiting || (old(self).state is Normal && key.ctrl && key.code
                == KeyCode::Char('q'))),
            old(self).state is Exiting ==> *final(self) == *old(self),
            old(self).state is Normal && key.ctrl && key.code == KeyCode::Char('q') ==> final(self).state is Exiting,
            old(self).state is Normal && !key.ctrl && key.code == KeyCode::F(1u8) ==> final(self).state is Help,
            old(self).state is Help ==> {
                &&& (key.code == KeyCode::Esc || key.code == KeyCode::F(1u8)) ==> final(self).state is Normal
                &&& !(key.code == KeyCode::Esc || key.code == KeyCode::F(1u8)) ==> *final(self)
                    == *old(self)
                &&& *final(self) == (App { state: final(self).state, ..*old(self) })
            },
            old(self).state is EditingTemplateName || old(self).state is EditingEnvironment ==> {
                &&& key.code == KeyCode::Esc ==> final(self).state is Normal
                &&& key.code != KeyCode::Esc ==> *final(self) == *old(self)
                &&& *final(self) == (App { state: final(self).state, ..*old(self) })
            },
            old(self).state is MethodDropdown ==> {
                &&& key.code == KeyCode::Enter ==> final(self).current_command.method == Some(
                    dropdown_method(old(self).ui_state.method_dropdown_index as int),
                ) && final(self).state is Normal
                &&& key.code == KeyCode::Esc ==> final(self).state is Normal && final(self).current_command == old(self).current_command
                &&& *final(self) == (App {
                    state: final(self).state,
                    ui_state: final(self).ui_state,
                    current_command: final(self).current_command,
                    ..*old(self)
                })
            },
            old(self).state matches AppState::Editing(f) ==> *final(self) == (App {
                state: final(self).state,
                current_command: final(self).current_command,
                ui_state: final(self).ui_state,
                ..*old(self)
            }),
    {
        match self.state {
            AppState::Normal => self.handle_normal_mode_key(key),
            AppState::Editing(field) => self.handle_editing_field_key(key, field),
            AppState::MethodDropdown => self.handle_method_dropdown_key(key),
            AppState::EditingTemplateName => self.handle_editing_template_name_key(key),
            AppState::EditingEnvironment => self.handle_editing_environment_key(key),
            AppState::Help => self.handle_help_key(key),
            AppState::Exiting => true,
        }
    }

    /// Split a display command string back into argv-style tokens.
    pub fn parse_command_args(command: &str) -> (r: Vec<String>)
        ensures
            r@.map_values(|x: String| x@) == crate::cmdline::split_args(command@),
    {
        crate::cmdline::parse_command_args(command)
    }
}

} // verus!
