//! The command model: one HTTP request under construction, the
//! environment of substitutable variables, and saved templates.
//!
//! Entries of the header / query-parameter / option lists carry a
//! synthetic id and an `enabled` flag; disabled entries are retained so
//! they can be re-toggled, and the builder skips them.

use vstd::prelude::*;

verus! {

use vstd::string::StringExecFns;

/// Relies on `uuid::Uuid::new_v4` and its `Display` impl: a fresh
/// random identifier rendered in the 36-character hyphenated form.
#[verifier::external_body]
pub(crate) fn fresh_id() -> (r: String)
    ensures
        r@.len() == 36,
{
    uuid::Uuid::new_v4().to_string()
}

/// Relies on `chrono::Utc::now`: the current wall-clock time as Unix
/// milliseconds.  Nothing is promised of the value.
#[verifier::external_body]
pub(crate) fn now_millis() -> i64 {
    chrono::Utc::now().timestamp_millis()
}

/// HTTP method of a request.
#[derive(Clone, Copy, PartialEq, Eq, Structural, Debug)]
pub enum HttpMethod {
    GET,
    POST,
    PUT,
    DELETE,
    PATCH,
    HEAD,
    OPTIONS,
    TRACE,
    CONNECT,
}

impl HttpMethod {
    /// The canonical upper-case spelling of the method.
    pub open spec fn spec_name(self) -> Seq<char> {
        match self {
            HttpMethod::GET => "GET"@,
            HttpMethod::POST => "POST"@,
            HttpMethod::PUT => "PUT"@,
            HttpMethod::DELETE => "DELETE"@,
            HttpMethod::PATCH => "PATCH"@,
            HttpMethod::HEAD => "HEAD"@,
            HttpMethod::OPTIONS => "OPTIONS"@,
            HttpMethod::TRACE => "TRACE"@,
            HttpMethod::CONNECT => "CONNECT"@,
        }
    }

    /// Render the method as text.
    pub fn name(&self) -> (r: &'static str)
        ensures
            r@ == self.spec_name(),
    {
        match self {
            HttpMethod::GET => "GET",
            HttpMethod::POST => "POST",
            HttpMethod::PUT => "PUT",
            HttpMethod::DELETE => "DELETE",
            HttpMethod::PATCH => "PATCH",
            HttpMethod::HEAD => "HEAD",
            HttpMethod::OPTIONS => "OPTIONS",
            HttpMethod::TRACE => "TRACE",
            HttpMethod::CONNECT => "CONNECT",
        }
    }
}

impl Default for HttpMethod {
    /// The default method is GET.
    fn default() -> (r: Self)
        ensures
            r == HttpMethod::GET,
    {
        HttpMethod::GET
    }
}

/// One request header.
#[derive(Debug)]
pub struct Header {
    /// Synthetic identifier, distinct from the entry's position.
    pub id: String,
    /// Header name.
    pub key: String,
    /// Header value.
    pub value: String,
    /// Disabled headers are kept but skipped by the builder.
    pub enabled: bool,
}

impl Clone for Header {
    /// A clone equals the original.
    fn clone(&self) -> (r: Self)
        ensures
            r == *self,
    {
        Header {
            id: self.id.clone(),
            key: self.key.clone(),
            value: self.value.clone(),
            enabled: self.enabled,
        }
    }
}

/// One query parameter.
#[derive(Debug)]
pub struct QueryParam {
    /// Synthetic identifier, distinct from the entry's position.
    pub id: String,
    /// Parameter name.
    pub key: String,
    /// Parameter value.
    pub value: String,
    /// Disabled parameters are kept but skipped by the builder.
    pub enabled: bool,
}

impl Clone for QueryParam {
    /// A clone equals the original.
    fn clone(&self) -> (r: Self)
        ensures
            r == *self,
    {
        QueryParam {
            id: self.id.clone(),
            key: self.key.clone(),
            value: self.value.clone(),
            enabled: self.enabled,
        }
    }
}

/// One multipart form-data item.
#[derive(Debug)]
pub struct FormDataItem {
    /// Synthetic identifier, distinct from the entry's position.
    pub id: String,
    /// Item name.
    pub key: String,
    /// Item value.
    pub value: String,
    /// Disabled items are kept but skipped by the builder.
    pub enabled: bool,
}

impl Clone for FormDataItem {
    /// A clone equals the original.
    fn clone(&self) -> (r: Self)
        ensures
            r == *self,
    {
        FormDataItem {
            id: self.id.clone(),
            key: self.key.clone(),
            value: self.value.clone(),
            enabled: self.enabled,
        }
    }
}

/// The request body.
#[derive(Debug)]
pub enum RequestBody {
    /// No body.
    Empty,
    /// Raw text body.
    Raw(String),
    /// Multipart form data.
    FormData(Vec<FormDataItem>),
    /// Binary file body, by file path.
    Binary(String),
}

impl Default for RequestBody {
    /// The default body is no body.
    fn default() -> (r: Self)
        ensures
            r is Empty,
    {
        RequestBody::Empty
    }
}

/// Equality of two bodies up to list representation: same variant,
/// same text or path, and form-data items equal entry by entry.
pub open spec fn body_eq(a: RequestBody, b: RequestBody) -> bool {
    match (a, b) {
        (RequestBody::Empty, RequestBody::Empty) => true,
        (RequestBody::Raw(x), RequestBody::Raw(y)) => x == y,
        (RequestBody::FormData(x), RequestBody::FormData(y)) => x@ == y@,
        (RequestBody::Binary(x), RequestBody::Binary(y)) => x == y,
        _ => false,
    }
}

/// `body_eq` lifted to an optional body.
pub open spec fn opt_body_eq(a: Option<RequestBody>, b: Option<RequestBody>) -> bool {
    match (a, b) {
        (Option::None, Option::None) => true,
        (Option::Some(x), Option::Some(y)) => body_eq(x, y),
        _ => false,
    }
}

impl Clone for RequestBody {
    /// A clone is the same body, entry by entry.
    fn clone(&self) -> (r: Self)
        ensures
            body_eq(*self, r),
    {
        match self {
            RequestBody::Empty => RequestBody::Empty,
            RequestBody::Raw(s) => RequestBody::Raw(s.clone()),
            RequestBody::FormData(items) => {
                let cloned_items = items.clone();
                proof {
                    assert forall|i: int| 0 <= i < items@.len() implies cloned_items@[i]
                        == items@[i] by {
                        assert(cloned::<FormDataItem>(items@[i], cloned_items@[i]));
                    }
                    assert(cloned_items@ =~= items@);
                }
                RequestBody::FormData(cloned_items)
            },
            RequestBody::Binary(path) => RequestBody::Binary(path.clone()),
        }
    }
}

/// Clone an optional string.
pub(crate) fn clone_opt_string(o: &Option<String>) -> (r: Option<String>)
    ensures
        r == *o,
{
    match o {
        Some(v) => Some(v.clone()),
        None => None,
    }
}

/// One command-line option attached to the command.
#[derive(Debug)]
pub struct CurlOption {
    /// Synthetic identifier, distinct from the entry's position.
    pub id: String,
    /// Option flag, e.g. `-v` or `--location`.
    pub flag: String,
    /// Option value, for options that take one.
    pub value: Option<String>,
    /// Disabled options are kept but skipped by the builder.
    pub enabled: bool,
}

impl Clone for CurlOption {
    /// A clone equals the original.
    fn clone(&self) -> (r: Self)
        ensures
            r == *self,
    {
        CurlOption {
            id: self.id.clone(),
            flag: self.flag.clone(),
            value: clone_opt_string(&self.value),
            enabled: self.enabled,
        }
    }
}

/// The request under construction.
#[derive(Debug)]
pub struct CurlCommand {
    /// Synthetic identifier.
    pub id: String,
    /// Command name.
    pub name: String,
    /// Command description.
    pub description: Option<String>,
    /// Target URL, possibly containing `{{var}}` placeholders.
    pub url: String,
    /// HTTP method; `None` and GET both mean no explicit `-X`.
    pub method: Option<HttpMethod>,
    /// Request headers, in order.
    pub headers: Vec<Header>,
    /// Query parameters, in order.
    pub query_params: Vec<QueryParam>,
    /// Request body.
    pub body: Option<RequestBody>,
    /// Attached command-line options, in order.
    pub options: Vec<CurlOption>,
    /// Creation time, Unix milliseconds.
    pub created_at: i64,
    /// Last-update time, Unix milliseconds.
    pub updated_at: i64,
}

/// Equality of two commands up to list representation: every scalar
/// field equal, and the header / query-parameter / option lists equal
/// entry by entry.
pub open spec fn cmd_eq(a: CurlCommand, b: CurlCommand) -> bool {
    &&& a.id == b.id
    &&& a.name == b.name
    &&& a.description == b.description
    &&& a.url == b.url
    &&& a.method == b.method
    &&& a.headers@ == b.headers@
    &&& a.query_params@ == b.query_params@
    &&& opt_body_eq(a.body, b.body)
    &&& a.options@ == b.options@
    &&& a.created_at == b.created_at
    &&& a.updated_at == b.updated_at
}

impl Clone for CurlCommand {
    /// A clone is the same command, entry by entry.
    fn clone(&self) -> (r: Self)
        ensures
            cmd_eq(*self, r),
    {
        let headers = self.headers.clone();
        let query_params = self.query_params.clone();
        let options = self.options.clone();
        proof {
            assert forall|i: int| 0 <= i < self.headers@.len() implies headers@[i]
                == self.headers@[i] by {
                assert(cloned::<Header>(self.headers@[i], headers@[i]));
            }
            assert(headers@ =~= self.headers@);
            assert forall|i: int| 0 <= i < self.query_params@.len() implies query_params@[i]
                == self.query_params@[i] by {
                assert(cloned::<QueryParam>(self.query_params@[i], query_params@[i]));
            }
            assert(query_params@ =~= self.query_params@);
            assert forall|i: int| 0 <= i < self.options@.len() implies options@[i]
                == self.options@[i] by {
                assert(cloned::<CurlOption>(self.options@[i], options@[i]));
            }
            assert(options@ =~= self.options@);
        }
        let body = match &self.body {
            Some(b) => Some(b.clone()),
            None => None,
        };
        CurlCommand {
            id: self.id.clone(),
            name: self.name.clone(),
            description: clone_opt_string(&self.description),
            url: self.url.clone(),
            method: self.method,
            headers,
            query_params,
            body,
            options,
            created_at: self.created_at,
            updated_at: self.updated_at,
        }
    }
}

impl Default for CurlCommand {
    /// A fresh command: named "New Command", URL `https://`, method
    /// GET, and empty lists.
    fn default() -> (r: Self)
        ensures
            r.name@ == "New Command"@,
            r.description is None,
            r.url@ == "https://"@,
            r.method == Some(HttpMethod::GET),
            r.headers@.len() == 0,
            r.query_params@.len() == 0,
            r.body is None,
            r.options@.len() == 0,
    {
        CurlCommand {
            id: fresh_id(),
            name: String::from_str("New Command"),
            description: None,
            url: String::from_str("https://"),
            method: Some(HttpMethod::GET),
            headers: Vec::new(),
            query_params: Vec::new(),
            body: None,
            options: Vec::new(),
            created_at: now_millis(),
            updated_at: now_millis(),
        }
    }
}

impl CurlCommand {
    /// A fresh command with the given URL.
    pub fn new(url: String) -> (r: Self)
        ensures
            r.name@ == "New Command"@,
            r.description is None,
            r.url == url,
            r.method == Some(HttpMethod::GET),
            r.headers@.len() == 0,
            r.query_params@.len() == 0,
            r.body is None,
            r.options@.len() == 0,
    {
        let mut r = Self::default();
        r.url = url;
        r
    }

    /// Append a header, enabled, with a fresh id.
    pub fn add_header(&mut self, key: String, value: String)
        ensures
            final(self).headers@.len() == old(self).headers@.len() + 1,
            forall|i: int|
                0 <= i < old(self).headers@.len() ==> final(self).headers@[i] == old(
                    self,
                ).headers@[i],
            final(self).headers@.last().key == key,
            final(self).headers@.last().value == value,
            final(self).headers@.last().enabled,
            *final(self) == (CurlCommand {
                headers: final(self).headers,
                updated_at: final(self).updated_at,
                ..*old(self)
            }),
    {
        self.headers.push(
            Header { id: fresh_id(), key, value, enabled: true },
        );
        self.updated_at = now_millis();
    }

    /// Append a query parameter, enabled, with a fresh id.
    pub fn add_query_param(&mut self, key: String, value: String)
        ensures
            final(self).query_params@.len() == old(self).query_params@.len() + 1,
            forall|i: int|
                0 <= i < old(self).query_params@.len() ==> final(self).query_params@[i] == old(
                    self,
                ).query_params@[i],
            final(self).query_params@.last().key == key,
            final(self).query_params@.last().value == value,
            final(self).query_params@.last().enabled,
            *final(self) == (CurlCommand {
                query_params: final(self).query_params,
                updated_at: final(self).updated_at,
                ..*old(self)
            }),
    {
        self.query_params.push(
            QueryParam { id: fresh_id(), key, value, enabled: true },
        );
        self.updated_at = now_millis();
    }

    /// Append a command-line option, enabled, with a fresh id.
    pub fn add_option(&mut self, flag: String, value: Option<String>)
        ensures
            final(self).options@.len() == old(self).options@.len() + 1,
            forall|i: int|
                0 <= i < old(self).options@.len() ==> final(self).options@[i] == old(
                    self,
                ).options@[i],
            final(self).options@.last().flag == flag,
            final(self).options@.last().value == value,
            final(self).options@.last().enabled,
            *final(self) == (CurlCommand {
                options: final(self).options,
                updated_at: final(self).updated_at,
                ..*old(self)
            }),
    {
        self.options.push(
            CurlOption { id: fresh_id(), flag, value, enabled: true },
        );
        self.updated_at = now_millis();
    }

    /// Set the HTTP method.
    pub fn set_method(&mut self, method: HttpMethod)
        ensures
            final(self).method == Some(method),
            *final(self) == (CurlCommand {
                method: Some(method),
                updated_at: final(self).updated_at,
                ..*old(self)
            }),
    {
        self.method = Some(method);
        self.updated_at = now_millis();
    }

    /// Set the request body.
    pub fn set_body(&mut self, body: RequestBody)
        ensures
            final(self).body == Some(body),
            *final(self) == (CurlCommand {
                body: Some(body),
                updated_at: final(self).updated_at,
                ..*old(self)
            }),
    {
        self.body = Some(body);
        self.updated_at = now_millis();
    }
}

/// One substitutable variable of an environment.
#[derive(Debug)]
pub struct EnvironmentVariable {
    /// Synthetic identifier.
    pub id: String,
    /// Variable name, looked up by `{{name}}` placeholders.
    pub key: String,
    /// Variable value.
    pub value: String,
    /// Secret values are masked when displayed.
    pub is_secret: bool,
}

/// First match by key in an ordered variable list: keys need not be
/// unique, and substitution uses the first entry whose key matches.
pub open spec fn lookup_var(vars: Seq<EnvironmentVariable>, key: Seq<char>) -> Option<Seq<char>>
    decreases vars.len(),
{
    if vars.len() == 0 {
        None
    } else if vars[0].key@ == key {
        Some(vars[0].value@)
    } else {
        lookup_var(vars.skip(1), key)
    }
}

/// If no entry before `i` matches, the lookup is decided by the
/// entries from `i` on.
pub proof fn lemma_lookup_var_skip(vars: Seq<EnvironmentVariable>, key: Seq<char>, i: int)
    requires
        0 <= i <= vars.len(),
        forall|j: int| 0 <= j < i ==> vars[j].key@ != key,
    ensures
        lookup_var(vars, key) == lookup_var(vars.skip(i), key),
    decreases i,
{
    if i > 0 {
        assert(vars[0].key@ != key);
        assert forall|j: int| 0 <= j < i - 1 implies vars.skip(1)[j].key@ != key by {
            assert(vars.skip(1)[j] == vars[j + 1]);
        }
        lemma_lookup_var_skip(vars.skip(1), key, i - 1);
        assert(vars.skip(1).skip(i - 1) =~= vars.skip(i));
    } else {
        assert(vars.skip(0) =~= vars);
    }
}

impl Clone for EnvironmentVariable {
    /// A clone equals the original.
    fn clone(&self) -> (r: Self)
        ensures
            r == *self,
    {
        EnvironmentVariable {
            id: self.id.clone(),
            key: self.key.clone(),
            value: self.value.clone(),
            is_secret: self.is_secret,
        }
    }
}

/// A named set of substitutable variables.
#[derive(Debug)]
pub struct Environment {
    /// Synthetic identifier.
    pub id: String,
    /// Environment name.
    pub name: String,
    /// Ordered variable list; lookup takes the first match by key.
    pub variables: Vec<EnvironmentVariable>,
    /// Creation time, Unix milliseconds.
    pub created_at: i64,
    /// Last-update time, Unix milliseconds.
    pub updated_at: i64,
}

impl Clone for Environment {
    /// A clone is the same environment, variable by variable.
    fn clone(&self) -> (r: Self)
        ensures
            r.id == self.id,
            r.name == self.name,
            r.variables@ == self.variables@,
            r.created_at == self.created_at,
            r.updated_at == self.updated_at,
    {
        let variables = self.variables.clone();
        proof {
            assert forall|i: int| 0 <= i < self.variables@.len() implies variables@[i]
                == self.variables@[i] by {
                assert(cloned::<EnvironmentVariable>(self.variables@[i], variables@[i]));
            }
            assert(variables@ =~= self.variables@);
        }
        Environment {
            id: self.id.clone(),
            name: self.name.clone(),
            variables,
            created_at: self.created_at,
            updated_at: self.updated_at,
        }
    }
}

impl Environment {
    /// A fresh environment with no variables.
    pub fn new(name: String) -> (r: Self)
        ensures
            r.name == name,
            r.variables@.len() == 0,
    {
        Environment {
            id: fresh_id(),
            name,
            variables: Vec::new(),
            created_at: now_millis(),
            updated_at: now_millis(),
        }
    }

    /// Append a variable with a fresh id.
    pub fn add_variable(&mut self, key: String, value: String, is_secret: bool)
        ensures
            final(self).variables@.len() == old(self).variables@.len() + 1,
            forall|i: int|
                0 <= i < old(self).variables@.len() ==> final(self).variables@[i] == old(
                    self,
                ).variables@[i],
            final(self).variables@.last().key == key,
            final(self).variables@.last().value == value,
            final(self).variables@.last().is_secret == is_secret,
            final(self).name == old(self).name,
            final(self).id == old(self).id,
    {
        self.variables.push(
            EnvironmentVariable { id: fresh_id(), key, value, is_secret },
        );
    }

    /// Value of the first variable whose key matches, if any.
    pub fn get_variable<'a>(&'a self, key: &str) -> (r: Option<&'a str>)
        ensures
            match r {
                Some(v) => lookup_var(self.variables@, key@) == Some(v@),
                None => lookup_var(self.variables@, key@) is None,
            },
    {
        let n = self.variables.len();
        let mut i: usize = 0;
        while i < n
            invariant
                n == self.variables@.len(),
                i <= n,
                forall|j: int| 0 <= j < i ==> self.variables@[j].key@ != key@,
            decreases n - i,
        {
            if crate::strutil::str_eq_str(self.variables[i].key.as_str(), key) {
                proof {
                    lemma_lookup_var_skip(self.variables@, key@, i as int);
                    assert(self.variables@.skip(i as int)[0] == self.variables@[i as int]);
                }
                return Some(self.variables[i].value.as_str());
            }
            i += 1;
        }
        proof {
            lemma_lookup_var_skip(self.variables@, key@, n as int);
        }
        None
    }

    /// Update the value of the first variable whose key matches.
    /// Returns whether a variable was updated.
    pub fn update_variable(&mut self, key: &str, value: String) -> (r: bool)
        ensures
            r == (lookup_var(old(self).variables@, key@) is Some),
            r ==> exists|i: int|
                {
                    &&& 0 <= i < old(self).variables@.len()
                    &&& old(self).variables@[i].key@ == key@
                    &&& forall|j: int| 0 <= j < i ==> old(self).variables@[j].key@ != key@
                    &&& final(self).variables@ == old(self).variables@.update(
                        i,
                        (EnvironmentVariable { value: value, ..old(self).variables@[i] }),
                    )
                },
            !r ==> *final(self) == *old(self),
            final(self).name == old(self).name,
            final(self).id == old(self).id,
            lookup_var(final(self).variables@, key@) == if r {
                Some(value@)
            } else {
                lookup_var(old(self).variables@, key@)
            },
    {
        let n = self.variables.len();
        let mut i: usize = 0;
        while i < n
            invariant
                *self == *old(self),
                n == self.variables@.len(),
                i <= n,
                forall|j: int| 0 <= j < i ==> self.variables@[j].key@ != key@,
            decreases n - i,
        {
            if crate::strutil::str_eq_str(self.variables[i].key.as_str(), key) {
                proof {
                    lemma_lookup_var_skip(self.variables@, key@, i as int);
                    assert(self.variables@.skip(i as int)[0] == self.variables@[i as int]);
                }
                let ghost val_spec = value;
                self.variables[i].value = value;
                self.updated_at = now_millis();
                proof {
                    let idx = i as int;
                    assert(self.variables@ == old(self).variables@.update(
                        idx,
                        (EnvironmentVariable { value: val_spec, ..old(self).variables@[idx] }),
                    ));
                    assert forall|j: int| 0 <= j < idx implies self.variables@[j].key@
                        != key@ by {
                        assert(self.variables@[j] == old(self).variables@[j]);
                    }
                    lemma_lookup_var_skip(self.variables@, key@, idx);
                    assert(self.variables@.skip(idx)[0] == self.variables@[idx]);
                }
                return true;
            }
            i += 1;
        }
        proof {
            lemma_lookup_var_skip(self.variables@, key@, n as int);
        }
        false
    }

    /// Remove every variable whose key matches, keeping the surviving
    /// entries' relative order.  Returns whether anything was removed.
    pub fn remove_variable(&mut self, key: &str) -> (r: bool)
        ensures
            final(self).variables@ == old(self).variables@.filter(
                |v: EnvironmentVariable| v.key@ != key@,
            ),
            r == (final(self).variables@.len() < old(self).variables@.len()),
            final(self).name == old(self).name,
            final(self).id == old(self).id,
    {
        let n = self.variables.len();
        let mut kept: Vec<EnvironmentVariable> = Vec::new();
        let mut i: usize = 0;
        while i < n
            invariant
                n == self.variables@.len(),
                i <= n,
                kept@ == self.variables@.take(i as int).filter(
                    |v: EnvironmentVariable| v.key@ != key@,
                ),
                kept@.len() <= i,
            decreases n - i,
        {
            let ghost prefix = self.variables@.take(i as int);
            if !crate::strutil::str_eq_str(self.variables[i].key.as_str(), key) {
                kept.push(self.variables[i].clone());
            }
            proof {
                reveal(Seq::filter);
                let pushed = prefix.push(self.variables@[i as int]);
                assert(self.variables@.take(i + 1) =~= pushed);
                assert(pushed.drop_last() =~= prefix);
                assert(pushed.last() == self.variables@[i as int]);
            }
            i += 1;
        }
        proof {
            assert(self.variables@.take(n as int) =~= self.variables@);
        }
        let removed = kept.len() < self.variables.len();
        self.variables = kept;
        self.updated_at = now_millis();
        removed
    }
}

/// A saved snapshot of a command, loadable back into the editor.
#[derive(Debug)]
pub struct CommandTemplate {
    /// Synthetic identifier.
    pub id: String,
    /// Template name.
    pub name: String,
    /// Template description.
    pub description: Option<String>,
    /// The saved command.  Loading clones it; template and live
    /// command evolve independently afterwards.
    pub command: CurlCommand,
    /// Template category.
    pub category: Option<String>,
    /// Creation time, Unix milliseconds.
    pub created_at: i64,
    /// Last-update time, Unix milliseconds.
    pub updated_at: i64,
}

impl Clone for CommandTemplate {
    /// A clone is the same template, with the command cloned entry by
    /// entry.
    fn clone(&self) -> (r: Self)
        ensures
            r.id == self.id,
            r.name == self.name,
            r.description == self.description,
            cmd_eq(self.command, r.command),
            r.category == self.category,
            r.created_at == self.created_at,
            r.updated_at == self.updated_at,
    {
        CommandTemplate {
            id: self.id.clone(),
            name: self.name.clone(),
            description: clone_opt_string(&self.description),
            command: self.command.clone(),
            category: clone_opt_string(&self.category),
            created_at: self.created_at,
            updated_at: self.updated_at,
        }
    }
}

impl CommandTemplate {
    /// A fresh template holding the given command.
    pub fn new(name: String, command: CurlCommand) -> (r: Self)
        ensures
            r.name == name,
            r.command == command,
            r.description is None,
            r.category is None,
    {
        CommandTemplate {
            id: fresh_id(),
            name,
            description: None,
            command,
            category: None,
            created_at: now_millis(),
            updated_at: now_millis(),
        }
    }

    /// Set the template description.
    pub fn set_description(&mut self, description: String)
        ensures
            *final(self) == (CommandTemplate { description: Some(description), ..*old(self) }),
    {
        self.description = Some(description);
    }

    /// Set the template category.
    pub fn set_category(&mut self, category: String)
        ensures
            *final(self) == (CommandTemplate { category: Some(category), ..*old(self) }),
    {
        self.category = Some(category);
    }
}

} // verus!
