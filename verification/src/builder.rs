//! The builder: turns a command model plus an environment into the
//! final shell command string.  The pipeline is fixed: `curl`, enabled
//! options, an explicit method when it is not GET, enabled headers, the
//! body, and last the URL with its enabled query parameters appended;
//! every free-text piece goes through environment-variable
//! substitution, and the collected arguments are joined, quoted and
//! line-wrapped deterministically.

use vstd::prelude::*;

verus! {

use vstd::string::StrSliceExecFns;
use crate::models::{
    lookup_var, CurlCommand, CurlOption, Environment, EnvironmentVariable, FormDataItem, Header,
    HttpMethod, QueryParam, RequestBody,
};
use crate::strutil::{
    all_space, all_space_chars, chars_of, chars_contain, seq_contains_char, string_from_chars,
};

/// Length of the leading run of characters that may appear in a
/// placeholder name: anything but `:` and `}`.
pub open spec fn name_len(t: Seq<char>) -> int
    decreases t.len(),
{
    if t.len() == 0 || t[0] == ':' || t[0] == '}' {
        0
    } else {
        1 + name_len(t.skip(1))
    }
}

/// Length of the leading run of default-value characters: anything but
/// `}`.
pub open spec fn default_len(t: Seq<char>) -> int
    decreases t.len(),
{
    if t.len() == 0 || t[0] == '}' {
        0
    } else {
        1 + default_len(t.skip(1))
    }
}

proof fn lemma_name_len_bounds(t: Seq<char>)
    ensures
        0 <= name_len(t) <= t.len(),
    decreases t.len(),
{
    if t.len() > 0 && t[0] != ':' && t[0] != '}' {
        lemma_name_len_bounds(t.skip(1));
    }
}

proof fn lemma_default_len_bounds(t: Seq<char>)
    ensures
        0 <= default_len(t) <= t.len(),
    decreases t.len(),
{
    if t.len() > 0 && t[0] != '}' {
        lemma_default_len_bounds(t.skip(1));
    }
}

/// Skipping a prefix of non-stop characters shifts the run length.
proof fn lemma_name_len_skip(t: Seq<char>, k: int)
    requires
        0 <= k <= t.len(),
        forall|m: int| 0 <= m < k ==> t[m] != ':' && t[m] != '}',
    ensures
        name_len(t) == k + name_len(t.skip(k)),
    decreases k,
{
    if k > 0 {
        assert forall|m: int| 0 <= m < k - 1 implies t.skip(1)[m] != ':' && t.skip(1)[m]
            != '}' by {
            assert(t.skip(1)[m] == t[m + 1]);
        }
        lemma_name_len_skip(t.skip(1), k - 1);
        assert(t.skip(1).skip(k - 1) =~= t.skip(k));
    } else {
        assert(t.skip(0) =~= t);
    }
}

/// Skipping a prefix of non-`}` characters shifts the run length.
proof fn lemma_default_len_skip(t: Seq<char>, k: int)
    requires
        0 <= k <= t.len(),
        forall|m: int| 0 <= m < k ==> t[m] != '}',
    ensures
        default_len(t) == k + default_len(t.skip(k)),
    decreases k,
{
    if k > 0 {
        assert forall|m: int| 0 <= m < k - 1 implies t.skip(1)[m] != '}' by {
            assert(t.skip(1)[m] == t[m + 1]);
        }
        lemma_default_len_skip(t.skip(1), k - 1);
        assert(t.skip(1).skip(k - 1) =~= t.skip(k));
    } else {
        assert(t.skip(0) =~= t);
    }
}

/// A placeholder match at the very start of `t`: `{{name}}` with a
/// non-empty name, or `{{name:default}}` with a possibly empty
/// default.  Yields the name, the default if one was written, and the
/// length of the matched text.
pub open spec fn match_at_start(t: Seq<char>) -> Option<(Seq<char>, Option<Seq<char>>, int)> {
    if t.len() >= 2 && t[0] == '{' && t[1] == '{' {
        let rest = t.skip(2);
        let nl = name_len(rest);
        if nl == 0 {
            Option::None
        } else {
            let name = rest.take(nl);
            if nl < rest.len() && rest[nl] == ':' {
                let after = rest.skip(nl + 1);
                let dl = default_len(after);
                if dl + 2 <= after.len() && after[dl] == '}' && after[dl + 1] == '}' {
                    Option::Some((name, Option::Some(after.take(dl)), nl + dl + 5))
                } else {
                    Option::None
                }
            } else if nl + 2 <= rest.len() && rest[nl] == '}' && rest[nl + 1] == '}' {
                Option::Some((name, Option::None, nl + 4))
            } else {
                Option::None
            }
        }
    } else {
        Option::None
    }
}

/// A match takes at least five characters and never more than the
/// whole text.
proof fn lemma_match_len(t: Seq<char>)
    requires
        match_at_start(t) is Some,
    ensures
        5 <= match_at_start(t)->Some_0.2 <= t.len(),
{
    let rest = t.skip(2);
    lemma_name_len_bounds(rest);
    let nl = name_len(rest);
    if nl < rest.len() && rest[nl] == ':' {
        lemma_default_len_bounds(rest.skip(nl + 1));
    }
}

/// What one matched placeholder becomes: the first environment value
/// whose key is the name; else the default, when one was written; else
/// the matched text itself, unchanged.
pub open spec fn replacement(
    name: Seq<char>,
    dflt: Option<Seq<char>>,
    whole: Seq<char>,
    vars: Seq<EnvironmentVariable>,
) -> Seq<char> {
    match lookup_var(vars, name) {
        Option::Some(v) => v,
        Option::None => match dflt {
            Option::Some(d) => d,
            Option::None => whole,
        },
    }
}

/// Single left-to-right substitution pass: at each position, replace a
/// placeholder match and continue after it — a substituted value is
/// never re-scanned — or keep the character and move on.
pub open spec fn subst(t: Seq<char>, vars: Seq<EnvironmentVariable>) -> Seq<char>
    decreases t.len(),
{
    if t.len() == 0 {
        Seq::empty()
    } else {
        match match_at_start(t) {
            Option::Some((name, dflt, len)) => {
                if 5 <= len <= t.len() {
                    replacement(name, dflt, t.take(len), vars) + subst(t.skip(len), vars)
                } else {
                    Seq::empty()
                }
            },
            Option::None => seq![t[0]] + subst(t.skip(1), vars),
        }
    }
}

/// Copy a range of a character vector.
fn subvec(t: &Vec<char>, from: usize, to: usize) -> (r: Vec<char>)
    requires
        from <= to <= t@.len(),
    ensures
        r@ == t@.subrange(from as int, to as int),
{
    let mut r: Vec<char> = Vec::new();
    let mut i: usize = from;
    while i < to
        invariant
            from <= i <= to <= t@.len(),
            r@ == t@.subrange(from as int, i as int),
        decreases to - i,
    {
        r.push(t[i]);
        proof {
            assert(r@ =~= t@.subrange(from as int, i + 1));
        }
        i += 1;
    }
    r
}

/// Compare a string's characters with a character vector.
fn str_eq_chars(s: &str, v: &Vec<char>) -> (r: bool)
    ensures
        r == (s@ == v@),
{
    let n = s.unicode_len();
    if n != v.len() {
        return false;
    }
    let mut i: usize = 0;
    while i < n
        invariant
            n == s@.len(),
            n == v@.len(),
            i <= n,
            forall|j: int| 0 <= j < i ==> s@[j] == v@[j],
        decreases n - i,
    {
        if s.get_char(i) != v[i] {
            return false;
        }
        i += 1;
    }
    proof {
        assert(s@ =~= v@);
    }
    true
}

/// Look up a placeholder name in the environment: first match by key.
fn lookup_value(env: &Environment, name: &Vec<char>) -> (r: Option<Vec<char>>)
    ensures
        match r {
            Some(v) => lookup_var(env.variables@, name@) == Some(v@),
            None => lookup_var(env.variables@, name@) is None,
        },
{
    let n = env.variables.len();
    let mut i: usize = 0;
    while i < n
        invariant
            n == env.variables@.len(),
            i <= n,
            forall|j: int| 0 <= j < i ==> env.variables@[j].key@ != name@,
        decreases n - i,
    {
        if str_eq_chars(env.variables[i].key.as_str(), name) {
            proof {
                crate::models::lemma_lookup_var_skip(env.variables@, name@, i as int);
                assert(env.variables@.skip(i as int)[0] == env.variables@[i as int]);
            }
            return Some(chars_of(env.variables[i].value.as_str()));
        }
        i += 1;
    }
    proof {
        crate::models::lemma_lookup_var_skip(env.variables@, name@, n as int);
    }
    None
}

/// Try to match a placeholder starting at position `i` of `t`.
fn try_match(t: &Vec<char>, i: usize) -> (r: Option<(Vec<char>, Option<Vec<char>>, usize)>)
    requires
        i <= t@.len(),
    ensures
        match r {
            Some(m) => {
                &&& match_at_start(t@.skip(i as int)) matches Some(sm)
                &&& sm.0 == m.0@
                &&& sm.1 == (match m.1 {
                    Option::Some(d) => Option::Some(d@),
                    Option::None => Option::None::<Seq<char>>,
                })
                &&& sm.2 == m.2 as int
                &&& i + m.2 <= t@.len()
            },
            None => match_at_start(t@.skip(i as int)) is None,
        },
{
    let ghost s = t@.skip(i as int);
    let n = t.len();
    if n - i < 2 || t[i] != '{' || t[i + 1] != '{' {
        return None;
    }
    proof {
        assert(s[0] == t@[i as int]);
        assert(s[1] == t@[i + 1]);
    }
    // Scan the name run.
    let start = i + 2;
    let mut j: usize = start;
    while j < n && t[j] != ':' && t[j] != '}'
        invariant
            start <= j <= n,
            n == t@.len(),
            i + 2 == start,
            forall|m: int| start <= m < j ==> t@[m] != ':' && t@[m] != '}',
        decreases n - j,
    {
        j += 1;
    }
    let ghost rest = s.skip(2);
    proof {
        assert(rest =~= t@.skip(start as int));
        assert forall|m: int| 0 <= m < j - start implies rest[m] != ':' && rest[m] != '}' by {
            assert(rest[m] == t@[start + m]);
        }
        lemma_name_len_skip(rest, j - start);
        assert(rest.skip(j - start) =~= t@.skip(j as int));
        if j < n {
            assert(t@.skip(j as int)[0] == t@[j as int]);
        }
        assert(name_len(rest) == j - start);
    }
    if j == start {
        // Empty name: no match.
        return None;
    }
    let name = subvec(t, start, j);
    proof {
        assert(name@ =~= rest.take(j - start));
    }
    if j < n && t[j] == ':' {
        // Scan the default run.
        let dstart = j + 1;
        let mut k: usize = dstart;
        while k < n && t[k] != '}'
            invariant
                dstart <= k <= n,
                n == t@.len(),
                forall|m: int| dstart <= m < k ==> t@[m] != '}',
            decreases n - k,
        {
            k += 1;
        }
        let ghost after = rest.skip(j - start + 1);
        proof {
            assert(after =~= t@.skip(dstart as int));
            assert forall|m: int| 0 <= m < k - dstart implies after[m] != '}' by {
                assert(after[m] == t@[dstart + m]);
            }
            lemma_default_len_skip(after, k - dstart);
            assert(after.skip(k - dstart) =~= t@.skip(k as int));
            if k < n {
                assert(t@.skip(k as int)[0] == t@[k as int]);
            }
            assert(default_len(after) == k - dstart);
        }
        if n - k >= 2 && t[k] == '}' && t[k + 1] == '}' {
            let dflt = subvec(t, dstart, k);
            let len = k + 2 - i;
            proof {
                assert(after[k - dstart] == t@[k as int]);
                assert(after[k - dstart + 1] == t@[k + 1]);
                assert(dflt@ =~= after.take(k - dstart));
            }
            Some((name, Some(dflt), len))
        } else {
            None
        }
    } else if n - j >= 2 && t[j] == '}' && t[j + 1] == '}' {
        let len = j + 2 - i;
        proof {
            assert(rest[j - start] == t@[j as int]);
            assert(rest[j - start + 1] == t@[j + 1]);
        }
        Some((name, None, len))
    } else {
        None
    }
}

/// Substitute environment variables into a character sequence.
fn subst_chars(t: &Vec<char>, env: &Environment) -> (r: Vec<char>)
    ensures
        r@ == subst(t@, env.variables@),
{
    let vars = Ghost(env.variables@);
    let mut out: Vec<char> = Vec::new();
    let mut i: usize = 0;
    proof {
        assert(t@.skip(0) =~= t@);
        assert(out@ + subst(t@, vars@) =~= subst(t@, vars@));
    }
    while i < t.len()
        invariant
            vars@ == env.variables@,
            i <= t@.len(),
            subst(t@, vars@) == out@ + subst(t@.skip(i as int), vars@),
        decreases t@.len() - i,
    {
        let ghost s = t@.skip(i as int);
        match try_match(t, i) {
            Some((name, dflt, len)) => {
                proof {
                    lemma_match_len(s);
                }
                let mut piece: Vec<char> = match lookup_value(env, &name) {
                    Some(v) => v,
                    None => {
                        match dflt {
                            Some(d) => d,
                            None => subvec(t, i, i + len),
                        }
                    },
                };
                proof {
                    let sm = match_at_start(s)->Some_0;
                    assert(s.take(sm.2) =~= t@.subrange(i as int, i + len));
                    if lookup_var(vars@, sm.0) is Some {
                        assert(piece@ == lookup_var(vars@, sm.0)->Some_0);
                    } else {
                        match sm.1 {
                            Option::Some(d) => {
                                assert(piece@ == d);
                            },
                            Option::None => {
                                assert(piece@ == s.take(sm.2));
                            },
                        }
                    }
                    assert(piece@ == replacement(sm.0, sm.1, s.take(sm.2), vars@));
                    assert(s.skip(len as int) =~= t@.skip(i + len));
                }
                out.append(&mut piece);
                i += len;
            },
            None => {
                out.push(t[i]);
                proof {
                    assert(s[0] == t@[i as int]);
                    assert(out@ =~= (out@.drop_last() + seq![t@[i as int]]));
                    assert(s.skip(1) =~= t@.skip(i + 1));
                }
                i += 1;
            },
        }
    }
    proof {
        assert(t@.skip(t@.len() as int) =~= Seq::<char>::empty());
        assert(out@ =~= subst(t@, vars@));
    }
    out
}

/// The name of whatever `urlencoding::encode` returns for a given
/// input; it is a function of the input characters alone.
pub uninterp spec fn percent_encoded(s: Seq<char>) -> Seq<char>;

/// Relies on `urlencoding::encode`: percent-encodes every byte except
/// ASCII alphanumerics and `-`, `_`, `.`, `~`; the result depends on
/// the input characters alone, and an empty input stays empty.
#[verifier::external_body]
fn percent_encode(s: &str) -> (r: String)
    ensures
        r@ == percent_encoded(s@),
        s@.len() == 0 ==> r@.len() == 0,
{
    urlencoding::encode(s).into_owned()
}

/// The views of a sequence of character vectors.
pub open spec fn char_views(s: Seq<Vec<char>>) -> Seq<Seq<char>> {
    s.map_values(|v: Vec<char>| v@)
}

/// The arguments one attached option contributes: nothing when
/// disabled; its flag, then its substituted value when it has one.
pub open spec fn opt_arg(o: CurlOption, vars: Seq<EnvironmentVariable>) -> Seq<Seq<char>> {
    if o.enabled {
        match o.value {
            Option::Some(v) => seq![o.flag@, subst(v@, vars)],
            Option::None => seq![o.flag@],
        }
    } else {
        Seq::empty()
    }
}

/// The arguments of all attached options, in list order.
pub open spec fn option_args(options: Seq<CurlOption>, vars: Seq<EnvironmentVariable>) -> Seq<
    Seq<char>,
>
    decreases options.len(),
{
    if options.len() == 0 {
        Seq::empty()
    } else {
        option_args(options.drop_last(), vars) + opt_arg(options.last(), vars)
    }
}

/// The method arguments: `-X <METHOD>` when a method is set and is
/// not GET.
pub open spec fn method_args(method: Option<HttpMethod>) -> Seq<Seq<char>> {
    match method {
        Option::Some(m) => if m == HttpMethod::GET {
            Seq::empty()
        } else {
            seq!["-X"@, m.spec_name()]
        },
        Option::None => Seq::empty(),
    }
}

/// The arguments one header contributes: nothing when disabled; else
/// `-H "key: substituted value"` (the quoting happens at formatting).
pub open spec fn header_arg(h: Header, vars: Seq<EnvironmentVariable>) -> Seq<Seq<char>> {
    if h.enabled {
        seq!["-H"@, h.key@ + ": "@ + subst(h.value@, vars)]
    } else {
        Seq::empty()
    }
}

/// The arguments of all headers, in list order.
pub open spec fn header_args(headers: Seq<Header>, vars: Seq<EnvironmentVariable>) -> Seq<
    Seq<char>,
>
    decreases headers.len(),
{
    if headers.len() == 0 {
        Seq::empty()
    } else {
        header_args(headers.drop_last(), vars) + header_arg(headers.last(), vars)
    }
}

/// The arguments one form-data item contributes: nothing when
/// disabled; else `-F key=substituted value`.
pub open spec fn form_arg(f: FormDataItem, vars: Seq<EnvironmentVariable>) -> Seq<Seq<char>> {
    if f.enabled {
        seq!["-F"@, f.key@ + "="@ + subst(f.value@, vars)]
    } else {
        Seq::empty()
    }
}

/// The arguments of all form-data items, in list order.
pub open spec fn form_args(items: Seq<FormDataItem>, vars: Seq<EnvironmentVariable>) -> Seq<
    Seq<char>,
>
    decreases items.len(),
{
    if items.len() == 0 {
        Seq::empty()
    } else {
        form_args(items.drop_last(), vars) + form_arg(items.last(), vars)
    }
}

/// The body arguments: a raw body becomes `-d <substituted content>`
/// unless its trimmed content is empty; form data contributes each
/// enabled item; a binary body becomes `--data-binary @<path>`.
pub open spec fn body_args(body: Option<RequestBody>, vars: Seq<EnvironmentVariable>) -> Seq<
    Seq<char>,
> {
    match body {
        Option::Some(b) => match b {
            RequestBody::Raw(content) => if all_space(content@) {
                Seq::empty()
            } else {
                seq!["-d"@, subst(content@, vars)]
            },
            RequestBody::FormData(items) => form_args(items@, vars),
            RequestBody::Binary(path) => seq!["--data-binary"@, "@"@ + path@],
            RequestBody::Empty => Seq::empty(),
        },
        Option::None => Seq::empty(),
    }
}

/// One `key=value` query pair, the value substituted and then
/// percent-encoded.
pub open spec fn query_pair(p: QueryParam, vars: Seq<EnvironmentVariable>) -> Seq<char> {
    p.key@ + "="@ + percent_encoded(subst(p.value@, vars))
}

/// The pairs of all enabled query parameters, in list order.
pub open spec fn query_pairs(params: Seq<QueryParam>, vars: Seq<EnvironmentVariable>) -> Seq<
    Seq<char>,
>
    decreases params.len(),
{
    if params.len() == 0 {
        Seq::empty()
    } else {
        query_pairs(params.drop_last(), vars) + (if params.last().enabled {
            seq![query_pair(params.last(), vars)]
        } else {
            Seq::empty()
        })
    }
}

/// Join pieces with `&` between them.
pub open spec fn join_amp(parts: Seq<Seq<char>>) -> Seq<char>
    decreases parts.len(),
{
    if parts.len() == 0 {
        Seq::empty()
    } else if parts.len() == 1 {
        parts[0]
    } else {
        join_amp(parts.drop_last()) + "&"@ + parts.last()
    }
}

/// Whether any query parameter is enabled.
pub open spec fn any_enabled_query(params: Seq<QueryParam>) -> bool {
    exists|i: int| 0 <= i < params.len() && params[i].enabled
}

/// The final URL: the substituted base URL, with the enabled query
/// pairs appended after `?` — or `&` when the base already contains
/// `?`.
pub open spec fn url_with_query(cmd: CurlCommand, vars: Seq<EnvironmentVariable>) -> Seq<char> {
    let base = subst(cmd.url@, vars);
    if !any_enabled_query(cmd.query_params@) {
        base
    } else {
        base + (if seq_contains_char(base, '?') {
            "&"@
        } else {
            "?"@
        }) + join_amp(query_pairs(cmd.query_params@, vars))
    }
}

/// All arguments of the command, in pipeline order.
pub open spec fn build_args(cmd: CurlCommand, vars: Seq<EnvironmentVariable>) -> Seq<Seq<char>> {
    seq!["curl"@] + option_args(cmd.options@, vars) + method_args(cmd.method) + header_args(
        cmd.headers@,
        vars,
    ) + body_args(cmd.body, vars) + seq![url_with_query(cmd, vars)]
}

/// Substitute into a string slice, yielding characters.
fn subst_str(s: &str, env: &Environment) -> (r: Vec<char>)
    ensures
        r@ == subst(s@, env.variables@),
{
    let t = chars_of(s);
    subst_chars(&t, env)
}

/// Whether an argument is wrapped in double quotes for display: it
/// contains a space and is not already quoted.
pub open spec fn needs_quote(a: Seq<char>) -> bool {
    seq_contains_char(a, ' ') && a[0] != '"' && a[0] != '\''
}

/// The argument as displayed.
pub open spec fn quoted(a: Seq<char>) -> Seq<char> {
    if needs_quote(a) {
        seq!['"'] + a + seq!['"']
    } else {
        a
    }
}

/// How many columns the displayed argument takes.
pub open spec fn display_len(a: Seq<char>) -> int {
    if needs_quote(a) {
        a.len() + 2int
    } else {
        a.len() as int
    }
}

/// Format the remaining arguments: space-join, wrapping to column 80
/// with a backslash, newline and six-space indent before an argument
/// that would overrun.  `col` is the current line length.
pub open spec fn format_rest(args: Seq<Seq<char>>, first: bool, col: int) -> Seq<char>
    decreases args.len(),
{
    if args.len() == 0 {
        Seq::empty()
    } else {
        let a = args[0];
        if first {
            quoted(a) + format_rest(args.skip(1), false, col + display_len(a))
        } else if col + a.len() > 80 {
            " \\\n      "@ + " "@ + quoted(a) + format_rest(args.skip(1), false, 7 + display_len(a))
        } else {
            " "@ + quoted(a) + format_rest(args.skip(1), false, col + 1 + display_len(a))
        }
    }
}

/// The whole display string for an argument list.
pub open spec fn format_args_spec(args: Seq<Seq<char>>) -> Seq<char> {
    format_rest(args, true, 0)
}

/// The display string that `build` produces for a command and an
/// environment.
pub open spec fn build_spec(cmd: CurlCommand, vars: Seq<EnvironmentVariable>) -> Seq<char> {
    format_args_spec(build_args(cmd, vars))
}

/// Append a borrowed character vector.
pub fn extend_chars(dst: &mut Vec<char>, src: &Vec<char>)
    ensures
        final(dst)@ == old(dst)@ + src@,
{
    let mut i: usize = 0;
    while i < src.len()
        invariant
            i <= src@.len(),
            dst@ == old(dst)@ + src@.take(i as int),
        decreases src@.len() - i,
    {
        dst.push(src[i]);
        proof {
            assert(old(dst)@ + src@.take(i + 1) =~= (old(dst)@ + src@.take(i as int)).push(
                src@[i as int],
            ));
        }
        i += 1;
    }
    proof {
        assert(src@.take(src@.len() as int) =~= src@);
    }
}

/// Format collected arguments into one display string: space-join,
/// wrap to a fixed width of 80 columns, and double-quote any argument
/// containing a space that is not already quoted.
fn format_curl_command(args: &Vec<Vec<char>>) -> (r: Vec<char>)
    ensures
        r@ == format_args_spec(char_views(args@)),
{
    let ghost views = char_views(args@);
    let mut out: Vec<char> = Vec::new();
    let mut col: u128 = 0;
    let ghost mut gcol: int = 0;
    let mut i: usize = 0;
    proof {
        assert(views.skip(0) =~= views);
        assert(out@ + format_rest(views, true, 0) =~= format_rest(views, true, 0));
    }
    while i < args.len()
        invariant
            views == char_views(args@),
            i <= args@.len(),
            col as int == gcol || (col == 81 && gcol > 80),
            col <= 81,
            (i == 0) ==> (col == 0 && gcol == 0),
            format_args_spec(views) == out@ + format_rest(views.skip(i as int), i == 0, gcol),
        decreases args@.len() - i,
    {
        let ghost rem = views.skip(i as int);
        let ghost a = views[i as int];
        let ghost out0 = out@;
        let ghost gcol0 = gcol;
        let ghost was_first = (i == 0);
        proof {
            assert(rem[0] == a);
            assert(rem.skip(1) =~= views.skip(i + 1));
        }
        let alen = args[i].len();
        if i > 0 {
            if col + (alen as u128) > 80 {
                proof {
                    assert(gcol + a.len() > 80);
                }
                let wrap = chars_of(" \\\n      ");
                extend_chars(&mut out, &wrap);
                col = 6;
                proof {
                    gcol = 6;
                }
            } else {
                proof {
                    assert(gcol + a.len() <= 80);
                }
            }
            out.push(' ');
            col = col + 1;
            proof {
                gcol = gcol + 1;
                assert(out@ =~= out@.drop_last() + seq![' ']);
            }
        }
        let q = {
            let has_space = chars_contain(&args[i], ' ');
            if has_space {
                proof {
                    assert(a.len() > 0);
                }
                let c0 = args[i][0];
                c0 != '"' && c0 != '\''
            } else {
                false
            }
        };
        proof {
            assert(q == needs_quote(a));
        }
        if q {
            out.push('"');
            extend_chars(&mut out, &args[i]);
            out.push('"');
            proof {
                gcol = gcol + a.len() + 2;
            }
            if col > 79 {
                col = 81;
            } else {
                if alen as u128 > 81 - col - 2 {
                    col = 81;
                } else {
                    col = col + (alen as u128) + 2;
                }
            }
        } else {
            extend_chars(&mut out, &args[i]);
            proof {
                gcol = gcol + a.len();
            }
            if alen as u128 > 81 - col {
                col = 81;
            } else {
                col = col + (alen as u128);
            }
        }
        proof {
            reveal_strlit(" ");
            if was_first {
                assert(out@ =~= out0 + quoted(a));
                assert(gcol == gcol0 + display_len(a));
                assert(format_rest(rem, true, gcol0) == quoted(a) + format_rest(
                    rem.skip(1),
                    false,
                    gcol0 + display_len(a),
                ));
                assert(out0 + format_rest(rem, true, gcol0) =~= out@ + format_rest(
                    views.skip(i + 1),
                    false,
                    gcol,
                ));
            } else if gcol0 + a.len() > 80 {
                assert(out@ =~= out0 + " \\\n      "@ + " "@ + quoted(a));
                assert(gcol == 7 + display_len(a));
                assert(format_rest(rem, false, gcol0) == " \\\n      "@ + " "@ + quoted(a)
                    + format_rest(rem.skip(1), false, 7 + display_len(a)));
                assert(out0 + format_rest(rem, false, gcol0) =~= out@ + format_rest(
                    views.skip(i + 1),
                    false,
                    gcol,
                ));
            } else {
                assert(out@ =~= out0 + " "@ + quoted(a));
                assert(gcol == gcol0 + 1 + display_len(a));
                assert(format_rest(rem, false, gcol0) == " "@ + quoted(a) + format_rest(
                    rem.skip(1),
                    false,
                    gcol0 + 1 + display_len(a),
                ));
                assert(out0 + format_rest(rem, false, gcol0) =~= out@ + format_rest(
                    views.skip(i + 1),
                    false,
                    gcol,
                ));
            }
        }
        i += 1;
    }
    proof {
        assert(views.skip(views.len() as int) =~= Seq::<Seq<char>>::empty());
        assert(out@ =~= format_args_spec(views));
    }
    out
}

/// Build the final URL: substituted base, enabled query pairs
/// appended.
fn build_url_with_query(command: &CurlCommand, environment: &Environment) -> (r: Vec<char>)
    ensures
        r@ == url_with_query(*command, environment.variables@),
{
    let ghost vars = environment.variables@;
    let base = subst_str(command.url.as_str(), environment);
    let n = command.query_params.len();
    let mut any: bool = false;
    let mut i: usize = 0;
    while i < n
        invariant
            n == command.query_params@.len(),
            i <= n,
            any == exists|j: int| 0 <= j < i && command.query_params@[j].enabled,
        decreases n - i,
    {
        if command.query_params[i].enabled {
            any = true;
        }
        i += 1;
    }
    if !any {
        return base;
    }
    let mut pairs: Vec<Vec<char>> = Vec::new();
    let mut i: usize = 0;
    proof {
        assert(command.query_params@.take(0) =~= Seq::<QueryParam>::empty());
        assert(char_views(pairs@) =~= query_pairs(command.query_params@.take(0), vars));
    }
    while i < n
        invariant
            vars == environment.variables@,
            n == command.query_params@.len(),
            i <= n,
            char_views(pairs@) == query_pairs(command.query_params@.take(i as int), vars),
        decreases n - i,
    {
        let ghost pairs0 = char_views(pairs@);
        if command.query_params[i].enabled {
            let mut piece = chars_of(command.query_params[i].key.as_str());
            let mut eq_sign = chars_of("=");
            piece.append(&mut eq_sign);
            let sub = subst_str(command.query_params[i].value.as_str(), environment);
            let sub_s = string_from_chars(&sub);
            let enc = percent_encode(sub_s.as_str());
            let mut enc_c = chars_of(enc.as_str());
            piece.append(&mut enc_c);
            proof {
                assert(piece@ == query_pair(command.query_params@[i as int], vars));
            }
            pairs.push(piece);
        }
        proof {
            let t1 = command.query_params@.take(i + 1);
            assert(t1.drop_last() =~= command.query_params@.take(i as int));
            assert(t1.last() == command.query_params@[i as int]);
            assert(char_views(pairs@) =~= pairs0 + (if command.query_params@[i as int].enabled {
                seq![query_pair(command.query_params@[i as int], vars)]
            } else {
                Seq::<Seq<char>>::empty()
            }));
        }
        i += 1;
    }
    proof {
        assert(command.query_params@.take(n as int) =~= command.query_params@);
    }
    let ghost pair_views = char_views(pairs@);
    let ghost base0 = base@;
    let has_q = chars_contain(&base, '?');
    let mut out = base;
    if has_q {
        out.push('&');
    } else {
        out.push('?');
    }
    proof {
        reveal_strlit("&");
        reveal_strlit("?");
        assert(out@ =~= base0 + (if seq_contains_char(base0, '?') {
            "&"@
        } else {
            "?"@
        }) + join_amp(pair_views.take(0)));
    }
    let mut k: usize = 0;
    while k < pairs.len()
        invariant
            pair_views == char_views(pairs@),
            base0 == subst(command.url@, environment.variables@),
            k <= pairs@.len(),
            pairs@.len() > 0 ==> k > 0 || out@ == base0 + (if seq_contains_char(base0, '?') {
                "&"@
            } else {
                "?"@
            }),
            out@ == base0 + (if seq_contains_char(base0, '?') {
                "&"@
            } else {
                "?"@
            }) + join_amp(pair_views.take(k as int)),
        decreases pairs@.len() - k,
    {
        let ghost out0 = out@;
        if k > 0 {
            out.push('&');
        }
        extend_chars(&mut out, &pairs[k]);
        proof {
            reveal_strlit("&");
            let t1 = pair_views.take(k + 1);
            assert(t1.drop_last() =~= pair_views.take(k as int));
            assert(t1.last() == pair_views[k as int]);
            assert(pair_views[k as int] == pairs@[k as int]@);
            if k > 0 {
                assert(t1.len() >= 2);
                assert(join_amp(t1) == join_amp(pair_views.take(k as int)) + "&"@ + pair_views[k
                    as int]);
                assert(out@ =~= out0 + "&"@ + pair_views[k as int]);
            } else {
                assert(t1.len() == 1);
                assert(join_amp(t1) == pair_views[0]);
                assert(out@ =~= out0 + pair_views[0]);
            }
            assert(out@ =~= base0 + (if seq_contains_char(base0, '?') {
                "&"@
            } else {
                "?"@
            }) + join_amp(t1));
        }
        k += 1;
    }
    proof {
        assert(pair_views.take(pairs@.len() as int) =~= pair_views);
        assert(any_enabled_query(command.query_params@));
    }
    out
}

/// The command builder: a pure function from command model and
/// environment to the display string.
pub struct CommandBuilder;

impl CommandBuilder {
    /// Build the display command string for a command and an
    /// environment: `curl`, enabled options, the method when not GET,
    /// enabled headers, the body, and the URL with enabled query
    /// parameters, space-joined, quoted and wrapped.
    pub fn build(command: &CurlCommand, environment: &Environment) -> (r: String)
        ensures
            r@ == build_spec(*command, environment.variables@),
    {
        let ghost vars = environment.variables@;
        let mut args: Vec<Vec<char>> = Vec::new();
        args.push(chars_of("curl"));
        proof {
            assert(command.options@.take(0) =~= Seq::<CurlOption>::empty());
            assert(char_views(args@) =~= seq!["curl"@] + option_args(
                command.options@.take(0),
                vars,
            ));
        }
        let n = command.options.len();
        let mut i: usize = 0;
        while i < n
            invariant
                vars == environment.variables@,
                n == command.options@.len(),
                i <= n,
                char_views(args@) == seq!["curl"@] + option_args(
                    command.options@.take(i as int),
                    vars,
                ),
            decreases n - i,
        {
            let ghost args0 = char_views(args@);
            if command.options[i].enabled {
                args.push(chars_of(command.options[i].flag.as_str()));
                match &command.options[i].value {
                    Some(v) => {
                        args.push(subst_str(v.as_str(), environment));
                    },
                    None => {},
                }
            }
            proof {
                let t1 = command.options@.take(i + 1);
                assert(t1.drop_last() =~= command.options@.take(i as int));
                assert(t1.last() == command.options@[i as int]);
                assert(char_views(args@) =~= args0 + opt_arg(command.options@[i as int], vars));
            }
            i += 1;
        }
        proof {
            assert(command.options@.take(n as int) =~= command.options@);
        }
        let ghost after_options = char_views(args@);
        match &command.method {
            Some(m) => {
                if !(*m == HttpMethod::GET) {
                    args.push(chars_of("-X"));
                    args.push(chars_of(m.name()));
                }
            },
            None => {},
        }
        proof {
            assert(char_views(args@) =~= after_options + method_args(command.method));
        }
        let ghost after_method = char_views(args@);
        let hn = command.headers.len();
        let mut h: usize = 0;
        proof {
            assert(command.headers@.take(0) =~= Seq::<Header>::empty());
            assert(char_views(args@) =~= after_method + header_args(
                command.headers@.take(0),
                vars,
            ));
        }
        while h < hn
            invariant
                vars == environment.variables@,
                hn == command.headers@.len(),
                h <= hn,
                char_views(args@) == after_method + header_args(
                    command.headers@.take(h as int),
                    vars,
                ),
            decreases hn - h,
        {
            let ghost args0 = char_views(args@);
            if command.headers[h].enabled {
                args.push(chars_of("-H"));
                let mut piece = chars_of(command.headers[h].key.as_str());
                let mut sep = chars_of(": ");
                piece.append(&mut sep);
                let mut val = subst_str(command.headers[h].value.as_str(), environment);
                piece.append(&mut val);
                args.push(piece);
            }
            proof {
                let t1 = command.headers@.take(h + 1);
                assert(t1.drop_last() =~= command.headers@.take(h as int));
                assert(t1.last() == command.headers@[h as int]);
                assert(char_views(args@) =~= args0 + header_arg(command.headers@[h as int], vars));
            }
            h += 1;
        }
        proof {
            assert(command.headers@.take(hn as int) =~= command.headers@);
        }
        let ghost after_headers = char_views(args@);
        match &command.body {
            Some(b) => match b {
                RequestBody::Raw(content) => {
                    let cc = chars_of(content.as_str());
                    if !all_space_chars(&cc) {
                        args.push(chars_of("-d"));
                        args.push(subst_chars(&cc, environment));
                    }
                },
                RequestBody::FormData(items) => {
                    let fnum = items.len();
                    let mut f: usize = 0;
                    proof {
                        assert(items@.take(0) =~= Seq::<FormDataItem>::empty());
                        assert(char_views(args@) =~= after_headers + form_args(
                            items@.take(0),
                            vars,
                        ));
                    }
                    while f < fnum
                        invariant
                            vars == environment.variables@,
                            fnum == items@.len(),
                            f <= fnum,
                            char_views(args@) == after_headers + form_args(
                                items@.take(f as int),
                                vars,
                            ),
                        decreases fnum - f,
                    {
                        let ghost args0 = char_views(args@);
                        if items[f].enabled {
                            args.push(chars_of("-F"));
                            let mut piece = chars_of(items[f].key.as_str());
                            let mut sep = chars_of("=");
                            piece.append(&mut sep);
                            let mut val = subst_str(items[f].value.as_str(), environment);
                            piece.append(&mut val);
                            args.push(piece);
                        }
                        proof {
                            let t1 = items@.take(f + 1);
                            assert(t1.drop_last() =~= items@.take(f as int));
                            assert(t1.last() == items@[f as int]);
                            assert(char_views(args@) =~= args0 + form_arg(items@[f as int], vars));
                        }
                        f += 1;
                    }
                    proof {
                        assert(items@.take(fnum as int) =~= items@);
                    }
                },
                RequestBody::Binary(path) => {
                    args.push(chars_of("--data-binary"));
                    let mut piece = chars_of("@");
                    let mut p = chars_of(path.as_str());
                    piece.append(&mut p);
                    args.push(piece);
                },
                RequestBody::Empty => {},
            },
            None => {},
        }
        proof {
            assert(char_views(args@) =~= after_headers + body_args(command.body, vars));
        }
        let ghost after_body = char_views(args@);
        args.push(build_url_with_query(command, environment));
        proof {
            assert(char_views(args@) =~= after_body + seq![url_with_query(*command, vars)]);
            assert(char_views(args@) =~= build_args(*command, vars));
        }
        let out = format_curl_command(&args);
        string_from_chars(&out)
    }

    /// Substitute `{{name}}` and `{{name:default}}` placeholders using
    /// the environment's variables, one match at a time, left to
    /// right, never re-scanning a substituted value.
    pub fn substitute_env_vars(input: &str, environment: &Environment) -> (r: String)
        ensures
            r@ == subst(input@, environment.variables@),
    {
        let t = chars_of(input);
        let out = subst_chars(&t, environment);
        string_from_chars(&out)
    }
}

/// Placeholder text `{{name}}`, as characters.
pub open spec fn placeholder(name: Seq<char>) -> Seq<char> {
    seq!['{', '{'] + name + seq!['}', '}']
}

/// Placeholder text `{{name:default}}`, as characters.
pub open spec fn placeholder_with_default(name: Seq<char>, dflt: Seq<char>) -> Seq<char> {
    seq!['{', '{'] + name + seq![':'] + dflt + seq!['}', '}']
}

/// Substituting a lone `{{name}}` yields the environment value of
/// `name` when one exists, else the literal placeholder text
/// unchanged.
pub proof fn lemma_substitute_single(name: Seq<char>, vars: Seq<EnvironmentVariable>)
    requires
        name.len() > 0,
        forall|i: int| 0 <= i < name.len() ==> name[i] != ':' && name[i] != '}',
    ensures
        subst(placeholder(name), vars) == (match lookup_var(vars, name) {
            Option::Some(v) => v,
            Option::None => placeholder(name),
        }),
{
    let pat = placeholder(name);
    let rest = pat.skip(2);
    assert(rest =~= name + seq!['}', '}']);
    assert forall|m: int| 0 <= m < name.len() implies rest[m] != ':' && rest[m] != '}' by {
        assert(rest[m] == name[m]);
    }
    lemma_name_len_skip(rest, name.len() as int);
    assert(rest.skip(name.len() as int) =~= seq!['}', '}']);
    assert(name_len(seq!['}', '}']) == 0);
    let nl = name_len(rest);
    assert(nl == name.len());
    assert(rest[nl] == '}');
    assert(rest[nl + 1] == '}');
    assert(rest.take(nl) =~= name);
    assert(match_at_start(pat) == Option::Some((name, Option::None::<Seq<char>>, nl + 4)));
    assert(pat.len() == nl + 4);
    assert(pat.take(nl + 4) =~= pat);
    assert(pat.skip(nl + 4) =~= Seq::<char>::empty());
    assert(subst(Seq::<char>::empty(), vars) == Seq::<char>::empty());
    assert(replacement(name, Option::None, pat, vars) + Seq::<char>::empty() =~= replacement(
        name,
        Option::None,
        pat,
        vars,
    ));
    assert(subst(pat, vars) =~= replacement(name, Option::None, pat, vars));
}

/// Substituting a lone `{{name:default}}` yields the environment value
/// of `name` when one exists, else the default.
pub proof fn lemma_substitute_with_default(
    name: Seq<char>,
    dflt: Seq<char>,
    vars: Seq<EnvironmentVariable>,
)
    requires
        name.len() > 0,
        forall|i: int| 0 <= i < name.len() ==> name[i] != ':' && name[i] != '}',
        forall|i: int| 0 <= i < dflt.len() ==> dflt[i] != '}',
    ensures
        subst(placeholder_with_default(name, dflt), vars) == (match lookup_var(vars, name) {
            Option::Some(v) => v,
            Option::None => dflt,
        }),
{
    let pat = placeholder_with_default(name, dflt);
    let rest = pat.skip(2);
    assert(rest =~= name + seq![':'] + dflt + seq!['}', '}']);
    assert forall|m: int| 0 <= m < name.len() implies rest[m] != ':' && rest[m] != '}' by {
        assert(rest[m] == name[m]);
    }
    lemma_name_len_skip(rest, name.len() as int);
    assert(rest.skip(name.len() as int) =~= seq![':'] + dflt + seq!['}', '}']);
    assert(name_len(seq![':'] + dflt + seq!['}', '}']) == 0);
    let nl = name_len(rest);
    assert(nl == name.len());
    assert(rest[nl] == ':');
    let after = rest.skip(nl + 1);
    assert(after =~= dflt + seq!['}', '}']);
    assert forall|m: int| 0 <= m < dflt.len() implies after[m] != '}' by {
        assert(after[m] == dflt[m]);
    }
    lemma_default_len_skip(after, dflt.len() as int);
    assert(after.skip(dflt.len() as int) =~= seq!['}', '}']);
    assert(default_len(seq!['}', '}']) == 0);
    let dl = default_len(after);
    assert(dl == dflt.len());
    assert(after[dl] == '}');
    assert(after[dl + 1] == '}');
    assert(rest.take(nl) =~= name);
    assert(after.take(dl) =~= dflt);
    assert(match_at_start(pat) == Option::Some((name, Option::Some(dflt), nl + dl + 5)));
    assert(pat.len() == nl + dl + 5);
    assert(pat.skip(nl + dl + 5) =~= Seq::<char>::empty());
    assert(pat.take(nl + dl + 5) =~= pat);
    assert(subst(Seq::<char>::empty(), vars) == Seq::<char>::empty());
    assert(replacement(name, Option::Some(dflt), pat, vars) + Seq::<char>::empty()
        =~= replacement(name, Option::Some(dflt), pat, vars));
    assert(subst(pat, vars) =~= replacement(name, Option::Some(dflt), pat, vars));
}

/// Options that are all disabled contribute no arguments.
proof fn lemma_option_args_disabled(options: Seq<CurlOption>, vars: Seq<EnvironmentVariable>)
    requires
        forall|i: int| 0 <= i < options.len() ==> !options[i].enabled,
    ensures
        option_args(options, vars) == Seq::<Seq<char>>::empty(),
    decreases options.len(),
{
    if options.len() > 0 {
        lemma_option_args_disabled(options.drop_last(), vars);
        assert(option_args(options, vars) =~= Seq::<Seq<char>>::empty());
    }
}

/// Headers that are all disabled contribute no arguments.
proof fn lemma_header_args_disabled(headers: Seq<Header>, vars: Seq<EnvironmentVariable>)
    requires
        forall|i: int| 0 <= i < headers.len() ==> !headers[i].enabled,
    ensures
        header_args(headers, vars) == Seq::<Seq<char>>::empty(),
    decreases headers.len(),
{
    if headers.len() > 0 {
        lemma_header_args_disabled(headers.drop_last(), vars);
        assert(header_args(headers, vars) =~= Seq::<Seq<char>>::empty());
    }
}

/// For a command with no enabled options, no method override, no
/// enabled headers, an empty body and no enabled query parameters, the
/// built string is exactly `curl <url>` — provided the substituted URL
/// contains no space and fits on the first line.
pub proof fn lemma_build_plain_command(cmd: CurlCommand, vars: Seq<EnvironmentVariable>)
    requires
        forall|i: int| 0 <= i < cmd.options@.len() ==> !cmd.options@[i].enabled,
        cmd.method is None || cmd.method == Some(HttpMethod::GET),
        forall|i: int| 0 <= i < cmd.headers@.len() ==> !cmd.headers@[i].enabled,
        cmd.body is None || (cmd.body matches Some(b) && b is Empty),
        !any_enabled_query(cmd.query_params@),
        !seq_contains_char(subst(cmd.url@, vars), ' '),
        subst(cmd.url@, vars).len() <= 76,
    ensures
        build_spec(cmd, vars) == "curl"@ + " "@ + subst(cmd.url@, vars),
{
    reveal_strlit("curl");
    reveal_strlit(" ");
    let url = subst(cmd.url@, vars);
    lemma_option_args_disabled(cmd.options@, vars);
    lemma_header_args_disabled(cmd.headers@, vars);
    let args = build_args(cmd, vars);
    assert(args =~= seq!["curl"@, url]);
    assert("curl"@.len() == 4);
    assert(!seq_contains_char("curl"@, ' ')) by {
        assert forall|i: int| 0 <= i < 4 implies "curl"@[i] != ' ' by {}
    }
    assert(!needs_quote("curl"@));
    assert(quoted("curl"@) == "curl"@);
    assert(display_len("curl"@) == 4);
    let rest1 = args.skip(1);
    assert(rest1 =~= seq![url]);
    assert(rest1[0] == url);
    assert(4 + url.len() <= 80);
    assert(!needs_quote(url));
    assert(quoted(url) == url);
    assert(rest1.skip(1) =~= Seq::<Seq<char>>::empty());
    assert(format_rest(rest1, false, 4) == " "@ + url + format_rest(
        rest1.skip(1),
        false,
        4 + 1 + display_len(url),
    ));
    assert(format_args_spec(args) == quoted("curl"@) + format_rest(args.skip(1), false, 4));
    assert(args.skip(1) =~= rest1);
    assert(build_spec(cmd, vars) =~= "curl"@ + " "@ + url);
}

} // verus!
