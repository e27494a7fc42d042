//! The output parser: splits the external tool's captured output into
//! an HTTP status line, headers and body, and renders the result for
//! display, raw or formatted, with a human-readable size.

use vstd::prelude::*;

verus! {

use vstd::string::StrSliceExecFns;
use crate::executor::ExecutionResult;
use crate::strutil::{
    chars_of, dec_chars, dec_digits, is_space_char, parse_bounded, parse_unsigned,
    string_from_chars,
};

/// How a response is rendered.
#[derive(Clone, Copy, PartialEq, Eq, Structural, Debug)]
pub enum OutputFormat {
    /// Raw output.
    Raw,
    /// Formatted output.
    Formatted,
}

/// A parsed response.
#[derive(Debug)]
pub struct ResponseInfo {
    /// HTTP status code, when a status line was found.
    pub status_code: Option<u16>,
    /// HTTP status message, when a status line was found.
    pub status_message: Option<String>,
    /// Response headers, in order of appearance.
    pub headers: Vec<(String, String)>,
    /// Response body, trimmed.
    pub body: String,
    /// Body size in bytes.
    pub size: usize,
    /// Response time, in milliseconds.
    pub time_ms: u64,
}

/// Clone a header list.
fn clone_headers(v: &Vec<(String, String)>) -> (r: Vec<(String, String)>)
    ensures
        r@ == v@,
{
    let mut r: Vec<(String, String)> = Vec::new();
    let mut i: usize = 0;
    while i < v.len()
        invariant
            i <= v@.len(),
            r@ == v@.take(i as int),
        decreases v@.len() - i,
    {
        r.push((v[i].0.clone(), v[i].1.clone()));
        proof {
            assert(r@ =~= v@.take(i + 1));
        }
        i += 1;
    }
    proof {
        assert(v@.take(v@.len() as int) =~= v@);
    }
    r
}

impl Clone for ResponseInfo {
    /// A clone is the same response, header by header.
    fn clone(&self) -> (r: Self)
        ensures
            r.status_code == self.status_code,
            r.status_message == self.status_message,
            r.headers@ == self.headers@,
            r.body == self.body,
            r.size == self.size,
            r.time_ms == self.time_ms,
    {
        ResponseInfo {
            status_code: self.status_code,
            status_message: crate::models::clone_opt_string(&self.status_message),
            headers: clone_headers(&self.headers),
            body: self.body.clone(),
            size: self.size,
            time_ms: self.time_ms,
        }
    }
}

/// Length of the leading run of characters that are not a newline.
pub open spec fn first_nl(s: Seq<char>) -> int
    decreases s.len(),
{
    if s.len() == 0 || s[0] == '\n' {
        0
    } else {
        1 + first_nl(s.skip(1))
    }
}

proof fn lemma_first_nl_bounds(s: Seq<char>)
    ensures
        0 <= first_nl(s) <= s.len(),
    decreases s.len(),
{
    if s.len() > 0 && s[0] != '\n' {
        lemma_first_nl_bounds(s.skip(1));
    }
}

/// Skipping a prefix of non-newline characters shifts the run length.
proof fn lemma_first_nl_skip(s: Seq<char>, k: int)
    requires
        0 <= k <= s.len(),
        forall|m: int| 0 <= m < k ==> s[m] != '\n',
    ensures
        first_nl(s) == k + first_nl(s.skip(k)),
    decreases k,
{
    if k > 0 {
        assert forall|m: int| 0 <= m < k - 1 implies s.skip(1)[m] != '\n' by {
            assert(s.skip(1)[m] == s[m + 1]);
        }
        lemma_first_nl_skip(s.skip(1), k - 1);
        assert(s.skip(1).skip(k - 1) =~= s.skip(k));
    } else {
        assert(s.skip(0) =~= s);
    }
}

/// A line with any trailing carriage return removed.
pub open spec fn strip_cr(l: Seq<char>) -> Seq<char> {
    if l.len() > 0 && l.last() == '\r' {
        l.drop_last()
    } else {
        l
    }
}

/// The lines of a text: split at each newline, dropping the newline
/// and any carriage return just before it; a trailing newline yields
/// no extra empty line.
pub open spec fn lines_of(s: Seq<char>) -> Seq<Seq<char>>
    decreases s.len(),
{
    if s.len() == 0 {
        Seq::empty()
    } else {
        let e = first_nl(s);
        if 0 <= e < s.len() {
            seq![strip_cr(s.take(e))] + lines_of(s.skip(e + 1))
        } else {
            seq![strip_cr(s)]
        }
    }
}

/// Whether `p` is a prefix of `s`.
pub open spec fn starts_with(s: Seq<char>, p: Seq<char>) -> bool {
    s.len() >= p.len() && s.take(p.len() as int) == p
}

/// Length of the leading run of non-whitespace characters.
pub open spec fn first_space(s: Seq<char>) -> int
    decreases s.len(),
{
    if s.len() == 0 || is_space_char(s[0]) {
        0
    } else {
        1 + first_space(s.skip(1))
    }
}

/// Skipping a prefix of non-whitespace characters shifts the run
/// length.
proof fn lemma_first_space_skip(s: Seq<char>, k: int)
    requires
        0 <= k <= s.len(),
        forall|m: int| 0 <= m < k ==> !is_space_char(#[trigger] s[m]),
    ensures
        first_space(s) == k + first_space(s.skip(k)),
    decreases k,
{
    if k > 0 {
        assert forall|m: int| 0 <= m < k - 1 implies !is_space_char(#[trigger] s.skip(1)[m]) by {
            assert(s.skip(1)[m] == s[m + 1]);
        }
        lemma_first_space_skip(s.skip(1), k - 1);
        assert(s.skip(1).skip(k - 1) =~= s.skip(k));
    } else {
        assert(s.skip(0) =~= s);
    }
}

/// The whitespace-separated tokens of a text, with no empty tokens.
pub open spec fn split_ws(s: Seq<char>) -> Seq<Seq<char>>
    decreases s.len(),
{
    if s.len() == 0 {
        Seq::empty()
    } else if is_space_char(s[0]) {
        split_ws(s.skip(1))
    } else {
        let e = first_space(s);
        if 1 <= e <= s.len() {
            seq![s.take(e)] + split_ws(s.skip(e))
        } else {
            seq![s]
        }
    }
}

/// Join tokens with a single space between them.
pub open spec fn join_sp(parts: Seq<Seq<char>>) -> Seq<char>
    decreases parts.len(),
{
    if parts.len() == 0 {
        Seq::empty()
    } else if parts.len() == 1 {
        parts[0]
    } else {
        join_sp(parts.drop_last()) + " "@ + parts.last()
    }
}

/// Length of the leading run of characters that are not a colon.
pub open spec fn first_colon(s: Seq<char>) -> int
    decreases s.len(),
{
    if s.len() == 0 || s[0] == ':' {
        0
    } else {
        1 + first_colon(s.skip(1))
    }
}

proof fn lemma_first_colon_bounds(s: Seq<char>)
    ensures
        0 <= first_colon(s) <= s.len(),
    decreases s.len(),
{
    if s.len() > 0 && s[0] != ':' {
        lemma_first_colon_bounds(s.skip(1));
    }
}

/// Skipping a prefix of non-colon characters shifts the run length.
proof fn lemma_first_colon_skip(s: Seq<char>, k: int)
    requires
        0 <= k <= s.len(),
        forall|m: int| 0 <= m < k ==> s[m] != ':',
    ensures
        first_colon(s) == k + first_colon(s.skip(k)),
    decreases k,
{
    if k > 0 {
        assert forall|m: int| 0 <= m < k - 1 implies s.skip(1)[m] != ':' by {
            assert(s.skip(1)[m] == s[m + 1]);
        }
        lemma_first_colon_skip(s.skip(1), k - 1);
        assert(s.skip(1).skip(k - 1) =~= s.skip(k));
    } else {
        assert(s.skip(0) =~= s);
    }
}

/// Text with leading whitespace removed.
pub open spec fn trim_start(s: Seq<char>) -> Seq<char>
    decreases s.len(),
{
    if s.len() > 0 && is_space_char(s[0]) {
        trim_start(s.skip(1))
    } else {
        s
    }
}

/// Text with trailing whitespace removed.
pub open spec fn trim_end(s: Seq<char>) -> Seq<char>
    decreases s.len(),
{
    if s.len() > 0 && is_space_char(s.last()) {
        trim_end(s.drop_last())
    } else {
        s
    }
}

/// Text with surrounding whitespace removed.
pub open spec fn trim_spec(s: Seq<char>) -> Seq<char> {
    trim_end(trim_start(s))
}

/// A prefix of whitespace, bounded by a non-space character, locates
/// the start of the trimmed text.
proof fn lemma_trim_start_at(s: Seq<char>, k: int)
    requires
        0 <= k <= s.len(),
        forall|m: int| 0 <= m < k ==> is_space_char(#[trigger] s[m]),
        k < s.len() ==> !is_space_char(s[k]),
    ensures
        trim_start(s) == s.skip(k),
    decreases k,
{
    if k > 0 {
        assert forall|m: int| 0 <= m < k - 1 implies is_space_char(#[trigger] s.skip(1)[m]) by {
            assert(s.skip(1)[m] == s[m + 1]);
        }
        if k - 1 < s.skip(1).len() {
            assert(s.skip(1)[k - 1] == s[k]);
        }
        lemma_trim_start_at(s.skip(1), k - 1);
        assert(s.skip(1).skip(k - 1) =~= s.skip(k));
    } else {
        assert(s.skip(0) =~= s);
    }
}

/// A suffix of whitespace, bounded by a non-space character, locates
/// the end of the trimmed text.
proof fn lemma_trim_end_at(s: Seq<char>, k: int)
    requires
        0 <= k <= s.len(),
        forall|m: int| k <= m < s.len() ==> is_space_char(#[trigger] s[m]),
        k > 0 ==> !is_space_char(s[k - 1]),
    ensures
        trim_end(s) == s.take(k),
    decreases s.len(),
{
    if k < s.len() {
        assert(is_space_char(s.last()));
        assert forall|m: int| k <= m < s.drop_last().len() implies is_space_char(
            #[trigger] s.drop_last()[m],
        ) by {
            assert(s.drop_last()[m] == s[m]);
        }
        if k > 0 {
            assert(s.drop_last()[k - 1] == s[k - 1]);
        }
        lemma_trim_end_at(s.drop_last(), k);
        assert(s.drop_last().take(k) =~= s.take(k));
    } else {
        assert(s.take(s.len() as int) =~= s);
    }
}

/// Trim surrounding whitespace from a character vector.
fn trim_chars(v: &Vec<char>) -> (r: Vec<char>)
    ensures
        r@ == trim_spec(v@),
{
    let n = v.len();
    let mut a: usize = 0;
    while a < n && (v[a] == ' ' || v[a] == '\t' || v[a] == '\n' || v[a] == '\r' || v[a] == '\u{b}'
        || v[a] == '\u{c}')
        invariant
            n == v@.len(),
            a <= n,
            forall|m: int| 0 <= m < a ==> is_space_char(#[trigger] v@[m]),
        decreases n - a,
    {
        a += 1;
    }
    proof {
        lemma_trim_start_at(v@, a as int);
    }
    let mut b: usize = n;
    while b > a && (v[b - 1] == ' ' || v[b - 1] == '\t' || v[b - 1] == '\n' || v[b - 1] == '\r'
        || v[b - 1] == '\u{b}' || v[b - 1] == '\u{c}')
        invariant
            n == v@.len(),
            a <= b <= n,
            forall|m: int| 0 <= m < a ==> is_space_char(#[trigger] v@[m]),
            forall|m: int| b <= m < n ==> is_space_char(#[trigger] v@[m]),
        decreases b,
    {
        b -= 1;
    }
    let mut r: Vec<char> = Vec::new();
    let mut i: usize = a;
    while i < b
        invariant
            a <= i <= b <= v@.len(),
            r@ == v@.subrange(a as int, i as int),
        decreases b - i,
    {
        r.push(v[i]);
        proof {
            assert(r@ =~= v@.subrange(a as int, i + 1));
        }
        i += 1;
    }
    proof {
        let t = v@.skip(a as int);
        assert forall|m: int| b - a <= m < t.len() implies is_space_char(#[trigger] t[m]) by {
            assert(t[m] == v@[m + a]);
        }
        if b > a {
            assert(t[b - a - 1] == v@[b - 1]);
        }
        lemma_trim_end_at(t, b - a);
        assert(t.take(b - a) =~= v@.subrange(a as int, b as int));
    }
    r
}

/// Split a character vector into its lines.
fn split_lines(v: &Vec<char>) -> (r: Vec<Vec<char>>)
    ensures
        r@.map_values(|l: Vec<char>| l@) == lines_of(v@),
{
    let n = v.len();
    let mut r: Vec<Vec<char>> = Vec::new();
    let mut pos: usize = 0;
    proof {
        assert(v@.skip(0) =~= v@);
        assert(r@.map_values(|l: Vec<char>| l@) =~= Seq::<Seq<char>>::empty());
    }
    while pos < n
        invariant
            n == v@.len(),
            pos <= n,
            lines_of(v@) == r@.map_values(|l: Vec<char>| l@) + lines_of(v@.skip(pos as int)),
        decreases n - pos,
    {
        let ghost rem = v@.skip(pos as int);
        let ghost r0 = r@.map_values(|l: Vec<char>| l@);
        let mut e: usize = pos;
        while e < n && v[e] != '\n'
            invariant
                n == v@.len(),
                pos <= e <= n,
                forall|m: int| pos <= m < e ==> v@[m] != '\n',
            decreases n - e,
        {
            e += 1;
        }
        proof {
            assert forall|m: int| 0 <= m < e - pos implies rem[m] != '\n' by {
                assert(rem[m] == v@[pos + m]);
            }
            lemma_first_nl_skip(rem, e - pos);
            assert(rem.skip(e - pos) =~= v@.skip(e as int));
            if e < n {
                assert(v@.skip(e as int)[0] == v@[e as int]);
            }
            assert(first_nl(rem) == e - pos);
        }
        // Copy the line, without any trailing carriage return.
        let stop = if e > pos && v[e - 1] == '\r' {
            e - 1
        } else {
            e
        };
        let mut line: Vec<char> = Vec::new();
        let mut i: usize = pos;
        while i < stop
            invariant
                pos <= i <= stop <= v@.len(),
                line@ == v@.subrange(pos as int, i as int),
            decreases stop - i,
        {
            line.push(v[i]);
            proof {
                assert(line@ =~= v@.subrange(pos as int, i + 1));
            }
            i += 1;
        }
        proof {
            assert(rem.take(e - pos) =~= v@.subrange(pos as int, e as int));
            if e > pos && v@[e - 1] == '\r' {
                assert(rem.take(e - pos).last() == v@[e - 1]);
                assert(strip_cr(rem.take(e - pos)) =~= v@.subrange(pos as int, e - 1));
            } else {
                assert(strip_cr(rem.take(e - pos)) =~= v@.subrange(pos as int, e as int));
            }
            assert(line@ == strip_cr(rem.take(e - pos)));
        }
        r.push(line);
        if e < n {
            proof {
                assert(rem.skip(e - pos + 1) =~= v@.skip(e + 1));
                assert(lines_of(rem) == seq![strip_cr(rem.take(first_nl(rem)))] + lines_of(
                    rem.skip(first_nl(rem) + 1),
                ));
                assert(r@.map_values(|l: Vec<char>| l@) =~= r0.push(strip_cr(rem.take(e - pos))));
                assert(r0.push(strip_cr(rem.take(e - pos))) =~= r0 + seq![strip_cr(
                    rem.take(e - pos),
                )]);
            }
            pos = e + 1;
        } else {
            proof {
                lemma_first_nl_bounds(rem);
                assert(first_nl(rem) == rem.len());
                assert(rem.take(rem.len() as int) =~= rem);
                assert(lines_of(rem) == seq![strip_cr(rem)]);
                assert(r@.map_values(|l: Vec<char>| l@) =~= r0 + seq![strip_cr(rem)]);
                assert(v@.skip(n as int) =~= Seq::<char>::empty());
            }
            pos = n;
        }
    }
    proof {
        assert(v@.skip(n as int) =~= Seq::<char>::empty());
        assert(r@.map_values(|l: Vec<char>| l@) =~= lines_of(v@));
    }
    r
}

/// Whether the vector starts with the characters of `p`.
fn chars_start_with(v: &Vec<char>, p: &str) -> (r: bool)
    ensures
        r == starts_with(v@, p@),
{
    let pn = p.unicode_len();
    if v.len() < pn {
        return false;
    }
    let mut i: usize = 0;
    while i < pn
        invariant
            pn == p@.len(),
            pn <= v@.len(),
            i <= pn,
            forall|j: int| 0 <= j < i ==> v@[j] == p@[j],
        decreases pn - i,
    {
        if v[i] != p.get_char(i) {
            proof {
                assert(v@.take(pn as int)[i as int] != p@[i as int]);
            }
            return false;
        }
        i += 1;
    }
    proof {
        assert(v@.take(pn as int) =~= p@);
    }
    true
}

/// Split a line into whitespace-separated tokens.
fn split_ws_chars(v: &Vec<char>) -> (r: Vec<Vec<char>>)
    ensures
        r@.map_values(|l: Vec<char>| l@) == split_ws(v@),
{
    let n = v.len();
    let mut r: Vec<Vec<char>> = Vec::new();
    let mut pos: usize = 0;
    proof {
        assert(v@.skip(0) =~= v@);
        assert(r@.map_values(|l: Vec<char>| l@) =~= Seq::<Seq<char>>::empty());
    }
    while pos < n
        invariant
            n == v@.len(),
            pos <= n,
            split_ws(v@) == r@.map_values(|l: Vec<char>| l@) + split_ws(v@.skip(pos as int)),
        decreases n - pos,
    {
        let ghost rem = v@.skip(pos as int);
        let ghost r0 = r@.map_values(|l: Vec<char>| l@);
        let c = v[pos];
        if c == ' ' || c == '\t' || c == '\n' || c == '\r' || c == '\u{b}' || c == '\u{c}' {
            proof {
                assert(rem[0] == v@[pos as int]);
                assert(rem.skip(1) =~= v@.skip(pos + 1));
                assert(r0 + split_ws(rem) =~= r0 + split_ws(rem.skip(1)));
            }
            pos += 1;
        } else {
            let mut e: usize = pos;
            while e < n && !(v[e] == ' ' || v[e] == '\t' || v[e] == '\n' || v[e] == '\r' || v[e]
                == '\u{b}' || v[e] == '\u{c}')
                invariant
                    n == v@.len(),
                    pos <= e <= n,
                    forall|m: int| pos <= m < e ==> !is_space_char(#[trigger] v@[m]),
                decreases n - e,
            {
                e += 1;
            }
            proof {
                assert forall|m: int| 0 <= m < e - pos implies !is_space_char(
                    #[trigger] rem[m],
                ) by {
                    assert(rem[m] == v@[pos + m]);
                }
                lemma_first_space_skip(rem, e - pos);
                assert(rem.skip(e - pos) =~= v@.skip(e as int));
                if e < n {
                    assert(v@.skip(e as int)[0] == v@[e as int]);
                }
                assert(first_space(rem) == e - pos);
                assert(rem[0] == v@[pos as int]);
                assert(e > pos);
            }
            let mut tok: Vec<char> = Vec::new();
            let mut i: usize = pos;
            while i < e
                invariant
                    pos <= i <= e <= v@.len(),
                    tok@ == v@.subrange(pos as int, i as int),
                decreases e - i,
            {
                tok.push(v[i]);
                proof {
                    assert(tok@ =~= v@.subrange(pos as int, i + 1));
                }
                i += 1;
            }
            proof {
                assert(tok@ =~= rem.take(e - pos));
            }
            r.push(tok);
            proof {
                assert(split_ws(rem) == seq![rem.take(e - pos)] + split_ws(rem.skip(e - pos)));
                assert(r@.map_values(|l: Vec<char>| l@) =~= r0 + seq![rem.take(e - pos)]);
            }
            pos = e;
        }
    }
    proof {
        assert(v@.skip(n as int) =~= Seq::<char>::empty());
        assert(r@.map_values(|l: Vec<char>| l@) =~= split_ws(v@));
    }
    r
}

/// What one line contributes as a status line: for a line starting
/// with `HTTP/` and holding at least three tokens whose second parses
/// as a status code, the code and the remaining tokens joined by
/// spaces.
pub open spec fn status_of_line(l: Seq<char>) -> Option<(int, Seq<char>)> {
    if starts_with(l, "HTTP/"@) {
        let parts = split_ws(l);
        if parts.len() >= 3 {
            match parse_unsigned(parts[1]) {
                Option::Some(c) => if 0 <= c <= 65535 {
                    Option::Some((c, join_sp(parts.skip(2))))
                } else {
                    Option::None
                },
                Option::None => Option::None,
            }
        } else {
            Option::None
        }
    } else {
        Option::None
    }
}

/// The first line that yields a status decides.
pub open spec fn status_of_lines(lines: Seq<Seq<char>>) -> Option<(int, Seq<char>)>
    decreases lines.len(),
{
    if lines.len() == 0 {
        Option::None
    } else {
        match status_of_line(lines[0]) {
            Option::Some(x) => Option::Some(x),
            Option::None => status_of_lines(lines.skip(1)),
        }
    }
}

/// If no line before `i` yields a status, the rest decides.
proof fn lemma_status_skip(lines: Seq<Seq<char>>, i: int)
    requires
        0 <= i <= lines.len(),
        forall|j: int| 0 <= j < i ==> status_of_line(#[trigger] lines[j]) is None,
    ensures
        status_of_lines(lines) == status_of_lines(lines.skip(i)),
    decreases i,
{
    if i > 0 {
        assert forall|j: int| 0 <= j < i - 1 implies status_of_line(
            #[trigger] lines.skip(1)[j],
        ) is None by {
            assert(lines.skip(1)[j] == lines[j + 1]);
        }
        lemma_status_skip(lines.skip(1), i - 1);
        assert(lines.skip(1).skip(i - 1) =~= lines.skip(i));
    } else {
        assert(lines.skip(0) =~= lines);
    }
}

/// The body text: every line after the header block, each followed by
/// a newline.
pub open spec fn body_join(lines: Seq<Seq<char>>) -> Seq<char>
    decreases lines.len(),
{
    if lines.len() == 0 {
        Seq::empty()
    } else {
        lines[0] + "\n"@ + body_join(lines.skip(1))
    }
}

/// Headers and raw body of the output lines: the first empty line
/// separates headers from body; `HTTP/` status lines and lines
/// without a colon are skipped; a header line splits at its first
/// colon, both sides trimmed.
pub open spec fn collect_hb(lines: Seq<Seq<char>>) -> (Seq<(Seq<char>, Seq<char>)>, Seq<char>)
    decreases lines.len(),
{
    if lines.len() == 0 {
        (Seq::empty(), Seq::empty())
    } else {
        let l = lines[0];
        if l.len() == 0 {
            (Seq::empty(), body_join(lines.skip(1)))
        } else if starts_with(l, "HTTP/"@) {
            collect_hb(lines.skip(1))
        } else {
            let r = collect_hb(lines.skip(1));
            let e = first_colon(l);
            if 0 <= e < l.len() {
                (
                    seq![(trim_spec(l.take(e)), trim_spec(l.skip(e + 1)))] + r.0,
                    r.1,
                )
            } else {
                r
            }
        }
    }
}

/// The lines of an execution's combined output: standard output, then
/// standard error.
pub open spec fn output_lines(res: ExecutionResult) -> Seq<Seq<char>> {
    lines_of(res.stdout@ + res.stderr@)
}

/// The output parser.
pub struct OutputParser;

impl OutputParser {
    /// Find the HTTP status code and message in captured output.
    pub fn parse_status(output: &str) -> (r: (Option<u16>, Option<String>))
        ensures
            match status_of_lines(lines_of(output@)) {
                Option::Some(cm) => {
                    &&& r.0 matches Some(code) && code as int == cm.0
                    &&& r.1 matches Some(msg) && msg@ == cm.1
                },
                Option::None => r.0 is None && r.1 is None,
            },
    {
        let oc = chars_of(output);
        let lines = split_lines(&oc);
        let ghost lv = lines@.map_values(|l: Vec<char>| l@);
        let n = lines.len();
        let mut i: usize = 0;
        while i < n
            invariant
                lv == lines@.map_values(|l: Vec<char>| l@),
                lv == lines_of(output@),
                n == lines@.len(),
                i <= n,
                forall|j: int| 0 <= j < i ==> status_of_line(#[trigger] lv[j]) is None,
            decreases n - i,
        {
            let ghost l = lv[i as int];
            if chars_start_with(&lines[i], "HTTP/") {
                let parts = split_ws_chars(&lines[i]);
                let ghost pv = parts@.map_values(|p: Vec<char>| p@);
                if parts.len() >= 3 {
                    match parse_bounded(&parts[1], 65535) {
                        Some(code) => {
                            // Join the remaining tokens with spaces.
                            let mut msg: Vec<char> = Vec::new();
                            let ghost tail = pv.skip(2);
                            let mut k: usize = 2;
                            proof {
                                assert(tail.take(0) =~= Seq::<Seq<char>>::empty());
                            }
                            while k < parts.len()
                                invariant
                                    pv == parts@.map_values(|p: Vec<char>| p@),
                                    tail == pv.skip(2),
                                    2 <= k <= parts@.len(),
                                    parts@.len() >= 3,
                                    msg@ == join_sp(tail.take(k - 2)),
                                decreases parts@.len() - k,
                            {
                                let ghost m0 = msg@;
                                if k > 2 {
                                    msg.push(' ');
                                }
                                crate::builder::extend_chars(&mut msg, &parts[k]);
                                proof {
                                    reveal_strlit(" ");
                                    let t1 = tail.take(k - 2 + 1);
                                    assert(t1.drop_last() =~= tail.take(k - 2));
                                    assert(t1.last() == tail[k - 2]);
                                    assert(tail[k - 2] == pv[k as int]);
                                    if k > 2 {
                                        assert(t1.len() >= 2);
                                        assert(msg@ =~= m0 + " "@ + pv[k as int]);
                                    } else {
                                        assert(t1.len() == 1);
                                        assert(msg@ =~= pv[k as int]);
                                    }
                                }
                                k += 1;
                            }
                            proof {
                                assert(tail.take(parts@.len() - 2) =~= tail);
                                lemma_status_skip(lv, i as int);
                                assert(lv.skip(i as int)[0] == lv[i as int]);
                            }
                            return (Some(code as u16), Some(string_from_chars(&msg)));
                        },
                        None => {
                            proof {
                                assert(status_of_line(l) is None);
                            }
                        },
                    }
                } else {
                    proof {
                        assert(status_of_line(l) is None);
                    }
                }
            } else {
                proof {
                    assert(status_of_line(l) is None);
                }
            }
            i += 1;
        }
        proof {
            lemma_status_skip(lv, n as int);
            assert(lv.skip(n as int) =~= Seq::<Seq<char>>::empty());
        }
        (None, None)
    }

    /// Split captured output into headers and body at the first empty
    /// line.
    pub fn parse_headers_and_body(output: &str) -> (r: (Vec<(String, String)>, String))
        ensures
            ({
                let hb = collect_hb(lines_of(output@));
                &&& r.0@.map_values(|p: (String, String)| (p.0@, p.1@)) == hb.0
                &&& r.1@ == trim_spec(hb.1)
            }),
    {
        let oc = chars_of(output);
        let lines = split_lines(&oc);
        let ghost lv = lines@.map_values(|l: Vec<char>| l@);
        let n = lines.len();
        let mut headers: Vec<(String, String)> = Vec::new();
        let mut body: Vec<char> = Vec::new();
        let mut in_body: bool = false;
        let mut i: usize = 0;
        proof {
            assert(lv.skip(0) =~= lv);
            assert(headers@.map_values(|p: (String, String)| (p.0@, p.1@))
                =~= Seq::<(Seq<char>, Seq<char>)>::empty());
        }
        while i < n
            invariant
                lv == lines@.map_values(|l: Vec<char>| l@),
                lv == lines_of(output@),
                n == lines@.len(),
                i <= n,
                !in_body ==> {
                    &&& body@ == Seq::<char>::empty()
                    &&& collect_hb(lv).0 == headers@.map_values(
                        |p: (String, String)| (p.0@, p.1@),
                    ) + collect_hb(lv.skip(i as int)).0
                    &&& collect_hb(lv).1 == collect_hb(lv.skip(i as int)).1
                },
                in_body ==> {
                    &&& collect_hb(lv).0 == headers@.map_values(
                        |p: (String, String)| (p.0@, p.1@),
                    )
                    &&& collect_hb(lv).1 == body@ + body_join(lv.skip(i as int))
                },
            decreases n - i,
        {
            let ghost l = lv[i as int];
            let ghost h0 = headers@.map_values(|p: (String, String)| (p.0@, p.1@));
            let ghost b0 = body@;
            proof {
                assert(lv.skip(i as int)[0] == l);
                assert(lv.skip(i as int).skip(1) =~= lv.skip(i + 1));
            }
            if in_body {
                crate::builder::extend_chars(&mut body, &lines[i]);
                body.push('\n');
                proof {
                    reveal_strlit("\n");
                    assert(body@ =~= b0 + l + "\n"@);
                    assert(body_join(lv.skip(i as int)) == l + "\n"@ + body_join(lv.skip(i + 1)));
                    assert(b0 + (l + "\n"@ + body_join(lv.skip(i + 1))) =~= body@ + body_join(
                        lv.skip(i + 1),
                    ));
                }
            } else if lines[i].len() == 0 {
                in_body = true;
                proof {
                    assert(collect_hb(lv.skip(i as int)).0 =~= Seq::<(Seq<char>, Seq<char>)>::empty());
                    assert(collect_hb(lv.skip(i as int)).1 == body_join(lv.skip(i + 1)));
                    assert(h0 + Seq::<(Seq<char>, Seq<char>)>::empty() =~= h0);
                    assert(body@ =~= Seq::<char>::empty() + body_join(lv.skip(i + 1)).take(0));
                    assert(body@ + body_join(lv.skip(i + 1)) =~= body_join(lv.skip(i + 1)));
                }
            } else if chars_start_with(&lines[i], "HTTP/") {
                proof {
                    assert(collect_hb(lv.skip(i as int)) == collect_hb(lv.skip(i + 1)));
                }
            } else {
                // Look for the first colon.
                let line = &lines[i];
                let ln = line.len();
                let mut e: usize = 0;
                while e < ln && line[e] != ':'
                    invariant
                        ln == line@.len(),
                        e <= ln,
                        forall|m: int| 0 <= m < e ==> line@[m] != ':',
                    decreases ln - e,
                {
                    e += 1;
                }
                proof {
                    lemma_first_colon_skip(l, e as int);
                    if e < ln {
                        assert(l.skip(e as int)[0] == l[e as int]);
                    } else {
                        lemma_first_colon_bounds(l.skip(e as int));
                        assert(l.skip(e as int).len() == 0);
                    }
                    assert(first_colon(l) == e as int + first_colon(l.skip(e as int)));
                }
                if e < ln {
                    let mut key_part: Vec<char> = Vec::new();
                    let mut ki: usize = 0;
                    while ki < e
                        invariant
                            ki <= e <= line@.len(),
                            key_part@ == line@.subrange(0, ki as int),
                        decreases e - ki,
                    {
                        key_part.push(line[ki]);
                        proof {
                            assert(key_part@ =~= line@.subrange(0, ki + 1));
                        }
                        ki += 1;
                    }
                    let mut val_part: Vec<char> = Vec::new();
                    let mut vi: usize = e + 1;
                    while vi < ln
                        invariant
                            e + 1 <= vi <= ln,
                            ln == line@.len(),
                            val_part@ == line@.subrange(e + 1, vi as int),
                        decreases ln - vi,
                    {
                        val_part.push(line[vi]);
                        proof {
                            assert(val_part@ =~= line@.subrange(e + 1, vi + 1));
                        }
                        vi += 1;
                    }
                    let key = trim_chars(&key_part);
                    let value = trim_chars(&val_part);
                    headers.push((string_from_chars(&key), string_from_chars(&value)));
                    proof {
                        assert(key_part@ =~= l.take(e as int));
                        assert(val_part@ =~= l.skip(e + 1));
                        assert(collect_hb(lv.skip(i as int)).0 == seq![
                            (trim_spec(l.take(e as int)), trim_spec(l.skip(e + 1))),
                        ] + collect_hb(lv.skip(i + 1)).0);
                        assert(collect_hb(lv.skip(i as int)).1 == collect_hb(lv.skip(i + 1)).1);
                        assert(headers@.map_values(|p: (String, String)| (p.0@, p.1@)) =~= h0
                            + seq![(trim_spec(l.take(e as int)), trim_spec(l.skip(e + 1)))]);
                        assert(h0 + (seq![(trim_spec(l.take(e as int)), trim_spec(l.skip(e + 1)))]
                            + collect_hb(lv.skip(i + 1)).0) =~= (h0 + seq![
                            (trim_spec(l.take(e as int)), trim_spec(l.skip(e + 1))),
                        ]) + collect_hb(lv.skip(i + 1)).0);
                    }
                } else {
                    proof {
                        assert(first_colon(l) == l.len());
                        assert(collect_hb(lv.skip(i as int)) == collect_hb(lv.skip(i + 1)));
                    }
                }
            }
            i += 1;
        }
        proof {
            assert(lv.skip(n as int) =~= Seq::<Seq<char>>::empty());
            if in_body {
                assert(body_join(lv.skip(n as int)) =~= Seq::<char>::empty());
                assert(body@ + Seq::<char>::empty() =~= body@);
            } else {
                assert(collect_hb(lv.skip(n as int)).0 =~= Seq::<(Seq<char>, Seq<char>)>::empty());
                assert(collect_hb(lv.skip(n as int)).1 =~= Seq::<char>::empty());
                assert(headers@.map_values(|p: (String, String)| (p.0@, p.1@)) + Seq::<(
                    Seq<char>,
                    Seq<char>,
                )>::empty() =~= headers@.map_values(|p: (String, String)| (p.0@, p.1@)));
            }
        }
        let body_trimmed = trim_chars(&body);
        (headers, string_from_chars(&body_trimmed))
    }

    /// Parse an execution's combined output into a response.
    pub fn parse(result: &ExecutionResult) -> (r: ResponseInfo)
        ensures
            ({
                let lines = output_lines(*result);
                &&& match status_of_lines(lines) {
                    Option::Some(cm) => {
                        &&& r.status_code matches Some(code) && code as int == cm.0
                        &&& r.status_message matches Some(msg) && msg@ == cm.1
                    },
                    Option::None => r.status_code is None && r.status_message is None,
                }
                &&& r.headers@.map_values(|p: (String, String)| (p.0@, p.1@)) == collect_hb(
                    lines,
                ).0
                &&& r.body@ == trim_spec(collect_hb(lines).1)
                &&& r.size == vstd::utf8::encode_utf8(r.body@).len() as usize
                &&& r.time_ms == result.execution_time_ms
            }),
    {
        let mut oc = chars_of(result.stdout.as_str());
        let mut ec = chars_of(result.stderr.as_str());
        oc.append(&mut ec);
        let combined = string_from_chars(&oc);
        let status = Self::parse_status(combined.as_str());
        let hb = Self::parse_headers_and_body(combined.as_str());
        let size = hb.1.as_str().len();
        ResponseInfo {
            status_code: status.0,
            status_message: status.1,
            headers: hb.0,
            body: hb.1,
            size,
            time_ms: result.execution_time_ms,
        }
    }
}

/// The header block as rendered in raw output.
pub open spec fn raw_header_lines(hs: Seq<(String, String)>) -> Seq<char>
    decreases hs.len(),
{
    if hs.len() == 0 {
        Seq::empty()
    } else {
        raw_header_lines(hs.drop_last()) + hs.last().0@ + ": "@ + hs.last().1@ + "\n"@
    }
}

/// The header block as rendered in formatted output.
pub open spec fn fmt_header_lines(hs: Seq<(String, String)>) -> Seq<char>
    decreases hs.len(),
{
    if hs.len() == 0 {
        Seq::empty()
    } else {
        fmt_header_lines(hs.drop_last()) + "  "@ + hs.last().0@ + ": "@ + hs.last().1@ + "\n"@
    }
}

/// The raw rendering: a reconstructed status line when code and
/// message are both known, the headers, a blank line, and the body.
pub open spec fn raw_text(info: ResponseInfo) -> Seq<char> {
    (if info.status_code is Some && info.status_message is Some {
        "HTTP/1.1 "@ + dec_digits(info.status_code->0 as int) + " "@ + info.status_message->0@
            + "\n"@
    } else {
        Seq::empty()
    }) + raw_header_lines(info.headers@) + "\n"@ + info.body@
}

/// One decimal place of `num / den`, rounding half to even.
pub open spec fn tenths_half_even(num: int, den: int) -> int {
    let q = num / den;
    let r = num % den;
    if 2 * r > den {
        q + 1
    } else if 2 * r < den {
        q
    } else if q % 2 == 0 {
        q
    } else {
        q + 1
    }
}

/// A size scaled by a unit, rendered with one decimal place.
pub open spec fn scaled_text(size: int, den: int) -> Seq<char> {
    let t = tenths_half_even(size * 10, den);
    dec_digits(t / 10) + "."@ + seq![crate::strutil::digit_char_spec(t % 10)]
}

/// A byte count in human-readable form: bytes below one kibibyte,
/// else kibi-, mebi- or gibibytes with one decimal place.
pub open spec fn size_text(size: int) -> Seq<char> {
    if size < 1024 {
        dec_digits(size) + " B"@
    } else if size < 1048576 {
        scaled_text(size, 1024) + " KB"@
    } else if size < 1073741824 {
        scaled_text(size, 1048576) + " MB"@
    } else {
        scaled_text(size, 1073741824) + " GB"@
    }
}

/// The formatted rendering: status, time and size summary, then the
/// headers and the body under their captions.
pub open spec fn formatted_text(info: ResponseInfo) -> Seq<char> {
    (if info.status_code is Some {
        "Status: "@ + dec_digits(info.status_code->0 as int) + " "@ + (match info.status_message {
            Option::Some(m) => m@,
            Option::None => Seq::<char>::empty(),
        }) + "\n"@
    } else {
        Seq::empty()
    }) + "Time: "@ + dec_digits(info.time_ms as int) + "ms\n"@ + "Size: "@ + size_text(
        info.size as int,
    ) + "\n\n"@ + "Headers:\n"@ + fmt_header_lines(info.headers@) + "\n"@ + "Body:\n"@
        + info.body@
}

impl OutputParser {
    /// Render a byte count in human-readable form.
    pub fn format_size(size: usize) -> (r: String)
        ensures
            r@ == size_text(size as int),
    {
        let mut out: Vec<char> = Vec::new();
        if size < 1024 {
            let mut num = dec_chars(size as u128);
            out.append(&mut num);
            let mut unit = chars_of(" B");
            out.append(&mut unit);
        } else {
            let den: u128 = if size < 1048576 {
                1024
            } else if size < 1073741824 {
                1048576
            } else {
                1073741824
            };
            let num: u128 = (size as u128) * 10;
            let q = num / den;
            let rem = num % den;
            let t: u128 = if 2 * rem > den {
                q + 1
            } else if 2 * rem < den {
                q
            } else if q % 2 == 0 {
                q
            } else {
                q + 1
            };
            let mut whole = dec_chars(t / 10);
            out.append(&mut whole);
            let mut dot = chars_of(".");
            out.append(&mut dot);
            out.push(crate::strutil::digit_char(t % 10));
            let mut unit = if size < 1048576 {
                chars_of(" KB")
            } else if size < 1073741824 {
                chars_of(" MB")
            } else {
                chars_of(" GB")
            };
            out.append(&mut unit);
            proof {
                reveal_strlit(".");
                assert(out@ =~= scaled_text(size as int, den as int) + (if size < 1048576 {
                    " KB"@
                } else if size < 1073741824 {
                    " MB"@
                } else {
                    " GB"@
                }));
            }
        }
        string_from_chars(&out)
    }

    /// Render a response as raw output.
    pub fn format_raw(info: &ResponseInfo) -> (r: String)
        ensures
            r@ == raw_text(*info),
    {
        let mut out: Vec<char> = Vec::new();
        let show_status = {
            let has_code = match &info.status_code {
                Some(_) => true,
                None => false,
            };
            let has_msg = match &info.status_message {
                Some(_) => true,
                None => false,
            };
            has_code && has_msg
        };
        if show_status {
            let mut head = chars_of("HTTP/1.1 ");
            out.append(&mut head);
            match &info.status_code {
                Some(code) => {
                    let mut num = dec_chars(*code as u128);
                    out.append(&mut num);
                },
                None => {},
            }
            out.push(' ');
            match &info.status_message {
                Some(msg) => {
                    let mut m = chars_of(msg.as_str());
                    out.append(&mut m);
                },
                None => {},
            }
            let mut nl = chars_of("\n");
            out.append(&mut nl);
            proof {
                reveal_strlit(" ");
                assert(out@ =~= "HTTP/1.1 "@ + dec_digits(info.status_code->0 as int) + " "@
                    + info.status_message->0@ + "\n"@);
            }
        }
        let ghost status_part = if info.status_code is Some && info.status_message is Some {
            "HTTP/1.1 "@ + dec_digits(info.status_code->0 as int) + " "@
                + info.status_message->0@ + "\n"@
        } else {
            Seq::<char>::empty()
        };
        proof {
            assert(out@ =~= status_part);
        }
        let n = info.headers.len();
        let mut i: usize = 0;
        proof {
            assert(info.headers@.take(0) =~= Seq::<(String, String)>::empty());
            assert(out@ =~= status_part + raw_header_lines(info.headers@.take(0)));
        }
        while i < n
            invariant
                n == info.headers@.len(),
                i <= n,
                out@ == status_part + raw_header_lines(info.headers@.take(i as int)),
            decreases n - i,
        {
            let ghost o0 = out@;
            let mut k = chars_of(info.headers[i].0.as_str());
            out.append(&mut k);
            let mut sep = chars_of(": ");
            out.append(&mut sep);
            let mut v = chars_of(info.headers[i].1.as_str());
            out.append(&mut v);
            let mut nl = chars_of("\n");
            out.append(&mut nl);
            proof {
                let t1 = info.headers@.take(i + 1);
                assert(t1.drop_last() =~= info.headers@.take(i as int));
                assert(t1.last() == info.headers@[i as int]);
                assert(out@ =~= o0 + info.headers@[i as int].0@ + ": "@
                    + info.headers@[i as int].1@ + "\n"@);
            }
            i += 1;
        }
        proof {
            assert(info.headers@.take(n as int) =~= info.headers@);
        }
        let mut nl = chars_of("\n");
        out.append(&mut nl);
        let mut b = chars_of(info.body.as_str());
        out.append(&mut b);
        proof {
            assert(out@ =~= raw_text(*info));
        }
        string_from_chars(&out)
    }

    /// Render a response as formatted output.
    pub fn format_formatted(info: &ResponseInfo) -> (r: String)
        ensures
            r@ == formatted_text(*info),
    {
        let mut out: Vec<char> = Vec::new();
        match &info.status_code {
            Some(code) => {
                let mut head = chars_of("Status: ");
                out.append(&mut head);
                let mut num = dec_chars(*code as u128);
                out.append(&mut num);
                out.push(' ');
                match &info.status_message {
                    Some(msg) => {
                        let mut m = chars_of(msg.as_str());
                        out.append(&mut m);
                    },
                    None => {},
                }
                let mut nl = chars_of("\n");
                out.append(&mut nl);
                proof {
                    reveal_strlit(" ");
                    assert(out@ =~= "Status: "@ + dec_digits(info.status_code->0 as int) + " "@
                        + (if info.status_message is Some {
                        info.status_message->0@
                    } else {
                        Seq::<char>::empty()
                    }) + "\n"@);
                }
            },
            None => {},
        }
        let ghost status_part = if info.status_code is Some {
            "Status: "@ + dec_digits(info.status_code->0 as int) + " "@ + (if info.status_message is Some {
            info.status_message->0@
        } else {
            Seq::<char>::empty()
        }) + "\n"@
        } else {
            Seq::<char>::empty()
        };
        proof {
            assert(out@ =~= status_part);
        }
        let mut t1 = chars_of("Time: ");
        out.append(&mut t1);
        let mut tn = dec_chars(info.time_ms as u128);
        out.append(&mut tn);
        let mut t2 = chars_of("ms\n");
        out.append(&mut t2);
        let mut s1 = chars_of("Size: ");
        out.append(&mut s1);
        let sz = Self::format_size(info.size);
        let mut s2 = chars_of(sz.as_str());
        out.append(&mut s2);
        let mut s3 = chars_of("\n\n");
        out.append(&mut s3);
        let mut hcap = chars_of("Headers:\n");
        out.append(&mut hcap);
        let ghost before_headers = out@;
        let n = info.headers.len();
        let mut i: usize = 0;
        proof {
            assert(info.headers@.take(0) =~= Seq::<(String, String)>::empty());
            assert(out@ =~= before_headers + fmt_header_lines(info.headers@.take(0)));
        }
        while i < n
            invariant
                n == info.headers@.len(),
                i <= n,
                out@ == before_headers + fmt_header_lines(info.headers@.take(i as int)),
            decreases n - i,
        {
            let ghost o0 = out@;
            let mut ind = chars_of("  ");
            out.append(&mut ind);
            let mut k = chars_of(info.headers[i].0.as_str());
            out.append(&mut k);
            let mut sep = chars_of(": ");
            out.append(&mut sep);
            let mut v = chars_of(info.headers[i].1.as_str());
            out.append(&mut v);
            let mut nl = chars_of("\n");
            out.append(&mut nl);
            proof {
                let tk = info.headers@.take(i + 1);
                assert(tk.drop_last() =~= info.headers@.take(i as int));
                assert(tk.last() == info.headers@[i as int]);
                assert(out@ =~= o0 + "  "@ + info.headers@[i as int].0@ + ": "@
                    + info.headers@[i as int].1@ + "\n"@);
            }
            i += 1;
        }
        proof {
            assert(info.headers@.take(n as int) =~= info.headers@);
        }
        let mut nl = chars_of("\n");
        out.append(&mut nl);
        let mut bcap = chars_of("Body:\n");
        out.append(&mut bcap);
        let mut b = chars_of(info.body.as_str());
        out.append(&mut b);
        proof {
            assert(out@ =~= formatted_text(*info));
        }
        string_from_chars(&out)
    }

    /// Render a response in the requested format.
    pub fn format_response(info: &ResponseInfo, format: OutputFormat) -> (r: String)
        ensures
            r@ == match format {
                OutputFormat::Raw => raw_text(*info),
                OutputFormat::Formatted => formatted_text(*info),
            },
    {
        match format {
            OutputFormat::Raw => Self::format_raw(info),
            OutputFormat::Formatted => Self::format_formatted(info),
        }
    }
}

} // verus!
