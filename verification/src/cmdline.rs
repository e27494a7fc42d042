//! Splitting a built command string back into argv-style tokens,
//! honouring single- and double-quote grouping and backslash escapes,
//! exactly as the builder quoted it.

use vstd::prelude::*;

verus! {

use crate::builder::{
    build_args, build_spec, display_len, format_args_spec, format_rest, needs_quote, quoted,
};
use crate::models::{CurlCommand, EnvironmentVariable};
use crate::strutil::{chars_of, seq_contains_char, string_from_chars};

/// One step state of the splitter: inside single quotes, inside
/// double quotes, the argument being collected, and the finished
/// arguments.
///
/// The rules: a quote toggles its group and is dropped; whitespace
/// outside quotes ends the current argument; inside single quotes
/// only `\'` is an escape; inside double quotes `\` escapes `"`, `\`,
/// `$`, a backtick and a newline; everything else is kept.
pub open spec fn split_args_from(
    s: Seq<char>,
    in_single: bool,
    in_double: bool,
    cur: Seq<char>,
    acc: Seq<Seq<char>>,
) -> Seq<Seq<char>>
    decreases s.len(),
{
    if s.len() == 0 {
        if cur.len() > 0 {
            acc.push(cur)
        } else {
            acc
        }
    } else {
        let c = s[0];
        if c == '\'' && !in_double {
            split_args_from(s.skip(1), !in_single, in_double, cur, acc)
        } else if c == '"' && !in_single {
            split_args_from(s.skip(1), in_single, !in_double, cur, acc)
        } else if (c == ' ' || c == '\t') && !in_single && !in_double {
            split_args_from(
                s.skip(1),
                in_single,
                in_double,
                Seq::empty(),
                if cur.len() > 0 {
                    acc.push(cur)
                } else {
                    acc
                },
            )
        } else if c == '\\' && in_single {
            if s.len() >= 2 && s[1] == '\'' {
                split_args_from(s.skip(2), in_single, in_double, cur.push('\''), acc)
            } else {
                split_args_from(s.skip(1), in_single, in_double, cur.push('\\'), acc)
            }
        } else if c == '\\' && in_double {
            if s.len() >= 2 && (s[1] == '"' || s[1] == '\\' || s[1] == '$' || s[1] == '`' || s[1]
                == '\n') {
                split_args_from(s.skip(2), in_single, in_double, cur.push(s[1]), acc)
            } else {
                split_args_from(s.skip(1), in_single, in_double, cur.push('\\'), acc)
            }
        } else {
            split_args_from(s.skip(1), in_single, in_double, cur.push(c), acc)
        }
    }
}

/// The argv-style tokens of a command string.
pub open spec fn split_args(s: Seq<char>) -> Seq<Seq<char>> {
    split_args_from(s, false, false, Seq::empty(), Seq::empty())
}

/// Split a command string into argv-style tokens, honouring quote
/// grouping and backslash escapes.
pub fn parse_command_args(command: &str) -> (r: Vec<String>)
    ensures
        r@.map_values(|x: String| x@) == split_args(command@),
{
    let t = chars_of(command);
    let n = t.len();
    let mut args: Vec<String> = Vec::new();
    let mut cur: Vec<char> = Vec::new();
    let mut in_single: bool = false;
    let mut in_double: bool = false;
    let mut i: usize = 0;
    proof {
        assert(t@.skip(0) =~= t@);
        assert(args@.map_values(|x: String| x@) =~= Seq::<Seq<char>>::empty());
    }
    while i < n
        invariant
            n == t@.len(),
            i <= n,
            split_args(t@) == split_args_from(
                t@.skip(i as int),
                in_single,
                in_double,
                cur@,
                args@.map_values(|x: String| x@),
            ),
            !(in_single && in_double),
        decreases n - i,
    {
        let ghost rem = t@.skip(i as int);
        let ghost acc0 = args@.map_values(|x: String| x@);
        let ghost cur0 = cur@;
        proof {
            assert(rem[0] == t@[i as int]);
            assert(rem.skip(1) =~= t@.skip(i + 1));
            if i + 2 <= n {
                assert(rem.skip(2) =~= t@.skip(i + 2));
                assert(rem[1] == t@[i + 1]);
            }
        }
        let c = t[i];
        if c == '\'' && !in_double {
            in_single = !in_single;
            i += 1;
        } else if c == '"' && !in_single {
            in_double = !in_double;
            i += 1;
        } else if (c == ' ' || c == '\t') && !in_single && !in_double {
            if cur.len() > 0 {
                args.push(string_from_chars(&cur));
                cur = Vec::new();
                proof {
                    assert(args@.map_values(|x: String| x@) =~= acc0.push(cur0));
                }
            } else {
                cur = Vec::new();
                proof {
                    assert(cur@ =~= Seq::<char>::empty());
                }
            }
            i += 1;
        } else if c == '\\' && in_single {
            if i + 1 < n && t[i + 1] == '\'' {
                cur.push('\'');
                i += 2;
            } else {
                cur.push('\\');
                i += 1;
            }
        } else if c == '\\' && in_double {
            if i + 1 < n {
                let nx = t[i + 1];
                if nx == '"' || nx == '\\' || nx == '$' || nx == '`' || nx == '\n' {
                    cur.push(nx);
                    i += 2;
                } else {
                    cur.push('\\');
                    i += 1;
                }
            } else {
                cur.push('\\');
                i += 1;
            }
        } else {
            cur.push(c);
            i += 1;
        }
    }
    proof {
        assert(t@.skip(n as int) =~= Seq::<char>::empty());
    }
    if cur.len() > 0 {
        args.push(string_from_chars(&cur));
        proof {
            assert(args@.map_values(|x: String| x@) =~= split_args(t@));
        }
    } else {
        proof {
            assert(args@.map_values(|x: String| x@) =~= split_args(t@));
        }
    }
    args
}

/// Characters that never appear in a well-behaved argument: quote
/// characters, backslashes, newlines and tabs, which the display
/// quoting does not escape.
pub open spec fn plain_chars(a: Seq<char>) -> bool {
    forall|k: int|
        0 <= k < a.len() ==> {
            let c = #[trigger] a[k];
            c != '"' && c != '\'' && c != '\\' && c != '\n' && c != '\t'
        }
}

/// The display text of the arguments after the first: a space and the
/// quoted argument, for each.
pub open spec fn join_rest(args: Seq<Seq<char>>) -> Seq<char>
    decreases args.len(),
{
    if args.len() == 0 {
        Seq::empty()
    } else {
        " "@ + quoted(args[0]) + join_rest(args.skip(1))
    }
}

/// The columns the arguments after the first take: one space plus the
/// display length, for each.
pub open spec fn total_rest(args: Seq<Seq<char>>) -> int
    decreases args.len(),
{
    if args.len() == 0 {
        0
    } else {
        1 + display_len(args[0]) + total_rest(args.skip(1))
    }
}

proof fn lemma_total_rest_nonneg(args: Seq<Seq<char>>)
    ensures
        total_rest(args) >= 0,
    decreases args.len(),
{
    if args.len() > 0 {
        lemma_total_rest_nonneg(args.skip(1));
    }
}

/// While everything still fits on the line, formatting never wraps:
/// it is the plain space-join.
proof fn lemma_format_no_wrap(args: Seq<Seq<char>>, col: int)
    requires
        col >= 0,
        col + total_rest(args) <= 80,
    ensures
        format_rest(args, false, col) == join_rest(args),
    decreases args.len(),
{
    if args.len() > 0 {
        let a = args[0];
        lemma_total_rest_nonneg(args.skip(1));
        assert(display_len(a) >= a.len());
        assert(col + a.len() <= 80);
        lemma_format_no_wrap(args.skip(1), col + 1 + display_len(a));
    }
}

/// An argument without quotes, backslashes or whitespace is absorbed
/// into the current token, character by character.
proof fn lemma_absorb_unquoted(a: Seq<char>, s: Seq<char>, cur: Seq<char>, acc: Seq<Seq<char>>)
    requires
        plain_chars(a),
        !seq_contains_char(a, ' '),
    ensures
        split_args_from(a + s, false, false, cur, acc) == split_args_from(
            s,
            false,
            false,
            cur + a,
            acc,
        ),
    decreases a.len(),
{
    if a.len() == 0 {
        assert(a + s =~= s);
        assert(cur + a =~= cur);
    } else {
        let c = a[0];
        assert((a + s)[0] == c);
        assert((a + s).skip(1) =~= a.skip(1) + s);
        assert(cur.push(c) =~= cur + seq![c]);
        assert(plain_chars(a.skip(1))) by {
            assert forall|k: int| 0 <= k < a.skip(1).len() implies {
                let d = #[trigger] a.skip(1)[k];
                d != '"' && d != '\'' && d != '\\' && d != '\n' && d != '\t'
            } by {
                assert(a.skip(1)[k] == a[k + 1]);
            }
        }
        assert(!seq_contains_char(a.skip(1), ' ')) by {
            if seq_contains_char(a.skip(1), ' ') {
                let k = choose|k: int| 0 <= k < a.skip(1).len() && a.skip(1)[k] == ' ';
                assert(a[k + 1] == ' ');
            }
        }
        lemma_absorb_unquoted(a.skip(1), s, cur + seq![c], acc);
        assert((cur + seq![c]) + a.skip(1) =~= cur + a);
    }
}

/// Inside double quotes, an argument without quotes or backslashes is
/// absorbed into the current token, whitespace included.
proof fn lemma_absorb_in_double(a: Seq<char>, s: Seq<char>, cur: Seq<char>, acc: Seq<Seq<char>>)
    requires
        plain_chars(a),
    ensures
        split_args_from(a + s, false, true, cur, acc) == split_args_from(
            s,
            false,
            true,
            cur + a,
            acc,
        ),
    decreases a.len(),
{
    if a.len() == 0 {
        assert(a + s =~= s);
        assert(cur + a =~= cur);
    } else {
        let c = a[0];
        assert((a + s)[0] == c);
        assert((a + s).skip(1) =~= a.skip(1) + s);
        assert(cur.push(c) =~= cur + seq![c]);
        assert(plain_chars(a.skip(1))) by {
            assert forall|k: int| 0 <= k < a.skip(1).len() implies {
                let d = #[trigger] a.skip(1)[k];
                d != '"' && d != '\'' && d != '\\' && d != '\n' && d != '\t'
            } by {
                assert(a.skip(1)[k] == a[k + 1]);
            }
        }
        lemma_absorb_in_double(a.skip(1), s, cur + seq![c], acc);
        assert((cur + seq![c]) + a.skip(1) =~= cur + a);
    }
}

/// A double-quoted argument without quotes or backslashes is absorbed
/// whole: the quotes toggle the group and are dropped.
proof fn lemma_absorb_quoted(a: Seq<char>, s: Seq<char>, cur: Seq<char>, acc: Seq<Seq<char>>)
    requires
        plain_chars(a),
    ensures
        split_args_from(seq!['"'] + a + seq!['"'] + s, false, false, cur, acc) == split_args_from(
            s,
            false,
            false,
            cur + a,
            acc,
        ),
{
    let t = seq!['"'] + a + seq!['"'] + s;
    assert(t[0] == '"');
    assert(t.skip(1) =~= a + (seq!['"'] + s));
    lemma_absorb_in_double(a, seq!['"'] + s, cur, acc);
    let u = seq!['"'] + s;
    assert(u[0] == '"');
    assert(u.skip(1) =~= s);
}

/// Splitting the joined tail appends its arguments, one by one, after
/// the token being collected.
proof fn lemma_split_join_rest(rest: Seq<Seq<char>>, cur: Seq<char>, acc: Seq<Seq<char>>)
    requires
        cur.len() > 0,
        forall|i: int| 0 <= i < rest.len() ==> (#[trigger] rest[i]).len() > 0,
        forall|i: int| 0 <= i < rest.len() ==> plain_chars(#[trigger] rest[i]),
    ensures
        split_args_from(join_rest(rest), false, false, cur, acc) == acc.push(cur) + rest,
    decreases rest.len(),
{
    reveal_strlit(" ");
    if rest.len() == 0 {
        assert(join_rest(rest).len() == 0);
        assert(acc.push(cur) + rest =~= acc.push(cur));
    } else {
        let a = rest[0];
        let t = join_rest(rest);
        assert(" "@ =~= seq![' ']);
        assert(t =~= seq![' '] + (quoted(a) + join_rest(rest.skip(1))));
        assert(t[0] == ' ');
        assert(t.skip(1) =~= quoted(a) + join_rest(rest.skip(1)));
        assert(Seq::<char>::empty() + a =~= a);
        if needs_quote(a) {
            assert(quoted(a) + join_rest(rest.skip(1)) =~= seq!['"'] + a + seq!['"'] + join_rest(
                rest.skip(1),
            ));
            lemma_absorb_quoted(a, join_rest(rest.skip(1)), Seq::empty(), acc.push(cur));
        } else {
            assert(a[0] != '"' && a[0] != '\'');
            assert(!seq_contains_char(a, ' '));
            assert(quoted(a) == a);
            lemma_absorb_unquoted(a, join_rest(rest.skip(1)), Seq::empty(), acc.push(cur));
        }
        assert forall|i: int| 0 <= i < rest.skip(1).len() implies (#[trigger] rest.skip(1)[i]).len()
            > 0 && plain_chars(rest.skip(1)[i]) by {
            assert(rest.skip(1)[i] == rest[i + 1]);
        }
        lemma_split_join_rest(rest.skip(1), a, acc.push(cur));
        assert(acc.push(cur).push(a) + rest.skip(1) =~= acc.push(cur) + rest);
    }
}

/// Round trip: an argument list whose entries are non-empty, free of
/// quote characters, backslashes, newlines and tabs, and short enough
/// that the display fits one line, splits back from its display text
/// into exactly the list that was assembled.
pub proof fn lemma_split_format_round_trip(args: Seq<Seq<char>>)
    requires
        args.len() >= 1,
        forall|i: int| 0 <= i < args.len() ==> (#[trigger] args[i]).len() > 0,
        forall|i: int| 0 <= i < args.len() ==> plain_chars(#[trigger] args[i]),
        display_len(args[0]) + total_rest(args.skip(1)) <= 80,
    ensures
        split_args(format_args_spec(args)) == args,
{
    let a0 = args[0];
    let rest = args.skip(1);
    assert(format_rest(args, true, 0) == quoted(a0) + format_rest(rest, false, display_len(a0)));
    assert(display_len(a0) >= 0);
    lemma_format_no_wrap(rest, display_len(a0));
    let text = quoted(a0) + join_rest(rest);
    assert(format_args_spec(args) == text);
    assert(Seq::<char>::empty() + a0 =~= a0);
    if needs_quote(a0) {
        assert(text =~= seq!['"'] + a0 + seq!['"'] + join_rest(rest));
        lemma_absorb_quoted(a0, join_rest(rest), Seq::empty(), Seq::empty());
    } else {
        assert(a0[0] != '"' && a0[0] != '\'');
        assert(!seq_contains_char(a0, ' '));
        assert(quoted(a0) == a0);
        lemma_absorb_unquoted(a0, join_rest(rest), Seq::empty(), Seq::empty());
    }
    assert forall|i: int| 0 <= i < rest.len() implies (#[trigger] rest[i]).len() > 0
        && plain_chars(rest[i]) by {
        assert(rest[i] == args[i + 1]);
    }
    lemma_split_join_rest(rest, a0, Seq::empty());
    assert(Seq::<Seq<char>>::empty().push(a0) + rest =~= args);
}

/// Round trip for a built command: when every assembled argument is
/// non-empty, free of quote characters, backslashes, newlines and
/// tabs, and the display fits one line, splitting the built string
/// reproduces exactly the argument list the builder assembled.
pub proof fn lemma_build_round_trip(cmd: CurlCommand, vars: Seq<EnvironmentVariable>)
    requires
        forall|i: int|
            0 <= i < build_args(cmd, vars).len() ==> (#[trigger] build_args(cmd, vars)[i]).len()
                > 0,
        forall|i: int|
            0 <= i < build_args(cmd, vars).len() ==> plain_chars(
                #[trigger] build_args(cmd, vars)[i],
            ),
        display_len(build_args(cmd, vars)[0]) + total_rest(build_args(cmd, vars).skip(1)) <= 80,
    ensures
        split_args(build_spec(cmd, vars)) == build_args(cmd, vars),
{
    assert(build_args(cmd, vars).len() >= 1);
    lemma_split_format_round_trip(build_args(cmd, vars));
}

} // verus!
