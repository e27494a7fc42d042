//! The validator: inspects a command for structural errors (an
//! unusable URL, conflicting flags, flags missing a required value)
//! and soft warnings (insecure flags, very long timeouts).  Advisory
//! only: the builder never consults it, and the caller decides whether
//! an error blocks execution.

use vstd::prelude::*;

verus! {

use vstd::string::StringExecFns;
use crate::models::{CurlCommand, CurlOption};
use crate::strutil::{
    all_space, all_space_chars, chars_of, dec_chars, dec_digits, parse_bounded, parse_unsigned,
    str_eq_str, string_from_chars,
};

/// The name of whatever `url::Url::parse` answers for a given text: it
/// is a function of the text alone — `None` when the text parses as an
/// absolute URL, else the parser's error message.
pub uninterp spec fn url_parse_error(s: Seq<char>) -> Option<Seq<char>>;

/// Relies on `url::Url::parse`: deterministic in its input; `Ok` and
/// `Err` cases are reported as `None` and the error's display text.
#[verifier::external_body]
fn check_url_syntax(s: &str) -> (r: Option<String>)
    ensures
        match r {
            Some(m) => url_parse_error(s@) == Some(m@),
            None => url_parse_error(s@) is None,
        },
{
    match url::Url::parse(s) {
        Ok(_) => None,
        Err(e) => Some(e.to_string()),
    }
}

/// Whether some enabled attached option carries this flag.
pub open spec fn has_enabled_flag(options: Seq<CurlOption>, flag: Seq<char>) -> bool {
    exists|i: int| 0 <= i < options.len() && options[i].enabled && options[i].flag@ == flag
}

/// Whether the text contains the character twice in a row.
pub open spec fn has_double(s: Seq<char>, c: char) -> bool {
    exists|i: int| 0 <= i && i + 1 < s.len() && #[trigger] s[i] == c && s[i + 1] == c
}

/// Whether the flag always takes a value.
pub open spec fn requires_value(f: Seq<char>) -> bool {
    ||| f == "-X"@
    ||| f == "--request"@
    ||| f == "-d"@
    ||| f == "--data"@
    ||| f == "--data-binary"@
    ||| f == "--data-urlencode"@
    ||| f == "-F"@
    ||| f == "--form"@
    ||| f == "-u"@
    ||| f == "--user"@
    ||| f == "--oauth2-bearer"@
    ||| f == "--connect-timeout"@
    ||| f == "--max-time"@
    ||| f == "-H"@
    ||| f == "--header"@
    ||| f == "-A"@
    ||| f == "--user-agent"@
    ||| f == "-e"@
    ||| f == "--referer"@
    ||| f == "-b"@
    ||| f == "--cookie"@
    ||| f == "-c"@
    ||| f == "--cookie-jar"@
    ||| f == "--cacert"@
    ||| f == "--cert"@
    ||| f == "--key"@
    ||| f == "--ciphers"@
    ||| f == "--tls-max"@
    ||| f == "-x"@
    ||| f == "--proxy"@
    ||| f == "--noproxy"@
    ||| f == "-o"@
    ||| f == "--output"@
    ||| f == "-w"@
    ||| f == "--write-out"@
}

/// The URL check: empty is an error; text containing `{{` and `}}`
/// cannot be judged before substitution and passes; anything else
/// must parse as an absolute URL.
pub open spec fn invalid_url_msg(url: Seq<char>) -> Option<Seq<char>> {
    if all_space(url) {
        Option::Some("Invalid URL: URL cannot be empty"@)
    } else if has_double(url, '{') && has_double(url, '}') {
        Option::None
    } else {
        match url_parse_error(url) {
            Option::Some(m) => Option::Some("Invalid URL: "@ + m),
            Option::None => Option::None,
        }
    }
}

/// Whether an enabled option demands a value it does not have.
pub open spec fn missing_value(o: CurlOption) -> bool {
    o.enabled && requires_value(o.flag@) && (match o.value {
        Option::None => true,
        Option::Some(v) => all_space(v@),
    })
}

/// The missing-value error for one option.
pub open spec fn missing_value_msg(o: CurlOption) -> Seq<char> {
    "Option "@ + o.flag@ + " requires a value"@
}

/// The missing-value errors of all options, in list order.
pub open spec fn missing_value_msgs(options: Seq<CurlOption>) -> Seq<Seq<char>>
    decreases options.len(),
{
    if options.len() == 0 {
        Seq::empty()
    } else {
        missing_value_msgs(options.drop_last()) + (if missing_value(options.last()) {
            seq![missing_value_msg(options.last())]
        } else {
            Seq::empty()
        })
    }
}

/// The silent/verbose conflict error.
pub open spec fn conflict_sv_msg() -> Seq<char> {
    "Conflicting options: -s (silent) and -v (verbose) cannot be used together"@
}

/// The head/body conflict error.
pub open spec fn conflict_head_msg() -> Seq<char> {
    "Conflicting options: -I (head) cannot be used with a request body"@
}

/// The insecure-connection warning.
pub open spec fn insecure_msg() -> Seq<char> {
    "The -k/--insecure option disables SSL certificate verification, which may be insecure"@
}

/// The long-timeout warning for one option: raised when an enabled
/// `--max-time` or `-m` carries a numeric value over 300 seconds.
pub open spec fn timeout_warning(o: CurlOption) -> Option<Seq<char>> {
    if o.enabled && (o.flag@ == "--max-time"@ || o.flag@ == "-m"@) && o.value is Some {
        match parse_unsigned(o.value->0@) {
            Option::Some(t) => if 300 < t <= 0xffff_ffff {
                Option::Some(
                    "Long timeout value ("@ + dec_digits(t) + "s) may cause the command to hang"@,
                )
            } else {
                Option::None
            },
            Option::None => Option::None,
        }
    } else {
        Option::None
    }
}

/// The long-timeout warnings of all options, in list order.
pub open spec fn timeout_msgs(options: Seq<CurlOption>) -> Seq<Seq<char>>
    decreases options.len(),
{
    if options.len() == 0 {
        Seq::empty()
    } else {
        timeout_msgs(options.drop_last()) + (match timeout_warning(options.last()) {
            Option::Some(m) => seq![m],
            Option::None => Seq::empty(),
        })
    }
}

/// Every error a command raises, in a fixed order: the URL check,
/// then the two conflict checks, then each missing value.
pub open spec fn spec_errors(cmd: CurlCommand) -> Seq<Seq<char>> {
    (match invalid_url_msg(cmd.url@) {
        Option::Some(m) => seq![m],
        Option::None => Seq::empty(),
    }) + (if has_enabled_flag(cmd.options@, "-s"@) && has_enabled_flag(cmd.options@, "-v"@) {
        seq![conflict_sv_msg()]
    } else {
        Seq::empty()
    }) + (if has_enabled_flag(cmd.options@, "-I"@) && cmd.body is Some {
        seq![conflict_head_msg()]
    } else {
        Seq::empty()
    }) + missing_value_msgs(cmd.options@)
}

/// Every warning a command raises, in a fixed order: the insecure
/// check, then each long timeout.
pub open spec fn spec_warnings(cmd: CurlCommand) -> Seq<Seq<char>> {
    (if has_enabled_flag(cmd.options@, "-k"@) || has_enabled_flag(cmd.options@, "--insecure"@) {
        seq![insecure_msg()]
    } else {
        Seq::empty()
    }) + timeout_msgs(cmd.options@)
}

/// The views of a sequence of strings.
pub open spec fn str_views(s: Seq<String>) -> Seq<Seq<char>> {
    s.map_values(|x: String| x@)
}

/// Enabling `-s` and `-v` together always raises an error, whatever
/// the other fields hold: validation of such a command can never
/// answer `Valid` or `Warning`.
pub proof fn lemma_silent_verbose_conflict(cmd: CurlCommand)
    requires
        has_enabled_flag(cmd.options@, "-s"@),
        has_enabled_flag(cmd.options@, "-v"@),
    ensures
        spec_errors(cmd).len() > 0,
{
}

/// The outcome of validating a command.
#[derive(Debug)]
pub enum ValidationResult {
    /// No errors, no warnings.
    Valid,
    /// No errors, but at least one warning.
    Warning(Vec<String>),
    /// At least one error.
    Error(Vec<String>),
}

impl ValidationResult {
    /// Whether the command passed without errors or warnings.
    pub fn is_valid(&self) -> (r: bool)
        ensures
            r == (*self is Valid),
    {
        matches!(self, ValidationResult::Valid)
    }

    /// Whether the command raised warnings (and no errors).
    pub fn has_warnings(&self) -> (r: bool)
        ensures
            r == (*self is Warning),
    {
        matches!(self, ValidationResult::Warning(_))
    }

    /// Whether the command raised errors.
    pub fn has_errors(&self) -> (r: bool)
        ensures
            r == (*self is Error),
    {
        matches!(self, ValidationResult::Error(_))
    }

    /// The warnings, when there are any.
    pub fn warnings(&self) -> (r: Vec<String>)
        ensures
            match *self {
                ValidationResult::Warning(ref w) => r@ == w@,
                _ => r@.len() == 0,
            },
    {
        match self {
            ValidationResult::Warning(warnings) => {
                let c = warnings.clone();
                proof {
                    assert forall|i: int| 0 <= i < warnings@.len() implies c@[i]
                        == warnings@[i] by {
                        assert(cloned::<String>(warnings@[i], c@[i]));
                    }
                    assert(c@ =~= warnings@);
                }
                c
            },
            _ => Vec::new(),
        }
    }

    /// The errors, when there are any.
    pub fn errors(&self) -> (r: Vec<String>)
        ensures
            match *self {
                ValidationResult::Error(ref e) => r@ == e@,
                _ => r@.len() == 0,
            },
    {
        match self {
            ValidationResult::Error(errors) => {
                let c = errors.clone();
                proof {
                    assert forall|i: int| 0 <= i < errors@.len() implies c@[i] == errors@[i] by {
                        assert(cloned::<String>(errors@[i], c@[i]));
                    }
                    assert(c@ =~= errors@);
                }
                c
            },
            _ => Vec::new(),
        }
    }
}

/// Whether the flag always takes a value.
fn flag_requires_value(flag: &str) -> (r: bool)
    ensures
        r == requires_value(flag@),
{
    str_eq_str(flag, "-X")
        || str_eq_str(flag, "--request")
        || str_eq_str(flag, "-d")
        || str_eq_str(flag, "--data")
        || str_eq_str(flag, "--data-binary")
        || str_eq_str(flag, "--data-urlencode")
        || str_eq_str(flag, "-F")
        || str_eq_str(flag, "--form")
        || str_eq_str(flag, "-u")
        || str_eq_str(flag, "--user")
        || str_eq_str(flag, "--oauth2-bearer")
        || str_eq_str(flag, "--connect-timeout")
        || str_eq_str(flag, "--max-time")
        || str_eq_str(flag, "-H")
        || str_eq_str(flag, "--header")
        || str_eq_str(flag, "-A")
        || str_eq_str(flag, "--user-agent")
        || str_eq_str(flag, "-e")
        || str_eq_str(flag, "--referer")
        || str_eq_str(flag, "-b")
        || str_eq_str(flag, "--cookie")
        || str_eq_str(flag, "-c")
        || str_eq_str(flag, "--cookie-jar")
        || str_eq_str(flag, "--cacert")
        || str_eq_str(flag, "--cert")
        || str_eq_str(flag, "--key")
        || str_eq_str(flag, "--ciphers")
        || str_eq_str(flag, "--tls-max")
        || str_eq_str(flag, "-x")
        || str_eq_str(flag, "--proxy")
        || str_eq_str(flag, "--noproxy")
        || str_eq_str(flag, "-o")
        || str_eq_str(flag, "--output")
        || str_eq_str(flag, "-w")
        || str_eq_str(flag, "--write-out")
}

/// Scan the attached options for an enabled one with this flag.
fn find_enabled_flag(options: &Vec<CurlOption>, flag: &str) -> (r: bool)
    ensures
        r == has_enabled_flag(options@, flag@),
{
    let n = options.len();
    let mut i: usize = 0;
    while i < n
        invariant
            n == options@.len(),
            i <= n,
            forall|j: int|
                0 <= j < i ==> !(options@[j].enabled && options@[j].flag@ == flag@),
        decreases n - i,
    {
        if options[i].enabled && str_eq_str(options[i].flag.as_str(), flag) {
            return true;
        }
        i += 1;
    }
    false
}

/// Scan text for the character twice in a row.
fn find_double(v: &Vec<char>, c: char) -> (r: bool)
    ensures
        r == has_double(v@, c),
{
    if v.len() < 2 {
        return false;
    }
    let mut i: usize = 0;
    while i < v.len() - 1
        invariant
            v@.len() >= 2,
            i + 1 <= v@.len(),
            forall|j: int| 0 <= j && j + 1 < i + 1 ==> !(#[trigger] v@[j] == c && v@[j + 1] == c),
        decreases v@.len() - i,
    {
        if v[i] == c && v[i + 1] == c {
            return true;
        }
        i += 1;
    }
    false
}

/// The URL check, yielding the full error message when one is raised.
fn url_error_message(url: &str) -> (r: Option<String>)
    ensures
        match r {
            Some(m) => invalid_url_msg(url@) == Some(m@),
            None => invalid_url_msg(url@) is None,
        },
{
    let cc = chars_of(url);
    if all_space_chars(&cc) {
        return Some(String::from_str("Invalid URL: URL cannot be empty"));
    }
    if find_double(&cc, '{') && find_double(&cc, '}') {
        return None;
    }
    match check_url_syntax(url) {
        Some(m) => {
            let mut msg = chars_of("Invalid URL: ");
            let mut tail = chars_of(m.as_str());
            msg.append(&mut tail);
            Some(string_from_chars(&msg))
        },
        None => None,
    }
}

/// The validator.
pub struct CommandValidator;

impl CommandValidator {
    /// Validate a command: every check runs and its findings
    /// accumulate; any error makes the outcome `Error`, else any
    /// warning makes it `Warning`, else it is `Valid`.
    pub fn validate(command: &CurlCommand) -> (r: ValidationResult)
        ensures
            match r {
                ValidationResult::Error(es) => str_views(es@) == spec_errors(*command)
                    && spec_errors(*command).len() > 0,
                ValidationResult::Warning(ws) => str_views(ws@) == spec_warnings(*command)
                    && spec_errors(*command).len() == 0 && spec_warnings(*command).len() > 0,
                ValidationResult::Valid => spec_errors(*command).len() == 0 && spec_warnings(
                    *command,
                ).len() == 0,
            },
    {
        let mut errors: Vec<String> = Vec::new();
        match url_error_message(command.url.as_str()) {
            Some(m) => {
                errors.push(m);
            },
            None => {},
        }
        let ghost url_part = match invalid_url_msg(command.url@) {
            Option::Some(m) => seq![m],
            Option::None => Seq::<Seq<char>>::empty(),
        };
        proof {
            assert(str_views(errors@) =~= url_part);
        }
        if find_enabled_flag(&command.options, "-s") && find_enabled_flag(&command.options, "-v") {
            errors.push(
                String::from_str(
                    "Conflicting options: -s (silent) and -v (verbose) cannot be used together",
                ),
            );
        }
        let ghost sv_part = if has_enabled_flag(command.options@, "-s"@) && has_enabled_flag(
            command.options@,
            "-v"@,
        ) {
            seq![conflict_sv_msg()]
        } else {
            Seq::<Seq<char>>::empty()
        };
        proof {
            assert(str_views(errors@) =~= url_part + sv_part);
        }
        let head_conflict = {
            let head = find_enabled_flag(&command.options, "-I");
            if head {
                match &command.body {
                    Some(_) => true,
                    None => false,
                }
            } else {
                false
            }
        };
        if head_conflict {
            errors.push(
                String::from_str("Conflicting options: -I (head) cannot be used with a request body"),
            );
        }
        let ghost head_part = if has_enabled_flag(command.options@, "-I"@) && command.body is Some {
            seq![conflict_head_msg()]
        } else {
            Seq::<Seq<char>>::empty()
        };
        proof {
            assert(str_views(errors@) =~= url_part + sv_part + head_part);
        }
        let ghost conflicts = url_part + sv_part + head_part;
        let n = command.options.len();
        let mut i: usize = 0;
        proof {
            assert(command.options@.take(0) =~= Seq::<CurlOption>::empty());
            assert(str_views(errors@) =~= conflicts + missing_value_msgs(
                command.options@.take(0),
            ));
        }
        while i < n
            invariant
                n == command.options@.len(),
                i <= n,
                str_views(errors@) == conflicts + missing_value_msgs(
                    command.options@.take(i as int),
                ),
            decreases n - i,
        {
            let ghost errs0 = str_views(errors@);
            let o = &command.options[i];
            if o.enabled && flag_requires_value(o.flag.as_str()) {
                let miss = match &o.value {
                    Some(v) => {
                        let vc = chars_of(v.as_str());
                        all_space_chars(&vc)
                    },
                    None => true,
                };
                if miss {
                    let mut msg = chars_of("Option ");
                    let mut fl = chars_of(o.flag.as_str());
                    msg.append(&mut fl);
                    let mut tail = chars_of(" requires a value");
                    msg.append(&mut tail);
                    errors.push(string_from_chars(&msg));
                }
            }
            proof {
                let t1 = command.options@.take(i + 1);
                assert(t1.drop_last() =~= command.options@.take(i as int));
                assert(t1.last() == command.options@[i as int]);
                assert(str_views(errors@) =~= errs0 + (if missing_value(
                    command.options@[i as int],
                ) {
                    seq![missing_value_msg(command.options@[i as int])]
                } else {
                    Seq::<Seq<char>>::empty()
                }));
            }
            i += 1;
        }
        proof {
            assert(command.options@.take(n as int) =~= command.options@);
            assert(str_views(errors@) =~= spec_errors(*command));
        }
        let mut warnings: Vec<String> = Vec::new();
        if find_enabled_flag(&command.options, "-k") || find_enabled_flag(
            &command.options,
            "--insecure",
        ) {
            warnings.push(
                String::from_str(
                    "The -k/--insecure option disables SSL certificate verification, which may be insecure",
                ),
            );
        }
        let ghost insec_part = if has_enabled_flag(command.options@, "-k"@) || has_enabled_flag(
            command.options@,
            "--insecure"@,
        ) {
            seq![insecure_msg()]
        } else {
            Seq::<Seq<char>>::empty()
        };
        proof {
            assert(str_views(warnings@) =~= insec_part + timeout_msgs(command.options@.take(0)));
            assert(command.options@.take(0) =~= Seq::<CurlOption>::empty());
        }
        let mut i: usize = 0;
        while i < n
            invariant
                n == command.options@.len(),
                i <= n,
                str_views(warnings@) == insec_part + timeout_msgs(command.options@.take(i as int)),
            decreases n - i,
        {
            let ghost warns0 = str_views(warnings@);
            let o = &command.options[i];
            if o.enabled && (str_eq_str(o.flag.as_str(), "--max-time") || str_eq_str(
                o.flag.as_str(),
                "-m",
            )) {
                match &o.value {
                    Some(v) => {
                        let vc = chars_of(v.as_str());
                        match parse_bounded(&vc, 0xffff_ffff) {
                            Some(t) => {
                                if t > 300 {
                                    let mut msg = chars_of("Long timeout value (");
                                    let mut num = dec_chars(t as u128);
                                    msg.append(&mut num);
                                    let mut tail = chars_of(
                                        "s) may cause the command to hang",
                                    );
                                    msg.append(&mut tail);
                                    warnings.push(string_from_chars(&msg));
                                }
                            },
                            None => {},
                        }
                    },
                    None => {},
                }
            }
            proof {
                let t1 = command.options@.take(i + 1);
                assert(t1.drop_last() =~= command.options@.take(i as int));
                assert(t1.last() == command.options@[i as int]);
                assert(str_views(warnings@) =~= warns0 + (match timeout_warning(
                    command.options@[i as int],
                ) {
                    Option::Some(m) => seq![m],
                    Option::None => Seq::<Seq<char>>::empty(),
                }));
            }
            i += 1;
        }
        proof {
            assert(command.options@.take(n as int) =~= command.options@);
            assert(str_views(warnings@) =~= spec_warnings(*command));
        }
        if errors.len() > 0 {
            ValidationResult::Error(errors)
        } else if warnings.len() > 0 {
            ValidationResult::Warning(warnings)
        } else {
            ValidationResult::Valid
        }
    }
}

} // verus!
