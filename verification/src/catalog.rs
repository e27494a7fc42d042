//! The option catalog: a fixed, hand-authored registry of known
//! command-line flags with their metadata.  Built once, read-only for
//! the process lifetime; every query is answered from this table.

use vstd::prelude::*;

verus! {

use vstd::multiset::Multiset;
use vstd::string::StringExecFns;
use crate::models::{clone_opt_string, fresh_id, CurlCommand, CurlOption};
use crate::strutil::{lex_lt, str_eq_str, str_lt};

/// Category of a catalog entry.
#[derive(Clone, Copy, PartialEq, Eq, Structural, Debug)]
pub enum OptionCategory {
    /// Basic options.
    Basic,
    /// Request options.
    Request,
    /// Authentication options.
    Authentication,
    /// Connection options.
    Connection,
    /// Header options.
    Header,
    /// SSL/TLS options.
    Ssl,
    /// Proxy options.
    Proxy,
    /// Output options.
    Output,
    /// Command-line options.
    CommandLine,
}

impl OptionCategory {
    /// The category's display label.
    pub open spec fn spec_label(self) -> Seq<char> {
        match self {
            OptionCategory::Basic => "Basic Options"@,
            OptionCategory::Request => "Request Options"@,
            OptionCategory::Authentication => "Authentication Options"@,
            OptionCategory::Connection => "Connection Options"@,
            OptionCategory::Header => "Header Options"@,
            OptionCategory::Ssl => "SSL/TLS Options"@,
            OptionCategory::Proxy => "Proxy Options"@,
            OptionCategory::Output => "Output Options"@,
            OptionCategory::CommandLine => "Command Line Options"@,
        }
    }

    /// Render the category as its display label.
    pub fn label(&self) -> (r: &'static str)
        ensures
            r@ == self.spec_label(),
    {
        match self {
            OptionCategory::Basic => "Basic Options",
            OptionCategory::Request => "Request Options",
            OptionCategory::Authentication => "Authentication Options",
            OptionCategory::Connection => "Connection Options",
            OptionCategory::Header => "Header Options",
            OptionCategory::Ssl => "SSL/TLS Options",
            OptionCategory::Proxy => "Proxy Options",
            OptionCategory::Output => "Output Options",
            OptionCategory::CommandLine => "Command Line Options",
        }
    }
}

/// Complexity tier of a catalog entry.
#[derive(Clone, Copy, PartialEq, Eq, Structural, Debug)]
pub enum OptionTier {
    /// Most common options.
    Basic,
    /// More specialized options.
    Advanced,
    /// Rarely used or complex options.
    Expert,
}

/// One catalog entry: a known flag and its metadata.
#[derive(Debug)]
pub struct OptionDefinition {
    /// Short flag, e.g. `-v`; the key of the entry.
    pub flag: String,
    /// Long form, e.g. `--verbose`, when one exists.
    pub long_flag: Option<String>,
    /// Human-readable description.
    pub description: String,
    /// Whether the flag takes a value argument.
    pub takes_value: bool,
    /// Category.
    pub category: OptionCategory,
    /// Complexity tier.
    pub tier: OptionTier,
}

/// The abstract value of a catalog entry.
pub struct OptionDefinitionView {
    /// Short flag.
    pub flag: Seq<char>,
    /// Long form, when one exists.
    pub long_flag: Option<Seq<char>>,
    /// Description.
    pub description: Seq<char>,
    /// Whether the flag takes a value argument.
    pub takes_value: bool,
    /// Category.
    pub category: OptionCategory,
    /// Complexity tier.
    pub tier: OptionTier,
}

impl View for OptionDefinition {
    type V = OptionDefinitionView;

    open spec fn view(&self) -> OptionDefinitionView {
        OptionDefinitionView {
            flag: self.flag@,
            long_flag: match self.long_flag {
                Option::Some(l) => Option::Some(l@),
                Option::None => Option::None,
            },
            description: self.description@,
            takes_value: self.takes_value,
            category: self.category,
            tier: self.tier,
        }
    }
}

impl Clone for OptionDefinition {
    /// A clone equals the original.
    fn clone(&self) -> (r: Self)
        ensures
            r == *self,
    {
        OptionDefinition {
            flag: self.flag.clone(),
            long_flag: clone_opt_string(&self.long_flag),
            description: self.description.clone(),
            takes_value: self.takes_value,
            category: self.category,
            tier: self.tier,
        }
    }
}

/// The views of a sequence of catalog entries.
pub open spec fn views_of(s: Seq<OptionDefinition>) -> Seq<OptionDefinitionView> {
    s.map_values(|d: OptionDefinition| d@)
}

/// First entry whose flag matches, if any.
pub open spec fn spec_lookup(s: Seq<OptionDefinitionView>, flag: Seq<char>) -> Option<
    OptionDefinitionView,
>
    decreases s.len(),
{
    if s.len() == 0 {
        Option::None
    } else if s[0].flag == flag {
        Option::Some(s[0])
    } else {
        spec_lookup(s.skip(1), flag)
    }
}

/// If no entry before `i` matches, the lookup is decided by the
/// entries from `i` on.
pub proof fn lemma_spec_lookup_skip(s: Seq<OptionDefinitionView>, flag: Seq<char>, i: int)
    requires
        0 <= i <= s.len(),
        forall|j: int| 0 <= j < i ==> s[j].flag != flag,
    ensures
        spec_lookup(s, flag) == spec_lookup(s.skip(i), flag),
    decreases i,
{
    if i > 0 {
        assert forall|j: int| 0 <= j < i - 1 implies s.skip(1)[j].flag != flag by {
            assert(s.skip(1)[j] == s[j + 1]);
        }
        lemma_spec_lookup_skip(s.skip(1), flag, i - 1);
        assert(s.skip(1).skip(i - 1) =~= s.skip(i));
    } else {
        assert(s.skip(0) =~= s);
    }
}

/// Build one catalog entry.
fn def(
    flag: &str,
    long_flag: Option<&str>,
    description: &str,
    takes_value: bool,
    category: OptionCategory,
    tier: OptionTier,
) -> (d: OptionDefinition)
    ensures
        d@ == (OptionDefinitionView {
            flag: flag@,
            long_flag: match long_flag {
                Option::Some(l) => Option::Some(l@),
                Option::None => Option::None,
            },
            description: description@,
            takes_value,
            category,
            tier,
        }),
{
    OptionDefinition {
        flag: String::from_str(flag),
        long_flag: match long_flag {
            Some(l) => Some(String::from_str(l)),
            None => None,
        },
        description: String::from_str(description),
        takes_value,
        category,
        tier,
    }
}

/// The full catalog, as abstract values, in definition order.
pub open spec fn catalog_table() -> Seq<OptionDefinitionView> {
    seq![
        OptionDefinitionView {
            flag: "-#"@,
            long_flag: Option::Some("--progress-bar"@),
            description: "Display transfer progress as a bar"@,
            takes_value: false,
            category: OptionCategory::Basic,
            tier: OptionTier::Basic,
        },
        OptionDefinitionView {
            flag: "-L"@,
            long_flag: Option::Some("--location"@),
            description: "Follow redirects"@,
            takes_value: false,
            category: OptionCategory::Basic,
            tier: OptionTier::Basic,
        },
        OptionDefinitionView {
            flag: "-f"@,
            long_flag: Option::Some("--fail"@),
            description: "Fail silently on server errors"@,
            takes_value: false,
            category: OptionCategory::Basic,
            tier: OptionTier::Basic,
        },
        OptionDefinitionView {
            flag: "-X"@,
            long_flag: Option::Some("--request"@),
            description: "HTTP method to use"@,
            takes_value: true,
            category: OptionCategory::Request,
            tier: OptionTier::Basic,
        },
        OptionDefinitionView {
            flag: "-d"@,
            long_flag: Option::Some("--data"@),
            description: "HTTP POST data"@,
            takes_value: true,
            category: OptionCategory::Request,
            tier: OptionTier::Basic,
        },
        OptionDefinitionView {
            flag: "--data-binary"@,
            long_flag: Option::None,
            description: "HTTP POST binary data"@,
            takes_value: true,
            category: OptionCategory::Request,
            tier: OptionTier::Advanced,
        },
        OptionDefinitionView {
            flag: "--data-urlencode"@,
            long_flag: Option::None,
            description: "HTTP POST data url encoded"@,
            takes_value: true,
            category: OptionCategory::Request,
            tier: OptionTier::Advanced,
        },
        OptionDefinitionView {
            flag: "-F"@,
            long_flag: Option::Some("--form"@),
            description: "Specify multipart MIME data"@,
            takes_value: true,
            category: OptionCategory::Request,
            tier: OptionTier::Advanced,
        },
        OptionDefinitionView {
            flag: "-u"@,
            long_flag: Option::Some("--user"@),
            description: "Server user and password"@,
            takes_value: true,
            category: OptionCategory::Authentication,
            tier: OptionTier::Basic,
        },
        OptionDefinitionView {
            flag: "--basic"@,
            long_flag: Option::None,
            description: "Use HTTP Basic Authentication"@,
            takes_value: false,
            category: OptionCategory::Authentication,
            tier: OptionTier::Basic,
        },
        OptionDefinitionView {
            flag: "--digest"@,
            long_flag: Option::None,
            description: "Use HTTP Digest Authentication"@,
            takes_value: false,
            category: OptionCategory::Authentication,
            tier: OptionTier::Advanced,
        },
        OptionDefinitionView {
            flag: "--ntlm"@,
            long_flag: Option::None,
            description: "Use HTTP NTLM authentication"@,
            takes_value: false,
            category: OptionCategory::Authentication,
            tier: OptionTier::Advanced,
        },
        OptionDefinitionView {
            flag: "--oauth2-bearer"@,
            long_flag: Option::None,
            description: "OAuth 2 Bearer Token"@,
            takes_value: true,
            category: OptionCategory::Authentication,
            tier: OptionTier::Basic,
        },
        OptionDefinitionView {
            flag: "-k"@,
            long_flag: Option::Some("--insecure"@),
            description: "Allow insecure server connections"@,
            takes_value: false,
            category: OptionCategory::Connection,
            tier: OptionTier::Basic,
        },
        OptionDefinitionView {
            flag: "--connect-timeout"@,
            long_flag: Option::None,
            description: "Maximum time allowed for connection"@,
            takes_value: true,
            category: OptionCategory::Connection,
            tier: OptionTier::Basic,
        },
        OptionDefinitionView {
            flag: "--max-time"@,
            long_flag: Option::Some("-m"@),
            description: "Maximum time allowed for the transfer"@,
            takes_value: true,
            category: OptionCategory::Connection,
            tier: OptionTier::Basic,
        },
        OptionDefinitionView {
            flag: "-4"@,
            long_flag: Option::Some("--ipv4"@),
            description: "Resolve names to IPv4 addresses"@,
            takes_value: false,
            category: OptionCategory::Connection,
            tier: OptionTier::Advanced,
        },
        OptionDefinitionView {
            flag: "-6"@,
            long_flag: Option::Some("--ipv6"@),
            description: "Resolve names to IPv6 addresses"@,
            takes_value: false,
            category: OptionCategory::Connection,
            tier: OptionTier::Advanced,
        },
        OptionDefinitionView {
            flag: "-H"@,
            long_flag: Option::Some("--header"@),
            description: "Pass custom header(s) to server"@,
            takes_value: true,
            category: OptionCategory::Header,
            tier: OptionTier::Basic,
        },
        OptionDefinitionView {
            flag: "-A"@,
            long_flag: Option::Some("--user-agent"@),
            description: "Send User-Agent to server"@,
            takes_value: true,
            category: OptionCategory::Header,
            tier: OptionTier::Basic,
        },
        OptionDefinitionView {
            flag: "-e"@,
            long_flag: Option::Some("--referer"@),
            description: "Referer URL"@,
            takes_value: true,
            category: OptionCategory::Header,
            tier: OptionTier::Basic,
        },
        OptionDefinitionView {
            flag: "-b"@,
            long_flag: Option::Some("--cookie"@),
            description: "Send cookies from string/file"@,
            takes_value: true,
            category: OptionCategory::Header,
            tier: OptionTier::Basic,
        },
        OptionDefinitionView {
            flag: "-c"@,
            long_flag: Option::Some("--cookie-jar"@),
            description: "Write cookies to file after operation"@,
            takes_value: true,
            category: OptionCategory::Header,
            tier: OptionTier::Advanced,
        },
        OptionDefinitionView {
            flag: "--cacert"@,
            long_flag: Option::None,
            description: "CA certificate to verify peer against"@,
            takes_value: true,
            category: OptionCategory::Ssl,
            tier: OptionTier::Advanced,
        },
        OptionDefinitionView {
            flag: "--cert"@,
            long_flag: Option::None,
            description: "Client certificate file"@,
            takes_value: true,
            category: OptionCategory::Ssl,
            tier: OptionTier::Advanced,
        },
        OptionDefinitionView {
            flag: "--key"@,
            long_flag: Option::None,
            description: "Private key file name"@,
            takes_value: true,
            category: OptionCategory::Ssl,
            tier: OptionTier::Advanced,
        },
        OptionDefinitionView {
            flag: "--ciphers"@,
            long_flag: Option::None,
            description: "SSL ciphers to use"@,
            takes_value: true,
            category: OptionCategory::Ssl,
            tier: OptionTier::Expert,
        },
        OptionDefinitionView {
            flag: "--tls-max"@,
            long_flag: Option::None,
            description: "Set maximum allowed TLS version"@,
            takes_value: true,
            category: OptionCategory::Ssl,
            tier: OptionTier::Expert,
        },
        OptionDefinitionView {
            flag: "-x"@,
            long_flag: Option::Some("--proxy"@),
            description: "Use proxy"@,
            takes_value: true,
            category: OptionCategory::Proxy,
            tier: OptionTier::Basic,
        },
        OptionDefinitionView {
            flag: "--proxy-basic"@,
            long_flag: Option::None,
            description: "Use Basic authentication on the proxy"@,
            takes_value: false,
            category: OptionCategory::Proxy,
            tier: OptionTier::Advanced,
        },
        OptionDefinitionView {
            flag: "--proxy-digest"@,
            long_flag: Option::None,
            description: "Use Digest authentication on the proxy"@,
            takes_value: false,
            category: OptionCategory::Proxy,
            tier: OptionTier::Advanced,
        },
        OptionDefinitionView {
            flag: "--noproxy"@,
            long_flag: Option::None,
            description: "List of hosts which do not use proxy"@,
            takes_value: true,
            category: OptionCategory::Proxy,
            tier: OptionTier::Advanced,
        },
        OptionDefinitionView {
            flag: "-p"@,
            long_flag: Option::Some("--proxytunnel"@),
            description: "Operate through an HTTP proxy tunnel (using CONNECT)"@,
            takes_value: false,
            category: OptionCategory::Proxy,
            tier: OptionTier::Advanced,
        },
        OptionDefinitionView {
            flag: "-o"@,
            long_flag: Option::Some("--output"@),
            description: "Write to file instead of stdout"@,
            takes_value: true,
            category: OptionCategory::Output,
            tier: OptionTier::Basic,
        },
        OptionDefinitionView {
            flag: "-O"@,
            long_flag: Option::Some("--remote-name"@),
            description: "Write output to a file named as the remote file"@,
            takes_value: false,
            category: OptionCategory::Output,
            tier: OptionTier::Basic,
        },
        OptionDefinitionView {
            flag: "-J"@,
            long_flag: Option::Some("--remote-header-name"@),
            description: "Use the header-provided filename"@,
            takes_value: false,
            category: OptionCategory::Output,
            tier: OptionTier::Advanced,
        },
        OptionDefinitionView {
            flag: "--create-dirs"@,
            long_flag: Option::None,
            description: "Create necessary local directory hierarchy"@,
            takes_value: false,
            category: OptionCategory::Output,
            tier: OptionTier::Advanced,
        },
        OptionDefinitionView {
            flag: "-w"@,
            long_flag: Option::Some("--write-out"@),
            description: "Use output FORMAT after completion"@,
            takes_value: true,
            category: OptionCategory::Output,
            tier: OptionTier::Advanced,
        },
        OptionDefinitionView {
            flag: "-v"@,
            long_flag: Option::Some("--verbose"@),
            description: "Make the operation more talkative"@,
            takes_value: false,
            category: OptionCategory::CommandLine,
            tier: OptionTier::Basic,
        },
        OptionDefinitionView {
            flag: "-s"@,
            long_flag: Option::Some("--silent"@),
            description: "Silent mode"@,
            takes_value: false,
            category: OptionCategory::CommandLine,
            tier: OptionTier::Basic,
        },
        OptionDefinitionView {
            flag: "-S"@,
            long_flag: Option::Some("--show-error"@),
            description: "Show error even when silent"@,
            takes_value: false,
            category: OptionCategory::CommandLine,
            tier: OptionTier::Basic,
        },
        OptionDefinitionView {
            flag: "-i"@,
            long_flag: Option::Some("--include"@),
            description: "Include protocol response headers in the output"@,
            takes_value: false,
            category: OptionCategory::CommandLine,
            tier: OptionTier::Basic,
        },
        OptionDefinitionView {
            flag: "-I"@,
            long_flag: Option::Some("--head"@),
            description: "Show document info only"@,
            takes_value: false,
            category: OptionCategory::CommandLine,
            tier: OptionTier::Basic,
        },
        OptionDefinitionView {
            flag: "-q"@,
            long_flag: Option::Some("--disable"@),
            description: "Disable .curlrc"@,
            takes_value: false,
            category: OptionCategory::CommandLine,
            tier: OptionTier::Basic,
        },
        OptionDefinitionView {
            flag: "-V"@,
            long_flag: Option::Some("--version"@),
            description: "Show version number and quit"@,
            takes_value: false,
            category: OptionCategory::CommandLine,
            tier: OptionTier::Basic,
        },
        OptionDefinitionView {
            flag: "-h"@,
            long_flag: Option::Some("--help"@),
            description: "Show help text"@,
            takes_value: false,
            category: OptionCategory::CommandLine,
            tier: OptionTier::Basic,
        },
        OptionDefinitionView {
            flag: "--trace"@,
            long_flag: Option::None,
            description: "Write a debug trace to FILE"@,
            takes_value: true,
            category: OptionCategory::CommandLine,
            tier: OptionTier::Basic,
        },
        OptionDefinitionView {
            flag: "--trace-ascii"@,
            long_flag: Option::None,
            description: "Like --trace, but without hex output"@,
            takes_value: true,
            category: OptionCategory::CommandLine,
            tier: OptionTier::Basic,
        },
        OptionDefinitionView {
            flag: "--trace-time"@,
            long_flag: Option::None,
            description: "Add time stamps to trace/verbose output"@,
            takes_value: false,
            category: OptionCategory::CommandLine,
            tier: OptionTier::Basic,
        },
        OptionDefinitionView {
            flag: "-K"@,
            long_flag: Option::Some("--config"@),
            description: "Read config from a file"@,
            takes_value: true,
            category: OptionCategory::CommandLine,
            tier: OptionTier::Basic,
        },
    ]
}

/// The option catalog.
pub struct CurlOptions {
    options: Vec<OptionDefinition>,
}

impl View for CurlOptions {
    type V = Seq<OptionDefinitionView>;

    closed spec fn view(&self) -> Seq<OptionDefinitionView> {
        views_of(self.options@)
    }
}

impl CurlOptions {
    /// All predefined catalog entries, in definition order.
    #[verifier::rlimit(40)]
    pub fn predefined_options() -> (r: Vec<OptionDefinition>)
        ensures
            views_of(r@) == catalog_table(),
    {
        let mut v: Vec<OptionDefinition> = Vec::new();
        v.push(def("-#", Some("--progress-bar"), "Display transfer progress as a bar", false, OptionCategory::Basic, OptionTier::Basic));
        v.push(def("-L", Some("--location"), "Follow redirects", false, OptionCategory::Basic, OptionTier::Basic));
        v.push(def("-f", Some("--fail"), "Fail silently on server errors", false, OptionCategory::Basic, OptionTier::Basic));
        v.push(def("-X", Some("--request"), "HTTP method to use", true, OptionCategory::Request, OptionTier::Basic));
        v.push(def("-d", Some("--data"), "HTTP POST data", true, OptionCategory::Request, OptionTier::Basic));
        v.push(def("--data-binary", None, "HTTP POST binary data", true, OptionCategory::Request, OptionTier::Advanced));
        v.push(def("--data-urlencode", None, "HTTP POST data url encoded", true, OptionCategory::Request, OptionTier::Advanced));
        v.push(def("-F", Some("--form"), "Specify multipart MIME data", true, OptionCategory::Request, OptionTier::Advanced));
        v.push(def("-u", Some("--user"), "Server user and password", true, OptionCategory::Authentication, OptionTier::Basic));
        v.push(def("--basic", None, "Use HTTP Basic Authentication", false, OptionCategory::Authentication, OptionTier::Basic));
        v.push(def("--digest", None, "Use HTTP Digest Authentication", false, OptionCategory::Authentication, OptionTier::Advanced));
        v.push(def("--ntlm", None, "Use HTTP NTLM authentication", false, OptionCategory::Authentication, OptionTier::Advanced));
        v.push(def("--oauth2-bearer", None, "OAuth 2 Bearer Token", true, OptionCategory::Authentication, OptionTier::Basic));
        v.push(def("-k", Some("--insecure"), "Allow insecure server connections", false, OptionCategory::Connection, OptionTier::Basic));
        v.push(def("--connect-timeout", None, "Maximum time allowed for connection", true, OptionCategory::Connection, OptionTier::Basic));
        v.push(def("--max-time", Some("-m"), "Maximum time allowed for the transfer", true, OptionCategory::Connection, OptionTier::Basic));
        v.push(def("-4", Some("--ipv4"), "Resolve names to IPv4 addresses", false, OptionCategory::Connection, OptionTier::Advanced));
        v.push(def("-6", Some("--ipv6"), "Resolve names to IPv6 addresses", false, OptionCategory::Connection, OptionTier::Advanced));
        v.push(def("-H", Some("--header"), "Pass custom header(s) to server", true, OptionCategory::Header, OptionTier::Basic));
        v.push(def("-A", Some("--user-agent"), "Send User-Agent to server", true, OptionCategory::Header, OptionTier::Basic));
        v.push(def("-e", Some("--referer"), "Referer URL", true, OptionCategory::Header, OptionTier::Basic));
        v.push(def("-b", Some("--cookie"), "Send cookies from string/file", true, OptionCategory::Header, OptionTier::Basic));
        v.push(def("-c", Some("--cookie-jar"), "Write cookies to file after operation", true, OptionCategory::Header, OptionTier::Advanced));
        v.push(def("--cacert", None, "CA certificate to verify peer against", true, OptionCategory::Ssl, OptionTier::Advanced));
        v.push(def("--cert", None, "Client certificate file", true, OptionCategory::Ssl, OptionTier::Advanced));
        v.push(def("--key", None, "Private key file name", true, OptionCategory::Ssl, OptionTier::Advanced));
        v.push(def("--ciphers", None, "SSL ciphers to use", true, OptionCategory::Ssl, OptionTier::Expert));
        v.push(def("--tls-max", None, "Set maximum allowed TLS version", true, OptionCategory::Ssl, OptionTier::Expert));
        v.push(def("-x", Some("--proxy"), "Use proxy", true, OptionCategory::Proxy, OptionTier::Basic));
        v.push(def("--proxy-basic", None, "Use Basic authentication on the proxy", false, OptionCategory::Proxy, OptionTier::Advanced));
        v.push(def("--proxy-digest", None, "Use Digest authentication on the proxy", false, OptionCategory::Proxy, OptionTier::Advanced));
        v.push(def("--noproxy", None, "List of hosts which do not use proxy", true, OptionCategory::Proxy, OptionTier::Advanced));
        v.push(def("-p", Some("--proxytunnel"), "Operate through an HTTP proxy tunnel (using CONNECT)", false, OptionCategory::Proxy, OptionTier::Advanced));
        v.push(def("-o", Some("--output"), "Write to file instead of stdout", true, OptionCategory::Output, OptionTier::Basic));
        v.push(def("-O", Some("--remote-name"), "Write output to a file named as the remote file", false, OptionCategory::Output, OptionTier::Basic));
        v.push(def("-J", Some("--remote-header-name"), "Use the header-provided filename", false, OptionCategory::Output, OptionTier::Advanced));
        v.push(def("--create-dirs", None, "Create necessary local directory hierarchy", false, OptionCategory::Output, OptionTier::Advanced));
        v.push(def("-w", Some("--write-out"), "Use output FORMAT after completion", true, OptionCategory::Output, OptionTier::Advanced));
        v.push(def("-v", Some("--verbose"), "Make the operation more talkative", false, OptionCategory::CommandLine, OptionTier::Basic));
        v.push(def("-s", Some("--silent"), "Silent mode", false, OptionCategory::CommandLine, OptionTier::Basic));
        v.push(def("-S", Some("--show-error"), "Show error even when silent", false, OptionCategory::CommandLine, OptionTier::Basic));
        v.push(def("-i", Some("--include"), "Include protocol response headers in the output", false, OptionCategory::CommandLine, OptionTier::Basic));
        v.push(def("-I", Some("--head"), "Show document info only", false, OptionCategory::CommandLine, OptionTier::Basic));
        v.push(def("-q", Some("--disable"), "Disable .curlrc", false, OptionCategory::CommandLine, OptionTier::Basic));
        v.push(def("-V", Some("--version"), "Show version number and quit", false, OptionCategory::CommandLine, OptionTier::Basic));
        v.push(def("-h", Some("--help"), "Show help text", false, OptionCategory::CommandLine, OptionTier::Basic));
        v.push(def("--trace", None, "Write a debug trace to FILE", true, OptionCategory::CommandLine, OptionTier::Basic));
        v.push(def("--trace-ascii", None, "Like --trace, but without hex output", true, OptionCategory::CommandLine, OptionTier::Basic));
        v.push(def("--trace-time", None, "Add time stamps to trace/verbose output", false, OptionCategory::CommandLine, OptionTier::Basic));
        v.push(def("-K", Some("--config"), "Read config from a file", true, OptionCategory::CommandLine, OptionTier::Basic));
        proof {
            assert(views_of(v@) =~= catalog_table());
        }
        v
    }

    /// Build the catalog from the predefined entries.
    pub fn new() -> (r: Self)
        ensures
            r@ == catalog_table(),
    {
        CurlOptions { options: Self::predefined_options() }
    }

    /// Look up an entry by flag; the first match decides.
    pub fn get_option<'a>(&'a self, flag: &str) -> (r: Option<&'a OptionDefinition>)
        ensures
            match r {
                Some(d) => spec_lookup(self@, flag@) == Some(d@),
                None => spec_lookup(self@, flag@) is None,
            },
    {
        let n = self.options.len();
        let mut i: usize = 0;
        while i < n
            invariant
                n == self.options@.len(),
                i <= n,
                forall|j: int| 0 <= j < i ==> views_of(self.options@)[j].flag != flag@,
            decreases n - i,
        {
            if str_eq_str(self.options[i].flag.as_str(), flag) {
                proof {
                    lemma_spec_lookup_skip(self@, flag@, i as int);
                    assert(self@.skip(i as int)[0] == self@[i as int]);
                }
                return Some(&self.options[i]);
            }
            i += 1;
        }
        proof {
            lemma_spec_lookup_skip(self@, flag@, n as int);
        }
        None
    }

    /// All entries of a category, in catalog order.
    pub fn get_options_by_category<'a>(&'a self, category: &OptionCategory) -> (r: Vec<
        &'a OptionDefinition,
    >)
        ensures
            r@.map_values(|d: &OptionDefinition| d@) == self@.filter(
                |d: OptionDefinitionView| d.category == *category,
            ),
    {
        let n = self.options.len();
        let mut r: Vec<&OptionDefinition> = Vec::new();
        let mut i: usize = 0;
        while i < n
            invariant
                n == self.options@.len(),
                i <= n,
                r@.map_values(|d: &OptionDefinition| d@) == self@.take(i as int).filter(
                    |d: OptionDefinitionView| d.category == *category,
                ),
            decreases n - i,
        {
            let ghost prefix = self@.take(i as int);
            if self.options[i].category.eq_cat(category) {
                r.push(&self.options[i]);
            }
            proof {
                reveal(Seq::filter);
                let pushed = prefix.push(self@[i as int]);
                assert(self@.take(i + 1) =~= pushed);
                assert(pushed.drop_last() =~= prefix);
                assert(pushed.last() == self@[i as int]);
                assert(self@[i as int] == self.options@[i as int]@);
            }
            i += 1;
        }
        proof {
            assert(self@.take(n as int) =~= self@);
        }
        r
    }

    /// All entries of a tier, in catalog order.
    pub fn get_options_by_tier<'a>(&'a self, tier: &OptionTier) -> (r: Vec<&'a OptionDefinition>)
        ensures
            r@.map_values(|d: &OptionDefinition| d@) == self@.filter(
                |d: OptionDefinitionView| d.tier == *tier,
            ),
    {
        let n = self.options.len();
        let mut r: Vec<&OptionDefinition> = Vec::new();
        let mut i: usize = 0;
        while i < n
            invariant
                n == self.options@.len(),
                i <= n,
                r@.map_values(|d: &OptionDefinition| d@) == self@.take(i as int).filter(
                    |d: OptionDefinitionView| d.tier == *tier,
                ),
            decreases n - i,
        {
            let ghost prefix = self@.take(i as int);
            if self.options[i].tier.eq_tier(tier) {
                r.push(&self.options[i]);
            }
            proof {
                reveal(Seq::filter);
                let pushed = prefix.push(self@[i as int]);
                assert(self@.take(i + 1) =~= pushed);
                assert(pushed.drop_last() =~= prefix);
                assert(pushed.last() == self@[i as int]);
                assert(self@[i as int] == self.options@[i as int]@);
            }
            i += 1;
        }
        proof {
            assert(self@.take(n as int) =~= self@);
        }
        r
    }

    /// All entries of a category and tier, in catalog order.
    pub fn get_options_by_category_and_tier<'a>(
        &'a self,
        category: &OptionCategory,
        tier: &OptionTier,
    ) -> (r: Vec<&'a OptionDefinition>)
        ensures
            r@.map_values(|d: &OptionDefinition| d@) == self@.filter(
                |d: OptionDefinitionView| d.category == *category && d.tier == *tier,
            ),
    {
        let n = self.options.len();
        let mut r: Vec<&OptionDefinition> = Vec::new();
        let mut i: usize = 0;
        while i < n
            invariant
                n == self.options@.len(),
                i <= n,
                r@.map_values(|d: &OptionDefinition| d@) == self@.take(i as int).filter(
                    |d: OptionDefinitionView| d.category == *category && d.tier == *tier,
                ),
            decreases n - i,
        {
            let ghost prefix = self@.take(i as int);
            if self.options[i].category.eq_cat(category) && self.options[i].tier.eq_tier(tier) {
                r.push(&self.options[i]);
            }
            proof {
                reveal(Seq::filter);
                let pushed = prefix.push(self@[i as int]);
                assert(self@.take(i + 1) =~= pushed);
                assert(pushed.drop_last() =~= prefix);
                assert(pushed.last() == self@[i as int]);
                assert(self@[i as int] == self.options@[i as int]@);
            }
            i += 1;
        }
        proof {
            assert(self@.take(n as int) =~= self@);
        }
        r
    }

    /// The command-line category entries not already attached to the
    /// command, sorted by flag for a stable, deterministic order.
    pub fn command_line_unattached(&self, cmd: &CurlCommand) -> (r: Vec<OptionDefinition>)
        ensures
            views_of(r@).to_multiset() == self@.filter(cl_unattached(cmd.options@)).to_multiset(),
            r@.len() == self@.filter(cl_unattached(cmd.options@)).len(),
            sorted_by_flag(r@),
            forall|i: int|
                0 <= i < r@.len() ==> #[trigger] cl_unattached(cmd.options@)(r@[i]@),
    {
        broadcast use vstd::seq_lib::group_to_multiset_ensures;

        let n = self.options.len();
        let mut picked: Vec<OptionDefinition> = Vec::new();
        let mut i: usize = 0;
        while i < n
            invariant
                n == self.options@.len(),
                i <= n,
                views_of(picked@) == self@.take(i as int).filter(cl_unattached(cmd.options@)),
            decreases n - i,
        {
            let ghost prefix = self@.take(i as int);
            let is_cl = self.options[i].category.eq_cat(&OptionCategory::CommandLine);
            if is_cl && !is_flag_attached(cmd, self.options[i].flag.as_str()) {
                picked.push(self.options[i].clone());
            }
            proof {
                reveal(Seq::filter);
                let pushed = prefix.push(self@[i as int]);
                assert(self@.take(i + 1) =~= pushed);
                assert(pushed.drop_last() =~= prefix);
                assert(pushed.last() == self@[i as int]);
                assert(self@[i as int] == self.options@[i as int]@);
            }
            i += 1;
        }
        proof {
            assert(self@.take(n as int) =~= self@);
        }
        let r = sort_by_flag(picked);
        proof {
            assert(views_of(r@).to_multiset() =~= views_of(picked@).to_multiset()) by {
                lemma_views_multiset(r@, picked@);
            }
            let pred = cl_unattached(cmd.options@);
            assert(views_of(r@).to_multiset().len() == views_of(r@).len());
            assert(views_of(picked@).to_multiset().len() == views_of(picked@).len());
            assert(views_of(r@).len() == views_of(picked@).len());
            assert(r@.len() == self@.filter(pred).len());
            assert forall|k: int| 0 <= k < r@.len() implies #[trigger] pred(r@[k]@) by {
                assert(r@.to_multiset().count(r@[k]) > 0);
                assert(picked@.to_multiset().count(r@[k]) > 0);
                assert(picked@.contains(r@[k]));
                let m = choose|m: int| 0 <= m < picked@.len() && picked@[m] == r@[k];
                assert(views_of(picked@)[m] == picked@[m]@);
                self@.lemma_filter_pred(pred, m);
            }
        }
        r
    }

    /// Create an attachable option from a catalog entry: an empty value
    /// when the flag takes one, no value otherwise.
    pub fn create_option(&self, flag: &str) -> (r: Option<CurlOption>)
        ensures
            match r {
                Some(o) => {
                    &&& spec_lookup(self@, flag@) matches Some(d)
                    &&& o.flag@ == d.flag
                    &&& o.enabled
                    &&& if d.takes_value {
                        o.value matches Some(v) && v@.len() == 0
                    } else {
                        o.value is None
                    }
                },
                None => spec_lookup(self@, flag@) is None,
            },
    {
        match self.get_option(flag) {
            Some(d) => Some(
                CurlOption {
                    id: fresh_id(),
                    flag: d.flag.clone(),
                    value: if d.takes_value {
                        Some(String::new())
                    } else {
                        None
                    },
                    enabled: true,
                },
            ),
            None => None,
        }
    }
}

/// Non-strict flag order between catalog entries.
pub open spec fn flag_leq(a: OptionDefinition, b: OptionDefinition) -> bool {
    !lex_lt(b.flag@, a.flag@)
}

/// Whether the entries are sorted by flag, ascending.
pub open spec fn sorted_by_flag(s: Seq<OptionDefinition>) -> bool {
    forall|i: int, j: int| 0 <= i < j < s.len() ==> flag_leq(s[i], s[j])
}

/// Whether some attached option of the command carries this flag.
pub open spec fn flag_attached(options: Seq<CurlOption>, flag: Seq<char>) -> bool {
    exists|i: int| 0 <= i < options.len() && options[i].flag@ == flag
}

/// The predicate selecting catalog entries for the derived options
/// list: command-line category and not already attached.
pub open spec fn cl_unattached(options: Seq<CurlOption>) -> spec_fn(OptionDefinitionView) -> bool {
    |d: OptionDefinitionView|
        d.category == OptionCategory::CommandLine && !flag_attached(options, d.flag)
}

/// Scan the attached options of a command for a flag.
pub fn is_flag_attached(cmd: &CurlCommand, flag: &str) -> (r: bool)
    ensures
        r == flag_attached(cmd.options@, flag@),
{
    let n = cmd.options.len();
    let mut i: usize = 0;
    while i < n
        invariant
            n == cmd.options@.len(),
            i <= n,
            forall|j: int| 0 <= j < i ==> cmd.options@[j].flag@ != flag@,
        decreases n - i,
    {
        if str_eq_str(cmd.options[i].flag.as_str(), flag) {
            return true;
        }
        i += 1;
    }
    false
}

/// Sort catalog entries by flag, ascending, with selection of the
/// least remaining entry.
fn sort_by_flag(v: Vec<OptionDefinition>) -> (r: Vec<OptionDefinition>)
    ensures
        r@.to_multiset() == v@.to_multiset(),
        sorted_by_flag(r@),
{
    broadcast use vstd::seq_lib::group_to_multiset_ensures;

    let ghost orig = v@;
    let mut rest = v;
    let mut out: Vec<OptionDefinition> = Vec::new();
    while rest.len() > 0
        invariant
            out@.to_multiset().add(rest@.to_multiset()) == orig.to_multiset(),
            sorted_by_flag(out@),
            forall|a: int, b: int|
                0 <= a < out@.len() && 0 <= b < rest@.len() ==> flag_leq(out@[a], rest@[b]),
        decreases rest@.len(),
    {
        let mut min: usize = 0;
        let mut j: usize = 1;
        proof {
            crate::strutil::lemma_lex_lt_irrefl(rest@[0].flag@);
        }
        while j < rest.len()
            invariant
                rest@.len() > 0,
                min < j,
                j <= rest@.len(),
                forall|k: int| 0 <= k < j ==> flag_leq(rest@[min as int], rest@[k]),
            decreases rest@.len() - j,
        {
            if str_lt(rest[j].flag.as_str(), rest[min].flag.as_str()) {
                proof {
                    assert forall|k: int| 0 <= k < j + 1 implies flag_leq(
                        rest@[j as int],
                        rest@[k],
                    ) by {
                        if k == j {
                            crate::strutil::lemma_lex_lt_irrefl(rest@[j as int].flag@);
                        } else if lex_lt(rest@[k].flag@, rest@[j as int].flag@) {
                            crate::strutil::lemma_lex_lt_trans(
                                rest@[k].flag@,
                                rest@[j as int].flag@,
                                rest@[min as int].flag@,
                            );
                        }
                    }
                }
                min = j;
            }
            j += 1;
        }
        let ghost old_out = out@;
        let ghost old_rest = rest@;
        let item = rest.remove(min);
        out.push(item);
        proof {
            let x = old_rest[min as int];
            assert(out@ == old_out.push(x));
            vstd::seq_lib::to_multiset_build::<OptionDefinition>(old_out, x);
            assert(rest@ == old_rest.remove(min as int));
            vstd::seq_lib::to_multiset_remove::<OptionDefinition>(old_rest, min as int);
            assert(old_rest.contains(x));
            vstd::seq_lib::to_multiset_contains::<OptionDefinition>(old_rest, x);
            assert forall|y: OptionDefinition|
                out@.to_multiset().add(rest@.to_multiset()).count(y) == old_out.to_multiset().add(
                    old_rest.to_multiset(),
                ).count(y) by {}
            assert(out@.to_multiset().add(rest@.to_multiset()) =~= old_out.to_multiset().add(
                old_rest.to_multiset(),
            ));
            assert forall|a: int, b: int|
                0 <= a < out@.len() && 0 <= b < rest@.len() implies flag_leq(
                out@[a],
                rest@[b],
            ) by {
                if b < min {
                    assert(rest@[b] == old_rest[b]);
                } else {
                    assert(rest@[b] == old_rest[b + 1]);
                }
            }
        }
    }
    proof {
        assert(rest@ =~= Seq::<OptionDefinition>::empty());
        assert(rest@.to_multiset() =~= Multiset::<OptionDefinition>::empty());
        assert(out@.to_multiset() =~= orig.to_multiset());
    }
    out
}

/// Element-wise views keep multiset equality.
proof fn lemma_views_multiset(a: Seq<OptionDefinition>, b: Seq<OptionDefinition>)
    requires
        a.to_multiset() == b.to_multiset(),
    ensures
        views_of(a).to_multiset() == views_of(b).to_multiset(),
    decreases a.len(),
{
    broadcast use vstd::seq_lib::group_to_multiset_ensures;

    if a.len() == 0 {
        assert(a.to_multiset().len() == a.len());
        assert(b.to_multiset().len() == b.len());
        assert(b.len() == 0);
        assert(views_of(a) =~= Seq::<OptionDefinitionView>::empty());
        assert(views_of(b) =~= Seq::<OptionDefinitionView>::empty());
    } else {
        let x = a[0];
        assert(a.to_multiset().count(x) > 0);
        assert(b.to_multiset().count(x) > 0);
        assert(b.contains(x));
        let m = choose|m: int| 0 <= m < b.len() && b[m] == x;
        let a1 = a.remove(0);
        let b1 = b.remove(m);
        assert(a1.to_multiset() =~= a.to_multiset().remove(x));
        assert(b1.to_multiset() =~= b.to_multiset().remove(x));
        lemma_views_multiset(a1, b1);
        assert(views_of(a1) =~= views_of(a).remove(0));
        assert(views_of(b1) =~= views_of(b).remove(m));
        assert(views_of(a).remove(0).to_multiset() =~= views_of(a).to_multiset().remove(
            views_of(a)[0],
        ));
        assert(views_of(b).remove(m).to_multiset() =~= views_of(b).to_multiset().remove(
            views_of(b)[m],
        ));
        assert(views_of(a)[0] == x@);
        assert(views_of(b)[m] == x@);
        assert(views_of(a).contains(x@));
        assert(views_of(b).contains(x@));
        assert(views_of(a).to_multiset().count(x@) > 0);
        assert(views_of(b).to_multiset().count(x@) > 0);
        assert forall|y: OptionDefinitionView|
            views_of(a).to_multiset().count(y) == views_of(b).to_multiset().count(y) by {
            if y == x@ {
                assert(views_of(a).to_multiset().remove(y).count(y) == views_of(
                    a,
                ).to_multiset().count(y) - 1);
                assert(views_of(b).to_multiset().remove(y).count(y) == views_of(
                    b,
                ).to_multiset().count(y) - 1);
            } else {
                assert(views_of(a).to_multiset().remove(x@).count(y) == views_of(
                    a,
                ).to_multiset().count(y));
                assert(views_of(b).to_multiset().remove(x@).count(y) == views_of(
                    b,
                ).to_multiset().count(y));
            }
        }
        assert(views_of(a).to_multiset() =~= views_of(b).to_multiset());
    }
}

impl OptionCategory {
    /// Compare two categories.
    pub fn eq_cat(&self, other: &OptionCategory) -> (r: bool)
        ensures
            r == (*self == *other),
    {
        *self == *other
    }
}

impl OptionTier {
    /// Compare two tiers.
    pub fn eq_tier(&self, other: &OptionTier) -> (r: bool)
        ensures
            r == (*self == *other),
    {
        *self == *other
    }
}

} // verus!
