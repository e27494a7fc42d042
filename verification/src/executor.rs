//! The execution collaborator's data model: the result of one run of
//! the external tool, the executor handle that locates it, and a mock
//! used by tests.  The actual process spawning and stream capture live
//! outside this crate; the core only refuses to run when the tool was
//! not found and interprets exit codes.

use vstd::prelude::*;

verus! {

use vstd::string::StringExecFns;
use crate::models::clone_opt_string;

/// Result of one execution of the external tool.
#[derive(Debug)]
pub struct ExecutionResult {
    /// The command string that was executed.
    pub command: String,
    /// The process exit code; `None` means it was ended by a signal.
    pub exit_code: Option<i32>,
    /// Captured standard output.
    pub stdout: String,
    /// Captured standard error.
    pub stderr: String,
    /// Wall-clock execution time, in milliseconds.
    pub execution_time_ms: u64,
    /// An error message, when the run failed outright.
    pub error: Option<String>,
}

impl Clone for ExecutionResult {
    /// A clone equals the original.
    fn clone(&self) -> (r: Self)
        ensures
            r == *self,
    {
        ExecutionResult {
            command: self.command.clone(),
            exit_code: self.exit_code,
            stdout: self.stdout.clone(),
            stderr: self.stderr.clone(),
            execution_time_ms: self.execution_time_ms,
            error: clone_opt_string(&self.error),
        }
    }
}

/// Relies on `which::which`: locates an executable on the search
/// path.  The outcome depends on the machine, so nothing is promised
/// beyond the shape of the answer.
#[verifier::external_body]
fn find_curl() -> (r: Option<String>) {
    match which::which("curl") {
        Ok(path) => Some(path.to_string_lossy().into_owned()),
        Err(_) => None,
    }
}

/// The human-readable meaning of an exit code of the external tool.
pub open spec fn curl_error_message_spec(code: int) -> Seq<char> {
    if code == 1 {
        "Unsupported protocol"@
    } else if code == 2 {
        "Failed to initialize"@
    } else if code == 3 {
        "URL malformed"@
    } else if code == 4 {
        "A feature or option that was needed to perform the desired request was not enabled"@
    } else if code == 5 {
        "Couldn't resolve proxy"@
    } else if code == 6 {
        "Couldn't resolve host"@
    } else if code == 7 {
        "Failed to connect to host"@
    } else if code == 8 {
        "FTP weird server reply"@
    } else if code == 9 {
        "FTP access denied"@
    } else if code == 10 {
        "FTP accept failed"@
    } else if code == 11 {
        "FTP weird PASS reply"@
    } else if code == 12 {
        "FTP accept timeout"@
    } else if code == 13 {
        "FTP weird PASV reply"@
    } else if code == 14 {
        "FTP weird 227 format"@
    } else if code == 15 {
        "FTP can't get host"@
    } else if code == 16 {
        "HTTP/2 framing layer error"@
    } else if code == 17 {
        "FTP couldn't set binary"@
    } else if code == 18 {
        "Partial file transfer"@
    } else if code == 19 {
        "FTP couldn't download/access the given file"@
    } else if code == 20 {
        "FTP write error"@
    } else if code == 21 {
        "FTP quote error"@
    } else if code == 22 {
        "HTTP page not retrieved"@
    } else if code == 23 {
        "Write error"@
    } else if code == 24 {
        "Upload failed"@
    } else if code == 25 {
        "Failed to open/read local data"@
    } else if code == 26 {
        "Read error"@
    } else if code == 27 {
        "Out of memory"@
    } else if code == 28 {
        "Operation timeout"@
    } else if code == 29 {
        "FTP PORT failed"@
    } else if code == 30 {
        "FTP couldn't use REST"@
    } else if code == 31 {
        "HTTP range error"@
    } else if code == 32 {
        "HTTP post error"@
    } else if code == 33 {
        "SSL connect error"@
    } else if code == 34 {
        "FTP bad download resume"@
    } else if code == 35 {
        "FILE couldn't read file"@
    } else if code == 36 {
        "LDAP cannot bind"@
    } else if code == 37 {
        "LDAP search failed"@
    } else if code == 38 {
        "Function not found"@
    } else if code == 39 {
        "Aborted by callback"@
    } else if code == 40 {
        "Bad function argument"@
    } else if code == 41 {
        "Bad calling order"@
    } else if code == 42 {
        "HTTP Interface operation failed"@
    } else if code == 43 {
        "Bad password entered"@
    } else if code == 44 {
        "Too many redirects"@
    } else if code == 45 {
        "Unknown option specified"@
    } else if code == 46 {
        "Malformed telnet option"@
    } else if code == 47 {
        "The peer certificate cannot be authenticated"@
    } else if code == 48 {
        "Unknown TELNET option specified"@
    } else if code == 49 {
        "Malformed telnet option"@
    } else if code == 51 {
        "The peer's SSL certificate or SSH MD5 fingerprint was not OK"@
    } else if code == 52 {
        "The server didn't reply anything"@
    } else if code == 53 {
        "SSL crypto engine not found"@
    } else if code == 54 {
        "Cannot set SSL crypto engine as default"@
    } else if code == 55 {
        "Failed sending network data"@
    } else if code == 56 {
        "Failure in receiving network data"@
    } else if code == 58 {
        "Problem with the local certificate"@
    } else if code == 59 {
        "Couldn't use specified cipher"@
    } else if code == 60 {
        "Peer certificate cannot be authenticated with known CA certificates"@
    } else if code == 61 {
        "Unrecognized transfer encoding"@
    } else if code == 62 {
        "Invalid LDAP URL"@
    } else if code == 63 {
        "Maximum file size exceeded"@
    } else if code == 64 {
        "Requested FTP SSL level failed"@
    } else if code == 65 {
        "Sending the data requires a rewind that failed"@
    } else if code == 66 {
        "Failed to initialise SSL Engine"@
    } else if code == 67 {
        "The user name, password, or similar was not accepted and curl failed to log in"@
    } else if code == 68 {
        "File not found on TFTP server"@
    } else if code == 69 {
        "Permission problem on TFTP server"@
    } else if code == 70 {
        "Out of disk space on TFTP server"@
    } else if code == 71 {
        "Illegal TFTP operation"@
    } else if code == 72 {
        "Unknown transfer ID"@
    } else if code == 73 {
        "File already exists"@
    } else if code == 74 {
        "No such user"@
    } else if code == 75 {
        "Character conversion failed"@
    } else if code == 76 {
        "Character conversion functions required"@
    } else if code == 77 {
        "Problem with reading the SSL CA cert"@
    } else if code == 78 {
        "The resource referenced in the URL does not exist"@
    } else if code == 79 {
        "An unspecified error occurred during the SSH session"@
    } else if code == 80 {
        "Failed to shut down the SSL connection"@
    } else if code == 82 {
        "Could not load CRL file"@
    } else if code == 83 {
        "Issuer check failed"@
    } else if code == 84 {
        "The FTP PRET command failed"@
    } else if code == 85 {
        "RTSP: mismatch of CSeq numbers"@
    } else if code == 86 {
        "RTSP: mismatch of Session Identifiers"@
    } else if code == 87 {
        "Unable to parse FTP file list"@
    } else if code == 88 {
        "FTP chunk callback reported error"@
    } else if code == 89 {
        "No connection available, the session will be queued"@
    } else if code == 90 {
        "SSL public key does not matched pinned public key"@
    } else if code == 91 {
        "Invalid SSL certificate status"@
    } else if code == 92 {
        "Stream error in HTTP/2 framing layer"@
    } else if code == 93 {
        "An API function was called from inside a callback"@
    } else if code == 94 {
        "An authentication function returned an error"@
    } else if code == 95 {
        "A problem was detected in the HTTP/3 layer"@
    } else if code == 96 {
        "QUIC connection error"@
    } else {
        "Unknown error"@
    }
}

/// A handle on the located external tool.
#[derive(Debug)]
pub struct CommandExecutor {
    /// Path of the executable found on the search path.
    curl_path: String,
}

impl CommandExecutor {
    /// The path of the located executable, abstractly.
    pub closed spec fn spec_path(&self) -> Seq<char> {
        self.curl_path@
    }

    /// Locate the external tool; constructing the executor fails with
    /// a fixed message when it is not on the search path.
    pub fn new() -> (r: Result<Self, String>)
        ensures
            r matches Err(m) ==> m@ == "curl executable not found in PATH"@,
    {
        match find_curl() {
            Some(path) => Ok(CommandExecutor { curl_path: path }),
            None => Err(String::from_str("curl executable not found in PATH")),
        }
    }

    /// The path the executor will run.
    pub fn path(&self) -> (r: &str)
        ensures
            r@ == self.spec_path(),
    {
        self.curl_path.as_str()
    }

    /// The human-readable meaning of an exit code of the external
    /// tool.
    pub fn get_curl_error_message(exit_code: i32) -> (r: &'static str)
        ensures
            r@ == curl_error_message_spec(exit_code as int),
    {
        match exit_code {
            1 => "Unsupported protocol",
            2 => "Failed to initialize",
            3 => "URL malformed",
            4 => "A feature or option that was needed to perform the desired request was not enabled",
            5 => "Couldn't resolve proxy",
            6 => "Couldn't resolve host",
            7 => "Failed to connect to host",
            8 => "FTP weird server reply",
            9 => "FTP access denied",
            10 => "FTP accept failed",
            11 => "FTP weird PASS reply",
            12 => "FTP accept timeout",
            13 => "FTP weird PASV reply",
            14 => "FTP weird 227 format",
            15 => "FTP can't get host",
            16 => "HTTP/2 framing layer error",
            17 => "FTP couldn't set binary",
            18 => "Partial file transfer",
            19 => "FTP couldn't download/access the given file",
            20 => "FTP write error",
            21 => "FTP quote error",
            22 => "HTTP page not retrieved",
            23 => "Write error",
            24 => "Upload failed",
            25 => "Failed to open/read local data",
            26 => "Read error",
            27 => "Out of memory",
            28 => "Operation timeout",
            29 => "FTP PORT failed",
            30 => "FTP couldn't use REST",
            31 => "HTTP range error",
            32 => "HTTP post error",
            33 => "SSL connect error",
            34 => "FTP bad download resume",
            35 => "FILE couldn't read file",
            36 => "LDAP cannot bind",
            37 => "LDAP search failed",
            38 => "Function not found",
            39 => "Aborted by callback",
            40 => "Bad function argument",
            41 => "Bad calling order",
            42 => "HTTP Interface operation failed",
            43 => "Bad password entered",
            44 => "Too many redirects",
            45 => "Unknown option specified",
            46 => "Malformed telnet option",
            47 => "The peer certificate cannot be authenticated",
            48 => "Unknown TELNET option specified",
            49 => "Malformed telnet option",
            51 => "The peer's SSL certificate or SSH MD5 fingerprint was not OK",
            52 => "The server didn't reply anything",
            53 => "SSL crypto engine not found",
            54 => "Cannot set SSL crypto engine as default",
            55 => "Failed sending network data",
            56 => "Failure in receiving network data",
            58 => "Problem with the local certificate",
            59 => "Couldn't use specified cipher",
            60 => "Peer certificate cannot be authenticated with known CA certificates",
            61 => "Unrecognized transfer encoding",
            62 => "Invalid LDAP URL",
            63 => "Maximum file size exceeded",
            64 => "Requested FTP SSL level failed",
            65 => "Sending the data requires a rewind that failed",
            66 => "Failed to initialise SSL Engine",
            67 => "The user name, password, or similar was not accepted and curl failed to log in",
            68 => "File not found on TFTP server",
            69 => "Permission problem on TFTP server",
            70 => "Out of disk space on TFTP server",
            71 => "Illegal TFTP operation",
            72 => "Unknown transfer ID",
            73 => "File already exists",
            74 => "No such user",
            75 => "Character conversion failed",
            76 => "Character conversion functions required",
            77 => "Problem with reading the SSL CA cert",
            78 => "The resource referenced in the URL does not exist",
            79 => "An unspecified error occurred during the SSH session",
            80 => "Failed to shut down the SSL connection",
            82 => "Could not load CRL file",
            83 => "Issuer check failed",
            84 => "The FTP PRET command failed",
            85 => "RTSP: mismatch of CSeq numbers",
            86 => "RTSP: mismatch of Session Identifiers",
            87 => "Unable to parse FTP file list",
            88 => "FTP chunk callback reported error",
            89 => "No connection available, the session will be queued",
            90 => "SSL public key does not matched pinned public key",
            91 => "Invalid SSL certificate status",
            92 => "Stream error in HTTP/2 framing layer",
            93 => "An API function was called from inside a callback",
            94 => "An authentication function returned an error",
            95 => "A problem was detected in the HTTP/3 layer",
            96 => "QUIC connection error",
            _ => "Unknown error",
        }
    }
}

/// A mock executor for tests: answers immediately with fixed output.
pub struct MockCommandExecutor;

impl MockCommandExecutor {
    /// Create a mock executor.
    pub fn new() -> Self {
        MockCommandExecutor
    }

    /// A canned result: immediate success, fixed standard output.
    pub fn execute(&self, command: &str) -> (r: ExecutionResult)
        ensures
            r.command@ == command@,
            r.exit_code == Some(0i32),
            r.stdout@ == "Mock stdout output"@,
            r.stderr@.len() == 0,
            r.execution_time_ms == 100,
            r.error is None,
    {
        ExecutionResult {
            command: String::from_str(command),
            exit_code: Some(0),
            stdout: String::from_str("Mock stdout output"),
            stderr: String::new(),
            execution_time_ms: 100,
            error: None,
        }
    }
}

} // verus!
