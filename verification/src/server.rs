//! Manifest locator and compilation probe.
//!
//! `GhcidServer` answers two questions about a Haskell project directory:
//! whether it holds a cabal manifest, and how an external compiler-feedback
//! run against it ended. The filesystem reads and the process launch happen
//! outside this library; their observations arrive here as plain values
//! (`DirScan`, `ProcessOutcome`), and every function below is verified to
//! map them to the documented result.

use vstd::prelude::*;
use vstd::string::StringExecFns;

use crate::text::dec_digits_of;
use crate::text::is_suffix_of;
use crate::text::str_ends_with;
use crate::text::u64_to_dec;

verus! {

/// Timeout applied when a compilation request names none, in seconds.
pub const DEFAULT_TIMEOUT_SECS: u64 = 300;

/// A request to look for a cabal manifest.
#[derive(Debug)]
pub struct CabalCheckRequest {
    /// Path to the Haskell project directory.
    pub path: String,
}

/// The outcome of a manifest lookup.
#[derive(Debug)]
pub struct CabalCheckResponse {
    /// Whether a cabal file was found.
    pub found: bool,
    /// Message describing the result.
    pub message: String,
    /// Path to the cabal file if found.
    pub cabal_file: Option<String>,
}

/// A request to run the compilation probe.
#[derive(Debug)]
pub struct CompileCheckRequest {
    /// Path to the Haskell project directory.
    pub path: String,
    /// Timeout in seconds for the compilation check.
    pub timeout_secs: Option<u64>,
}

/// The outcome of a compilation probe.
#[derive(Debug)]
pub struct CompileCheckResponse {
    /// Whether the compilation was successful.
    pub success: bool,
    /// Status message.
    pub message: String,
    /// Compilation output (stdout).
    pub output: String,
    /// Compilation errors (stderr).
    pub errors: String,
    /// Exit code from the external process.
    pub exit_code: Option<i32>,
}

/// Every way a manifest lookup can fail.
#[derive(Debug)]
pub enum CabalCheckError {
    /// The supplied path does not exist.
    PathNotFound { path: String },
    /// The supplied path exists but is not a directory.
    NotADirectory { path: String },
    /// The filesystem refused to enumerate the directory.
    PermissionDenied { path: String },
    /// Any other failure while reading the directory.
    IoError { cause: String },
    /// The directory holds no cabal file.
    NoCabalFile { path: String },
}

/// Every way a compilation probe can fail.
#[derive(Debug)]
pub enum CompileCheckError {
    /// The supplied path does not exist.
    PathNotFound { path: String },
    /// No cabal file blocks the probe before any launch.
    NoCabalFile { path: String },
    /// The external process outlived its wall-clock budget.
    Timeout { timeout_secs: u64 },
    /// The process could not be launched or its output not read.
    IoError { cause: String },
}

/// One direct child of the scanned directory.
#[derive(Debug, Clone)]
pub struct DirEntry {
    /// The entry's file name, without its directory.
    pub name: String,
    /// The entry's full path.
    pub path: String,
}

/// What one look at the project directory observed.
#[derive(Debug)]
pub enum DirScan {
    /// The path does not exist.
    Missing,
    /// The path exists but is not a directory.
    NotDirectory,
    /// The filesystem denied the enumeration.
    PermissionDenied,
    /// The enumeration failed some other way; `cause` renders the reason.
    ReadFailed { cause: String },
    /// The direct children, in enumeration order.
    Listed { entries: Vec<DirEntry> },
}

/// How one bounded run of the external process ended.
#[derive(Debug)]
pub enum ProcessOutcome {
    /// The process exited before the deadline; `success` reports whether
    /// its exit status indicated success.
    Exited { stdout: String, stderr: String, exit_code: Option<i32>, success: bool },
    /// The process could not be launched or its output not read.
    LaunchFailed { cause: String },
    /// The deadline elapsed first; the process was terminated unread.
    TimedOut,
}

/// The stateless server owning the probe operations. Each call is
/// independent: no field, so nothing is shared between invocations.
#[derive(Debug, Clone, Copy)]
pub struct GhcidServer;

/// A name ending in `.cabal` marks a build manifest.
pub open spec fn is_cabal_name(name: Seq<char>) -> bool {
    is_suffix_of(".cabal"@, name)
}

/// The first manifest entry in enumeration order, if any.
pub open spec fn first_cabal(entries: Seq<DirEntry>) -> Option<DirEntry>
    decreases entries.len(),
{
    if entries.len() <= 0 {
        None
    } else if is_cabal_name(entries[0].name@) {
        Some(entries[0])
    } else {
        first_cabal(entries.drop_first())
    }
}

/// Whether the scan saw a directory listing holding a manifest.
pub open spec fn scan_finds_cabal(scan: DirScan) -> bool {
    scan matches DirScan::Listed { entries } && first_cabal(entries@) is Some
}

/// How many manifest entries the listing holds. The result never shapes
/// a response: a lookup reports at most one path, and ambiguity is
/// observable only through telemetry.
pub open spec fn cabal_count(entries: Seq<DirEntry>) -> nat
    decreases entries.len(),
{
    if entries.len() == 0 {
        0
    } else {
        (if is_cabal_name(entries[0].name@) {
            1nat
        } else {
            0nat
        }) + cabal_count(entries.drop_first())
    }
}

/// The message each lookup failure renders.
pub open spec fn cabal_error_message(e: CabalCheckError) -> Seq<char> {
    match e {
        CabalCheckError::PathNotFound { path } => "Path does not exist: "@ + path@,
        CabalCheckError::NotADirectory { path } => "Path is not a directory: "@ + path@,
        CabalCheckError::PermissionDenied { path } => "Permission denied accessing path: "@
            + path@,
        CabalCheckError::IoError { cause } => "I/O error reading directory: "@ + cause@,
        CabalCheckError::NoCabalFile { path } => "No cabal files found in directory: "@ + path@,
    }
}

/// The message each probe failure renders.
pub open spec fn compile_error_message(e: CompileCheckError) -> Seq<char> {
    match e {
        CompileCheckError::PathNotFound { path } => "Path does not exist: "@ + path@,
        CompileCheckError::NoCabalFile { path } => "No cabal file found in directory: "@ + path@,
        CompileCheckError::Timeout { timeout_secs } => "Compilation timed out after "@
            + dec_digits_of(timeout_secs as nat) + " seconds"@,
        CompileCheckError::IoError { cause } => "I/O error during compilation check: "@ + cause@,
    }
}

/// What a manifest lookup returns for each observed scan: the error naming
/// the failed precondition, or the found response carrying the first
/// manifest's path.
pub open spec fn cabal_check_spec(
    path: Seq<char>,
    scan: DirScan,
    r: Result<CabalCheckResponse, CabalCheckError>,
) -> bool {
    match scan {
        DirScan::Missing => r matches Err(CabalCheckError::PathNotFound { path: p }) && p@
            == path,
        DirScan::NotDirectory => r matches Err(CabalCheckError::NotADirectory { path: p }) && p@
            == path,
        DirScan::PermissionDenied => r matches Err(
            CabalCheckError::PermissionDenied { path: p },
        ) && p@ == path,
        DirScan::ReadFailed { cause } => r matches Err(CabalCheckError::IoError { cause: c })
            && c@ == cause@,
        DirScan::Listed { entries } => match first_cabal(entries@) {
            Some(e) => {
                &&& r matches Ok(resp)
                &&& resp.found
                &&& resp.message@ == "Cabal file is located"@
                &&& resp.cabal_file matches Some(p)
                &&& p@ == e.path@
            },
            None => r matches Err(CabalCheckError::NoCabalFile { path: p }) && p@ == path,
        },
    }
}

/// What the probe's precondition pass returns: the missing path is reported
/// first; every lookup failure then folds into the no-manifest error; only
/// a scan that found a manifest clears the way to a launch.
pub open spec fn compile_preflight_spec(
    path: Seq<char>,
    path_exists: bool,
    scan: DirScan,
    r: Result<(), CompileCheckError>,
) -> bool {
    if !path_exists {
        r matches Err(CompileCheckError::PathNotFound { path: p }) && p@ == path
    } else if scan_finds_cabal(scan) {
        r is Ok
    } else {
        r matches Err(CompileCheckError::NoCabalFile { path: p }) && p@ == path
    }
}

/// What the probe returns for each way the bounded run ended: a response
/// carrying both streams and the exit status verbatim, the timeout error
/// with the budget that elapsed, or the I/O error with its cause.
pub open spec fn compile_outcome_spec(
    timeout_secs: u64,
    outcome: ProcessOutcome,
    r: Result<CompileCheckResponse, CompileCheckError>,
) -> bool {
    match outcome {
        ProcessOutcome::Exited { stdout, stderr, exit_code, success } => {
            &&& r matches Ok(resp)
            &&& resp.success == success
            &&& resp.output@ == stdout@
            &&& resp.errors@ == stderr@
            &&& resp.exit_code == exit_code
            &&& resp.message@ == (if success {
                "Compilation successful - no errors found"@
            } else {
                "Compilation failed - errors detected"@
            })
        },
        ProcessOutcome::LaunchFailed { cause } => r matches Err(
            CompileCheckError::IoError { cause: c },
        ) && c@ == cause@,
        ProcessOutcome::TimedOut => r matches Err(CompileCheckError::Timeout { timeout_secs: t })
            && t == timeout_secs,
    }
}

/// How a lookup result folds into the response handed to the caller:
/// a failure keeps its rendered message and reports nothing found.
pub open spec fn cabal_response_of(
    r: Result<CabalCheckResponse, CabalCheckError>,
    resp: CabalCheckResponse,
) -> bool {
    match r {
        Ok(ok) => resp == ok,
        Err(e) => !resp.found && resp.message@ == cabal_error_message(e) && resp.cabal_file
            is None,
    }
}

/// How a probe result folds into the response handed to the caller: a
/// failure reports no success, renders its message into both `message`
/// and `errors`, and leaves the streams and exit code empty.
pub open spec fn compile_response_of(
    r: Result<CompileCheckResponse, CompileCheckError>,
    resp: CompileCheckResponse,
) -> bool {
    match r {
        Ok(ok) => resp == ok,
        Err(e) => !resp.success && resp.message@ == compile_error_message(e) && resp.output@
            == Seq::<char>::empty() && resp.errors@ == compile_error_message(e) && resp.exit_code
            is None,
    }
}

/// The timeout a request asks for, or the default when it names none.
pub open spec fn effective_timeout(requested: Option<u64>) -> u64 {
    match requested {
        Some(secs) => secs,
        None => DEFAULT_TIMEOUT_SECS,
    }
}

pub(crate) proof fn lemma_first_cabal_at(entries: Seq<DirEntry>, i: int)
    requires
        0 <= i < entries.len(),
        is_cabal_name(entries[i].name@),
        forall|j: int| 0 <= j < i ==> !is_cabal_name(entries[j].name@),
    ensures
        first_cabal(entries) == Some(entries[i]),
    decreases i,
{
    if i > 0 {
        lemma_first_cabal_at(entries.drop_first(), i - 1);
    }
}

pub(crate) proof fn lemma_first_cabal_none(entries: Seq<DirEntry>)
    requires
        forall|j: int| 0 <= j < entries.len() ==> !is_cabal_name(entries[j].name@),
    ensures
        first_cabal(entries) is None,
    decreases entries.len(),
{
    if entries.len() > 0 {
        lemma_first_cabal_none(entries.drop_first());
    }
}

/// A manifest is found exactly when the listing counts at least one.
pub proof fn lemma_found_iff_counted(entries: Seq<DirEntry>)
    ensures
        first_cabal(entries) is Some <==> cabal_count(entries) > 0,
    decreases entries.len(),
{
    if entries.len() > 0 {
        lemma_found_iff_counted(entries.drop_first());
    }
}

impl CabalCheckError {
    /// Renders the failure as the human-readable line callers see.
    pub fn message(&self) -> (r: String)
        ensures
            r@ == cabal_error_message(*self),
    {
        match self {
            CabalCheckError::PathNotFound { path } => {
                let mut s = String::from_str("Path does not exist: ");
                s.append(path.as_str());
                s
            },
            CabalCheckError::NotADirectory { path } => {
                let mut s = String::from_str("Path is not a directory: ");
                s.append(path.as_str());
                s
            },
            CabalCheckError::PermissionDenied { path } => {
                let mut s = String::from_str("Permission denied accessing path: ");
                s.append(path.as_str());
                s
            },
            CabalCheckError::IoError { cause } => {
                let mut s = String::from_str("I/O error reading directory: ");
                s.append(cause.as_str());
                s
            },
            CabalCheckError::NoCabalFile { path } => {
                let mut s = String::from_str("No cabal files found in directory: ");
                s.append(path.as_str());
                s
            },
        }
    }
}

impl CompileCheckError {
    /// Renders the failure as the human-readable line callers see.
    pub fn message(&self) -> (r: String)
        ensures
            r@ == compile_error_message(*self),
    {
        match self {
            CompileCheckError::PathNotFound { path } => {
                let mut s = String::from_str("Path does not exist: ");
                s.append(path.as_str());
                s
            },
            CompileCheckError::NoCabalFile { path } => {
                let mut s = String::from_str("No cabal file found in directory: ");
                s.append(path.as_str());
                s
            },
            CompileCheckError::Timeout { timeout_secs } => {
                let mut s = String::from_str("Compilation timed out after ");
                let digits = u64_to_dec(*timeout_secs);
                s.append(digits.as_str());
                s.append(" seconds");
                s
            },
            CompileCheckError::IoError { cause } => {
                let mut s = String::from_str("I/O error during compilation check: ");
                s.append(cause.as_str());
                s
            },
        }
    }
}

impl GhcidServer {
    /// Creates the server; it holds no state.
    pub fn new() -> (s: Self) {
        GhcidServer
    }

    /// Decides the manifest lookup from one observed scan: validates the
    /// path observations, then selects the first entry named `*.cabal`
    /// in enumeration order.
    #[verifier::loop_isolation(false)]
    pub fn check_cabal_internal(&self, path: &str, scan: DirScan) -> (r: Result<
        CabalCheckResponse,
        CabalCheckError,
    >)
        ensures
            cabal_check_spec(path@, scan, r),
    {
        match scan {
            DirScan::Missing => Err(CabalCheckError::PathNotFound { path: path.to_owned() }),
            DirScan::NotDirectory => Err(
                CabalCheckError::NotADirectory { path: path.to_owned() },
            ),
            DirScan::PermissionDenied => Err(
                CabalCheckError::PermissionDenied { path: path.to_owned() },
            ),
            DirScan::ReadFailed { cause } => Err(CabalCheckError::IoError { cause }),
            DirScan::Listed { entries } => {
                let n: usize = entries.len();
                let mut i: usize = 0;
                while i < n
                    invariant
                        i <= n,
                        n == entries@.len(),
                        forall|j: int| 0 <= j < i ==> !is_cabal_name(entries@[j].name@),
                    decreases n - i,
                {
                    if str_ends_with(entries[i].name.as_str(), ".cabal") {
                        proof {
                            lemma_first_cabal_at(entries@, i as int);
                        }
                        return Ok(
                            CabalCheckResponse {
                                found: true,
                                message: String::from_str("Cabal file is located"),
                                cabal_file: Some(entries[i].path.clone()),
                            },
                        );
                    }
                    i += 1;
                }
                proof {
                    lemma_first_cabal_none(entries@);
                }
                Err(CabalCheckError::NoCabalFile { path: path.to_owned() })
            },
        }
    }

    /// Folds a lookup result into the caller-visible response.
    pub fn cabal_check_response(&self, result: Result<CabalCheckResponse, CabalCheckError>) -> (resp:
        CabalCheckResponse)
        ensures
            cabal_response_of(result, resp),
    {
        match result {
            Ok(resp) => resp,
            Err(e) => CabalCheckResponse {
                found: false,
                message: e.message(),
                cabal_file: None,
            },
        }
    }

    /// The whole manifest lookup: decision and response folding in one
    /// step, given the observed scan.
    pub fn check_cabal(&self, request: &CabalCheckRequest, scan: DirScan) -> (resp:
        CabalCheckResponse)
        ensures
            exists|r: Result<CabalCheckResponse, CabalCheckError>|
                cabal_check_spec(request.path@, scan, r) && cabal_response_of(r, resp),
            resp.found <==> scan_finds_cabal(scan),
    {
        let r = self.check_cabal_internal(request.path.as_str(), scan);
        let ghost gr = r;
        let resp = self.cabal_check_response(r);
        proof {
            assert(cabal_check_spec(request.path@, scan, gr) && cabal_response_of(gr, resp));
        }
        resp
    }

    /// The probe's precondition pass: nothing may be launched unless the
    /// path exists and the scan found a manifest.
    pub fn check_compilation_preflight(
        &self,
        path: &str,
        path_exists: bool,
        scan: DirScan,
    ) -> (r: Result<(), CompileCheckError>)
        ensures
            compile_preflight_spec(path@, path_exists, scan, r),
    {
        if !path_exists {
            return Err(CompileCheckError::PathNotFound { path: path.to_owned() });
        }
        match self.check_cabal_internal(path, scan) {
            Ok(_) => Ok(()),
            Err(_) => Err(CompileCheckError::NoCabalFile { path: path.to_owned() }),
        }
    }

    /// Classifies how the bounded run ended: an exit carries both streams
    /// and the exit status verbatim; a deadline that elapsed first is the
    /// timeout error; a failed launch is the I/O error.
    pub fn check_compilation_outcome(&self, timeout_secs: u64, outcome: ProcessOutcome) -> (r:
        Result<CompileCheckResponse, CompileCheckError>)
        ensures
            compile_outcome_spec(timeout_secs, outcome, r),
    {
        match outcome {
            ProcessOutcome::Exited { stdout, stderr, exit_code, success } => {
                let message = if success {
                    String::from_str("Compilation successful - no errors found")
                } else {
                    String::from_str("Compilation failed - errors detected")
                };
                Ok(
                    CompileCheckResponse {
                        success,
                        message,
                        output: stdout,
                        errors: stderr,
                        exit_code,
                    },
                )
            },
            ProcessOutcome::LaunchFailed { cause } => Err(CompileCheckError::IoError { cause }),
            ProcessOutcome::TimedOut => Err(CompileCheckError::Timeout { timeout_secs }),
        }
    }

    /// Folds a probe result into the caller-visible response.
    pub fn compile_check_response(
        &self,
        result: Result<CompileCheckResponse, CompileCheckError>,
    ) -> (resp: CompileCheckResponse)
        ensures
            compile_response_of(result, resp),
    {
        match result {
            Ok(resp) => resp,
            Err(e) => {
                let message = e.message();
                let errors = message.clone();
                CompileCheckResponse {
                    success: false,
                    message,
                    output: String::new(),
                    errors,
                    exit_code: None,
                }
            },
        }
    }
}

/// Counts the manifest entries in a listing. The lookup never reports
/// more than one path, so this count serves telemetry alone, as when a
/// host logs that an ambiguous directory was tie-broken.
pub fn cabal_file_count(entries: &Vec<DirEntry>) -> (c: usize)
    ensures
        c as nat == cabal_count(entries@),
{
    let n: usize = entries.len();
    let mut c: usize = 0;
    let mut i: usize = 0;
    proof {
        assert(entries@.skip(0) =~= entries@);
    }
    while i < n
        invariant
            i <= n,
            n == entries@.len(),
            c <= i,
            cabal_count(entries@) == c + cabal_count(entries@.skip(i as int)),
        decreases n - i,
    {
        proof {
            assert(entries@.skip(i as int)[0] == entries@[i as int]);
            assert(entries@.skip(i as int).drop_first() =~= entries@.skip(i + 1));
        }
        if str_ends_with(entries[i].name.as_str(), ".cabal") {
            c += 1;
        }
        i += 1;
    }
    proof {
        assert(entries@.skip(n as int) =~= Seq::<DirEntry>::empty());
    }
    c
}

/// The timeout the probe runs under: the requested seconds, or the default.
pub fn effective_timeout_secs(requested: Option<u64>) -> (t: u64)
    ensures
        t == effective_timeout(requested),
{
    match requested {
        Some(secs) => secs,
        None => DEFAULT_TIMEOUT_SECS,
    }
}

/// The text the transport sends back: the serialized response when the
/// codec produced one, else the bare message, so no call fails silently.
pub fn response_text(serialized: Option<String>, message: String) -> (r: String)
    ensures
        match serialized {
            Some(s) => r == s,
            None => r == message,
        },
{
    match serialized {
        Some(s) => s,
        None => message,
    }
}

} // verus!
