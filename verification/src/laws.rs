//! Laws of the probe, stated once over the specification predicates and
//! proved for every input: how the two operations behave on missing
//! paths, on directories with zero, one, or several manifests, and when
//! the external process outlives its budget.

use vstd::prelude::*;

use crate::server::cabal_check_spec;
use crate::server::cabal_response_of;
use crate::server::compile_outcome_spec;
use crate::server::compile_preflight_spec;
use crate::server::compile_response_of;
use crate::server::is_cabal_name;
use crate::server::lemma_first_cabal_at;
use crate::server::lemma_first_cabal_none;
use crate::server::CabalCheckError;
use crate::server::CabalCheckResponse;
use crate::server::CompileCheckError;
use crate::server::CompileCheckResponse;
use crate::server::DirEntry;
use crate::server::DirScan;
use crate::server::ProcessOutcome;
use crate::text::dec_digits_of;

verus! {

/// A path that does not exist is rejected by both operations with the
/// path-not-found error naming that path; neither reaches a directory
/// listing or a launch, since the lookup decides on the scan alone and
/// the probe's preflight refuses before any outcome is consulted.
pub proof fn lemma_missing_path_rejected(
    path: Seq<char>,
    scan: DirScan,
    lookup: Result<CabalCheckResponse, CabalCheckError>,
    preflight: Result<(), CompileCheckError>,
)
    requires
        cabal_check_spec(path, DirScan::Missing, lookup),
        compile_preflight_spec(path, false, scan, preflight),
    ensures
        lookup matches Err(CabalCheckError::PathNotFound { path: p }) && p@ == path,
        preflight matches Err(CompileCheckError::PathNotFound { path: q }) && q@ == path,
{
}

/// A directory holding exactly one manifest entry yields the found
/// response, and the path it carries is that entry's path.
pub proof fn lemma_single_manifest_found(
    path: Seq<char>,
    entries: Vec<DirEntry>,
    i: int,
    lookup: Result<CabalCheckResponse, CabalCheckError>,
)
    requires
        0 <= i < entries@.len(),
        is_cabal_name(entries@[i].name@),
        forall|j: int|
            0 <= j < entries@.len() && j != i ==> !is_cabal_name(entries@[j].name@),
        cabal_check_spec(path, DirScan::Listed { entries }, lookup),
    ensures
        ({
            &&& lookup matches Ok(resp)
            &&& resp.found
            &&& resp.cabal_file matches Some(p)
            &&& p@ == entries@[i].path@
        }),
{
    lemma_first_cabal_at(entries@, i);
}

/// A directory holding no manifest entry yields the no-manifest failure
/// from the lookup, and the probe's preflight refuses with the same
/// taxonomy, so no process is ever launched for it.
pub proof fn lemma_no_manifest_blocks_probe(
    path: Seq<char>,
    entries: Vec<DirEntry>,
    lookup: Result<CabalCheckResponse, CabalCheckError>,
    preflight: Result<(), CompileCheckError>,
)
    requires
        forall|j: int| 0 <= j < entries@.len() ==> !is_cabal_name(entries@[j].name@),
        cabal_check_spec(path, DirScan::Listed { entries }, lookup),
        compile_preflight_spec(path, true, DirScan::Listed { entries }, preflight),
    ensures
        lookup matches Err(CabalCheckError::NoCabalFile { path: p }) && p@ == path,
        preflight matches Err(CompileCheckError::NoCabalFile { path: q }) && q@ == path,
{
    lemma_first_cabal_none(entries@);
}

/// A directory holding two or more manifest entries still yields exactly
/// one found path: the first in enumeration order, never an error and
/// never a later match.
pub proof fn lemma_many_manifests_first_wins(
    path: Seq<char>,
    entries: Vec<DirEntry>,
    i: int,
    k: int,
    lookup: Result<CabalCheckResponse, CabalCheckError>,
)
    requires
        0 <= i < k < entries@.len(),
        is_cabal_name(entries@[i].name@),
        is_cabal_name(entries@[k].name@),
        forall|j: int| 0 <= j < i ==> !is_cabal_name(entries@[j].name@),
        cabal_check_spec(path, DirScan::Listed { entries }, lookup),
    ensures
        ({
            &&& lookup matches Ok(resp)
            &&& resp.found
            &&& resp.cabal_file matches Some(p)
            &&& p@ == entries@[i].path@
        }),
{
    lemma_first_cabal_at(entries@, i);
}

/// A run that hit its deadline ends as a failure response whose message
/// names the elapsed budget in seconds; its output was discarded, and it
/// carries no exit code.
pub proof fn lemma_timeout_reported(
    timeout_secs: u64,
    outcome: Result<CompileCheckResponse, CompileCheckError>,
    resp: CompileCheckResponse,
)
    requires
        compile_outcome_spec(timeout_secs, ProcessOutcome::TimedOut, outcome),
        compile_response_of(outcome, resp),
    ensures
        !resp.success,
        resp.message@ == "Compilation timed out after "@ + dec_digits_of(timeout_secs as nat)
            + " seconds"@,
        resp.output@ == Seq::<char>::empty(),
        resp.exit_code is None,
{
}

/// A failed lookup is never silent: the folded response reports nothing
/// found and explains itself with a non-empty message, so no caller is
/// left guessing whether a manifest was located.
pub proof fn lemma_lookup_failure_explained(e: CabalCheckError, resp: CabalCheckResponse)
    requires
        cabal_response_of(Err(e), resp),
    ensures
        !resp.found,
        resp.message@.len() > 0,
        resp.cabal_file is None,
{
    reveal_strlit("Path does not exist: ");
    reveal_strlit("Path is not a directory: ");
    reveal_strlit("Permission denied accessing path: ");
    reveal_strlit("I/O error reading directory: ");
    reveal_strlit("No cabal files found in directory: ");
}

/// A failed probe is never silent: the folded response reports no
/// success and explains itself with a non-empty message, so no caller is
/// left guessing whether compilation succeeded.
pub proof fn lemma_probe_failure_explained(e: CompileCheckError, resp: CompileCheckResponse)
    requires
        compile_response_of(Err(e), resp),
    ensures
        !resp.success,
        resp.message@.len() > 0,
        resp.exit_code is None,
{
    reveal_strlit("Path does not exist: ");
    reveal_strlit("No cabal file found in directory: ");
    reveal_strlit("Compilation timed out after ");
    reveal_strlit("I/O error during compilation check: ");
}

} // verus!
