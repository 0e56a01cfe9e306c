use ghcid_mcp::server::CabalCheckError;
use ghcid_mcp::server::CabalCheckRequest;
use ghcid_mcp::server::CompileCheckError;
use ghcid_mcp::server::DirEntry;
use ghcid_mcp::server::DirScan;
use ghcid_mcp::server::GhcidServer;
use ghcid_mcp::server::ProcessOutcome;
use ghcid_mcp::server::cabal_file_count;
use ghcid_mcp::server::effective_timeout_secs;
use ghcid_mcp::server::response_text;

fn entry(name: &str, path: &str) -> DirEntry {
    DirEntry { name: name.to_string(), path: path.to_string() }
}

#[test]
fn missing_path_fails_both_probes() {
    let s = GhcidServer::new();
    let r = s.check_cabal_internal("/no/such/dir", DirScan::Missing);
    match r {
        Err(CabalCheckError::PathNotFound { path }) => assert_eq!(path, "/no/such/dir"),
        other => panic!("expected PathNotFound, got {:?}", other),
    }
    let p = s.check_compilation_preflight("/no/such/dir", false, DirScan::Missing);
    match p {
        Err(CompileCheckError::PathNotFound { path }) => assert_eq!(path, "/no/such/dir"),
        other => panic!("expected PathNotFound, got {:?}", other),
    }
}

#[test]
fn missing_path_response_message() {
    let s = GhcidServer::new();
    let r = s.check_cabal_internal("/nope", DirScan::Missing);
    let resp = s.cabal_check_response(r);
    assert!(!resp.found);
    assert_eq!(resp.message, "Path does not exist: /nope");
    assert!(resp.cabal_file.is_none());
}

#[test]
fn file_path_is_not_a_directory() {
    let s = GhcidServer::new();
    let r = s.check_cabal_internal("/p/file.txt", DirScan::NotDirectory);
    match &r {
        Err(CabalCheckError::NotADirectory { path }) => assert_eq!(path, "/p/file.txt"),
        other => panic!("expected NotADirectory, got {:?}", other),
    }
    let resp = s.cabal_check_response(r);
    assert_eq!(resp.message, "Path is not a directory: /p/file.txt");
}

#[test]
fn denied_enumeration_is_permission_denied() {
    let s = GhcidServer::new();
    let r = s.check_cabal_internal("/locked", DirScan::PermissionDenied);
    match &r {
        Err(CabalCheckError::PermissionDenied { path }) => assert_eq!(path, "/locked"),
        other => panic!("expected PermissionDenied, got {:?}", other),
    }
    let resp = s.cabal_check_response(r);
    assert_eq!(resp.message, "Permission denied accessing path: /locked");
}

#[test]
fn failed_enumeration_is_io_error() {
    let s = GhcidServer::new();
    let scan = DirScan::ReadFailed { cause: "device not ready".to_string() };
    let r = s.check_cabal_internal("/p", scan);
    match &r {
        Err(CabalCheckError::IoError { cause }) => assert_eq!(cause, "device not ready"),
        other => panic!("expected IoError, got {:?}", other),
    }
    let resp = s.cabal_check_response(r);
    assert_eq!(resp.message, "I/O error reading directory: device not ready");
}

#[test]
fn single_manifest_is_found() {
    let s = GhcidServer::new();
    let scan = DirScan::Listed {
        entries: vec![
            entry("src", "/p/src"),
            entry("app.cabal", "/p/app.cabal"),
            entry("README.md", "/p/README.md"),
        ],
    };
    let r = s.check_cabal_internal("/p", scan).expect("lookup must succeed");
    assert!(r.found);
    assert_eq!(r.message, "Cabal file is located");
    assert_eq!(r.cabal_file.as_deref(), Some("/p/app.cabal"));
}

#[test]
fn empty_directory_has_no_manifest() {
    let s = GhcidServer::new();
    let r = s.check_cabal_internal("/p", DirScan::Listed { entries: vec![] });
    match r {
        Err(CabalCheckError::NoCabalFile { path }) => assert_eq!(path, "/p"),
        other => panic!("expected NoCabalFile, got {:?}", other),
    }
}

#[test]
fn no_manifest_blocks_compilation() {
    let s = GhcidServer::new();
    let entries = vec![entry("Main.hs", "/p/Main.hs"), entry("cabal", "/p/cabal")];
    let r = s.check_cabal_internal("/p", DirScan::Listed { entries: entries.clone() });
    match &r {
        Err(CabalCheckError::NoCabalFile { path }) => assert_eq!(path, "/p"),
        other => panic!("expected NoCabalFile, got {:?}", other),
    }
    let resp = s.cabal_check_response(r);
    assert_eq!(resp.message, "No cabal files found in directory: /p");

    let p = s.check_compilation_preflight("/p", true, DirScan::Listed { entries });
    match p {
        Err(CompileCheckError::NoCabalFile { path }) => assert_eq!(path, "/p"),
        other => panic!("expected NoCabalFile, got {:?}", other),
    }
}

#[test]
fn locator_error_folds_into_no_manifest_for_probe() {
    let s = GhcidServer::new();
    let p = s.check_compilation_preflight("/locked", true, DirScan::PermissionDenied);
    match p {
        Err(CompileCheckError::NoCabalFile { path }) => assert_eq!(path, "/locked"),
        other => panic!("expected NoCabalFile, got {:?}", other),
    }
    let resp = s.compile_check_response(Err(CompileCheckError::NoCabalFile {
        path: "/locked".to_string(),
    }));
    assert_eq!(resp.message, "No cabal file found in directory: /locked");
}

#[test]
fn several_manifests_pick_the_first() {
    let s = GhcidServer::new();
    let scan = DirScan::Listed {
        entries: vec![
            entry("LICENSE", "/p/LICENSE"),
            entry("b.cabal", "/p/b.cabal"),
            entry("a.cabal", "/p/a.cabal"),
        ],
    };
    let r = s.check_cabal_internal("/p", scan).expect("lookup must succeed");
    assert!(r.found);
    assert_eq!(r.cabal_file.as_deref(), Some("/p/b.cabal"));
}

#[test]
fn bare_suffix_name_counts_as_manifest() {
    let s = GhcidServer::new();
    let scan = DirScan::Listed { entries: vec![entry(".cabal", "/p/.cabal")] };
    let r = s.check_cabal_internal("/p", scan).expect("lookup must succeed");
    assert_eq!(r.cabal_file.as_deref(), Some("/p/.cabal"));
}

#[test]
fn manifest_count_serves_telemetry() {
    assert_eq!(cabal_file_count(&vec![]), 0);
    assert_eq!(cabal_file_count(&vec![entry("src", "/p/src")]), 0);
    assert_eq!(
        cabal_file_count(&vec![
            entry("a.cabal", "/p/a.cabal"),
            entry("Main.hs", "/p/Main.hs"),
            entry("b.cabal", "/p/b.cabal"),
        ]),
        2
    );
}

#[test]
fn preflight_passes_with_manifest() {
    let s = GhcidServer::new();
    let scan = DirScan::Listed { entries: vec![entry("app.cabal", "/p/app.cabal")] };
    assert!(s.check_compilation_preflight("/p", true, scan).is_ok());
}

#[test]
fn check_cabal_success_response() {
    let s = GhcidServer::new();
    let request = CabalCheckRequest { path: "/p".to_string() };
    let scan = DirScan::Listed { entries: vec![entry("app.cabal", "/p/app.cabal")] };
    let resp = s.check_cabal(&request, scan);
    assert!(resp.found);
    assert_eq!(resp.message, "Cabal file is located");
    assert_eq!(resp.cabal_file.as_deref(), Some("/p/app.cabal"));
}

#[test]
fn check_cabal_failure_response() {
    let s = GhcidServer::new();
    let request = CabalCheckRequest { path: "/gone".to_string() };
    let resp = s.check_cabal(&request, DirScan::Missing);
    assert!(!resp.found);
    assert_eq!(resp.message, "Path does not exist: /gone");
    assert!(resp.cabal_file.is_none());
}

#[test]
fn clean_exit_reports_success_with_streams() {
    let s = GhcidServer::new();
    let outcome = ProcessOutcome::Exited {
        stdout: "All good (2 modules)".to_string(),
        stderr: "".to_string(),
        exit_code: Some(0),
        success: true,
    };
    let r = s.check_compilation_outcome(30, outcome).expect("exit must give a response");
    assert!(r.success);
    assert_eq!(r.message, "Compilation successful - no errors found");
    assert_eq!(r.output, "All good (2 modules)");
    assert_eq!(r.errors, "");
    assert_eq!(r.exit_code, Some(0));
}

#[test]
fn failing_exit_reports_exit_code_and_streams() {
    let s = GhcidServer::new();
    let outcome = ProcessOutcome::Exited {
        stdout: "Main.hs:3:1: error".to_string(),
        stderr: "ghcid: exiting".to_string(),
        exit_code: Some(1),
        success: false,
    };
    let r = s.check_compilation_outcome(30, outcome).expect("exit must give a response");
    assert!(!r.success);
    assert_eq!(r.message, "Compilation failed - errors detected");
    assert_eq!(r.output, "Main.hs:3:1: error");
    assert_eq!(r.errors, "ghcid: exiting");
    assert_eq!(r.exit_code, Some(1));
}

#[test]
fn timeout_is_reported_with_its_budget() {
    let s = GhcidServer::new();
    let r = s.check_compilation_outcome(42, ProcessOutcome::TimedOut);
    match &r {
        Err(CompileCheckError::Timeout { timeout_secs }) => assert_eq!(*timeout_secs, 42),
        other => panic!("expected Timeout, got {:?}", other),
    }
    let resp = s.compile_check_response(r);
    assert!(!resp.success);
    assert_eq!(resp.message, "Compilation timed out after 42 seconds");
    assert_eq!(resp.errors, "Compilation timed out after 42 seconds");
    assert_eq!(resp.output, "");
    assert_eq!(resp.exit_code, None);
}

#[test]
fn failed_launch_is_io_error() {
    let s = GhcidServer::new();
    let outcome = ProcessOutcome::LaunchFailed {
        cause: "No such file or directory (os error 2)".to_string(),
    };
    let r = s.check_compilation_outcome(30, outcome);
    match &r {
        Err(CompileCheckError::IoError { cause }) => {
            assert_eq!(cause, "No such file or directory (os error 2)");
        }
        other => panic!("expected IoError, got {:?}", other),
    }
    let resp = s.compile_check_response(r);
    assert_eq!(
        resp.message,
        "I/O error during compilation check: No such file or directory (os error 2)"
    );
}

#[test]
fn omitted_timeout_defaults_to_three_hundred() {
    assert_eq!(effective_timeout_secs(None), 300);
    assert_eq!(effective_timeout_secs(Some(7)), 7);
    assert_eq!(effective_timeout_secs(Some(0)), 0);
}

#[test]
fn serialization_fallback_returns_message() {
    let text = response_text(Some("{\"found\":true}".to_string()), "found it".to_string());
    assert_eq!(text, "{\"found\":true}");
    let fallback = response_text(None, "found it".to_string());
    assert_eq!(fallback, "found it");
}
