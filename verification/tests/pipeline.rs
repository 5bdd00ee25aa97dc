use ota_update::descriptor::{decide, FirmwareDescriptor, UpdateDecision};
use ota_update::install::{interpret_installer_exit, InstallError, InstallOutcome};
use ota_update::orchestrator::{FailureReason, RunState, UpdateOrchestrator};
use ota_update::resolver::{resolve, ResolveError, ResolveEvent, ServiceResponse};
use ota_update::staging::{FetchError, StagedArtifact};
use ota_update::verify::{extract_digest, verify, VerificationResult, VerifyError};

fn response(version: &str, sha256: &str, url: &str) -> ServiceResponse {
    ServiceResponse {
        version: String::from(version),
        sha256: String::from(sha256),
        url: String::from(url),
    }
}

#[test]
fn decide_up_to_date_on_identical_version() {
    let d = FirmwareDescriptor {
        version: String::from("v2.0"),
        content_hash: String::from("abc123"),
        artifact_url: String::from("http://x/fw.bin"),
    };
    assert!(matches!(decide(d, &String::from("v2.0")), UpdateDecision::UpToDate));
}

#[test]
fn decide_available_on_any_other_version() {
    let d = FirmwareDescriptor {
        version: String::from("v1.9"),
        content_hash: String::from("abc123"),
        artifact_url: String::from("http://x/fw.bin"),
    };
    match decide(d, &String::from("v2.0")) {
        UpdateDecision::Available(got) => {
            assert_eq!(got.version, "v1.9");
            assert_eq!(got.content_hash, "abc123");
            assert_eq!(got.artifact_url, "http://x/fw.bin");
        }
        UpdateDecision::UpToDate => panic!("an older version string still counts as available"),
    }
}

#[test]
fn resolve_ok_builds_the_descriptor() {
    let event = ResolveEvent::Response(200, Some(response("v2.1", "abc123", "http://x/fw.bin")));
    let d = resolve(event).expect("a success response with a full body resolves");
    assert_eq!(d.version, "v2.1");
    assert_eq!(d.content_hash, "abc123");
    assert_eq!(d.artifact_url, "http://x/fw.bin");
}

#[test]
fn resolve_service_error_carries_the_status() {
    let event = ResolveEvent::Response(503, None);
    assert_eq!(resolve(event).unwrap_err(), ResolveError::ServiceError(503));
}

#[test]
fn resolve_non_success_status_wins_over_a_decoded_body() {
    let event = ResolveEvent::Response(404, Some(response("v2.1", "abc123", "http://x/fw.bin")));
    assert_eq!(resolve(event).unwrap_err(), ResolveError::ServiceError(404));
}

#[test]
fn resolve_malformed_on_undecodable_body() {
    let event = ResolveEvent::Response(200, None);
    assert_eq!(resolve(event).unwrap_err(), ResolveError::MalformedResponse);
}

#[test]
fn resolve_malformed_on_empty_field() {
    let event = ResolveEvent::Response(200, Some(response("v2.1", "", "http://x/fw.bin")));
    assert_eq!(resolve(event).unwrap_err(), ResolveError::MalformedResponse);
}

#[test]
fn resolve_network_failure_on_transport_failure() {
    assert_eq!(
        resolve(ResolveEvent::TransportFailure).unwrap_err(),
        ResolveError::NetworkFailure
    );
}

#[test]
fn extract_digest_takes_the_first_token() {
    let out = "abc123  /tmp/fw.bin\n";
    assert_eq!(extract_digest(out).unwrap(), "abc123");
}

#[test]
fn extract_digest_skips_leading_whitespace() {
    assert_eq!(extract_digest(" \t\nabc123 def").unwrap(), "abc123");
}

#[test]
fn extract_digest_takes_a_lone_token_whole() {
    assert_eq!(extract_digest("abc123").unwrap(), "abc123");
}

#[test]
fn extract_digest_fails_on_empty_output() {
    assert_eq!(extract_digest("").unwrap_err(), VerifyError::ComputeFailure);
}

#[test]
fn extract_digest_fails_on_whitespace_only_output() {
    assert_eq!(extract_digest(" \n\t ").unwrap_err(), VerifyError::ComputeFailure);
}

#[test]
fn verify_matches_an_equal_digest() {
    let v = verify(
        Some(String::from("abc123  /tmp/fw.bin\n")),
        &String::from("abc123"),
    )
    .unwrap();
    assert!(v.matched);
    assert_eq!(v.computed_hash, "abc123");
}

#[test]
fn verify_reports_a_mismatch_without_erring() {
    let v = verify(
        Some(String::from("def456  /tmp/fw.bin\n")),
        &String::from("abc123"),
    )
    .unwrap();
    assert!(!v.matched);
    assert_eq!(v.computed_hash, "def456");
}

#[test]
fn verify_fails_when_no_digest_was_produced() {
    assert_eq!(
        verify(None, &String::from("abc123")).unwrap_err(),
        VerifyError::ComputeFailure
    );
}

#[test]
fn verify_is_idempotent_on_the_same_output() {
    let out = || Some(String::from("abc123  /tmp/fw.bin\n"));
    let expected = String::from("abc123");
    let first: VerificationResult = verify(out(), &expected).unwrap();
    let second: VerificationResult = verify(out(), &expected).unwrap();
    assert_eq!(first.matched, second.matched);
    assert_eq!(first.computed_hash, second.computed_hash);
}

#[test]
fn installer_success_surfaces_the_diagnostic() {
    let o: InstallOutcome =
        interpret_installer_exit(true, String::from("flashed 4 sectors")).unwrap();
    assert_eq!(o.diagnostic, "flashed 4 sectors");
}

#[test]
fn installer_failure_surfaces_the_diagnostic_verbatim() {
    let e = interpret_installer_exit(false, String::from("flash failed: bad sector")).unwrap_err();
    assert_eq!(
        e,
        InstallError::InstallerRejected(String::from("flash failed: bad sector"))
    );
}

fn staged() -> StagedArtifact {
    StagedArtifact { path: String::from("/tmp/fw.bin"), byte_length: 4 }
}

#[test]
fn run_up_to_date_does_not_fetch() {
    let mut orch = UpdateOrchestrator::new(String::from("v2.0"));
    orch.begin_query();
    orch.on_resolve(ResolveEvent::Response(
        200,
        Some(response("v2.0", "abc123", "http://x/fw.bin")),
    ));
    assert!(matches!(orch.state, RunState::UpToDate));
}

#[test]
fn run_installs_after_a_matching_digest() {
    let mut orch = UpdateOrchestrator::new(String::from("v2.0"));
    orch.begin_query();
    orch.on_resolve(ResolveEvent::Response(
        200,
        Some(response("v2.1", "abc123", "http://x/fw.bin")),
    ));
    match &orch.state {
        RunState::DescriptorReceived(d) => {
            assert_eq!(d.version, "v2.1");
            assert_eq!(d.artifact_url, "http://x/fw.bin");
        }
        other => panic!("expected a received descriptor, found {:?}", other),
    }
    orch.begin_download();
    orch.on_fetch(Ok(staged()));
    orch.begin_verify();
    orch.on_digest(Some(String::from("abc123  /tmp/fw.bin\n")));
    assert!(matches!(orch.state, RunState::Verified(_, _, _)));
    orch.begin_install();
    match &orch.state {
        RunState::Installing(a, v) => {
            assert_eq!(a.path, "/tmp/fw.bin");
            assert!(v.matched);
        }
        other => panic!("expected installing, found {:?}", other),
    }
    orch.on_install(true, String::from("upgrade complete"));
    match &orch.state {
        RunState::Installed(o) => assert_eq!(o.diagnostic, "upgrade complete"),
        other => panic!("expected installed, found {:?}", other),
    }
}

#[test]
fn run_stops_mismatched_on_a_differing_digest() {
    let mut orch = UpdateOrchestrator::new(String::from("v2.0"));
    orch.begin_query();
    orch.on_resolve(ResolveEvent::Response(
        200,
        Some(response("v2.1", "abc123", "http://x/fw.bin")),
    ));
    orch.begin_download();
    orch.on_fetch(Ok(staged()));
    orch.begin_verify();
    orch.on_digest(Some(String::from("def456  /tmp/fw.bin\n")));
    match &orch.state {
        RunState::Mismatched(v) => {
            assert!(!v.matched);
            assert_eq!(v.computed_hash, "def456");
        }
        other => panic!("expected a mismatch, found {:?}", other),
    }
}

#[test]
fn run_fails_on_a_service_error_before_any_fetch() {
    let mut orch = UpdateOrchestrator::new(String::from("v2.0"));
    orch.begin_query();
    orch.on_resolve(ResolveEvent::Response(503, None));
    assert!(matches!(
        orch.state,
        RunState::Failed(FailureReason::Resolve(ResolveError::ServiceError(503)))
    ));
}

#[test]
fn run_fails_on_a_fetch_error() {
    let mut orch = UpdateOrchestrator::new(String::from("v2.0"));
    orch.begin_query();
    orch.on_resolve(ResolveEvent::Response(
        200,
        Some(response("v2.1", "abc123", "http://x/fw.bin")),
    ));
    orch.begin_download();
    orch.on_fetch(Err(FetchError::WriteFailure));
    assert!(matches!(
        orch.state,
        RunState::Failed(FailureReason::Fetch(FetchError::WriteFailure))
    ));
}

#[test]
fn run_fails_on_a_failed_download() {
    let mut orch = UpdateOrchestrator::new(String::from("v2.0"));
    orch.begin_query();
    orch.on_resolve(ResolveEvent::Response(
        200,
        Some(response("v2.1", "abc123", "http://x/fw.bin")),
    ));
    orch.begin_download();
    orch.on_fetch(Err(FetchError::NetworkFailure));
    assert!(matches!(
        orch.state,
        RunState::Failed(FailureReason::Fetch(FetchError::NetworkFailure))
    ));
}

#[test]
fn run_fails_when_the_digest_cannot_be_computed() {
    let mut orch = UpdateOrchestrator::new(String::from("v2.0"));
    orch.begin_query();
    orch.on_resolve(ResolveEvent::Response(
        200,
        Some(response("v2.1", "abc123", "http://x/fw.bin")),
    ));
    orch.begin_download();
    orch.on_fetch(Ok(staged()));
    orch.begin_verify();
    orch.on_digest(None);
    assert!(matches!(
        orch.state,
        RunState::Failed(FailureReason::Verify(VerifyError::ComputeFailure))
    ));
}

#[test]
fn run_surfaces_an_installer_rejection_verbatim() {
    let mut orch = UpdateOrchestrator::new(String::from("v2.0"));
    orch.begin_query();
    orch.on_resolve(ResolveEvent::Response(
        200,
        Some(response("v2.1", "abc123", "http://x/fw.bin")),
    ));
    orch.begin_download();
    orch.on_fetch(Ok(staged()));
    orch.begin_verify();
    orch.on_digest(Some(String::from("abc123  /tmp/fw.bin\n")));
    orch.begin_install();
    orch.on_install(false, String::from("flash failed: bad sector"));
    match &orch.state {
        RunState::InstallFailed(InstallError::InstallerRejected(text)) => {
            assert_eq!(text, "flash failed: bad sector");
        }
        other => panic!("expected an installer rejection, found {:?}", other),
    }
}
