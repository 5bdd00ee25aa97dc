//! The update run's state machine: sequences resolving, the update decision,
//! fetching, verification and installation, and terminates the run on the
//! first failure. The unverified shell performs each stage's outside work and
//! feeds the outcome back in; every transition here is verified, so an
//! artifact can reach installation only with a positive verification result.

use vstd::prelude::*;
use crate::descriptor::{FirmwareDescriptor, UpdateDecision, decide};
use crate::install::{InstallError, InstallOutcome, interpret_installer_exit};
use crate::resolver::{ResolveError, ResolveEvent, resolve, resolve_spec};
use crate::staging::{FetchError, StagedArtifact};
use crate::verify::{VerificationResult, VerifyError, output_view, verification_spec, verify};

verus! {

/// The component error that terminated a run early.
#[derive(Debug)]
pub enum FailureReason {
    Resolve(ResolveError),
    Fetch(FetchError),
    Verify(VerifyError),
}

/// The states of one update run. A run moves forward only; no state is
/// re-entered and nothing is retried. `UpToDate`, `Mismatched`, `Installed`,
/// `InstallFailed` and `Failed` are terminal.
#[derive(Debug)]
pub enum RunState {
    /// Nothing has happened yet.
    Idle,
    /// The update service is being queried.
    Querying,
    /// The service's descriptor names the running version; nothing to do.
    UpToDate,
    /// The service's descriptor names another version.
    DescriptorReceived(FirmwareDescriptor),
    /// The artifact is being downloaded to the staging file.
    Downloading(FirmwareDescriptor),
    /// The artifact is fully staged.
    Downloaded(FirmwareDescriptor, StagedArtifact),
    /// The staged artifact's digest is being computed.
    Verifying(FirmwareDescriptor, StagedArtifact),
    /// The computed digest differs from the expected hash; the run stops
    /// here and must not proceed to installation.
    Mismatched(VerificationResult),
    /// The computed digest equals the expected hash.
    Verified(FirmwareDescriptor, StagedArtifact, VerificationResult),
    /// The installer is running on the verified artifact.
    Installing(StagedArtifact, VerificationResult),
    /// The installer succeeded; the run is complete.
    Installed(InstallOutcome),
    /// The installer rejected the artifact.
    InstallFailed(InstallError),
    /// A component error ended the run.
    Failed(FailureReason),
}

/// One update run. Holds the only cross-component state: the version
/// currently running and how far the run has come.
#[derive(Debug)]
pub struct UpdateOrchestrator {
    pub current_version: String,
    pub state: RunState,
}

impl UpdateOrchestrator {
    /// The run's invariant. Every descriptor in flight is well formed and
    /// names a version other than the running one; a mismatched state
    /// records a digest that did not match; and verified or installing
    /// states record a digest that matched the descriptor's expected hash.
    pub open spec fn wf(&self) -> bool {
        match self.state {
            RunState::DescriptorReceived(d) => d.wf() && d.version@ != self.current_version@,
            RunState::Downloading(d) => d.wf() && d.version@ != self.current_version@,
            RunState::Downloaded(d, _) => d.wf() && d.version@ != self.current_version@,
            RunState::Verifying(d, _) => d.wf() && d.version@ != self.current_version@,
            RunState::Mismatched(v) => !v.matched,
            RunState::Verified(d, _, v) => d.wf() && v.matched && v.computed_hash@
                == d.content_hash@,
            RunState::Installing(_, v) => v.matched,
            _ => true,
        }
    }

    /// A fresh run for a device currently running `current_version`.
    pub fn new(current_version: String) -> (o: Self)
        ensures
            o.state is Idle,
            o.current_version@ == current_version@,
            o.wf(),
    {
        UpdateOrchestrator { current_version, state: RunState::Idle }
    }

    /// Idle → Querying: the run begins by querying the update service.
    pub fn begin_query(&mut self)
        requires
            old(self).state is Idle,
            old(self).wf(),
        ensures
            final(self).state is Querying,
            final(self).current_version == old(self).current_version,
            final(self).wf(),
    {
        self.state = RunState::Querying;
    }

    /// Querying → UpToDate, DescriptorReceived or Failed: the service's
    /// answer is classified, and a descriptor naming the running version
    /// ends the run as up to date; any resolve error ends it as failed.
    pub fn on_resolve(&mut self, event: ResolveEvent)
        requires
            old(self).state is Querying,
            old(self).wf(),
        ensures
            final(self).current_version == old(self).current_version,
            final(self).wf(),
            match resolve_spec(event) {
                Err(e) => final(self).state matches RunState::Failed(FailureReason::Resolve(e2))
                    && e2 == e,
                Ok(d) => if d.version@ == old(self).current_version@ {
                    final(self).state is UpToDate
                } else {
                    final(self).state matches RunState::DescriptorReceived(d2) && d2 == d
                },
            },
    {
        match resolve(event) {
            Err(e) => {
                self.state = RunState::Failed(FailureReason::Resolve(e));
            },
            Ok(d) => {
                match decide(d, &self.current_version) {
                    UpdateDecision::UpToDate => {
                        self.state = RunState::UpToDate;
                    },
                    UpdateDecision::Available(d) => {
                        self.state = RunState::DescriptorReceived(d);
                    },
                }
            },
        }
    }

    /// DescriptorReceived → Downloading: the run proceeds to fetch the
    /// artifact the descriptor points at.
    pub fn begin_download(&mut self)
        requires
            old(self).state matches RunState::DescriptorReceived(_),
            old(self).wf(),
        ensures
            final(self).current_version == old(self).current_version,
            final(self).wf(),
            final(self).state matches RunState::Downloading(d) && old(self).state
                == RunState::DescriptorReceived(d),
    {
        let mut s = RunState::Idle;
        core::mem::swap(&mut self.state, &mut s);
        match s {
            RunState::DescriptorReceived(d) => {
                self.state = RunState::Downloading(d);
            },
            _ => {
                self.state = RunState::Idle;
            },
        }
    }

    /// Downloading → Downloaded or Failed: a successful fetch records the
    /// staged artifact exactly as handed in — the artifact later verified is
    /// the one the fetch staged in full; a fetch error ends the run.
    pub fn on_fetch(&mut self, outcome: Result<StagedArtifact, FetchError>)
        requires
            old(self).state matches RunState::Downloading(_),
            old(self).wf(),
        ensures
            final(self).current_version == old(self).current_version,
            final(self).wf(),
            match outcome {
                Ok(a) => final(self).state matches RunState::Downloaded(d, a2) && old(self).state
                    == RunState::Downloading(d) && a2 == a,
                Err(e) => final(self).state matches RunState::Failed(FailureReason::Fetch(e2))
                    && e2 == e,
            },
    {
        let mut s = RunState::Idle;
        core::mem::swap(&mut self.state, &mut s);
        match s {
            RunState::Downloading(d) => {
                match outcome {
                    Ok(a) => {
                        self.state = RunState::Downloaded(d, a);
                    },
                    Err(e) => {
                        self.state = RunState::Failed(FailureReason::Fetch(e));
                    },
                }
            },
            _ => {
                self.state = RunState::Idle;
            },
        }
    }

    /// Downloaded → Verifying: the fully staged artifact, unchanged, goes to
    /// digest computation. Verification is never begun on anything but an
    /// artifact a successful fetch staged in full.
    pub fn begin_verify(&mut self)
        requires
            old(self).state matches RunState::Downloaded(_, _),
            old(self).wf(),
        ensures
            final(self).current_version == old(self).current_version,
            final(self).wf(),
            final(self).state matches RunState::Verifying(d, a) && old(self).state
                == RunState::Downloaded(d, a),
    {
        let mut s = RunState::Idle;
        core::mem::swap(&mut self.state, &mut s);
        match s {
            RunState::Downloaded(d, a) => {
                self.state = RunState::Verifying(d, a);
            },
            _ => {
                self.state = RunState::Idle;
            },
        }
    }

    /// Verifying → Verified, Mismatched or Failed: the digest command's
    /// output is read and compared against the descriptor's expected content
    /// hash. A digest equal to the expected hash moves the run to Verified;
    /// a differing digest ends it as Mismatched; output holding no digest at
    /// all ends it as Failed with a compute failure.
    pub fn on_digest(&mut self, digest_output: Option<String>)
        requires
            old(self).state matches RunState::Verifying(_, _),
            old(self).wf(),
        ensures
            final(self).current_version == old(self).current_version,
            final(self).wf(),
            old(self).state matches RunState::Verifying(d, a) ==> match verification_spec(
                output_view(digest_output),
                d.content_hash@,
            ) {
                None => final(self).state matches RunState::Failed(FailureReason::Verify(e))
                    && e is ComputeFailure,
                Some((m, t)) => if m {
                    final(self).state matches RunState::Verified(d2, a2, v) && d2 == d && a2 == a
                        && v.matched && v.computed_hash@ == t
                } else {
                    final(self).state matches RunState::Mismatched(v) && !v.matched
                        && v.computed_hash@ == t
                },
            },
    {
        let mut s = RunState::Idle;
        core::mem::swap(&mut self.state, &mut s);
        match s {
            RunState::Verifying(d, a) => {
                match verify(digest_output, &d.content_hash) {
                    Err(e) => {
                        self.state = RunState::Failed(FailureReason::Verify(e));
                    },
                    Ok(v) => {
                        if v.matched {
                            self.state = RunState::Verified(d, a, v);
                        } else {
                            self.state = RunState::Mismatched(v);
                        }
                    },
                }
            },
            _ => {
                self.state = RunState::Idle;
            },
        }
    }

    /// Verified → Installing: only a run whose recorded verification result
    /// matched may hand the staged artifact to the installer. The descriptor
    /// is no longer needed; the installer receives the artifact's location.
    pub fn begin_install(&mut self)
        requires
            old(self).state matches RunState::Verified(_, _, _),
            old(self).wf(),
        ensures
            final(self).current_version == old(self).current_version,
            final(self).wf(),
            final(self).state matches RunState::Installing(a, v) && (old(self).state matches
                RunState::Verified(d, a2, v2) && a2 == a && v2 == v),
    {
        let mut s = RunState::Idle;
        core::mem::swap(&mut self.state, &mut s);
        match s {
            RunState::Verified(_d, a, v) => {
                self.state = RunState::Installing(a, v);
            },
            _ => {
                self.state = RunState::Idle;
            },
        }
    }

    /// Installing → Installed or InstallFailed: the installer's exit decides
    /// the terminal state, its diagnostic text surfaced verbatim.
    pub fn on_install(&mut self, success: bool, diagnostic: String)
        requires
            old(self).state matches RunState::Installing(_, _),
            old(self).wf(),
        ensures
            final(self).current_version == old(self).current_version,
            final(self).wf(),
            success ==> (final(self).state matches RunState::Installed(o) && o.diagnostic@
                == diagnostic@),
            !success ==> (final(self).state matches RunState::InstallFailed(
                InstallError::InstallerRejected(t),
            ) && t@ == diagnostic@),
    {
        match interpret_installer_exit(success, diagnostic) {
            Ok(o) => {
                self.state = RunState::Installed(o);
            },
            Err(e) => {
                self.state = RunState::InstallFailed(e);
            },
        }
    }
}

/// The pipeline never installs an unverified artifact: in any well-formed
/// run that has reached the verified or installing state, the recorded
/// verification result matched, and in the verified state the computed
/// digest equals the descriptor's expected hash. A mismatched run records a
/// digest that did not match and, having no transition onward, never reaches
/// installation.
pub proof fn lemma_install_only_after_match(o: &UpdateOrchestrator)
    requires
        o.wf(),
    ensures
        o.state matches RunState::Installing(_, v) ==> v.matched,
        o.state matches RunState::Verified(d, _, v) ==> v.matched && v.computed_hash@
            == d.content_hash@,
        o.state matches RunState::Mismatched(v) ==> !v.matched,
{
}

} // verus!
