//! Interpreting the device-specific installer's exit.

use vstd::prelude::*;

verus! {

/// Why installation failed.
#[derive(Debug, PartialEq, Eq)]
pub enum InstallError {
    /// The installation procedure exited with failure; carries its
    /// diagnostic output verbatim.
    InstallerRejected(String),
}

/// A completed installation, carrying the diagnostic output the installation
/// procedure emitted.
#[derive(Debug)]
pub struct InstallOutcome {
    pub diagnostic: String,
}

/// Turns the installation procedure's exit into the pipeline's outcome: a
/// successful exit yields `InstallOutcome` and a failure exit yields
/// `InstallerRejected`, the diagnostic text surfaced verbatim either way.
pub fn interpret_installer_exit(success: bool, diagnostic: String) -> (r: Result<
    InstallOutcome,
    InstallError,
>)
    ensures
        success ==> (r matches Ok(o) && o.diagnostic@ == diagnostic@),
        !success ==> (r matches Err(e) && e matches InstallError::InstallerRejected(t)
            && t@ == diagnostic@),
{
    if success {
        Ok(InstallOutcome { diagnostic })
    } else {
        Err(InstallError::InstallerRejected(diagnostic))
    }
}

} // verus!
