//! Firmware descriptors and the update decision.

use vstd::prelude::*;

verus! {

/// Metadata identifying an available firmware image: the version string it
/// carries, the expected content digest (lowercase hex), and the location
/// the image can be downloaded from.
#[derive(Debug)]
pub struct FirmwareDescriptor {
    pub version: String,
    pub content_hash: String,
    pub artifact_url: String,
}

impl FirmwareDescriptor {
    /// A descriptor is well formed when all three fields are non-empty.
    pub open spec fn wf(&self) -> bool {
        &&& self.version@.len() > 0
        &&& self.content_hash@.len() > 0
        &&& self.artifact_url@.len() > 0
    }
}

/// Whether an update run has work to do.
#[derive(Debug)]
pub enum UpdateDecision {
    UpToDate,
    Available(FirmwareDescriptor),
}

/// An update is needed exactly when the advertised version differs from the
/// currently running one, compared byte for byte: version strings are opaque
/// tokens, not ordered values, so a descriptor naming any other string (even
/// an older release) counts as available.
pub fn decide(descriptor: FirmwareDescriptor, current_version: &String) -> (d: UpdateDecision)
    ensures
        descriptor.version@ == current_version@ <==> d is UpToDate,
        descriptor.version@ != current_version@ ==> (d matches UpdateDecision::Available(x)
            && x == descriptor),
{
    if descriptor.version == *current_version {
        UpdateDecision::UpToDate
    } else {
        UpdateDecision::Available(descriptor)
    }
}

} // verus!
