//! Over-the-air firmware update pipeline for a networked device.
//!
//! Given the firmware version currently running, the pipeline decides from a
//! service-supplied descriptor whether a newer image exists, has it fetched
//! to a local staging file, verifies the staged content against the expected
//! digest, and only then allows installation. The decision logic, the digest
//! bookkeeping and the run's state machine live here; the network calls, the
//! staging file and the external digest and installer processes are driven by
//! a thin unverified shell that feeds their outcomes back in as plain values.

pub mod descriptor;
pub mod resolver;
pub mod install;
pub mod orchestrator;
pub mod staging;
pub mod verify;
