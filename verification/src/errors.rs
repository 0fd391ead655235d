//! The supervisor's error kinds.  Every fallible step of a start aborts the
//! sequence with one of these; each carries the detail a caller needs to
//! self-diagnose (checked paths, offending pids, underlying OS error text).

use vstd::prelude::*;

verus! {

/// Why a start, stop or status operation failed.
#[derive(Clone, Debug)]
pub enum SidecarError {
    /// No runtime executable was found; carries the explicit-path failure,
    /// when an explicit path was given and did not resolve, and every path
    /// that was checked.
    RuntimeNotFound { custom_error: Option<String>, checked: Vec<String> },
    /// The shared account store does not exist at the given path.
    ConfigMissing { path: String },
    /// The shared account store could not be read or parsed.
    ConfigInvalid { detail: String },
    /// No account record carried a usable secret.
    NoUsableCredentials,
    /// The target port is held by processes this supervisor does not
    /// recognize as its own; they are never touched.
    PortInUse { port: u16, pids: Vec<u32> },
    /// The port was still held after the supervisor's own stale processes
    /// were signalled and given their grace periods.
    PortReleaseFailed { port: u16, pids: Vec<u32> },
    /// The platform's listener enumeration itself failed, so the port's
    /// occupancy could not be established.
    ListenerQueryFailed { port: u16, detail: String },
    /// A live instance is already recorded.
    AlreadyRunning,
    /// The configuration or credential snapshot could not be written.
    SnapshotWriteFailed { detail: String },
    /// The OS refused to prepare or spawn the resolved executable.
    SpawnFailed { detail: String },
    /// The supervisor's own state guard could not be acquired.
    LockUnavailable,
}

} // verus!
