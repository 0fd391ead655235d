//! Core of a sidecar runtime supervisor: it resolves which executable to
//! launch, materializes per-launch configuration and credentials from a shared
//! account store, arbitrates ownership of the target TCP port, and tracks the
//! single running instance.  All filesystem, process and network effects are
//! performed by the embedding application, which feeds their observed results
//! back into the decision functions and state machines of this crate.

pub mod arbiter;
pub mod credentials;
pub mod decnum;
pub mod errors;
pub mod paths;
pub mod procscan;
pub mod resolver;
pub mod state;
pub mod strutil;
pub mod supervisor;
pub mod timefmt;
