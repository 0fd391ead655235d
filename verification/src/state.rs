//! The supervisor's shared state: the single slot that may hold the one
//! running instance.  The embedding application keeps this state behind an
//! exclusive guard and owns the child-process handle; the slot holds the
//! instance's plain facts, and every mutation goes through the operations
//! here.

use vstd::prelude::*;
use crate::errors::SidecarError;

verus! {

/// An in-flight login handshake, kept by the embedding application's wider
/// state.
#[derive(Clone, Debug)]
pub struct PendingLogin {
    pub provider: String,
    pub code_verifier: String,
    pub state: String,
    pub machineid: String,
}

/// The recorded facts of the one running instance.  The process handle
/// itself stays with the embedding application, which must kill and reap the
/// child whenever this record is dropped from the slot.
#[derive(Clone, Debug)]
pub struct Kiro2ApiRuntime {
    pub pid: u32,
    pub port: u16,
    pub project_path: String,
    pub log_path: String,
    pub shared_accounts_file: String,
    pub api_key: String,
}

/// Field-wise agreement of two instance records.
pub open spec fn runtime_matches(a: Kiro2ApiRuntime, b: Kiro2ApiRuntime) -> bool {
    &&& a.pid == b.pid
    &&& a.port == b.port
    &&& a.project_path@ == b.project_path@
    &&& a.log_path@ == b.log_path@
    &&& a.shared_accounts_file@ == b.shared_accounts_file@
    &&& a.api_key@ == b.api_key@
}

/// Copies an instance record field by field.
pub fn clone_runtime(rt: &Kiro2ApiRuntime) -> (r: Kiro2ApiRuntime)
    ensures
        runtime_matches(*rt, r),
{
    Kiro2ApiRuntime {
        pid: rt.pid,
        port: rt.port,
        project_path: rt.project_path.clone(),
        log_path: rt.log_path.clone(),
        shared_accounts_file: rt.shared_accounts_file.clone(),
        api_key: rt.api_key.clone(),
    }
}

/// The supervisor's one mutable slot: at most one instance at a time.
pub struct SupervisorCore {
    pub instance: Option<Kiro2ApiRuntime>,
}

/// The slot after the lazy liveness sweep: a recorded instance whose process
/// has exited is cleared.
pub open spec fn cleaned(s: SupervisorCore, exited: bool) -> SupervisorCore {
    if s.instance is Some && exited {
        SupervisorCore { instance: None }
    } else {
        s
    }
}

/// The slot after a stop: always empty.
pub open spec fn stopped(s: SupervisorCore) -> SupervisorCore {
    SupervisorCore { instance: None }
}

/// A start may proceed only from an empty slot.
pub open spec fn start_allowed(s: SupervisorCore) -> bool {
    s.instance is None
}

impl SupervisorCore {
    /// An empty supervisor: nothing running.
    pub fn new() -> (r: SupervisorCore)
        ensures
            r.instance is None,
    {
        SupervisorCore { instance: None }
    }

    /// The lazy liveness sweep: the caller reports whether the recorded
    /// instance's process has exited, and an exited instance is cleared.
    pub fn cleanup_if_exited(&mut self, exited: bool)
        ensures
            *final(self) == cleaned(*old(self), exited),
    {
        if exited {
            self.instance = None;
        }
    }

    /// Gates a start: it is refused with `AlreadyRunning` exactly when an
    /// instance is still recorded.
    pub fn begin_start(&self) -> (r: Result<(), SidecarError>)
        ensures
            r is Ok <==> start_allowed(*self),
            r matches Err(e) ==> e is AlreadyRunning,
    {
        match &self.instance {
            None => Ok(()),
            Some(_) => Err(SidecarError::AlreadyRunning),
        }
    }

    /// Records the freshly spawned instance.
    pub fn record_started(&mut self, rt: Kiro2ApiRuntime)
        ensures
            final(self).instance == Some(rt),
    {
        self.instance = Some(rt);
    }

    /// Clears the slot, handing back whatever was recorded so that the
    /// caller can kill and reap its process.
    pub fn take_instance(&mut self) -> (r: Option<Kiro2ApiRuntime>)
        ensures
            *final(self) == stopped(*old(self)),
            r == old(self).instance,
    {
        self.instance.take()
    }

    /// A snapshot of the recorded instance's plain facts, for use outside
    /// the guard.
    pub fn snapshot(&self) -> (r: Option<Kiro2ApiRuntime>)
        ensures
            r is Some <==> self.instance is Some,
            self.instance matches Some(b) ==> (r matches Some(a) && runtime_matches(b, a)),
    {
        match &self.instance {
            None => None,
            Some(rt) => Some(clone_runtime(rt)),
        }
    }
}

/// A second start without an intervening stop is rejected while the first
/// instance's process is alive: after recording an instance, a liveness
/// sweep that finds the process alive leaves the slot full, and a full slot
/// gates the start with `AlreadyRunning`.
pub proof fn lemma_second_start_rejected(s: SupervisorCore, rt: Kiro2ApiRuntime)
    ensures
        !start_allowed(cleaned(SupervisorCore { instance: Some(rt) }, false)),
{
}

/// Stopping is idempotent: a stop empties the slot, a second stop leaves it
/// unchanged, and a stop with nothing running is already its own result.
pub proof fn lemma_stop_idempotent(s: SupervisorCore)
    ensures
        stopped(stopped(s)) == stopped(s),
        !(stopped(s).instance is Some),
        s.instance is None ==> stopped(s) == s,
{
}

} // verus!
