//! The process supervisor's decision core: defaulting the start parameters,
//! composing the launch configuration, sequencing a start through
//! resolution, materialization, port arbitration and spawn — aborting at the
//! first failure — and composing the status view.  The embedding
//! application performs each step's outside work and feeds the result back.

use vstd::prelude::*;
use crate::credentials::Account;
use crate::credentials::KiroRsCredential;
use crate::credentials::build_runtime_credentials;
use crate::credentials::count_usable;
use crate::credentials::cred_matches;
use crate::credentials::usable_indices;
use crate::decnum::dec_digits;
use crate::decnum::push_dec;
use crate::errors::SidecarError;
use crate::arbiter::ArbiterAction;
use crate::arbiter::PortArbiter;
use crate::arbiter::cleanup_stale_kiro2api_on_port;
use crate::paths::base_or;
use crate::paths::join_seq;
use crate::paths::path_join;
use crate::paths::platform_data_dir;
use crate::paths::runtime_dir_for;
use crate::paths::runtime_dir_seq;
use crate::paths::store_path_for;
use crate::paths::store_path_seq;
use crate::state::Kiro2ApiRuntime;
use crate::state::SupervisorCore;
use crate::state::clone_runtime;
use crate::state::runtime_matches;
use crate::state::stopped;
use crate::strutil::clone_opt;
use crate::strutil::norm_opt;
use crate::strutil::norm_opt_spec;
use crate::strutil::view_opt;

verus! {

/// The caller's start request; every field is optional and defaulted.
#[derive(Clone, Debug)]
pub struct Kiro2ApiStartParams {
    pub project_path: Option<String>,
    pub port: Option<u16>,
    pub api_key: Option<String>,
    pub admin_key: Option<String>,
    pub data_dir: Option<String>,
    pub region: Option<String>,
    pub kiro_version: Option<String>,
    pub proxy_url: Option<String>,
}

/// The composite view a caller polls: whether an instance is recorded, its
/// coordinates, and the health probe's verdict.
#[derive(Clone, Debug)]
pub struct Kiro2ApiStatus {
    pub running: bool,
    pub pid: Option<u32>,
    pub port: Option<u16>,
    pub url: Option<String>,
    pub project_path: Option<String>,
    pub log_path: Option<String>,
    pub shared_accounts_file: Option<String>,
    pub healthy: bool,
    pub message: Option<String>,
}

/// The sidecar's launch configuration, written beside the credentials.
#[derive(Clone, Debug)]
pub struct KiroRsConfig {
    pub host: String,
    pub port: u16,
    pub region: String,
    pub kiro_version: String,
    pub api_key: String,
    pub admin_api_key: String,
    pub proxy_url: Option<String>,
    pub load_balancing_mode: String,
    pub tls_backend: String,
}

/// A start request with no field given.
pub open spec fn empty_params() -> Kiro2ApiStartParams {
    Kiro2ApiStartParams {
        project_path: None,
        port: None,
        api_key: None,
        admin_key: None,
        data_dir: None,
        region: None,
        kiro_version: None,
        proxy_url: None,
    }
}

/// The request with the absent one standing for no fields at all.
pub open spec fn params_or_empty(params: Option<Kiro2ApiStartParams>) -> Kiro2ApiStartParams {
    match params {
        Some(p) => p,
        None => empty_params(),
    }
}

/// An optional string, defaulted.
pub open spec fn str_or(s: Option<String>, d: Seq<char>) -> Seq<char> {
    match s {
        Some(x) => x@,
        None => d,
    }
}

/// Everything a start needs, after defaulting: the target port, the data
/// directory and the paths inside it, and the launch configuration.
#[derive(Clone, Debug)]
pub struct StartPlan {
    pub project_path: Option<String>,
    pub port: u16,
    pub data_dir: String,
    pub config: KiroRsConfig,
    pub config_path: String,
    pub credentials_path: String,
    pub log_path: String,
    pub shared_accounts_file: String,
}

/// How a plan relates to the request it was drawn from.  Which base the
/// platform reports cannot be stated here, but the defaulted data directory
/// and the account store are pinned to one and the same base.
pub open spec fn plan_matches(params: Kiro2ApiStartParams, plan: StartPlan) -> bool {
    &&& view_opt(plan.project_path) == view_opt(params.project_path)
    &&& plan.port == (match params.port {
        Some(p) => p,
        None => 8080u16,
    })
    &&& plan.config.host@ == "127.0.0.1"@
    &&& plan.config.port == plan.port
    &&& plan.config.region@ == str_or(params.region, "us-east-1"@)
    &&& plan.config.kiro_version@ == str_or(params.kiro_version, "0.9.2"@)
    &&& plan.config.api_key@ == str_or(params.api_key, "sk-default-key"@)
    &&& plan.config.admin_api_key@ == str_or(params.admin_key, "admin-default-key"@)
    &&& view_opt(plan.config.proxy_url) == norm_opt_spec(params.proxy_url)
    &&& plan.config.load_balancing_mode@ == "priority"@
    &&& plan.config.tls_backend@ == "rustls"@
    &&& (params.data_dir matches Some(d) ==> plan.data_dir@ == d@)
    &&& (exists|b: Seq<char>|
        {
            &&& (params.data_dir is None ==> plan.data_dir@ == runtime_dir_seq(b))
            &&& plan.shared_accounts_file@ == #[trigger] store_path_seq(b)
        })
    &&& plan.config_path@ == join_seq(plan.data_dir@, "config.json"@)
    &&& plan.credentials_path@ == join_seq(plan.data_dir@, "credentials.json"@)
    &&& plan.log_path@ == join_seq(plan.data_dir@, "kiro2api.log"@)
}

/// Draws the full plan from a start request, filling every default.
pub fn plan_start(params: &Option<Kiro2ApiStartParams>, fallback_base: &str) -> (plan: StartPlan)
    ensures
        plan_matches(params_or_empty(*params), plan),
{
    let (project_path, port, api_key, admin_key, data_dir_p, region, kiro_version, proxy_url) =
        match params {
        Some(p) => (
            clone_opt(&p.project_path),
            p.port,
            clone_opt(&p.api_key),
            clone_opt(&p.admin_key),
            clone_opt(&p.data_dir),
            clone_opt(&p.region),
            clone_opt(&p.kiro_version),
            norm_opt(&p.proxy_url),
        ),
        None => (None, None, None, None, None, None, None, None),
    };
    let port: u16 = match port {
        Some(p) => p,
        None => 8080,
    };
    let base = platform_data_dir();
    let data_dir = match data_dir_p {
        Some(d) => d,
        None => runtime_dir_for(&base, fallback_base),
    };
    let config = KiroRsConfig {
        host: "127.0.0.1".to_owned(),
        port,
        region: match region {
            Some(r) => r,
            None => "us-east-1".to_owned(),
        },
        kiro_version: match kiro_version {
            Some(v) => v,
            None => "0.9.2".to_owned(),
        },
        api_key: match api_key {
            Some(k) => k,
            None => "sk-default-key".to_owned(),
        },
        admin_api_key: match admin_key {
            Some(k) => k,
            None => "admin-default-key".to_owned(),
        },
        proxy_url,
        load_balancing_mode: "priority".to_owned(),
        tls_backend: "rustls".to_owned(),
    };
    let config_path = path_join(data_dir.as_str(), "config.json");
    let credentials_path = path_join(data_dir.as_str(), "credentials.json");
    let log_path = path_join(data_dir.as_str(), "kiro2api.log");
    let shared_accounts_file = store_path_for(&base, fallback_base);
    proof {
        assert(shared_accounts_file@ == store_path_seq(base_or(base, fallback_base@)));
    }
    StartPlan {
        project_path,
        port,
        data_dir,
        config,
        config_path,
        credentials_path,
        log_path,
        shared_accounts_file,
    }
}

/// A status that reports nothing running.
pub open spec fn not_running_status(st: Kiro2ApiStatus) -> bool {
    &&& st.running == false
    &&& st.pid is None
    &&& st.port is None
    &&& st.url is None
    &&& st.project_path is None
    &&& st.log_path is None
    &&& st.shared_accounts_file is None
    &&& st.healthy == false
    &&& st.message is None
}

/// A status that reports the recorded instance, with the probe's verdict.
pub open spec fn running_status_matches(
    rt: Kiro2ApiRuntime,
    healthy: bool,
    st: Kiro2ApiStatus,
) -> bool {
    &&& st.running == true
    &&& st.pid == Some(rt.pid)
    &&& st.port == Some(rt.port)
    &&& (st.url matches Some(u) && u@ == "http://127.0.0.1:"@ + dec_digits(rt.port as int))
    &&& view_opt(st.project_path) == Some(rt.project_path@)
    &&& view_opt(st.log_path) == Some(rt.log_path@)
    &&& view_opt(st.shared_accounts_file) == Some(rt.shared_accounts_file@)
    &&& st.healthy == healthy
    &&& st.message is None
}

/// Composes the status view from a snapshot of the slot and the health
/// probe's verdict.  This never fails: an absent instance is the all-absent,
/// not-running view.
pub fn get_kiro2api_status(snapshot: &Option<Kiro2ApiRuntime>, healthy: bool) -> (st:
    Kiro2ApiStatus)
    ensures
        snapshot is None ==> not_running_status(st),
        snapshot matches Some(rt) ==> running_status_matches(*rt, healthy, st),
{
    match snapshot {
        None => Kiro2ApiStatus {
            running: false,
            pid: None,
            port: None,
            url: None,
            project_path: None,
            log_path: None,
            shared_accounts_file: None,
            healthy: false,
            message: None,
        },
        Some(rt) => {
            let mut url = "http://127.0.0.1:".to_owned();
            push_dec(&mut url, rt.port);
            Kiro2ApiStatus {
                running: true,
                pid: Some(rt.pid),
                port: Some(rt.port),
                url: Some(url),
                project_path: Some(rt.project_path.clone()),
                log_path: Some(rt.log_path.clone()),
                shared_accounts_file: Some(rt.shared_accounts_file.clone()),
                healthy,
                message: None,
            }
        },
    }
}

/// The liveness endpoint probed on the running instance.
pub fn health_url(port: u16) -> (r: String)
    ensures
        r@ == "http://127.0.0.1:"@ + dec_digits(port as int) + "/v1/models"@,
{
    let mut url = "http://127.0.0.1:".to_owned();
    push_dec(&mut url, port);
    url.append("/v1/models");
    proof {
        assert(url@ =~= "http://127.0.0.1:"@ + dec_digits(port as int) + "/v1/models"@);
    }
    url
}

/// Decides health from what the probe observed: healthy exactly when a
/// response came back with a success status.  Connection errors, timeouts
/// and failure statuses are all just "not healthy", never an error.
pub fn classify_health(status_code: Option<u16>) -> (r: bool)
    ensures
        r == (status_code matches Some(c) && 200 <= c < 300),
{
    match status_code {
        Some(c) => 200 <= c && c < 300,
        None => false,
    }
}

/// Why the shared account store could not be handed over.
#[derive(Clone, Debug)]
pub enum StoreReadError {
    /// The store file does not exist.
    Missing,
    /// The store file exists but could not be read.
    Unreadable { detail: String },
    /// The store file was read but could not be parsed.
    Malformed { detail: String },
}

/// Where the start sequence stands: which step's result it is waiting for.
#[derive(Clone, Copy, Debug, PartialEq, Eq, Structural)]
pub enum StartPhase {
    Resolve,
    EnsureExec,
    Materialize,
    WriteFiles,
    Arbitrate,
    OpenLog,
    Spawn,
    Done,
}

/// What the embedding application must do next to carry the start forward.
#[derive(Clone, Debug)]
pub enum StartAction {
    /// Drive the runtime resolver to its outcome and feed it back.
    RunResolver { project_path: Option<String> },
    /// Make the resolved executable runnable and feed the result back.
    EnsureExecutable { path: String },
    /// Drive the port arbiter, with the data directory as the ownership
    /// marker, to its outcome and feed it back.
    RunArbiter { port: u16, marker_path: String },
    /// Read and parse the shared account store and feed the records back.
    ReadStore { path: String },
    /// Write the configuration and credential snapshot and feed the result
    /// back.
    WriteSnapshot {
        data_dir: String,
        config_path: String,
        credentials_path: String,
        credentials: Vec<KiroRsCredential>,
    },
    /// Open the instance's log for appending and feed the result back.
    OpenLog { path: String },
    /// Spawn the sidecar and feed its pid back.
    SpawnChild { binary: String, config_path: String, credentials_path: String, data_dir: String },
    /// The sequence is decided; read the outcome.
    Finish,
}

/// One step's result, fed back into the sequence.
#[derive(Debug)]
pub enum StartEvent {
    Resolved { result: Result<String, SidecarError> },
    ExecutableEnsured { result: Result<(), String> },
    PortCleared { result: Result<(), SidecarError> },
    StoreRead { result: Result<Vec<Account>, StoreReadError> },
    SnapshotWritten { result: Result<(), String> },
    LogOpened { result: Result<(), String> },
    Spawned { result: Result<u32, String> },
}

/// The start sequence's state.
pub struct StartSequence {
    pub plan: StartPlan,
    pub phase: StartPhase,
    /// The resolved executable, once resolution succeeded.
    pub binary: Option<String>,
    pub outcome: Option<Result<Kiro2ApiRuntime, SidecarError>>,
}

impl StartSequence {
    /// The sequence's bookkeeping is consistent with its phase.
    pub open spec fn wf(self) -> bool {
        &&& ((self.phase is Done) <==> (self.outcome is Some))
        &&& ((self.phase is EnsureExec || self.phase is Arbitrate || self.phase is Materialize
            || self.phase is WriteFiles || self.phase is OpenLog || self.phase is Spawn)
            ==> self.binary is Some)
    }

    /// Whether `ev` answers what the phase of `pre` is waiting for.
    pub open spec fn event_fits(pre: StartSequence, ev: StartEvent) -> bool {
        match pre.phase {
            StartPhase::Resolve => ev is Resolved,
            StartPhase::EnsureExec => ev is ExecutableEnsured,
            StartPhase::Arbitrate => ev is PortCleared,
            StartPhase::Materialize => ev is StoreRead,
            StartPhase::WriteFiles => ev is SnapshotWritten,
            StartPhase::OpenLog => ev is LogOpened,
            StartPhase::Spawn => ev is Spawned,
            StartPhase::Done => false,
        }
    }

    /// The sequence has failed with `e`-shaped detail and nothing more runs.
    pub open spec fn failed_with(self, e: SidecarError) -> bool {
        &&& self.phase is Done
        &&& (self.outcome matches Some(o) && o matches Err(err) && err == e)
    }

    /// The resolved executable's characters; meaningful once resolution
    /// succeeded.
    pub open spec fn binary_seq(self) -> Seq<char> {
        match self.binary {
            Some(b) => b@,
            None => Seq::empty(),
        }
    }

    /// How one fed result takes the sequence from `pre` to `post`,
    /// answering `act`.  Every failure ends the sequence at once with the
    /// step's error; each success hands the next step's action out, in the
    /// fixed order: resolve, make executable, materialize, write the
    /// snapshot, clear the port, open the log, spawn.
    pub open spec fn step_rel(
        pre: StartSequence,
        ev: StartEvent,
        post: StartSequence,
        act: StartAction,
    ) -> bool {
        &&& post.plan == pre.plan
        &&& (pre.phase is Resolve ==> (ev matches StartEvent::Resolved { result }
            ==> match result {
            Ok(bin) => {
                &&& post.phase is EnsureExec
                &&& post.binary_seq() == bin@ && post.binary is Some
                &&& post.outcome is None
                &&& (act matches StartAction::EnsureExecutable { path } && path@ == bin@)
            },
            Err(e) => {
                &&& post.failed_with(e)
                &&& post.binary == pre.binary
                &&& act is Finish
            },
        }))
        &&& (pre.phase is EnsureExec ==> (ev matches StartEvent::ExecutableEnsured { result }
            ==> match result {
            Ok(u) => {
                &&& post.phase is Materialize
                &&& post.binary == pre.binary
                &&& post.outcome is None
                &&& (act matches StartAction::ReadStore { path } && path@
                    == pre.plan.shared_accounts_file@)
            },
            Err(d) => {
                &&& post.phase is Done
                &&& (post.outcome matches Some(o) && o matches Err(err) && err matches
                    SidecarError::SpawnFailed { detail } && detail@ == d@)
                &&& act is Finish
            },
        }))
        &&& (pre.phase is Arbitrate ==> (ev matches StartEvent::PortCleared { result }
            ==> match result {
            Ok(u) => {
                &&& post.phase is OpenLog
                &&& post.binary == pre.binary
                &&& post.outcome is None
                &&& (act matches StartAction::OpenLog { path } && path@ == pre.plan.log_path@)
            },
            Err(e) => {
                &&& post.failed_with(e)
                &&& act is Finish
            },
        }))
        &&& (pre.phase is Materialize ==> (ev matches StartEvent::StoreRead { result }
            ==> match result {
            Ok(accounts) => {
                if accounts@.len() > u32::MAX as int {
                    &&& post.phase is Done
                    &&& (post.outcome matches Some(o) && o matches Err(err) && err matches
                        SidecarError::ConfigInvalid { detail } && detail@
                        == "shared account store holds too many records"@)
                    &&& act is Finish
                } else if count_usable(accounts@) == 0 {
                    &&& post.phase is Done
                    &&& (post.outcome matches Some(o) && o matches Err(err) && err is
                        NoUsableCredentials)
                    &&& act is Finish
                } else {
                    &&& post.phase is WriteFiles
                    &&& post.binary == pre.binary
                    &&& post.outcome is None
                    &&& (act matches StartAction::WriteSnapshot {
                        data_dir,
                        config_path,
                        credentials_path,
                        credentials,
                    } && data_dir@ == pre.plan.data_dir@ && config_path@ == pre.plan.config_path@
                        && credentials_path@ == pre.plan.credentials_path@ && credentials@.len()
                        == usable_indices(accounts@).len() && (forall|k: int|
                        0 <= k < credentials@.len() ==> cred_matches(
                            accounts@[usable_indices(accounts@)[k]],
                            usable_indices(accounts@)[k],
                            pre.plan.config.region@,
                            #[trigger] credentials@[k],
                        )))
                }
            },
            Err(se) => {
                &&& post.phase is Done
                &&& (match se {
                    StoreReadError::Missing => post.outcome matches Some(o) && o matches Err(err)
                        && err matches SidecarError::ConfigMissing { path } && path@
                        == pre.plan.shared_accounts_file@,
                    StoreReadError::Unreadable { detail: d } => post.outcome matches Some(o) && o
                        matches Err(err) && err matches SidecarError::ConfigInvalid { detail }
                        && detail@ == d@,
                    StoreReadError::Malformed { detail: d } => post.outcome matches Some(o) && o
                        matches Err(err) && err matches SidecarError::ConfigInvalid { detail }
                        && detail@ == d@,
                })
                &&& act is Finish
            },
        }))
        &&& (pre.phase is WriteFiles ==> (ev matches StartEvent::SnapshotWritten { result }
            ==> match result {
            Ok(u) => {
                &&& post.phase is Arbitrate
                &&& post.binary == pre.binary
                &&& post.outcome is None
                &&& (act matches StartAction::RunArbiter { port, marker_path } && port
                    == pre.plan.port && marker_path@ == pre.plan.data_dir@)
            },
            Err(d) => {
                &&& post.phase is Done
                &&& (post.outcome matches Some(o) && o matches Err(err) && err matches
                    SidecarError::SnapshotWriteFailed { detail } && detail@ == d@)
                &&& act is Finish
            },
        }))
        &&& (pre.phase is OpenLog ==> (ev matches StartEvent::LogOpened { result }
            ==> match result {
            Ok(u) => {
                &&& post.phase is Spawn
                &&& post.binary == pre.binary
                &&& post.outcome is None
                &&& (act matches StartAction::SpawnChild {
                    binary,
                    config_path,
                    credentials_path,
                    data_dir,
                } && binary@ == pre.binary_seq() && config_path@ == pre.plan.config_path@
                    && credentials_path@ == pre.plan.credentials_path@ && data_dir@
                    == pre.plan.data_dir@)
            },
            Err(d) => {
                &&& post.phase is Done
                &&& (post.outcome matches Some(o) && o matches Err(err) && err matches
                    SidecarError::SpawnFailed { detail } && detail@ == d@)
                &&& act is Finish
            },
        }))
        &&& (pre.phase is Spawn ==> (ev matches StartEvent::Spawned { result }
            ==> match result {
            Ok(pid) => {
                &&& post.phase is Done
                &&& (post.outcome matches Some(o) && o matches Ok(rt) && rt.pid == pid && rt.port
                    == pre.plan.port && rt.project_path@ == pre.binary_seq() && rt.log_path@
                    == pre.plan.log_path@ && rt.shared_accounts_file@
                    == pre.plan.shared_accounts_file@ && rt.api_key@ == pre.plan.config.api_key@)
                &&& act is Finish
            },
            Err(d) => {
                &&& post.phase is Done
                &&& (post.outcome matches Some(o) && o matches Err(err) && err matches
                    SidecarError::SpawnFailed { detail } && detail@
                    == "failed to start Kiro2API service with runtime '"@ + pre.binary_seq()
                    + "': "@ + d@)
                &&& act is Finish
            },
        }))
    }

    /// Feeds one step's result and answers what to do next.
    pub fn feed(&mut self, ev: StartEvent) -> (act: StartAction)
        requires
            old(self).wf(),
            StartSequence::event_fits(*old(self), ev),
        ensures
            final(self).wf(),
            StartSequence::step_rel(*old(self), ev, *final(self), act),
    {
        match ev {
            StartEvent::Resolved { result } => {
                match result {
                    Ok(bin) => {
                        self.phase = StartPhase::EnsureExec;
                        let path = bin.clone();
                        self.binary = Some(bin);
                        StartAction::EnsureExecutable { path }
                    },
                    Err(e) => {
                        self.phase = StartPhase::Done;
                        self.outcome = Some(Err(e));
                        StartAction::Finish
                    },
                }
            },
            StartEvent::ExecutableEnsured { result } => {
                match result {
                    Ok(_) => {
                        self.phase = StartPhase::Materialize;
                        StartAction::ReadStore { path: self.plan.shared_accounts_file.clone() }
                    },
                    Err(d) => {
                        self.phase = StartPhase::Done;
                        self.outcome = Some(Err(SidecarError::SpawnFailed { detail: d }));
                        StartAction::Finish
                    },
                }
            },
            StartEvent::PortCleared { result } => {
                match result {
                    Ok(_) => {
                        self.phase = StartPhase::OpenLog;
                        StartAction::OpenLog { path: self.plan.log_path.clone() }
                    },
                    Err(e) => {
                        self.phase = StartPhase::Done;
                        self.outcome = Some(Err(e));
                        StartAction::Finish
                    },
                }
            },
            StartEvent::StoreRead { result } => {
                match result {
                    Ok(accounts) => {
                        if accounts.len() > (u32::MAX as usize) {
                            self.phase = StartPhase::Done;
                            self.outcome = Some(
                                Err(
                                    SidecarError::ConfigInvalid {
                                        detail: "shared account store holds too many records".to_owned(),
                                    },
                                ),
                            );
                            StartAction::Finish
                        } else {
                            match build_runtime_credentials(
                                &accounts,
                                self.plan.config.region.as_str(),
                            ) {
                                Ok(credentials) => {
                                    self.phase = StartPhase::WriteFiles;
                                    StartAction::WriteSnapshot {
                                        data_dir: self.plan.data_dir.clone(),
                                        config_path: self.plan.config_path.clone(),
                                        credentials_path: self.plan.credentials_path.clone(),
                                        credentials,
                                    }
                                },
                                Err(e) => {
                                    self.phase = StartPhase::Done;
                                    self.outcome = Some(Err(e));
                                    StartAction::Finish
                                },
                            }
                        }
                    },
                    Err(se) => {
                        self.phase = StartPhase::Done;
                        let err = match se {
                            StoreReadError::Missing => SidecarError::ConfigMissing {
                                path: self.plan.shared_accounts_file.clone(),
                            },
                            StoreReadError::Unreadable { detail } => SidecarError::ConfigInvalid {
                                detail,
                            },
                            StoreReadError::Malformed { detail } => SidecarError::ConfigInvalid {
                                detail,
                            },
                        };
                        self.outcome = Some(Err(err));
                        StartAction::Finish
                    },
                }
            },
            StartEvent::SnapshotWritten { result } => {
                match result {
                    Ok(_) => {
                        self.phase = StartPhase::Arbitrate;
                        StartAction::RunArbiter {
                            port: self.plan.port,
                            marker_path: self.plan.data_dir.clone(),
                        }
                    },
                    Err(d) => {
                        self.phase = StartPhase::Done;
                        self.outcome = Some(Err(SidecarError::SnapshotWriteFailed { detail: d }));
                        StartAction::Finish
                    },
                }
            },
            StartEvent::LogOpened { result } => {
                match result {
                    Ok(_) => {
                        self.phase = StartPhase::Spawn;
                        let binary = match &self.binary {
                            Some(b) => b.clone(),
                            None => {
                                proof {
                                    assert(false);
                                }
                                return StartAction::Finish;
                            },
                        };
                        StartAction::SpawnChild {
                            binary,
                            config_path: self.plan.config_path.clone(),
                            credentials_path: self.plan.credentials_path.clone(),
                            data_dir: self.plan.data_dir.clone(),
                        }
                    },
                    Err(d) => {
                        self.phase = StartPhase::Done;
                        self.outcome = Some(Err(SidecarError::SpawnFailed { detail: d }));
                        StartAction::Finish
                    },
                }
            },
            StartEvent::Spawned { result } => {
                match result {
                    Ok(pid) => {
                        let binary = match &self.binary {
                            Some(b) => b.clone(),
                            None => {
                                proof {
                                    assert(false);
                                }
                                return StartAction::Finish;
                            },
                        };
                        self.phase = StartPhase::Done;
                        self.outcome = Some(
                            Ok(
                                Kiro2ApiRuntime {
                                    pid,
                                    port: self.plan.port,
                                    project_path: binary,
                                    log_path: self.plan.log_path.clone(),
                                    shared_accounts_file: self.plan.shared_accounts_file.clone(),
                                    api_key: self.plan.config.api_key.clone(),
                                },
                            ),
                        );
                        StartAction::Finish
                    },
                    Err(d) => {
                        let binary = match &self.binary {
                            Some(b) => b.clone(),
                            None => {
                                proof {
                                    assert(false);
                                }
                                return StartAction::Finish;
                            },
                        };
                        let mut detail =
                            "failed to start Kiro2API service with runtime '".to_owned();
                        detail.append(binary.as_str());
                        detail.append("': ");
                        detail.append(d.as_str());
                        proof {
                            assert(detail@ =~= "failed to start Kiro2API service with runtime '"@
                                + old(self).binary_seq() + "': "@ + d@);
                        }
                        self.phase = StartPhase::Done;
                        self.outcome = Some(Err(SidecarError::SpawnFailed { detail }));
                        StartAction::Finish
                    },
                }
            },
        }
    }
}

/// Begins a start.  The supervisor's gate is part of this contract: while an
/// instance is still recorded — the caller performs the lazy liveness sweep
/// first — the start is refused with `AlreadyRunning` and nothing else
/// happens.  From an empty slot it draws the plan from the request and
/// hands out the first step, the runtime resolution; the sequence never
/// touches the slot until its outcome is recorded through `finish_start`.
pub fn start_kiro2api_service(
    core: &SupervisorCore,
    params: &Option<Kiro2ApiStartParams>,
    fallback_base: &str,
) -> (r: Result<(StartSequence, StartAction), SidecarError>)
    ensures
        core.instance is Some ==> (r matches Err(e) && e is AlreadyRunning),
        core.instance is None ==> (r matches Ok(sa) && {
            &&& sa.0.wf()
            &&& sa.0.phase is Resolve
            &&& sa.0.outcome is None
            &&& sa.0.binary is None
            &&& plan_matches(params_or_empty(*params), sa.0.plan)
            &&& (sa.1 matches StartAction::RunResolver { project_path } && view_opt(project_path)
                == view_opt(params_or_empty(*params).project_path))
        }),
{
    if let Err(e) = core.begin_start() {
        return Err(e);
    }
    let plan = plan_start(params, fallback_base);
    let project_path = clone_opt(&plan.project_path);
    let seq = StartSequence { plan, phase: StartPhase::Resolve, binary: None, outcome: None };
    Ok((seq, StartAction::RunResolver { project_path }))
}

/// Ends a start under the guard.  Exactly on a successful outcome the slot
/// records the new instance; on a failed one the slot is left as it was, so
/// no partial instance is ever visible to a concurrent status or stop.
pub fn finish_start(core: &mut SupervisorCore, seq: StartSequence) -> (r: Result<
    Kiro2ApiRuntime,
    SidecarError,
>)
    requires
        seq.wf(),
        seq.phase is Done,
    ensures
        seq.outcome matches Some(o) ==> match o {
            Ok(rt) => {
                &&& (final(core).instance matches Some(rec) && runtime_matches(rt, rec))
                &&& (r matches Ok(out) && out == rt)
            },
            Err(e) => {
                &&& *final(core) == *old(core)
                &&& (r matches Err(e2) && e2 == e)
            },
        },
{
    match seq.outcome {
        Some(Ok(rt)) => {
            core.record_started(clone_runtime(&rt));
            Ok(rt)
        },
        Some(Err(e)) => Err(e),
        None => {
            proof {
                assert(false);
            }
            Err(SidecarError::AlreadyRunning)
        },
    }
}

/// Stops the service: unconditionally clears the slot — the caller must
/// kill and reap the returned instance's process — and independently begins
/// a reclamation of the port with no ownership marker, so that a stale
/// child outliving a restarted supervisor is still caught by the generic
/// signatures.  Nothing running is not an error: the slot is simply left
/// empty.
pub fn stop_kiro2api_service(core: &mut SupervisorCore, port: Option<u16>) -> (r: (
    Option<Kiro2ApiRuntime>,
    PortArbiter,
    ArbiterAction,
))
    ensures
        *final(core) == stopped(*old(core)),
        r.0 == old(core).instance,
        r.1.wf(),
        r.1.port == (match port {
            Some(p) => p,
            None => 8080u16,
        }),
        r.1.marker_path is None,
        r.1.phase is FirstScan,
        r.1.outcome is None,
        r.2 is Scan,
{
    let p: u16 = match port {
        Some(p) => p,
        None => 8080,
    };
    let inst = core.take_instance();
    let (arb, act) = cleanup_stale_kiro2api_on_port(p, None);
    (inst, arb, act)
}

} // verus!
