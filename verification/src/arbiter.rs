//! The port arbiter: decides, from what the platform reports about listeners
//! on the target port, which processes are stale instances of this system's
//! own sidecar and how to reclaim the port from them.  A listener it does not
//! recognize is never touched: its presence is a fatal `PortInUse`.
//!
//! The arbiter is a state machine.  The embedding application enumerates
//! listeners, delivers signals and sleeps out the grace periods; after each
//! enumeration it feeds the scan back and performs the returned action.

use vstd::prelude::*;
use crate::errors::SidecarError;
use crate::strutil::contains_seq;
use crate::strutil::lower_of;
use crate::strutil::lower_str;
use crate::strutil::str_contains;

verus! {

/// One listener on the target port: its pid and, when the platform could
/// read it, its command line.
#[derive(Clone, Debug)]
pub struct ListenerInfo {
    pub pid: u32,
    pub cmdline: Option<String>,
}

/// Whether a lowercased command line structurally resembles this system's
/// own sidecar: the runtime's names, or the legacy interpreter-plus-entry
/// script pair.
pub open spec fn signature_matches(cmd_lc: Seq<char>) -> bool {
    ||| contains_seq(cmd_lc, "kiro-rs"@)
    ||| contains_seq(cmd_lc, "kiro2api"@)
    ||| (contains_seq(cmd_lc, "node"@) && contains_seq(cmd_lc, "src/index.js"@))
}

/// Whether a listener is recognized as this system's own: its command line
/// could be read, and it either carries the data-directory marker or matches
/// a known signature, case-insensitively.
pub open spec fn recognized(cmdline: Option<String>, marker_path: Option<String>) -> bool {
    cmdline matches Some(c) && {
        ||| (marker_path matches Some(m) && contains_seq(lower_of(c@), lower_of(m@)))
        ||| signature_matches(lower_of(c@))
    }
}

/// Classifies one listener's command line against the marker and the known
/// signatures.  A process whose command line cannot be read is foreign.
pub fn is_kiro2api_pid(cmdline: &Option<String>, marker_path: &Option<String>) -> (r: bool)
    ensures
        r == recognized(*cmdline, *marker_path),
{
    let cmd = match cmdline {
        Some(c) => c,
        None => {
            return false;
        },
    };
    let cmd_lc = lower_str(cmd.as_str());
    let marker_match = match marker_path {
        Some(m) => {
            let m_lc = lower_str(m.as_str());
            str_contains(cmd_lc.as_str(), m_lc.as_str())
        },
        None => false,
    };
    marker_match || str_contains(cmd_lc.as_str(), "kiro-rs") || str_contains(
        cmd_lc.as_str(),
        "kiro2api",
    ) || (str_contains(cmd_lc.as_str(), "node") && str_contains(cmd_lc.as_str(), "src/index.js"))
}

/// The pids among `infos` that are recognized as this system's own.
pub open spec fn own_pids_of(infos: Seq<ListenerInfo>, marker_path: Option<String>) -> Seq<u32>
    decreases infos.len(),
{
    if infos.len() == 0 {
        Seq::empty()
    } else {
        let pre = own_pids_of(infos.drop_last(), marker_path);
        if recognized(infos.last().cmdline, marker_path) {
            pre.push(infos.last().pid)
        } else {
            pre
        }
    }
}

/// The pids among `infos` that are foreign: not recognized as this system's
/// own.
pub open spec fn foreign_pids_of(infos: Seq<ListenerInfo>, marker_path: Option<String>) -> Seq<u32>
    decreases infos.len(),
{
    if infos.len() == 0 {
        Seq::empty()
    } else {
        let pre = foreign_pids_of(infos.drop_last(), marker_path);
        if !recognized(infos.last().cmdline, marker_path) {
            pre.push(infos.last().pid)
        } else {
            pre
        }
    }
}

/// Splits a scan into recognized and foreign pids, in scan order.
pub fn classify_listeners(infos: &Vec<ListenerInfo>, marker_path: &Option<String>) -> (r: (
    Vec<u32>,
    Vec<u32>,
))
    ensures
        r.0@ == own_pids_of(infos@, *marker_path),
        r.1@ == foreign_pids_of(infos@, *marker_path),
{
    let mut own: Vec<u32> = Vec::new();
    let mut foreign: Vec<u32> = Vec::new();
    let mut i: usize = 0;
    while i < infos.len()
        invariant
            i <= infos@.len(),
            own@ == own_pids_of(infos@.subrange(0, i as int), *marker_path),
            foreign@ == foreign_pids_of(infos@.subrange(0, i as int), *marker_path),
        decreases infos@.len() - i,
    {
        proof {
            assert(infos@.subrange(0, i as int + 1).drop_last() =~= infos@.subrange(0, i as int));
            assert(infos@.subrange(0, i as int + 1).last() == infos@[i as int]);
        }
        if is_kiro2api_pid(&infos[i].cmdline, marker_path) {
            own.push(infos[i].pid);
        } else {
            foreign.push(infos[i].pid);
        }
        i = i + 1;
    }
    proof {
        assert(infos@.subrange(0, infos@.len() as int) =~= infos@);
    }
    (own, foreign)
}

/// Where the arbiter stands: which enumeration of the port it is waiting
/// for.
#[derive(Clone, Copy, Debug, PartialEq, Eq, Structural)]
pub enum ArbiterPhase {
    /// Waiting for the first enumeration, which classifies the occupants.
    FirstScan,
    /// Own stale listeners were sent the graceful signal; waiting for the
    /// enumeration after the first grace period.
    SecondScan,
    /// Survivors were force-killed; waiting for the final enumeration.
    ThirdScan,
    /// The arbitration is decided; `outcome` holds the result.
    Finished,
}

/// What the embedding application must do next.
#[derive(Clone, Debug)]
pub enum ArbiterAction {
    /// Enumerate the listeners on the port and feed the result back.
    Scan,
    /// Send each pid the graceful termination signal, wait the long grace
    /// period, then enumerate and feed the result back.
    TermAndWait { pids: Vec<u32> },
    /// Force-kill each pid, wait the short grace period, then enumerate and
    /// feed the result back.
    KillAndWait { pids: Vec<u32> },
    /// Nothing remains to be done; read the outcome.
    Done,
}

/// The port arbiter's state.
pub struct PortArbiter {
    pub port: u16,
    pub marker_path: Option<String>,
    pub phase: ArbiterPhase,
    pub outcome: Option<Result<(), SidecarError>>,
}

impl PortArbiter {
    /// A decided arbiter's bookkeeping is consistent.
    pub open spec fn wf(self) -> bool {
        (self.phase is Finished) <==> (self.outcome is Some)
    }

    /// How one fed scan takes the arbiter from `pre` to `post`, answering
    /// `act`.  The scan's meaning depends on the phase: occupants are
    /// classified on the first scan, survivors of the graceful signal are
    /// re-classified on the second, and the third must come back empty.
    pub open spec fn step_rel(
        pre: PortArbiter,
        scan: Result<Vec<ListenerInfo>, String>,
        post: PortArbiter,
        act: ArbiterAction,
    ) -> bool {
        &&& post.port == pre.port
        &&& post.marker_path == pre.marker_path
        &&& (scan matches Err(detail) ==> (!(pre.phase is Finished) ==> {
            &&& post.phase is Finished
            &&& (post.outcome matches Some(r) && r matches Err(e) && e matches
                SidecarError::ListenerQueryFailed { port, detail: d } && port == pre.port && d@
                == detail@)
            &&& act is Done
        }))
        &&& (scan matches Ok(infos) ==> {
            &&& (pre.phase is FirstScan ==> if infos@.len() == 0 {
                &&& post.phase is Finished
                &&& (post.outcome matches Some(r) && r is Ok)
                &&& act is Done
            } else if foreign_pids_of(infos@, pre.marker_path).len() > 0 {
                &&& post.phase is Finished
                &&& (post.outcome matches Some(r) && r matches Err(e) && e matches
                    SidecarError::PortInUse { port, pids } && port == pre.port && pids@
                    == foreign_pids_of(infos@, pre.marker_path))
                &&& act is Done
            } else {
                &&& post.phase is SecondScan
                &&& post.outcome is None
                &&& (act matches ArbiterAction::TermAndWait { pids } && pids@ == own_pids_of(
                    infos@,
                    pre.marker_path,
                ))
            })
            &&& (pre.phase is SecondScan ==> {
                &&& post.phase is ThirdScan
                &&& post.outcome is None
                &&& (act matches ArbiterAction::KillAndWait { pids } && pids@ == own_pids_of(
                    infos@,
                    pre.marker_path,
                ))
            })
            &&& (pre.phase is ThirdScan ==> if infos@.len() == 0 {
                &&& post.phase is Finished
                &&& (post.outcome matches Some(r) && r is Ok)
                &&& act is Done
            } else {
                &&& post.phase is Finished
                &&& (post.outcome matches Some(r) && r matches Err(e) && e matches
                    SidecarError::PortReleaseFailed { port, pids } && port == pre.port && pids@
                    == all_pids_of(infos@))
                &&& act is Done
            })
        })
        &&& (pre.phase is Finished ==> post == pre && act is Done)
    }

    /// Feeds one enumeration result and answers what to do next.
    pub fn feed_scan(&mut self, scan: Result<Vec<ListenerInfo>, String>) -> (act: ArbiterAction)
        requires
            old(self).wf(),
        ensures
            final(self).wf(),
            PortArbiter::step_rel(*old(self), scan, *final(self), act),
    {
        match self.phase {
            ArbiterPhase::Finished => {
                return ArbiterAction::Done;
            },
            _ => {},
        }
        match scan {
            Err(detail) => {
                self.phase = ArbiterPhase::Finished;
                self.outcome = Some(
                    Err(SidecarError::ListenerQueryFailed { port: self.port, detail }),
                );
                ArbiterAction::Done
            },
            Ok(infos) => {
                match self.phase {
                    ArbiterPhase::FirstScan => {
                        if infos.len() == 0 {
                            self.phase = ArbiterPhase::Finished;
                            self.outcome = Some(Ok(()));
                            ArbiterAction::Done
                        } else {
                            let (own, foreign) = classify_listeners(&infos, &self.marker_path);
                            if foreign.len() > 0 {
                                self.phase = ArbiterPhase::Finished;
                                self.outcome = Some(
                                    Err(
                                        SidecarError::PortInUse {
                                            port: self.port,
                                            pids: foreign,
                                        },
                                    ),
                                );
                                ArbiterAction::Done
                            } else {
                                self.phase = ArbiterPhase::SecondScan;
                                ArbiterAction::TermAndWait { pids: own }
                            }
                        }
                    },
                    ArbiterPhase::SecondScan => {
                        let (own, _foreign) = classify_listeners(&infos, &self.marker_path);
                        self.phase = ArbiterPhase::ThirdScan;
                        ArbiterAction::KillAndWait { pids: own }
                    },
                    ArbiterPhase::ThirdScan => {
                        if infos.len() == 0 {
                            self.phase = ArbiterPhase::Finished;
                            self.outcome = Some(Ok(()));
                            ArbiterAction::Done
                        } else {
                            let pids = collect_pids(&infos);
                            self.phase = ArbiterPhase::Finished;
                            self.outcome = Some(
                                Err(SidecarError::PortReleaseFailed { port: self.port, pids }),
                            );
                            ArbiterAction::Done
                        }
                    },
                    ArbiterPhase::Finished => ArbiterAction::Done,
                }
            },
        }
    }
}

/// Every pid of a scan, in order.
pub open spec fn all_pids_of(infos: Seq<ListenerInfo>) -> Seq<u32>
    decreases infos.len(),
{
    if infos.len() == 0 {
        Seq::empty()
    } else {
        all_pids_of(infos.drop_last()).push(infos.last().pid)
    }
}

/// Collects every pid of a scan, in order.
fn collect_pids(infos: &Vec<ListenerInfo>) -> (r: Vec<u32>)
    ensures
        r@ == all_pids_of(infos@),
{
    let mut r: Vec<u32> = Vec::new();
    let mut i: usize = 0;
    while i < infos.len()
        invariant
            i <= infos@.len(),
            r@ == all_pids_of(infos@.subrange(0, i as int)),
        decreases infos@.len() - i,
    {
        proof {
            assert(infos@.subrange(0, i as int + 1).drop_last() =~= infos@.subrange(0, i as int));
            assert(infos@.subrange(0, i as int + 1).last() == infos@[i as int]);
        }
        r.push(infos[i].pid);
        i = i + 1;
    }
    proof {
        assert(infos@.subrange(0, infos@.len() as int) =~= infos@);
    }
    r
}

/// Begins the reclamation of the port for a new instance.  `marker_path` is
/// the data-directory marker that identifies this system's own processes,
/// when the caller has one.  The caller performs each returned action and
/// feeds every enumeration back through `feed_scan`.
pub fn cleanup_stale_kiro2api_on_port(port: u16, marker_path: Option<String>) -> (r: (
    PortArbiter,
    ArbiterAction,
))
    ensures
        r.0.wf(),
        r.0.port == port,
        r.0.marker_path == marker_path,
        r.0.phase is FirstScan,
        r.0.outcome is None,
        r.1 is Scan,
{
    (
        PortArbiter { port, marker_path, phase: ArbiterPhase::FirstScan, outcome: None },
        ArbiterAction::Scan,
    )
}

/// A foreign occupant of the port is fatal and untouched: when the first
/// scan shows any listener that is not recognized as this system's own, the
/// arbitration finishes at once with `PortInUse` naming exactly the foreign
/// pids, and the answered action carries no pid to signal.
pub proof fn lemma_foreign_occupant_is_fatal_and_untouched(
    pre: PortArbiter,
    infos: Vec<ListenerInfo>,
    post: PortArbiter,
    act: ArbiterAction,
)
    requires
        pre.phase is FirstScan,
        PortArbiter::step_rel(pre, Ok(infos), post, act),
        foreign_pids_of(infos@, pre.marker_path).len() > 0,
    ensures
        post.phase is Finished,
        post.outcome matches Some(r) && r matches Err(e) && e matches SidecarError::PortInUse {
            port,
            pids,
        } && port == pre.port && pids@ == foreign_pids_of(infos@, pre.marker_path),
        act is Done,
{
}

} // verus!
