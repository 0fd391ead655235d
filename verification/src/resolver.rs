//! The binary/runtime resolver: finds exactly one usable sidecar executable,
//! first under an explicit override path, then among the bundled resource
//! locations, last on the system search path and well-known prefixes.
//!
//! The resolver is a state machine.  It never touches the filesystem itself:
//! it answers, one at a time, which path the embedding application should
//! probe, and the application feeds each observation back.  The first
//! candidate observed to be a file wins, and every path that was consulted
//! is recorded for the failure report.

use vstd::prelude::*;
use crate::errors::SidecarError;
use crate::paths::bundled_for_base;
use crate::paths::bundled_runtime_candidates;
use crate::paths::custom_sub_candidates;
use crate::paths::custom_sub_candidates_seq;
use crate::paths::join_seq;
use crate::paths::path_join;
use crate::paths::system_runtime_candidates;
use crate::strutil::clone_opt;
use crate::strutil::clone_strings;
use crate::strutil::norm_opt;
use crate::strutil::norm_opt_spec;
use crate::strutil::view_opt;

verus! {

/// What a filesystem stat reported of a path.
#[derive(Clone, Copy, Debug, PartialEq, Eq, Structural)]
pub enum PathKind {
    /// An existing regular file.
    File,
    /// An existing directory.
    Dir,
    /// Nothing usable at that path.
    Missing,
}

/// Where the resolver stands: which observation it is waiting for.
#[derive(Clone, Copy, Debug, PartialEq, Eq, Structural)]
pub enum ResolvePhase {
    /// Waiting to hear whether the override directory looks like the legacy
    /// interpreter project.
    CustomLegacy,
    /// Waiting for the stat of the override path itself.
    CustomSelf,
    /// The override path is a directory; waiting for the file flags of its
    /// conventional sub-candidates.
    CustomSubs,
    /// Waiting for the file flag of the `i`-th bundled candidate.
    Bundled { i: usize },
    /// Waiting for the file flag of the `i`-th system candidate.
    System { i: usize },
    /// The resolution is decided; `outcome` holds the result.
    Done,
}

/// What the embedding application must probe next.
#[derive(Clone, Debug)]
pub enum ProbeRequest {
    /// Report whether each of the two marker files of a legacy interpreter
    /// project exists under the override directory.
    LegacyPair { package_json: String, index_js: String },
    /// Report what kind of filesystem object sits at `path`.
    StatPath { path: String },
    /// Report, for each path in order, whether it is an existing file.
    FileFlags { paths: Vec<String> },
    /// Report whether `path` is an existing file.
    CheckFile { path: String },
    /// Nothing remains to be probed; read the outcome.
    Settled,
}

/// One observation, answering the matching request.
#[derive(Clone, Debug)]
pub enum ProbeEvent {
    LegacyPair { package_json: bool, index_js: bool },
    StatPath { kind: PathKind },
    FileFlags { flags: Vec<bool> },
    CheckFile { is_file: bool },
}

/// An explicit override directory is the abandoned legacy layout when both
/// marker files are present; such a directory is reported, not launched.
pub fn looks_like_legacy_node_project(package_json_exists: bool, index_js_exists: bool) -> (r:
    bool)
    ensures
        r == (package_json_exists && index_js_exists),
{
    package_json_exists && index_js_exists
}

/// Decides the permission repair for a resolved executable: when the mode
/// has no execute bit at all, the mode to install instead — owner, group and
/// other execute bits added; when some execute bit is set, nothing need be
/// done.  Applying the returned mode is the caller's side; applying it twice
/// is harmless, since the repaired mode has execute bits set.
pub fn ensure_executable(mode: u32) -> (r: Option<u32>)
    ensures
        mode & 0o111 == 0 ==> r == Some(mode | 0o755),
        mode & 0o111 != 0 ==> r is None,
{
    if mode & 0o111 == 0 {
        Some(mode | 0o755)
    } else {
        None
    }
}

/// The first candidate whose flag is set, scanning in order.
pub open spec fn first_file_hit(cands: Seq<Seq<char>>, flags: Seq<bool>) -> Option<Seq<char>>
    decreases flags.len(),
{
    if flags.len() == 0 {
        None
    } else {
        let pre = first_file_hit(cands.drop_last(), flags.drop_last());
        if pre is Some {
            pre
        } else if flags.last() && flags.len() <= cands.len() {
            Some(cands[flags.len() - 1])
        } else {
            None
        }
    }
}

/// Resolves an explicit override path from its stat and, when it is a
/// directory, the file flags of its four conventional sub-candidates: the
/// path itself when it is a file, else the first existing sub-candidate.
pub fn resolve_custom_runtime_path(path: &str, self_kind: PathKind, sub_file_flags: &Vec<bool>) -> (
    r: Option<String>)
    requires
        sub_file_flags@.len() == 4,
    ensures
        self_kind is File ==> (r matches Some(p) && p@ == path@),
        self_kind is Dir ==> view_opt(r) == first_file_hit(
            custom_sub_candidates_seq(path@),
            sub_file_flags@,
        ),
        self_kind is Missing ==> r is None,
{
    match self_kind {
        PathKind::File => Some(path.to_owned()),
        PathKind::Missing => None,
        PathKind::Dir => {
            let cands = custom_sub_candidates(path);
            let mut hit: Option<String> = None;
            let mut i: usize = 0;
            while i < 4
                invariant
                    i <= 4,
                    sub_file_flags@.len() == 4,
                    cands.deep_view() == custom_sub_candidates_seq(path@),
                    cands@.len() == 4,
                    view_opt(hit) == first_file_hit(
                        cands.deep_view(),
                        sub_file_flags@.subrange(0, i as int),
                    ),
                decreases 4 - i,
            {
                proof {
                    assert(sub_file_flags@.subrange(0, i as int + 1).drop_last()
                        =~= sub_file_flags@.subrange(0, i as int));
                    assert(first_file_hit(
                        cands.deep_view().drop_last(),
                        sub_file_flags@.subrange(0, i as int),
                    ) == first_file_hit(cands.deep_view(), sub_file_flags@.subrange(0, i as int)))
                        by {
                        lemma_first_file_hit_cands_extend(
                            cands.deep_view(),
                            sub_file_flags@.subrange(0, i as int),
                        );
                    }
                }
                if hit.is_none() && sub_file_flags[i] {
                    hit = Some(cands[i].clone());
                }
                i = i + 1;
            }
            proof {
                assert(sub_file_flags@.subrange(0, 4) =~= sub_file_flags@);
            }
            hit
        },
    }
}

/// Shortening the candidate list from the back past the flag list does not
/// change the first hit.
proof fn lemma_first_file_hit_cands_extend(cands: Seq<Seq<char>>, flags: Seq<bool>)
    requires
        flags.len() < cands.len(),
    ensures
        first_file_hit(cands.drop_last(), flags) == first_file_hit(cands, flags),
    decreases flags.len(),
{
    if flags.len() > 0 {
        lemma_first_file_hit_cands_extend(cands.drop_last(), flags.drop_last());
        lemma_first_file_hit_cands_extend(cands, flags.drop_last());
        assert(cands.drop_last()[flags.len() - 1] == cands[flags.len() - 1]);
    }
}

/// The runtime resolver's state.
pub struct RuntimeResolver {
    /// The trimmed override path, when one was given and non-empty.
    pub custom: Option<String>,
    /// The override's four conventional sub-candidates.
    pub subs: Vec<String>,
    /// The bundled candidates, four per resource base.
    pub bundled: Vec<String>,
    /// The system candidates: search path, then well-known prefixes.
    pub system: Vec<String>,
    pub phase: ResolvePhase,
    /// Every path consulted so far, in order, for the failure report.
    pub checked: Vec<String>,
    /// The override's failure, kept for the aggregate error while the later
    /// stages run.
    pub custom_error: Option<String>,
    pub outcome: Option<Result<String, SidecarError>>,
}

/// The override path's characters; meaningful in the custom phases.
pub open spec fn custom_seq(r: RuntimeResolver) -> Seq<char> {
    match r.custom {
        Some(c) => c@,
        None => Seq::empty(),
    }
}

/// `new` extends `old` by exactly the path `p`.
pub open spec fn pushed_path(old: Seq<String>, new: Seq<String>, p: Seq<char>) -> bool {
    &&& new.len() == old.len() + 1
    &&& new.subrange(0, old.len() as int) == old
    &&& new.last()@ == p
}

impl RuntimeResolver {
    /// The resolver's bookkeeping is consistent with its phase.
    pub open spec fn wf(self) -> bool {
        &&& ((self.phase is CustomLegacy || self.phase is CustomSelf || self.phase is CustomSubs)
            ==> (self.custom is Some && self.subs.deep_view() == custom_sub_candidates_seq(
            custom_seq(self),
        )))
        &&& (self.phase matches ResolvePhase::Bundled { i } ==> i < self.bundled@.len())
        &&& (self.phase matches ResolvePhase::System { i } ==> i < self.system@.len())
        &&& self.system@.len() >= 3
        &&& ((self.phase is Done) <==> (self.outcome is Some))
    }

    /// Which phase a miss of the last custom stage hands over to: the first
    /// bundled candidate when there is one, else the first system candidate.
    pub open spec fn after_custom(self) -> ResolvePhase {
        if self.bundled@.len() > 0 {
            ResolvePhase::Bundled { i: 0 }
        } else {
            ResolvePhase::System { i: 0 }
        }
    }

    /// The candidate lists and the override never change across a step.
    pub open spec fn same_inputs(pre: RuntimeResolver, post: RuntimeResolver) -> bool {
        &&& post.custom == pre.custom
        &&& post.subs == pre.subs
        &&& post.bundled == pre.bundled
        &&& post.system == pre.system
    }

    /// Whether `ev` answers what the phase of `pre` is waiting for.
    pub open spec fn event_fits(pre: RuntimeResolver, ev: ProbeEvent) -> bool {
        match pre.phase {
            ResolvePhase::CustomLegacy => ev is LegacyPair,
            ResolvePhase::CustomSelf => ev is StatPath,
            ResolvePhase::CustomSubs => ev matches ProbeEvent::FileFlags { flags } && flags@.len()
                == 4,
            ResolvePhase::Bundled { .. } => ev is CheckFile,
            ResolvePhase::System { .. } => ev is CheckFile,
            ResolvePhase::Done => false,
        }
    }

    /// Whether `req` asks exactly what the phase of `r` is waiting for.
    pub open spec fn request_matches(r: RuntimeResolver, req: ProbeRequest) -> bool {
        match r.phase {
            ResolvePhase::CustomLegacy => req matches ProbeRequest::LegacyPair {
                package_json,
                index_js,
            } && package_json@ == join_seq(custom_seq(r), "package.json"@) && index_js@ == join_seq(
                custom_seq(r),
                "src/index.js"@,
            ),
            ResolvePhase::CustomSelf => req matches ProbeRequest::StatPath { path } && path@
                == custom_seq(r),
            ResolvePhase::CustomSubs => req matches ProbeRequest::FileFlags { paths }
                && paths.deep_view() == custom_sub_candidates_seq(custom_seq(r)),
            ResolvePhase::Bundled { i } => req matches ProbeRequest::CheckFile { path } && path@
                == r.bundled@[i as int]@,
            ResolvePhase::System { i } => req matches ProbeRequest::CheckFile { path } && path@
                == r.system@[i as int]@,
            ResolvePhase::Done => req is Settled,
        }
    }

    /// How one observation takes the resolver from `pre` to `post`.
    pub open spec fn step_rel(pre: RuntimeResolver, ev: ProbeEvent, post: RuntimeResolver) -> bool {
        &&& RuntimeResolver::same_inputs(pre, post)
        &&& (pre.phase is CustomLegacy ==> (ev matches ProbeEvent::LegacyPair {
            package_json,
            index_js,
        } ==> if package_json && index_js {
            &&& post.phase == pre.after_custom()
            &&& (post.custom_error matches Some(m) && m@
                == "legacy Node project path is no longer used by default runtime: "@ + custom_seq(
                pre,
            ))
            &&& post.checked == pre.checked
            &&& post.outcome is None
        } else {
            &&& post.phase is CustomSelf
            &&& post.custom_error == pre.custom_error
            &&& post.checked == pre.checked
            &&& post.outcome is None
        }))
        &&& (pre.phase is CustomSelf ==> (ev matches ProbeEvent::StatPath { kind } ==> match kind {
            PathKind::File => {
                &&& post.phase is Done
                &&& pushed_path(pre.checked@, post.checked@, custom_seq(pre))
                &&& (post.outcome matches Some(o) && o matches Ok(p) && p@ == custom_seq(pre))
                &&& post.custom_error == pre.custom_error
            },
            PathKind::Dir => {
                &&& post.phase is CustomSubs
                &&& post.checked == pre.checked
                &&& post.custom_error == pre.custom_error
                &&& post.outcome is None
            },
            PathKind::Missing => {
                &&& post.phase == pre.after_custom()
                &&& pushed_path(pre.checked@, post.checked@, custom_seq(pre))
                &&& (post.custom_error matches Some(m) && m@
                    == "runtime path not found or invalid: "@ + custom_seq(pre))
                &&& post.outcome is None
            },
        }))
        &&& (pre.phase is CustomSubs ==> (ev matches ProbeEvent::FileFlags { flags }
            ==> match first_file_hit(custom_sub_candidates_seq(custom_seq(pre)), flags@) {
            Some(hit) => {
                &&& post.phase is Done
                &&& pushed_path(pre.checked@, post.checked@, hit)
                &&& (post.outcome matches Some(o) && o matches Ok(p) && p@ == hit)
                &&& post.custom_error == pre.custom_error
            },
            None => {
                &&& post.phase == pre.after_custom()
                &&& pushed_path(pre.checked@, post.checked@, custom_seq(pre))
                &&& (post.custom_error matches Some(m) && m@
                    == "runtime path not found or invalid: "@ + custom_seq(pre))
                &&& post.outcome is None
            },
        }))
        &&& (pre.phase matches ResolvePhase::Bundled { i } ==> (ev matches ProbeEvent::CheckFile {
            is_file,
        } ==> {
            &&& pushed_path(pre.checked@, post.checked@, pre.bundled@[i as int]@)
            &&& post.custom_error == pre.custom_error
            &&& (if is_file {
                &&& post.phase is Done
                &&& (post.outcome matches Some(o) && o matches Ok(p) && p@
                    == pre.bundled@[i as int]@)
            } else if i + 1 < pre.bundled@.len() {
                &&& post.phase == (ResolvePhase::Bundled { i: (i + 1) as usize })
                &&& post.outcome is None
            } else {
                &&& post.phase == (ResolvePhase::System { i: 0 })
                &&& post.outcome is None
            })
        }))
        &&& (pre.phase matches ResolvePhase::System { i } ==> (ev matches ProbeEvent::CheckFile {
            is_file,
        } ==> {
            &&& pushed_path(pre.checked@, post.checked@, pre.system@[i as int]@)
            &&& post.custom_error == pre.custom_error
            &&& (if is_file {
                &&& post.phase is Done
                &&& (post.outcome matches Some(o) && o matches Ok(p) && p@
                    == pre.system@[i as int]@)
            } else if i + 1 < pre.system@.len() {
                &&& post.phase == (ResolvePhase::System { i: (i + 1) as usize })
                &&& post.outcome is None
            } else {
                &&& post.phase is Done
                &&& (post.outcome matches Some(o) && o matches Err(e) && e matches
                    SidecarError::RuntimeNotFound { custom_error, checked } && view_opt(
                    custom_error,
                ) == view_opt(pre.custom_error) && checked.deep_view() == post.checked.deep_view())
            })
        }))
    }

    /// Builds the probe request the current phase is waiting for.
    pub fn next_probe(&self) -> (req: ProbeRequest)
        requires
            self.wf(),
        ensures
            RuntimeResolver::request_matches(*self, req),
    {
        match self.phase {
            ResolvePhase::CustomLegacy => {
                let c = match &self.custom {
                    Some(c) => c,
                    None => {
                        proof {
                            assert(false);
                        }
                        return ProbeRequest::Settled;
                    },
                };
                ProbeRequest::LegacyPair {
                    package_json: path_join(c.as_str(), "package.json"),
                    index_js: path_join(c.as_str(), "src/index.js"),
                }
            },
            ResolvePhase::CustomSelf => {
                let c = match &self.custom {
                    Some(c) => c,
                    None => {
                        proof {
                            assert(false);
                        }
                        return ProbeRequest::Settled;
                    },
                };
                ProbeRequest::StatPath { path: c.clone() }
            },
            ResolvePhase::CustomSubs => {
                ProbeRequest::FileFlags { paths: clone_strings(&self.subs) }
            },
            ResolvePhase::Bundled { i } => {
                ProbeRequest::CheckFile { path: self.bundled[i].clone() }
            },
            ResolvePhase::System { i } => ProbeRequest::CheckFile {
                path: self.system[i].clone(),
            },
            ResolvePhase::Done => ProbeRequest::Settled,
        }
    }

    /// Feeds one observation and answers what to probe next.
    pub fn step(&mut self, ev: &ProbeEvent) -> (req: ProbeRequest)
        requires
            old(self).wf(),
            RuntimeResolver::event_fits(*old(self), *ev),
        ensures
            final(self).wf(),
            RuntimeResolver::step_rel(*old(self), *ev, *final(self)),
            RuntimeResolver::request_matches(*final(self), req),
    {
        match self.phase {
            ResolvePhase::CustomLegacy => {
                let (p, ij) = match ev {
                    ProbeEvent::LegacyPair { package_json, index_js } => (*package_json, *index_js),
                    _ => {
                        proof {
                            assert(false);
                        }
                        return ProbeRequest::Settled;
                    },
                };
                if looks_like_legacy_node_project(p, ij) {
                    let c = match &self.custom {
                        Some(c) => c,
                        None => {
                            proof {
                                assert(false);
                            }
                            return ProbeRequest::Settled;
                        },
                    };
                    let mut msg =
                        "legacy Node project path is no longer used by default runtime: ".to_owned(
                    );
                    msg.append(c.as_str());
                    self.custom_error = Some(msg);
                    self.advance_after_custom();
                } else {
                    self.phase = ResolvePhase::CustomSelf;
                }
                self.next_probe()
            },
            ResolvePhase::CustomSelf => {
                let kind = match ev {
                    ProbeEvent::StatPath { kind } => *kind,
                    _ => {
                        proof {
                            assert(false);
                        }
                        return ProbeRequest::Settled;
                    },
                };
                let c = match &self.custom {
                    Some(c) => c.clone(),
                    None => {
                        proof {
                            assert(false);
                        }
                        return ProbeRequest::Settled;
                    },
                };
                match kind {
                    PathKind::File => {
                        self.checked.push(c.clone());
                        proof {
                            assert(self.checked@.subrange(0, old(self).checked@.len() as int)
                                =~= old(self).checked@);
                        }
                        self.outcome = Some(Ok(c));
                        self.phase = ResolvePhase::Done;
                    },
                    PathKind::Dir => {
                        self.phase = ResolvePhase::CustomSubs;
                    },
                    PathKind::Missing => {
                        let mut msg = "runtime path not found or invalid: ".to_owned();
                        msg.append(c.as_str());
                        self.custom_error = Some(msg);
                        self.checked.push(c);
                        proof {
                            assert(self.checked@.subrange(0, old(self).checked@.len() as int)
                                =~= old(self).checked@);
                        }
                        self.advance_after_custom();
                    },
                }
                self.next_probe()
            },
            ResolvePhase::CustomSubs => {
                let flags = match ev {
                    ProbeEvent::FileFlags { flags } => flags,
                    _ => {
                        proof {
                            assert(false);
                        }
                        return ProbeRequest::Settled;
                    },
                };
                let c = match &self.custom {
                    Some(c) => c.clone(),
                    None => {
                        proof {
                            assert(false);
                        }
                        return ProbeRequest::Settled;
                    },
                };
                match resolve_custom_runtime_path(c.as_str(), PathKind::Dir, flags) {
                    Some(hit) => {
                        self.checked.push(hit.clone());
                        proof {
                            assert(self.checked@.subrange(0, old(self).checked@.len() as int)
                                =~= old(self).checked@);
                        }
                        self.outcome = Some(Ok(hit));
                        self.phase = ResolvePhase::Done;
                    },
                    None => {
                        let mut msg = "runtime path not found or invalid: ".to_owned();
                        msg.append(c.as_str());
                        self.custom_error = Some(msg);
                        self.checked.push(c);
                        proof {
                            assert(self.checked@.subrange(0, old(self).checked@.len() as int)
                                =~= old(self).checked@);
                        }
                        self.advance_after_custom();
                    },
                }
                self.next_probe()
            },
            ResolvePhase::Bundled { i } => {
                let is_file = match ev {
                    ProbeEvent::CheckFile { is_file } => *is_file,
                    _ => {
                        proof {
                            assert(false);
                        }
                        return ProbeRequest::Settled;
                    },
                };
                let n = self.bundled.len();
                proof {
                    assert(i < self.bundled@.len());
                }
                let cand = self.bundled[i].clone();
                self.checked.push(cand.clone());
                proof {
                    assert(self.checked@.subrange(0, old(self).checked@.len() as int) =~= old(
                        self,
                    ).checked@);
                }
                if is_file {
                    self.outcome = Some(Ok(cand));
                    self.phase = ResolvePhase::Done;
                } else if i + 1 < n {
                    self.phase = ResolvePhase::Bundled { i: i + 1 };
                } else {
                    self.phase = ResolvePhase::System { i: 0 };
                }
                self.next_probe()
            },
            ResolvePhase::System { i } => {
                let is_file = match ev {
                    ProbeEvent::CheckFile { is_file } => *is_file,
                    _ => {
                        proof {
                            assert(false);
                        }
                        return ProbeRequest::Settled;
                    },
                };
                let n = self.system.len();
                proof {
                    assert(i < self.system@.len());
                }
                let cand = self.system[i].clone();
                self.checked.push(cand.clone());
                proof {
                    assert(self.checked@.subrange(0, old(self).checked@.len() as int) =~= old(
                        self,
                    ).checked@);
                }
                if is_file {
                    self.outcome = Some(Ok(cand));
                    self.phase = ResolvePhase::Done;
                } else if i + 1 < n {
                    self.phase = ResolvePhase::System { i: i + 1 };
                } else {
                    let checked = clone_strings(&self.checked);
                    self.outcome = Some(
                        Err(
                            SidecarError::RuntimeNotFound {
                                custom_error: clone_opt(&self.custom_error),
                                checked,
                            },
                        ),
                    );
                    self.phase = ResolvePhase::Done;
                }
                self.next_probe()
            },
            ResolvePhase::Done => {
                proof {
                    assert(false);
                }
                ProbeRequest::Settled
            },
        }
    }

    /// Leaves the custom stage for the bundled or system stage.
    fn advance_after_custom(&mut self)
        requires
            old(self).system@.len() >= 3,
        ensures
            *final(self) == (RuntimeResolver { phase: old(self).after_custom(), ..*old(self) }),
    {
        if self.bundled.len() > 0 {
            self.phase = ResolvePhase::Bundled { i: 0 };
        } else {
            self.phase = ResolvePhase::System { i: 0 };
        }
    }
}

/// Starts a resolution: an explicit override path (ignored when empty or all
/// whitespace), the resource bases for the bundled search, and the split
/// system search path.  The caller performs each returned probe and feeds
/// the observation back through `step`.
pub fn resolve_runtime_binary(
    project_path: &Option<String>,
    bundled_bases: &Vec<String>,
    path_dirs: &Vec<String>,
) -> (r: (RuntimeResolver, ProbeRequest))
    ensures
        r.0.wf(),
        r.0.outcome is None,
        r.0.checked@.len() == 0,
        r.0.custom_error is None,
        view_opt(r.0.custom) == norm_opt_spec(*project_path),
        (r.0.custom is Some <==> norm_opt_spec(*project_path) is Some),
        (r.0.custom is Some ==> r.0.phase is CustomLegacy),
        (r.0.custom is None ==> r.0.phase == r.0.after_custom()),
        r.0.bundled@.len() == 4 * bundled_bases@.len(),
        forall|i: int|
            0 <= i < bundled_bases@.len() ==> r.0.bundled.deep_view().subrange(4 * i, 4 * i + 4)
                =~= bundled_for_base((#[trigger] bundled_bases@[i])@),
        r.0.system@.len() == path_dirs@.len() + 3,
        forall|i: int|
            0 <= i < path_dirs@.len() ==> (#[trigger] r.0.system@[i])@ == join_seq(
                path_dirs@[i]@,
                "kiro-rs"@,
            ),
        r.0.system@[path_dirs@.len() as int]@ == "/opt/homebrew/bin/kiro-rs"@,
        r.0.system@[path_dirs@.len() as int + 1]@ == "/usr/local/bin/kiro-rs"@,
        r.0.system@[path_dirs@.len() as int + 2]@ == "/usr/bin/kiro-rs"@,
        RuntimeResolver::request_matches(r.0, r.1),
{
    let custom = norm_opt(project_path);
    let subs = match &custom {
        Some(c) => custom_sub_candidates(c.as_str()),
        None => Vec::new(),
    };
    let bundled = bundled_runtime_candidates(bundled_bases);
    let system = system_runtime_candidates(path_dirs);
    let phase = match &custom {
        Some(_) => ResolvePhase::CustomLegacy,
        None => {
            if bundled.len() > 0 {
                ResolvePhase::Bundled { i: 0 }
            } else {
                ResolvePhase::System { i: 0 }
            }
        },
    };
    let resolver = RuntimeResolver {
        custom,
        subs,
        bundled,
        system,
        phase,
        checked: Vec::new(),
        custom_error: None,
        outcome: None,
    };
    let req = resolver.next_probe();
    (resolver, req)
}

/// An explicit override that resolves consults nothing else: from a fresh
/// resolver with an override, when the override directory is not the legacy
/// layout and the override path itself is a file, the resolution ends at
/// once with the override path, the requests in between concerned only the
/// override, and no bundled or system candidate was ever named.
pub proof fn lemma_override_hit_consults_nothing_else(
    r0: RuntimeResolver,
    req0: ProbeRequest,
    ev1: ProbeEvent,
    r1: RuntimeResolver,
    req1: ProbeRequest,
    ev2: ProbeEvent,
    r2: RuntimeResolver,
)
    requires
        r0.wf(),
        r0.phase is CustomLegacy,
        r0.checked@.len() == 0,
        RuntimeResolver::request_matches(r0, req0),
        ev1 matches ProbeEvent::LegacyPair { package_json, index_js } && !(package_json
            && index_js),
        RuntimeResolver::step_rel(r0, ev1, r1),
        RuntimeResolver::request_matches(r1, req1),
        ev2 matches ProbeEvent::StatPath { kind } && kind is File,
        RuntimeResolver::step_rel(r1, ev2, r2),
    ensures
        r2.phase is Done,
        r2.outcome matches Some(o) && o matches Ok(p) && p@ == custom_seq(r0),
        r2.checked@.len() == 1 && r2.checked@[0]@ == custom_seq(r0),
        req0 matches ProbeRequest::LegacyPair { package_json, index_js } && package_json@
            == join_seq(custom_seq(r0), "package.json"@) && index_js@ == join_seq(
            custom_seq(r0),
            "src/index.js"@,
        ),
        req1 matches ProbeRequest::StatPath { path } && path@ == custom_seq(r0),
{
    assert(r1.phase is CustomSelf);
    assert(r2.checked@ =~= r1.checked@.push(r2.checked@.last()));
}

} // verus!
