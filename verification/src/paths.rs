//! Construction of the filesystem paths the supervisor cares about: the
//! shared account store, the per-run data directory, and the ordered
//! candidate locations searched for the sidecar executable.

use vstd::prelude::*;
use crate::strutil::view_opt;

verus! {

/// Joining one path component onto a base with the POSIX separator.
pub open spec fn join_seq(base: Seq<char>, rest: Seq<char>) -> Seq<char> {
    base + "/"@ + rest
}

/// Joins `rest` onto `base` with a `/` separator.
pub fn path_join(base: &str, rest: &str) -> (r: String)
    ensures
        r@ == join_seq(base@, rest@),
{
    let mut s = base.to_owned();
    s.append("/");
    s.append(rest);
    assert(s@ =~= join_seq(base@, rest@));
    s
}

/// The shared account store under a given data-directory base.
pub open spec fn store_path_seq(base: Seq<char>) -> Seq<char> {
    join_seq(join_seq(base, ".kiro-account-manager"@), "accounts.json"@)
}

/// The default per-run data directory under a given data-directory base.
pub open spec fn runtime_dir_seq(base: Seq<char>) -> Seq<char> {
    join_seq(join_seq(base, ".kiro-account-manager"@), "kiro-rs"@)
}

/// Relies on `dirs::data_dir`: the platform's per-user data directory, as the
/// environment reports it.  Nothing is promised of the outcome; callers state
/// what holds whichever base comes back.
#[verifier::external_body]
pub(crate) fn platform_data_dir() -> (r: Option<String>) {
    dirs::data_dir().map(|p| p.to_string_lossy().into_owned())
}

/// The base a path is anchored at: the reported platform data directory
/// when there is one, the fallback otherwise.
pub open spec fn base_or(base: Option<String>, fallback: Seq<char>) -> Seq<char> {
    match base {
        Some(b) => b@,
        None => fallback,
    }
}

/// The shared account store's path under the reported base, falling back
/// when the platform reported none.
pub fn store_path_for(base: &Option<String>, fallback_base: &str) -> (r: String)
    ensures
        r@ == store_path_seq(base_or(*base, fallback_base@)),
{
    let b = match base {
        Some(b) => b.as_str(),
        None => fallback_base,
    };
    path_join(path_join(b, ".kiro-account-manager").as_str(), "accounts.json")
}

/// The default per-run data directory under the reported base, falling back
/// when the platform reported none.
pub fn runtime_dir_for(base: &Option<String>, fallback_base: &str) -> (r: String)
    ensures
        r@ == runtime_dir_seq(base_or(*base, fallback_base@)),
{
    let b = match base {
        Some(b) => b.as_str(),
        None => fallback_base,
    };
    path_join(path_join(b, ".kiro-account-manager").as_str(), "kiro-rs")
}

/// The path of the shared account store: anchored at the platform data
/// directory when one is reported, at `fallback_base` otherwise.  Which base
/// the environment reports cannot be stated here; `store_path_for` pins the
/// choice for every possible report.
pub fn account_store_path(fallback_base: &str) -> (r: String)
    ensures
        exists|b: Seq<char>| r@ == #[trigger] store_path_seq(b),
{
    let base = platform_data_dir();
    let r = store_path_for(&base, fallback_base);
    proof {
        assert(r@ == store_path_seq(base_or(base, fallback_base@)));
    }
    r
}

/// The default data directory for a run: anchored at the platform data
/// directory when one is reported, at `fallback_base` otherwise.  As with
/// the store path, `runtime_dir_for` pins the choice for every report.
pub fn default_runtime_data_dir(fallback_base: &str) -> (r: String)
    ensures
        exists|b: Seq<char>| r@ == #[trigger] runtime_dir_seq(b),
{
    let base = platform_data_dir();
    let r = runtime_dir_for(&base, fallback_base);
    proof {
        assert(r@ == runtime_dir_seq(base_or(base, fallback_base@)));
    }
    r
}

/// One candidate per directory of the search path, each joined with `name`.
pub fn command_in_path_candidates(name: &str, path_dirs: &Vec<String>) -> (r: Vec<String>)
    ensures
        r@.len() == path_dirs@.len(),
        forall|i: int|
            0 <= i < r@.len() ==> (#[trigger] r@[i])@ == join_seq(path_dirs@[i]@, name@),
{
    let mut r: Vec<String> = Vec::new();
    let mut i: usize = 0;
    while i < path_dirs.len()
        invariant
            i <= path_dirs@.len(),
            r@.len() == i,
            forall|j: int|
                0 <= j < i ==> (#[trigger] r@[j])@ == join_seq(path_dirs@[j]@, name@),
        decreases path_dirs@.len() - i,
    {
        r.push(path_join(path_dirs[i].as_str(), name));
        i = i + 1;
    }
    r
}

/// The base directories in which a bundled sidecar is looked for, in order:
/// the application resource directory when known, then the executable's own
/// directory and its conventional resource subdirectories.
pub open spec fn resource_dir_candidates_seq(
    resource_dir: Option<Seq<char>>,
    exe_dir: Option<Seq<char>>,
) -> Seq<Seq<char>> {
    (match resource_dir {
        Some(d) => seq![d],
        None => Seq::empty(),
    }) + (match exe_dir {
        Some(e) => seq![e, join_seq(e, "../Resources"@), join_seq(e, "resources"@)],
        None => Seq::empty(),
    })
}

/// Builds the resource-directory bases from what the environment reported:
/// the application resource directory and the running executable's directory.
pub fn resource_dir_candidates(resource_dir: &Option<String>, exe_dir: &Option<String>) -> (r: Vec<
    String,
>)
    ensures
        r.deep_view() == resource_dir_candidates_seq(view_opt(*resource_dir), view_opt(*exe_dir)),
{
    let mut r: Vec<String> = Vec::new();
    if let Some(d) = resource_dir {
        r.push(d.clone());
    }
    if let Some(e) = exe_dir {
        r.push(e.clone());
        r.push(path_join(e.as_str(), "../Resources"));
        r.push(path_join(e.as_str(), "resources"));
    }
    proof {
        assert(r.deep_view() =~= resource_dir_candidates_seq(
            view_opt(*resource_dir),
            view_opt(*exe_dir),
        ));
    }
    r
}

/// The relocatable layout of the bundled sidecar inside a resource directory.
pub open spec fn bundled_for_base(base: Seq<char>) -> Seq<Seq<char>> {
    seq![
        join_seq(base, "offline/kiro-rs/darwin-aarch64/kiro-rs"@),
        join_seq(base, "offline/kiro-rs/kiro-rs"@),
        join_seq(base, "kiro-rs"@),
        join_seq(base, "resources/offline/kiro-rs/darwin-aarch64/kiro-rs"@),
    ]
}

/// Every bundled candidate, four per resource base, in base order.
pub fn bundled_runtime_candidates(bases: &Vec<String>) -> (r: Vec<String>)
    ensures
        r@.len() == 4 * bases@.len(),
        forall|i: int|
            0 <= i < bases@.len() ==> r.deep_view().subrange(4 * i, 4 * i + 4) =~= bundled_for_base(
                (#[trigger] bases@[i])@,
            ),
{
    let mut r: Vec<String> = Vec::new();
    let mut i: usize = 0;
    while i < bases.len()
        invariant
            i <= bases@.len(),
            r@.len() == 4 * i,
            forall|j: int|
                0 <= j < i ==> r.deep_view().subrange(4 * j, 4 * j + 4) =~= bundled_for_base(
                    (#[trigger] bases@[j])@,
                ),
        decreases bases@.len() - i,
    {
        let base = bases[i].as_str();
        r.push(path_join(base, "offline/kiro-rs/darwin-aarch64/kiro-rs"));
        r.push(path_join(base, "offline/kiro-rs/kiro-rs"));
        r.push(path_join(base, "kiro-rs"));
        r.push(path_join(base, "resources/offline/kiro-rs/darwin-aarch64/kiro-rs"));
        i = i + 1;
    }
    r
}

/// The system-wide candidates: every directory of the search path joined with
/// the sidecar's command name, then the well-known install prefixes.
pub fn system_runtime_candidates(path_dirs: &Vec<String>) -> (r: Vec<String>)
    ensures
        r@.len() == path_dirs@.len() + 3,
        forall|i: int|
            0 <= i < path_dirs@.len() ==> (#[trigger] r@[i])@ == join_seq(
                path_dirs@[i]@,
                "kiro-rs"@,
            ),
        r@[path_dirs@.len() as int]@ == "/opt/homebrew/bin/kiro-rs"@,
        r@[path_dirs@.len() as int + 1]@ == "/usr/local/bin/kiro-rs"@,
        r@[path_dirs@.len() as int + 2]@ == "/usr/bin/kiro-rs"@,
{
    let mut r = command_in_path_candidates("kiro-rs", path_dirs);
    r.push("/opt/homebrew/bin/kiro-rs".to_owned());
    r.push("/usr/local/bin/kiro-rs".to_owned());
    r.push("/usr/bin/kiro-rs".to_owned());
    r
}

/// The conventional places inside an explicit override directory where the
/// sidecar executable may sit.
pub open spec fn custom_sub_candidates_seq(path: Seq<char>) -> Seq<Seq<char>> {
    seq![
        join_seq(path, "kiro-rs"@),
        join_seq(path, "target/release/kiro-rs"@),
        join_seq(path, "target/debug/kiro-rs"@),
        join_seq(path, "bin/kiro-rs"@),
    ]
}

/// Builds the sub-candidates probed when the override path is a directory.
pub fn custom_sub_candidates(path: &str) -> (r: Vec<String>)
    ensures
        r.deep_view() == custom_sub_candidates_seq(path@),
{
    let mut r: Vec<String> = Vec::new();
    r.push(path_join(path, "kiro-rs"));
    r.push(path_join(path, "target/release/kiro-rs"));
    r.push(path_join(path, "target/debug/kiro-rs"));
    r.push(path_join(path, "bin/kiro-rs"));
    proof {
        assert(r.deep_view() =~= custom_sub_candidates_seq(path@));
    }
    r
}

} // verus!
