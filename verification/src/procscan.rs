//! The compute half of process discovery: turning what the platform's
//! listener enumeration and command-line lookup printed into pids and
//! command lines.  Running those utilities is the embedding application's
//! business; deciding what their output means is this module's.

use vstd::prelude::*;
use crate::decnum::dec_value;
use crate::decnum::parse_u32_dec;
use crate::decnum::parses_u32;
use crate::strutil::trim_of;
use crate::strutil::trim_str;

verus! {

/// The position of the first line break, or the length when there is none.
pub open spec fn find_nl(s: Seq<char>) -> nat
    decreases s.len(),
{
    if s.len() == 0 {
        0
    } else if s[0] == '\n' {
        0
    } else {
        1 + find_nl(s.drop_first())
    }
}

/// `find_nl` names the first line break: nothing before it is one, and it is
/// one unless it is the end.
proof fn lemma_find_nl(s: Seq<char>)
    ensures
        find_nl(s) <= s.len(),
        forall|j: int| 0 <= j < find_nl(s) ==> s[j] != '\n',
        find_nl(s) < s.len() ==> s[find_nl(s) as int] == '\n',
    decreases s.len(),
{
    if s.len() > 0 && s[0] != '\n' {
        lemma_find_nl(s.drop_first());
        assert(forall|j: int| 0 <= j < find_nl(s.drop_first()) ==> s.drop_first()[j] != '\n');
        assert forall|j: int| 0 <= j < find_nl(s) implies s[j] != '\n' by {
            if j > 0 {
                assert(s.drop_first()[j - 1] == s[j]);
            }
        }
    }
}

/// The lines of a text, split at each line break.
pub open spec fn split_nl(s: Seq<char>) -> Seq<Seq<char>>
    decreases s.len(),
{
    let i = find_nl(s);
    if i >= s.len() {
        seq![s]
    } else {
        seq![s.subrange(0, i as int)] + split_nl(s.subrange(i as int + 1, s.len() as int))
    }
}

/// Splits a text at each line break.
pub fn split_lines(s: &str) -> (r: Vec<String>)
    ensures
        r@.len() == split_nl(s@).len(),
        forall|k: int| 0 <= k < r@.len() ==> (#[trigger] r@[k])@ == split_nl(s@)[k],
    decreases s@.len(),
{
    let n = s.unicode_len();
    let mut i: usize = 0;
    while i < n && s.get_char(i) != '\n'
        invariant
            n == s@.len(),
            i <= n,
            forall|j: int| 0 <= j < i ==> s@[j] != '\n',
        decreases n - i,
    {
        i = i + 1;
    }
    proof {
        lemma_find_nl(s@);
        assert(i == find_nl(s@));
    }
    if i == n {
        let mut r: Vec<String> = Vec::new();
        r.push(s.to_owned());
        return r;
    }
    let line = s.substring_char(0, i);
    let rest = s.substring_char(i + 1, n);
    let mut r: Vec<String> = Vec::new();
    r.push(line.to_owned());
    let tail = split_lines(rest);
    let mut k: usize = 0;
    while k < tail.len()
        invariant
            k <= tail@.len(),
            r@.len() == 1 + k,
            r@[0]@ == line@,
            line@ == s@.subrange(0, find_nl(s@) as int),
            rest@ == s@.subrange(find_nl(s@) as int + 1, s@.len() as int),
            tail@.len() == split_nl(rest@).len(),
            forall|j: int| 0 <= j < tail@.len() ==> (#[trigger] tail@[j])@ == split_nl(rest@)[j],
            forall|j: int| 0 <= j < k ==> (#[trigger] r@[j + 1])@ == split_nl(rest@)[j],
        decreases tail@.len() - k,
    {
        r.push(tail[k].clone());
        k = k + 1;
    }
    proof {
        assert(split_nl(s@) =~= seq![line@] + split_nl(rest@));
        assert forall|j: int| 0 <= j < r@.len() implies (#[trigger] r@[j])@ == split_nl(s@)[j] by {
            if j > 0 {
                assert(r@[(j - 1) + 1]@ == split_nl(rest@)[j - 1]);
            }
        }
    }
    r
}

/// The pids named by a text: one per line that, trimmed, is a decimal
/// number a `u32` can hold; every other line is ignored.
pub open spec fn pids_of_lines(lines: Seq<Seq<char>>) -> Seq<u32>
    decreases lines.len(),
{
    if lines.len() == 0 {
        Seq::empty()
    } else {
        let pre = pids_of_lines(lines.drop_last());
        let t = trim_of(lines.last());
        if parses_u32(t) {
            pre.push(dec_value(t) as u32)
        } else {
            pre
        }
    }
}

/// The pids of a listener enumeration's output.
pub open spec fn listener_pids_of(out: Seq<char>) -> Seq<u32> {
    pids_of_lines(split_nl(out))
}

/// Parses the pids out of a listener enumeration's output, one per line.
pub fn parse_pid_lines(stdout: &str) -> (r: Vec<u32>)
    ensures
        r@ == listener_pids_of(stdout@),
{
    let lines = split_lines(stdout);
    let ghost spec_lines = split_nl(stdout@);
    let ghost line_views = Seq::new(lines@.len() as nat, |k: int| lines@[k]@);
    proof {
        assert(line_views =~= spec_lines);
    }
    let mut r: Vec<u32> = Vec::new();
    let mut i: usize = 0;
    while i < lines.len()
        invariant
            lines@.len() == spec_lines.len(),
            line_views == spec_lines,
            line_views.len() == lines@.len(),
            forall|k: int| 0 <= k < lines@.len() ==> (#[trigger] lines@[k])@ == line_views[k],
            i <= lines@.len(),
            r@ == pids_of_lines(spec_lines.subrange(0, i as int)),
        decreases lines@.len() - i,
    {
        proof {
            assert(spec_lines.subrange(0, i as int + 1).drop_last() =~= spec_lines.subrange(
                0,
                i as int,
            ));
            assert(spec_lines.subrange(0, i as int + 1).last() == spec_lines[i as int]);
        }
        let t = trim_str(lines[i].as_str());
        if let Some(v) = parse_u32_dec(t) {
            r.push(v);
        }
        i = i + 1;
    }
    proof {
        assert(spec_lines.subrange(0, spec_lines.len() as int) =~= spec_lines);
    }
    r
}

/// Decides what a listener enumeration's exit reported: its printed pids on
/// success; no listeners at all when it exited with the no-matches code; and
/// its trimmed error text otherwise.
pub fn parse_listener_output(success: bool, exit_code: Option<i32>, stdout: &str, stderr: &str) -> (
    r: Result<Vec<u32>, String>)
    ensures
        success ==> (r matches Ok(pids) && pids@ == listener_pids_of(stdout@)),
        !success && (exit_code matches Some(c) && c == 1) ==> (r matches Ok(pids) && pids@.len()
            == 0),
        !success && !(exit_code matches Some(c) && c == 1) ==> (r matches Err(d) && d@ == trim_of(
            stderr@,
        )),
{
    if success {
        Ok(parse_pid_lines(stdout))
    } else {
        let is_no_match = match exit_code {
            Some(c) => c == 1,
            None => false,
        };
        if is_no_match {
            Ok(Vec::new())
        } else {
            Err(trim_str(stderr).to_owned())
        }
    }
}

/// Decides what a command-line lookup reported: the trimmed command line on
/// success, nothing otherwise.
pub fn parse_cmdline_output(success: bool, stdout: &str) -> (r: Option<String>)
    ensures
        success ==> (r matches Some(c) && c@ == trim_of(stdout@)),
        !success ==> r is None,
{
    if success {
        Some(trim_str(stdout).to_owned())
    } else {
        None
    }
}

} // verus!
