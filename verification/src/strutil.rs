//! String utilities shared by the whole crate: substring search, and trusted
//! shims for the std case-folding and trimming routines that the process
//! classifier and the credential normalizer depend on.

use vstd::prelude::*;

verus! {

/// True when `needle` occurs as a contiguous run of characters inside `hay`.
pub open spec fn contains_seq(hay: Seq<char>, needle: Seq<char>) -> bool {
    exists|i: int|
        0 <= i <= hay.len() - needle.len() && #[trigger] hay.subrange(
            i,
            i + needle.len() as int,
        ) == needle
}

/// What `str::to_lowercase` returns: a pure function of the characters alone.
pub uninterp spec fn lower_of(s: Seq<char>) -> Seq<char>;

/// What `str::trim` returns: the input without its leading and trailing
/// whitespace, a pure function of the characters alone.
pub uninterp spec fn trim_of(s: Seq<char>) -> Seq<char>;

/// Relies on `str::to_lowercase`: the result depends on the characters alone.
#[verifier::external_body]
pub(crate) fn lower_str(s: &str) -> (r: String)
    ensures
        r@ == lower_of(s@),
{
    s.to_lowercase()
}

/// Relies on `str::trim`: the result is the input without leading and
/// trailing whitespace, and depends on the characters alone.
#[verifier::external_body]
pub(crate) fn trim_str<'a>(s: &'a str) -> (r: &'a str)
    ensures
        r@ == trim_of(s@),
{
    s.trim()
}

/// Compares `needle` against `hay` at offset `i`.
fn match_at(hay: &str, needle: &str, i: usize, hlen: usize, nlen: usize) -> (r: bool)
    requires
        hlen == hay@.len(),
        nlen == needle@.len(),
        i + nlen <= hlen,
    ensures
        r == (hay@.subrange(i as int, i + nlen as int) == needle@),
{
    let mut k: usize = 0;
    while k < nlen
        invariant
            hlen == hay@.len(),
            nlen == needle@.len(),
            i + nlen <= hlen,
            k <= nlen,
            forall|j: int| 0 <= j < k ==> hay@[i + j] == needle@[j],
        decreases nlen - k,
    {
        if hay.get_char(i + k) != needle.get_char(k) {
            assert(hay@.subrange(i as int, i + nlen as int)[k as int] == hay@[i + k]);
            return false;
        }
        k = k + 1;
    }
    assert(hay@.subrange(i as int, i + nlen as int) =~= needle@);
    true
}

/// True when `needle` occurs as a substring of `hay`, character-wise.
pub fn str_contains(hay: &str, needle: &str) -> (r: bool)
    ensures
        r == contains_seq(hay@, needle@),
{
    let hlen = hay.unicode_len();
    let nlen = needle.unicode_len();
    if nlen > hlen {
        return false;
    }
    if nlen == 0 {
        proof {
            let w: int = 0;
            assert(hay@.subrange(w, w + needle@.len() as int) =~= needle@);
        }
        return true;
    }
    let mut i: usize = 0;
    while i <= hlen - nlen
        invariant
            hlen == hay@.len(),
            nlen == needle@.len(),
            0 < nlen <= hlen,
            i <= hlen - nlen + 1,
            forall|j: int|
                0 <= j < i ==> #[trigger] hay@.subrange(j, j + nlen as int) != needle@,
        decreases hlen - nlen - i + 1,
    {
        if match_at(hay, needle, i, hlen, nlen) {
            return true;
        }
        i = i + 1;
    }
    false
}

/// Trims `s`; a run that is all whitespace becomes `None`, anything else is
/// returned trimmed.
pub fn norm_str(s: &str) -> (r: Option<String>)
    ensures
        r is Some <==> trim_of(s@).len() > 0,
        r matches Some(t) ==> t@ == trim_of(s@),
{
    let t = trim_str(s);
    if t.unicode_len() == 0 {
        None
    } else {
        Some(t.to_owned())
    }
}

/// The character view of an optional string.
pub open spec fn view_opt(s: Option<String>) -> Option<Seq<char>> {
    match s {
        Some(x) => Some(x@),
        None => None,
    }
}

/// The trimmed-and-emptiness-normalized form of an optional field: `None`, or
/// a value that is all whitespace, normalizes to `None`.
pub open spec fn norm_opt_spec(s: Option<String>) -> Option<Seq<char>> {
    match s {
        None => None,
        Some(x) => if trim_of(x@).len() > 0 {
            Some(trim_of(x@))
        } else {
            None
        },
    }
}

/// Clones an optional string field.
pub fn clone_opt(s: &Option<String>) -> (r: Option<String>)
    ensures
        view_opt(r) == view_opt(*s),
{
    match s {
        Some(x) => Some(x.clone()),
        None => None,
    }
}

/// Clones a list of strings.
pub fn clone_strings(v: &Vec<String>) -> (r: Vec<String>)
    ensures
        r.deep_view() == v.deep_view(),
{
    let mut r: Vec<String> = Vec::new();
    let mut i: usize = 0;
    while i < v.len()
        invariant
            i <= v@.len(),
            r@.len() == i,
            forall|j: int| 0 <= j < i ==> (#[trigger] r@[j])@ == v@[j]@,
        decreases v@.len() - i,
    {
        r.push(v[i].clone());
        i = i + 1;
    }
    proof {
        assert(r.deep_view() =~= v.deep_view());
    }
    r
}

/// Trims an optional field and drops it when absent or all whitespace.
pub fn norm_opt(s: &Option<String>) -> (r: Option<String>)
    ensures
        r is Some <==> norm_opt_spec(*s) is Some,
        r matches Some(t) ==> norm_opt_spec(*s) matches Some(u) && t@ == u,
{
    match s {
        None => None,
        Some(x) => norm_str(x.as_str()),
    }
}

} // verus!
