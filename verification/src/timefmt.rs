//! Timestamp normalization for credential expiry fields: either a strict
//! RFC 3339 timestamp, or a fixed local `YYYY/MM/DD HH:MM:SS` pattern read in
//! the host's time zone; anything else is dropped rather than failing the
//! record.  The date arithmetic itself is chrono's, behind trusted shims.

use vstd::prelude::*;
use crate::strutil::trim_of;
use crate::strutil::trim_str;
use chrono::TimeZone;

verus! {

// chrono's plain calendar type is opaque to the verifier; it is declared so
// that a parsed value can be carried from one trusted shim to the next.
#[verifier::external_type_specification]
#[verifier::external_body]
pub struct ExNaiveDateTime(chrono::NaiveDateTime);

/// Whether chrono accepts a string as an RFC 3339 timestamp: a pure function
/// of the characters alone.
pub uninterp spec fn rfc3339_parses(s: Seq<char>) -> bool;

/// The canonical RFC 3339 rendering chrono gives back for an RFC 3339 input:
/// a pure function of the characters alone.  Meaningful only when
/// `rfc3339_parses` holds of the input.
pub uninterp spec fn rfc3339_canon_of(s: Seq<char>) -> Seq<char>;

/// Whether chrono accepts a string under a strftime pattern: a pure function
/// of the string and the pattern alone.
pub uninterp spec fn naive_parses(s: Seq<char>, fmt: Seq<char>) -> bool;

/// Relies on `chrono::DateTime::parse_from_rfc3339` and
/// `chrono::DateTime::to_rfc3339`: parsing succeeds exactly on RFC 3339
/// input, both are pure functions of the input characters, and the rendering
/// of a parsed value — whose year the four-digit input format confines to
/// 0000..=9999 — is itself accepted back by the parser, carries no
/// surrounding whitespace, is never empty, and re-renders to itself.  The
/// timezone-carrying value between the two calls cannot cross this boundary,
/// as its type is generic over chrono's zoo of zone types, so the pair is
/// taken on trust together.
#[verifier::external_body]
fn rfc3339_canonicalize(s: &str) -> (r: Option<String>)
    ensures
        r is Some <==> rfc3339_parses(s@),
        r matches Some(out) ==> out@ == rfc3339_canon_of(s@) && rfc3339_parses(out@) && trim_of(
            out@,
        ) == out@ && rfc3339_canon_of(out@) == out@ && out@.len() > 0,
{
    chrono::DateTime::parse_from_rfc3339(s).ok().map(|d| d.to_rfc3339())
}

/// Relies on `chrono::NaiveDateTime::parse_from_str`: success is a pure
/// function of the input characters and the pattern.
#[verifier::external_body]
fn parse_naive(s: &str, fmt: &str) -> (r: Option<chrono::NaiveDateTime>)
    ensures
        r is Some <==> naive_parses(s@, fmt@),
{
    chrono::NaiveDateTime::parse_from_str(s, fmt).ok()
}

/// Relies on `chrono::TimeZone::from_local_datetime` on `chrono::Local`,
/// `chrono::DateTime::fixed_offset`, `chrono::DateTime::to_rfc3339` and
/// `chrono::DateTime::parse_from_rfc3339`: the result depends on the host's
/// time zone, so all that is promised is of every outcome — a value comes
/// back only when the local time names a single instant, and only when the
/// parser accepts the rendering back, which the body itself confirms (a year
/// outside 0000..=9999 renders with a sign the parser refuses, and is
/// dropped here).  An accepted rendering carries no surrounding whitespace,
/// is never empty, and re-renders to itself.
#[verifier::external_body]
fn local_to_rfc3339(n: &chrono::NaiveDateTime) -> (r: Option<String>)
    ensures
        r matches Some(out) ==> rfc3339_parses(out@) && trim_of(out@) == out@ && rfc3339_canon_of(
            out@,
        ) == out@ && out@.len() > 0,
{
    match chrono::Local.from_local_datetime(n) {
        chrono::LocalResult::Single(d) => {
            let out = d.fixed_offset().to_rfc3339();
            match chrono::DateTime::parse_from_rfc3339(&out) {
                Ok(_) => Some(out),
                Err(_) => None,
            }
        },
        chrono::LocalResult::Ambiguous(_, _) => None,
        chrono::LocalResult::None => None,
    }
}

/// Whether the crate's timestamp normalizer would accept `s` as already in
/// the strict standard form.
pub fn timestamp_parses_rfc3339(s: &str) -> (r: bool)
    ensures
        r == rfc3339_parses(s@),
{
    rfc3339_canonicalize(s).is_some()
}

/// The fixed local pattern accepted beside RFC 3339.
pub open spec fn local_pattern() -> Seq<char> {
    "%Y/%m/%d %H:%M:%S"@
}

/// How a normalized expiry relates to its raw input: absent, all-whitespace
/// and unparseable values become absent; an RFC 3339 value is re-rendered
/// canonically; whatever is produced is itself a nonempty, trim-stable,
/// canonical RFC 3339 string.  The local-pattern branch depends on the
/// host's time zone, so for it only the last clause binds.
pub open spec fn expires_norm_relates(input: Option<Seq<char>>, out: Option<Seq<char>>) -> bool {
    &&& input is None ==> out is None
    &&& input matches Some(raw) ==> {
        &&& trim_of(raw).len() == 0 ==> out is None
        &&& rfc3339_parses(trim_of(raw)) && trim_of(raw).len() > 0 ==> out == Some(
            rfc3339_canon_of(trim_of(raw)),
        )
        &&& !rfc3339_parses(trim_of(raw)) && !naive_parses(trim_of(raw), local_pattern())
            ==> out is None
    }
    &&& out matches Some(o) ==> rfc3339_parses(o) && trim_of(o) == o && rfc3339_canon_of(o) == o
        && o.len() > 0
}

/// Normalization is idempotent on its own output: a timestamp the normalizer
/// produced, fed back in, comes out unchanged.
pub proof fn lemma_normalize_idempotent(
    first: Option<Seq<char>>,
    o: Seq<char>,
    second: Option<Seq<char>>,
)
    requires
        expires_norm_relates(first, Some(o)),
        expires_norm_relates(Some(o), second),
    ensures
        second == Some(o),
{
}

/// Normalizes an optional expiry timestamp.  Absent, all-whitespace and
/// unparseable values become `None`; an RFC 3339 value is re-rendered in
/// canonical form; a local `YYYY/MM/DD HH:MM:SS` value becomes an RFC 3339
/// timestamp in the host's current zone when that local time is unambiguous.
pub fn normalize_expires_at(expires_at: Option<&str>) -> (r: Option<String>)
    ensures
        expires_norm_relates(
            match expires_at {
                Some(raw) => Some(raw@),
                None => None,
            },
            crate::strutil::view_opt(r),
        ),
{
    let raw = match expires_at {
        Some(s) => s,
        None => {
            return None;
        },
    };
    let trimmed = trim_str(raw);
    if trimmed.unicode_len() == 0 {
        return None;
    }
    if let Some(out) = rfc3339_canonicalize(trimmed) {
        return Some(out);
    }
    if let Some(naive) = parse_naive(trimmed, "%Y/%m/%d %H:%M:%S") {
        if let Some(out) = local_to_rfc3339(&naive) {
            return Some(out);
        }
    }
    None
}

} // verus!
