//! Trusted boundary: the few calls whose behaviour Verus takes on contract.
//!
//! Each wrapper holds exactly one outside call. Results that depend on
//! anything beyond the arguments (the disk, the clock, randomness) get no
//! promise about their value; results that are pure functions of the
//! arguments are tied to an uninterpreted name that the callers' own
//! contracts reuse.

use vstd::prelude::*;

verus! {

/// The whitespace-trimmed form of a string: what `str::trim` returns,
/// a function of the characters alone.
pub uninterp spec fn trimmed_of(s: Seq<char>) -> Seq<char>;

/// The lowercase form of a string: what `str::to_lowercase` returns,
/// a function of the characters alone.
pub uninterp spec fn lower_of(s: Seq<char>) -> Seq<char>;

/// Relies on std's `str::trim`: leading and trailing whitespace removed,
/// a pure function of the string.
#[verifier::external_body]
pub fn str_trim<'a>(s: &'a str) -> (r: &'a str)
    ensures
        r@ == trimmed_of(s@),
{
    s.trim()
}

/// Relies on std's `str::to_lowercase`: the lowercase mapping of the
/// characters, a pure function of the string.
#[verifier::external_body]
pub fn str_to_lowercase(s: &str) -> (r: String)
    ensures
        r@ == lower_of(s@),
{
    s.to_lowercase()
}

/// Relies on std's `Path::exists`: probes the filesystem for the path.
/// The answer depends on what is on disk, so nothing is promised of it.
#[verifier::external_body]
pub fn path_exists(path: &str) -> bool {
    std::path::Path::new(path).exists()
}

/// Relies on `uuid::Uuid::new_v4`: a freshly generated random identifier,
/// returned as its 128-bit value. Randomness admits no promise.
#[verifier::external_body]
pub fn fresh_uuid_value() -> u128 {
    uuid::Uuid::new_v4().as_u128()
}

/// Relies on std's `SystemTime::now`: seconds since the Unix epoch,
/// clamped to zero if the clock reads before it. The clock admits no
/// promise beyond the sign.
#[verifier::external_body]
pub fn now_unix_seconds() -> (r: i64)
    ensures
        r >= 0,
{
    match std::time::SystemTime::now().duration_since(std::time::UNIX_EPOCH) {
        Ok(d) => i64::try_from(d.as_secs()).unwrap_or(i64::MAX),
        Err(_) => 0,
    }
}

} // verus!
