//! Types of std and of outside crates that the library carries, and the
//! trusted wrappers through which it calls them.

use vstd::prelude::*;
use std::path::PathBuf;
use std::time::Duration;

verus! {

/// `std::io::Error`, carried by connection errors.
#[verifier::external_type_specification]
#[verifier::external_body]
pub struct ExIoError(std::io::Error);

/// `serde_json::Error`, carried by parse errors.
#[verifier::external_type_specification]
#[verifier::external_body]
pub struct ExJsonError(serde_json::Error);

/// `std::path::PathBuf`, the location of the server socket.
#[verifier::external_type_specification]
#[verifier::external_body]
pub struct ExPathBuf(std::path::PathBuf);

/// `chrono::NaiveDateTime`, the UTC timestamp of a log entry.
#[verifier::external_type_specification]
#[verifier::external_body]
pub struct ExNaiveDateTime(chrono::NaiveDateTime);

/// The path that `PathBuf::from` builds from a string.
pub uninterp spec fn path_from_str(s: Seq<char>) -> PathBuf;

/// The whole number of milliseconds in a duration (`Duration::as_millis`).
pub uninterp spec fn duration_millis(d: Duration) -> u128;

/// The duration that `Duration::from_secs` builds from a number of seconds.
pub uninterp spec fn secs_duration(secs: u64) -> Duration;

/// The duration that `Duration::from_millis` builds from a number of milliseconds.
pub uninterp spec fn millis_duration(ms: u64) -> Duration;

/// `PathBuf::from(&str)`: the path whose text is `s`. Deterministic in `s`.
#[verifier::external_body]
pub(crate) fn path_from(s: &str) -> (r: PathBuf)
    ensures
        r == path_from_str(s@),
{
    PathBuf::from(s)
}

/// `PathBuf::clone`: an equal path.
#[verifier::external_body]
pub(crate) fn clone_path(p: &PathBuf) -> (r: PathBuf)
    ensures
        r == *p,
{
    p.clone()
}

/// `Duration::from_secs`: a duration of `secs` whole seconds, that is
/// `secs * 1000` milliseconds. Deterministic in `secs`.
#[verifier::external_body]
pub(crate) fn duration_from_secs(secs: u64) -> (r: Duration)
    ensures
        r == secs_duration(secs),
        duration_millis(r) == secs as int * 1000,
{
    Duration::from_secs(secs)
}

/// `Duration::from_millis`: a duration of `ms` milliseconds. Deterministic in `ms`.
#[verifier::external_body]
pub(crate) fn duration_from_millis(ms: u64) -> (r: Duration)
    ensures
        r == millis_duration(ms),
        duration_millis(r) == ms,
{
    Duration::from_millis(ms)
}

/// `Duration::as_millis`: the whole number of milliseconds in `d`.
#[verifier::external_body]
pub(crate) fn duration_as_millis(d: &Duration) -> (r: u128)
    ensures
        r == duration_millis(*d),
{
    d.as_millis()
}

} // verus!
