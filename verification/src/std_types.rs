//! Standard-library types that the configuration holds without looking inside them:
//! file-system paths and points in time.
use vstd::prelude::*;

use std::path::PathBuf;
use std::time::{Duration, SystemTime};

verus! {

#[verifier::external_type_specification]
#[verifier::external_body]
pub struct ExPathBuf(PathBuf);

#[verifier::external_type_specification]
#[verifier::external_body]
pub struct ExSystemTime(SystemTime);

/// Cloning a path gives another path; nothing is claimed of it.
pub assume_specification[ <PathBuf as Clone>::clone ](p: &PathBuf) -> (r: PathBuf);

/// `Duration` is `Copy`: its clone is the same duration.
pub assume_specification[ <Duration as Clone>::clone ](d: &Duration) -> (r: Duration)
    ensures
        r == *d,
;

/// `SystemTime` is `Copy`: its clone is the same time.
pub assume_specification[ <SystemTime as Clone>::clone ](t: &SystemTime) -> (r: SystemTime)
    ensures
        r == *t,
;

/// The path that `PathBuf::from` makes of a string.
pub uninterp spec fn path_of(s: Seq<char>) -> PathBuf;

/// `PathBuf::from`.
#[verifier::external_body]
pub(crate) fn path_from(s: &str) -> (r: PathBuf)
    ensures
        r == path_of(s@),
{
    PathBuf::from(s)
}

/// The path that `Path::join` makes of `base` and `rel`.
pub uninterp spec fn joined_path(base: Seq<char>, rel: Seq<char>) -> PathBuf;

/// `base` joined with `rel` (`Path::join`).
#[verifier::external_body]
pub(crate) fn path_join(base: &str, rel: &str) -> (r: PathBuf)
    ensures
        r == joined_path(base@, rel@),
{
    std::path::Path::new(base).join(rel)
}

/// Whether something exists at `path` (`Path::exists`); this depends on the disk.
#[verifier::external_body]
pub(crate) fn path_exists(path: &PathBuf) -> (r: bool) {
    path.exists()
}

/// Whether `path` names a directory (`Path::is_dir`); this depends on the disk.
#[verifier::external_body]
pub(crate) fn path_is_dir(path: &PathBuf) -> (r: bool) {
    path.is_dir()
}

/// `answer` is an answer that `path_exists` gave for `path`: which one the disk decides.
pub closed spec fn exists_answer(path: PathBuf, answer: bool) -> bool {
    call_ensures(path_exists, (&path,), answer)
}

/// `answer` is an answer that `path_is_dir` gave for `path`: which one the disk decides.
pub closed spec fn is_dir_answer(path: PathBuf, answer: bool) -> bool {
    call_ensures(path_is_dir, (&path,), answer)
}

/// Asks the disk whether something exists at `path`, and records the answer as given
/// for that path.
pub(crate) fn exists_on_disk(path: &PathBuf) -> (r: bool)
    ensures
        exists_answer(*path, r),
{
    path_exists(path)
}

/// Asks the disk whether `path` names a directory, and records the answer as given for
/// that path.
pub(crate) fn dir_on_disk(path: &PathBuf) -> (r: bool)
    ensures
        is_dir_answer(*path, r),
{
    path_is_dir(path)
}

/// Whether something exists at the path named by `s`; this depends on the disk.
pub fn file_exists(s: &str) -> (r: bool) {
    let p = path_from(s);
    path_exists(&p)
}

/// The duration of `secs` whole seconds.
pub uninterp spec fn seconds(secs: u64) -> Duration;

/// `Duration::from_secs`.
#[verifier::external_body]
pub(crate) fn duration_from_secs(secs: u64) -> (r: Duration)
    ensures
        r == seconds(secs),
{
    Duration::from_secs(secs)
}

/// The current time (`SystemTime::now`); nothing is known of the value.
#[verifier::external_body]
pub(crate) fn system_time_now() -> (r: SystemTime) {
    SystemTime::now()
}

} // verus!
