//! Serving files from a directory: the cached file records, and the decisions taken for
//! each request (which file, index page or metadata answers it, and how a `Range` header
//! is honoured).
use vstd::prelude::*;

use std::path::PathBuf;
use std::time::{Duration, SystemTime};

use crate::config::auth::{authenticate_ready, authenticate_spec, opt_slice};
use crate::errors::{FileError, VetisError, VirtualHostError};
use crate::model::{opt_text, pair_seq};
use crate::server::http::{header_value_accepted, header_value_valid};
use crate::utils::date::{format_date, rfc2822_date};
use crate::std_types::{
    dir_on_disk, duration_from_secs, exists_answer, exists_on_disk, is_dir_answer, joined_path,
    path_join, seconds, system_time_now,
};
use crate::text::{parse_u64, parse_u64_spec, split_once, split_once_spec, strip_prefix, strip_prefix_spec};
use crate::virtual_host::path::static_files::{StaticPathCache, StaticPathConfig};

verus! {

broadcast use vstd::string::group_string_axioms;

/// Whether `pattern` compiles as a regular expression and, if it does, whether it
/// matches somewhere in `text`.
pub uninterp spec fn regex_match_result(pattern: Seq<char>, text: Seq<char>) -> Option<bool>;

/// Compiles `pattern` (`Regex::new`) and tests it against `text` (`Regex::is_match`);
/// `None` when the pattern does not compile.
#[verifier::external_body]
pub(crate) fn regex_matches(pattern: &str, text: &str) -> (r: Option<bool>)
    ensures
        r == regex_match_result(pattern@, text@),
{
    match regex::Regex::new(pattern) {
        Ok(re) => Some(re.is_match(text)),
        Err(_) => None,
    }
}

/// The content type that the MIME database gives for a file name, if any.
pub uninterp spec fn mime_for_file_name(name: Seq<char>) -> Option<Seq<char>>;

/// Looks a file name up in the MIME database (`minimime::lookup_by_filename`).
#[verifier::external_body]
pub(crate) fn lookup_mime(name: &str) -> (r: Option<String>)
    ensures
        opt_text(r) == mime_for_file_name(name@),
{
    match minimime::lookup_by_filename(name) {
        Some(info) => Some(info.content_type),
        None => None,
    }
}

/// The content type recorded for a served file: the database's answer for its name, or
/// none when the file has no name that is valid text.
pub fn mime_type_for(file_name: Option<&str>) -> (r: Option<String>)
    ensures
        opt_text(r) == match file_name {
            Some(n) => mime_for_file_name(n@),
            None => None,
        },
{
    match file_name {
        Some(name) => lookup_mime(name),
        None => None,
    }
}

/// Abstract content of a file record's metadata.
pub struct StaticFileMetadataView {
    pub mime: Option<Seq<char>>,
    pub size: u64,
    pub modified: SystemTime,
    pub etag: Option<Seq<char>>,
}

/// Collects the metadata of a served file.
pub struct StaticFileMetadataBuilder {
    mime: Option<String>,
    size: u64,
    modified: SystemTime,
    etag: Option<String>,
}

impl View for StaticFileMetadataBuilder {
    type V = StaticFileMetadataView;

    closed spec fn view(&self) -> StaticFileMetadataView {
        StaticFileMetadataView {
            mime: opt_text(self.mime),
            size: self.size,
            modified: self.modified,
            etag: opt_text(self.etag),
        }
    }
}

impl StaticFileMetadataBuilder {
    pub fn mime(self, mime: String) -> (r: Self)
        ensures
            r@ == (StaticFileMetadataView { mime: Some(mime@), ..self@ }),
    {
        StaticFileMetadataBuilder { mime: Some(mime), ..self }
    }

    pub fn size(self, size: u64) -> (r: Self)
        ensures
            r@ == (StaticFileMetadataView { size, ..self@ }),
    {
        StaticFileMetadataBuilder { size, ..self }
    }

    pub fn modified(self, modified: SystemTime) -> (r: Self)
        ensures
            r@ == (StaticFileMetadataView { modified, ..self@ }),
    {
        StaticFileMetadataBuilder { modified, ..self }
    }

    pub fn etag(self, etag: String) -> (r: Self)
        ensures
            r@ == (StaticFileMetadataView { etag: Some(etag@), ..self@ }),
    {
        StaticFileMetadataBuilder { etag: Some(etag), ..self }
    }

    pub fn build(self) -> (r: StaticFileMetadata)
        ensures
            r@ == self@,
    {
        StaticFileMetadata {
            mime: self.mime,
            size: self.size,
            modified: self.modified,
            etag: self.etag,
        }
    }
}

/// Metadata of a served file: content type, size, modification time and entity tag.
#[derive(Clone)]
pub struct StaticFileMetadata {
    mime: Option<String>,
    size: u64,
    modified: SystemTime,
    etag: Option<String>,
}

impl View for StaticFileMetadata {
    type V = StaticFileMetadataView;

    closed spec fn view(&self) -> StaticFileMetadataView {
        StaticFileMetadataView {
            mime: opt_text(self.mime),
            size: self.size,
            modified: self.modified,
            etag: opt_text(self.etag),
        }
    }
}

impl StaticFileMetadata {
    /// A builder with no content type, size 0, the current time and no entity tag.
    pub fn builder() -> (r: StaticFileMetadataBuilder)
        ensures
            r@.mime is None,
            r@.size == 0,
            r@.etag is None,
    {
        StaticFileMetadataBuilder { mime: None, size: 0, modified: system_time_now(), etag: None }
    }

    /// Metadata made of the given parts.
    pub fn new(mime: Option<String>, size: u64, modified: SystemTime, etag: Option<String>) -> (r:
        StaticFileMetadata)
        ensures
            r@ == (StaticFileMetadataView {
                mime: opt_text(mime),
                size,
                modified,
                etag: opt_text(etag),
            }),
    {
        StaticFileMetadata { mime, size, modified, etag }
    }

    pub fn mime(&self) -> (r: Option<&String>)
        ensures
            match r {
                Some(m) => self@.mime == Some(m@),
                None => self@.mime is None,
            },
    {
        self.mime.as_ref()
    }

    pub fn size(&self) -> (r: u64)
        ensures
            r == self@.size,
    {
        self.size
    }

    pub fn modified(&self) -> (r: SystemTime)
        ensures
            r == self@.modified,
    {
        self.modified
    }

    pub fn etag(&self) -> (r: Option<&String>)
        ensures
            match r {
                Some(m) => self@.etag == Some(m@),
                None => self@.etag is None,
            },
    {
        self.etag.as_ref()
    }
}

/// A cached file: its bytes when it is small enough to keep in memory, otherwise its path.
#[derive(Clone)]
pub enum StaticFile {
    Data { data: Vec<u8>, metadata: StaticFileMetadata },
    File { path: PathBuf, metadata: StaticFileMetadata },
}

impl StaticFile {
    pub fn metadata(&self) -> (r: &StaticFileMetadata)
        ensures
            *r == match self {
                StaticFile::Data { metadata, .. } => *metadata,
                StaticFile::File { metadata, .. } => *metadata,
            },
    {
        match self {
            StaticFile::Data { metadata, .. } => metadata,
            StaticFile::File { metadata, .. } => metadata,
        }
    }

    pub fn data(&self) -> (r: Option<&Vec<u8>>)
        ensures
            match self {
                StaticFile::Data { data, .. } => r == Some(data),
                StaticFile::File { .. } => r is None,
            },
    {
        match self {
            StaticFile::Data { data, .. } => Some(data),
            StaticFile::File { .. } => None,
        }
    }

    pub fn path(&self) -> (r: Option<&PathBuf>)
        ensures
            match self {
                StaticFile::Data { .. } => r is None,
                StaticFile::File { path, .. } => r == Some(path),
            },
    {
        match self {
            StaticFile::Data { .. } => None,
            StaticFile::File { path, .. } => Some(path),
        }
    }
}

/// The position of the first `true` in `found`, if any.
pub open spec fn first_true(found: Seq<bool>) -> Option<int>
    decreases found.len(),
{
    if found.len() == 0 {
        None
    } else if found[0] {
        Some(0)
    } else {
        match first_true(found.drop_first()) {
            Some(i) => Some(i + 1),
            None => None,
        }
    }
}

/// The first candidate whose existence answer is `true`, if any.
pub open spec fn first_existing_spec(index_files: Seq<Seq<char>>, found: Seq<bool>) -> Option<Seq<char>> {
    match first_true(found) {
        Some(i) => Some(index_files[i]),
        None => None,
    }
}

proof fn lemma_first_true_scan(found: Seq<bool>, i: int)
    requires
        0 <= i <= found.len(),
        forall|j: int| 0 <= j < i ==> !found[j],
        i < found.len() ==> found[i],
    ensures
        first_true(found) == (if i < found.len() {
            Some(i)
        } else {
            None::<int>
        }),
    decreases i,
{
    if i > 0 {
        assert forall|j: int| 0 <= j < i - 1 implies !found.drop_first()[j] by {
            assert(found.drop_first()[j] == found[j + 1]);
        }
        if i < found.len() {
            assert(found.drop_first()[i - 1] == found[i]);
        }
        lemma_first_true_scan(found.drop_first(), i - 1);
        assert(!found[0]);
    } else if found.len() > 0 {
        assert(found[0]);
    }
}

/// Picks the index page from the existence answer for each candidate: the first candidate
/// whose answer is `true`, or `None` when no candidate exists.
pub fn first_existing(index_files: &Vec<String>, found: &Vec<bool>) -> (r: Option<String>)
    requires
        found@.len() == index_files@.len(),
    ensures
        opt_text(r) == first_existing_spec(crate::model::text_seq(index_files@), found@),
{
    let mut i: usize = 0;
    while i < found.len()
        invariant
            i <= found@.len(),
            found@.len() == index_files@.len(),
            forall|j: int| 0 <= j < i ==> !found@[j],
        decreases found@.len() - i,
    {
        if found[i] {
            proof {
                lemma_first_true_scan(found@, i as int);
            }
            let f = index_files[i].clone();
            assert(crate::model::text_seq(index_files@)[i as int] == f@);
            return Some(f);
        }
        i = i + 1;
    }
    proof {
        lemma_first_true_scan(found@, i as int);
    }
    None
}

/// `found` holds, for each index file in order, an answer the disk gave to whether it
/// exists in `directory`.
pub open spec fn index_answers(directory: Seq<char>, index_files: Seq<Seq<char>>, found: Seq<bool>) -> bool {
    &&& found.len() == index_files.len()
    &&& forall|i: int| 0 <= i < found.len() ==> #[trigger] exists_answer(joined_path(directory, index_files[i]), found[i])
}

/// Picks the first of `index_files` that exists in `directory`: the index page served for
/// a request to a directory. Each candidate, in order, is looked up on disk, and the pick
/// from those answers is `first_existing`.
pub fn select_index_file(directory: &str, index_files: &Vec<String>) -> (r: Option<String>)
    ensures
        exists|found: Seq<bool>|
            #[trigger] index_answers(directory@, crate::model::text_seq(index_files@), found)
                && opt_text(r) == first_existing_spec(crate::model::text_seq(index_files@), found),
{
    let ghost names = crate::model::text_seq(index_files@);
    let mut found: Vec<bool> = Vec::new();
    let mut i: usize = 0;
    while i < index_files.len()
        invariant
            i <= index_files@.len(),
            found@.len() == i,
            names == crate::model::text_seq(index_files@),
            forall|j: int| 0 <= j < i ==> #[trigger] exists_answer(joined_path(directory@, names[j]), found@[j]),
        decreases index_files@.len() - i,
    {
        let candidate = path_join(directory, index_files[i].as_str());
        let here = exists_on_disk(&candidate);
        found.push(here);
        assert(exists_answer(joined_path(directory@, names[i as int]), found@[i as int]));
        i = i + 1;
    }
    let r = first_existing(index_files, &found);
    assert(index_answers(directory@, names, found@));
    r
}

/// The metadata recorded for a file read from disk: the media type its name gives, its
/// size, when it was last modified, and no entity tag.
pub fn file_metadata(file_name: Option<&str>, size: u64, modified: SystemTime) -> (r: StaticFileMetadata)
    ensures
        r@ == (StaticFileMetadataView {
            mime: match file_name {
                Some(n) => mime_for_file_name(n@),
                None => None,
            },
            size,
            modified,
            etag: None,
        }),
{
    StaticFileMetadata::new(mime_type_for(file_name), size, modified, None)
}

/// The cache record of a file: its bytes when they were read into memory (`data`), and
/// otherwise its path, to be read from disk when served.
pub fn file_record(path: PathBuf, metadata: StaticFileMetadata, data: Option<Vec<u8>>) -> (r: StaticFile)
    ensures
        match data {
            Some(d) => r == StaticFile::Data { data: d, metadata },
            None => r == StaticFile::File { path, metadata },
        },
{
    match data {
        Some(d) => StaticFile::Data { data: d, metadata },
        None => StaticFile::File { path, metadata },
    }
}

/// Files below this size are kept in memory when no cache settings are given.
pub const DEFAULT_MEMORY_LIMIT: u64 = 10485760;

/// The largest size (exclusive) of a file kept in memory under the given cache settings.
pub fn memory_limit(cache: &Option<StaticPathCache>) -> (r: u64)
    ensures
        r == match cache {
            Some(c) => c@.max_file_size as u64,
            None => DEFAULT_MEMORY_LIMIT,
        },
{
    match cache {
        Some(c) => c.max_file_size() as u64,
        None => DEFAULT_MEMORY_LIMIT,
    }
}

/// The number of files a static path's cache holds, and how long an entry lives unused
/// and at most: those of the path's cache settings, or 1000 files and 60 seconds each
/// when it has none.
pub fn file_cache_settings(cache: &Option<StaticPathCache>) -> (r: (u64, Duration, Duration))
    ensures
        match cache {
            Some(c) => r.0 == c@.capacity && r.1 == c@.tti && r.2 == c@.ttl,
            None => r.0 == 1000 && r.1 == seconds(60) && r.2 == seconds(60),
        },
{
    match cache {
        Some(c) => (c.capacity(), c.tti(), c.ttl()),
        None => (1000, duration_from_secs(60), duration_from_secs(60)),
    }
}

/// Whether a file of `size` bytes is kept in memory rather than served from disk.
pub fn keep_in_memory(size: u64, limit: u64) -> (r: bool)
    ensures
        r == (size < limit),
{
    size < limit
}

/// How the body of a file response is chosen from its `Range` header.
#[derive(Debug, Clone, Copy, PartialEq, Eq)]
pub enum RangeOutcome {
    /// 200: the whole file.
    Full,
    /// 206: the requested part.
    Partial,
    /// 416: the range lies outside the file or is reversed.
    NotSatisfiable,
}

/// The outcome for a well-formed range `start-end` over a file of `size` bytes.
pub open spec fn bounds_outcome(start: u64, end: u64, size: u64) -> RangeOutcome {
    if start > end || start >= size {
        RangeOutcome::NotSatisfiable
    } else if start < end && end < size {
        RangeOutcome::Partial
    } else {
        RangeOutcome::Full
    }
}

/// How a `Range` header value is read: `bytes=<start>-<end>` with decimal bounds;
/// `None` stands for an ill-formed header.
pub open spec fn range_spec(range: Seq<char>, size: u64) -> Option<RangeOutcome> {
    match split_once_spec(range, '=') {
        None => None,
        Some((unit, bounds)) => if unit != "bytes"@ {
            None
        } else {
            match split_once_spec(bounds, '-') {
                None => None,
                Some((a, b)) => match (parse_u64_spec(a), parse_u64_spec(b)) {
                    (Some(start), Some(end)) => Some(bounds_outcome(start, end, size)),
                    _ => None,
                },
            }
        },
    }
}

/// A well-formed range is not satisfiable exactly when it is reversed or starts at or
/// past the end of the file; it is answered in part exactly when it ends before the last
/// byte after starting where it does; every other range serves the whole file.
pub proof fn lemma_range_bounds(start: u64, end: u64, size: u64)
    ensures
        (bounds_outcome(start, end, size) == RangeOutcome::NotSatisfiable) <==> (start > end || start
            >= size),
        (bounds_outcome(start, end, size) == RangeOutcome::Partial) <==> (start < end && end < size),
        (bounds_outcome(start, end, size) == RangeOutcome::Full) <==> (start <= end && start < size
            && (start == end || end >= size)),
{
}

/// Decides the response to a file request from its `Range` header: no header serves the
/// whole file; an ill-formed one is an `InvalidRange` error.
pub fn range_outcome(range: Option<&str>, size: u64) -> (r: Result<RangeOutcome, VetisError>)
    ensures
        match range {
            None => r == Ok::<RangeOutcome, VetisError>(RangeOutcome::Full),
            Some(h) => match range_spec(h@, size) {
                Some(o) => r == Ok::<RangeOutcome, VetisError>(o),
                None => r == Err::<RangeOutcome, VetisError>(
                    VetisError::VirtualHost(VirtualHostError::File(FileError::InvalidRange)),
                ),
            },
        },
{
    let h = match range {
        None => return Ok(RangeOutcome::Full),
        Some(h) => h,
    };
    let invalid = VetisError::VirtualHost(VirtualHostError::File(FileError::InvalidRange));
    let (unit, bounds) = match split_once(h, '=') {
        Some(p) => p,
        None => return Err(invalid),
    };
    proof {
        reveal_strlit("bytes");
    }
    if !crate::text::str_eq(unit, "bytes") {
        return Err(invalid);
    }
    let (a, b) = match split_once(bounds, '-') {
        Some(p) => p,
        None => return Err(invalid),
    };
    let start = match parse_u64(a) {
        Some(v) => v,
        None => return Err(invalid),
    };
    let end = match parse_u64(b) {
        Some(v) => v,
        None => return Err(invalid),
    };
    if start > end || start >= size {
        Ok(RangeOutcome::NotSatisfiable)
    } else if start < end && end < size {
        Ok(RangeOutcome::Partial)
    } else {
        Ok(RangeOutcome::Full)
    }
}

/// What answers a request for a static path.
#[derive(Debug, Clone, Copy, PartialEq, Eq)]
pub enum StaticAction {
    /// Serve the directory's index file.
    ServeIndex,
    /// Answer a `HEAD` request with the file's metadata only.
    ServeMetadata,
    /// Serve the file's content.
    ServeFile,
}

/// The decision for a request, given whether the path has index files, whether the file
/// exists and is a directory, what the extension pattern says of the request path, and
/// whether the request is a `HEAD`. `None` stands for a missing file.
pub open spec fn static_action_spec(
    has_index_files: bool,
    exists: bool,
    is_dir: bool,
    ext_match: Option<bool>,
    is_head: bool,
) -> Option<StaticAction> {
    let serve = if is_head {
        StaticAction::ServeMetadata
    } else {
        StaticAction::ServeFile
    };
    if has_index_files {
        if !exists {
            if ext_match == Some(false) {
                None
            } else {
                Some(serve)
            }
        } else if is_dir {
            Some(StaticAction::ServeIndex)
        } else {
            Some(serve)
        }
    } else if !exists {
        None
    } else {
        Some(serve)
    }
}

pub open spec fn not_found() -> VetisError {
    VetisError::VirtualHost(VirtualHostError::File(FileError::NotFound))
}

/// The decision as the handler returns it.
pub open spec fn static_result(
    has_index_files: bool,
    exists: bool,
    is_dir: bool,
    ext_match: Option<bool>,
    is_head: bool,
) -> Result<StaticAction, VetisError> {
    match static_action_spec(has_index_files, exists, is_dir, ext_match, is_head) {
        Some(a) => Ok(a),
        None => Err(not_found()),
    }
}

/// Without index files, an existing file is served (its metadata for a `HEAD` request)
/// and a missing one is answered with `NotFound`. With index files, an existing directory
/// is answered with its index page, an existing file is served, and a missing one is
/// answered with `NotFound` only when the extension pattern compiles and does not match
/// the request path.
pub proof fn lemma_static_decisions(
    has_index_files: bool,
    exists: bool,
    is_dir: bool,
    ext_match: Option<bool>,
    is_head: bool,
)
    ensures
        ({
            let r = static_result(has_index_files, exists, is_dir, ext_match, is_head);
            let serve = if is_head {
                StaticAction::ServeMetadata
            } else {
                StaticAction::ServeFile
            };
            let missing = VetisError::VirtualHost(VirtualHostError::File(FileError::NotFound));
            &&& !has_index_files && exists ==> r == Ok::<StaticAction, VetisError>(serve)
            &&& !has_index_files && !exists ==> r == Err::<StaticAction, VetisError>(missing)
            &&& has_index_files && exists && is_dir ==> r == Ok::<StaticAction, VetisError>(
                StaticAction::ServeIndex,
            )
            &&& has_index_files && exists && !is_dir ==> r == Ok::<StaticAction, VetisError>(serve)
            &&& has_index_files && !exists && ext_match == Some(false) ==> r == Err::<
                StaticAction,
                VetisError,
            >(missing)
            &&& has_index_files && !exists && ext_match != Some(false) ==> r == Ok::<
                StaticAction,
                VetisError,
            >(serve)
        }),
{
}

/// The index file picked from the disk's answers is the candidate at the smallest
/// position whose answer is that it exists; no earlier candidate exists, and there is no
/// pick only when none exists.
pub proof fn lemma_first_existing_is_first(index_files: Seq<Seq<char>>, found: Seq<bool>)
    requires
        found.len() == index_files.len(),
    ensures
        match first_existing_spec(index_files, found) {
            Some(f) => exists|i: int|
                0 <= i < found.len() && found[i] && index_files[i] == f && forall|j: int|
                    0 <= j < i ==> !found[j],
            None => forall|j: int| 0 <= j < found.len() ==> !found[j],
        },
{
    lemma_first_true_props(found);
}

proof fn lemma_first_true_props(found: Seq<bool>)
    ensures
        match first_true(found) {
            Some(i) => 0 <= i < found.len() && found[i] && forall|j: int| 0 <= j < i ==> !found[j],
            None => forall|j: int| 0 <= j < found.len() ==> !found[j],
        },
    decreases found.len(),
{
    if found.len() > 0 && !found[0] {
        let rest = found.drop_first();
        lemma_first_true_props(rest);
        match first_true(rest) {
            Some(i) => {
                assert forall|j: int| 0 <= j < i + 1 implies !found[j] by {
                    if j > 0 {
                        assert(found[j] == rest[j - 1]);
                    }
                }
                assert(found[i + 1] == rest[i]);
            },
            None => {
                assert forall|j: int| 0 <= j < found.len() implies !found[j] by {
                    if j > 0 {
                        assert(found[j] == rest[j - 1]);
                    }
                }
            },
        }
    }
}

/// Decides how a request for a static path is answered.
pub fn static_action(
    has_index_files: bool,
    exists: bool,
    is_dir: bool,
    ext_match: Option<bool>,
    is_head: bool,
) -> (r: Result<StaticAction, VetisError>)
    ensures
        r == static_result(has_index_files, exists, is_dir, ext_match, is_head),
{
    let serve = if is_head {
        StaticAction::ServeMetadata
    } else {
        StaticAction::ServeFile
    };
    let missing = VetisError::VirtualHost(VirtualHostError::File(FileError::NotFound));
    if has_index_files {
        if !exists {
            match ext_match {
                Some(false) => Err(missing),
                _ => Ok(serve),
            }
        } else if is_dir {
            Ok(StaticAction::ServeIndex)
        } else {
            Ok(serve)
        }
    } else if !exists {
        Err(missing)
    } else {
        Ok(serve)
    }
}

/// The request path relative to the served directory: without its leading `/`.
pub open spec fn relative_uri_spec(uri: Seq<char>) -> Seq<char> {
    match strip_prefix_spec(uri, "/"@) {
        Some(rest) => rest,
        None => uri,
    }
}

/// `exists` is what `path_exists` answered for `file`; when `check_dir` holds and the file
/// exists, `is_dir` is what `path_is_dir` answered for it, and otherwise it is `false`.
pub open spec fn disk_answers(file: PathBuf, check_dir: bool, exists: bool, is_dir: bool) -> bool {
    &&& exists_answer(file, exists)
    &&& if check_dir && exists {
        is_dir_answer(file, is_dir)
    } else {
        !is_dir
    }
}

/// The file a request targets and how it is answered.
pub struct StaticPlan {
    pub file: PathBuf,
    pub action: Result<StaticAction, VetisError>,
}

/// Resolves a request for `uri` (the part of the request path below the static path)
/// against the directory and settings of `config`: joins it to the directory, checks the
/// disk, and decides what answers it.
pub fn plan_static_request(config: &StaticPathConfig, uri: &str, is_head: bool) -> (r: StaticPlan)
    ensures
        r.file == joined_path(config@.directory, relative_uri_spec(uri@)),
        exists|exists: bool, is_dir: bool|
            r.action == #[trigger] static_result(
                config@.index_files is Some,
                exists,
                is_dir,
                regex_match_result(config@.extensions, relative_uri_spec(uri@)),
                is_head,
            ) && disk_answers(r.file, config@.index_files is Some, exists, is_dir),
{
    proof {
        reveal_strlit("/");
    }
    let rel = match strip_prefix(uri, "/") {
        Some(rest) => rest,
        None => uri,
    };
    let ext_match = regex_matches(config.extensions(), rel);
    let file = path_join(config.directory(), rel);
    let has_index_files = config.index_files().is_some();
    let exists = exists_on_disk(&file);
    let is_dir = if has_index_files && exists {
        dir_on_disk(&file)
    } else {
        false
    };
    let action = static_action(has_index_files, exists, is_dir, ext_match, is_head);
    assert(rel@ == relative_uri_spec(uri@));
    assert(has_index_files == (config@.index_files is Some));
    assert(action == static_result(
        config@.index_files is Some,
        exists,
        is_dir,
        regex_match_result(config@.extensions, relative_uri_spec(uri@)),
        is_head,
    ));
    StaticPlan { file, action }
}

/// The error a request refused by a path's authentication is answered with.
pub open spec fn unauthorized(e: VetisError) -> bool {
    e matches VetisError::VirtualHost(VirtualHostError::Auth(m)) && m@ == "Unauthorized"@
}

/// Whether a request may reach the files of `config`: a path without authentication lets
/// every request through; one with basic authentication lets through only a request whose
/// `Authorization` header names a user and that user's password, and answers any other
/// (an unknown user, a wrong password, a malformed or missing header) with an `Auth` error
/// "Unauthorized". `None` when the check cannot run, because the hash stored for the named
/// user is an argon2 hash that cannot be read.
pub fn check_access(config: &StaticPathConfig, authorization: Option<&[u8]>) -> (r: Option<
    Result<(), VetisError>,
>)
    ensures
        config@.basic_auth is None ==> r == Some(Ok::<(), VetisError>(())),
        config@.basic_auth matches Some(a) ==> {
            &&& (r is None <==> !authenticate_ready(a@.users, a@.algorithm, opt_slice(authorization)))
            &&& r matches Some(Ok(())) ==> authenticate_spec(a@.users, a@.algorithm, opt_slice(authorization))
                == Ok::<bool, Seq<char>>(true)
            &&& r matches Some(Err(e)) ==> unauthorized(e) && authenticate_spec(
                a@.users,
                a@.algorithm,
                opt_slice(authorization),
            ) != Ok::<bool, Seq<char>>(true)
        },
{
    proof {
        reveal_strlit("Unauthorized");
    }
    match config.basic_auth() {
        None => Some(Ok(())),
        Some(auth) => match auth.try_authenticate(authorization) {
            None => None,
            Some(Ok(true)) => Some(Ok(())),
            Some(_) => Some(Err(VetisError::VirtualHost(VirtualHostError::Auth("Unauthorized".to_string())))),
        },
    }
}

/// The decimal digit `d` as a character.
pub open spec fn digit_char(d: nat) -> char {
    (d + 48) as char
}

/// The decimal form of `n`, without leading zeros.
pub open spec fn decimal_text(n: nat) -> Seq<char>
    decreases n,
{
    if n < 10 {
        seq![digit_char(n)]
    } else {
        decimal_text(n / 10).push(digit_char(n % 10))
    }
}

fn digit_str(d: u64) -> (r: &'static str)
    requires
        d < 10,
    ensures
        r@ == seq![digit_char(d as nat)],
{
    proof {
        reveal_strlit("0");
        reveal_strlit("1");
        reveal_strlit("2");
        reveal_strlit("3");
        reveal_strlit("4");
        reveal_strlit("5");
        reveal_strlit("6");
        reveal_strlit("7");
        reveal_strlit("8");
        reveal_strlit("9");
    }
    let r = match d {
        0 => "0",
        1 => "1",
        2 => "2",
        3 => "3",
        4 => "4",
        5 => "5",
        6 => "6",
        7 => "7",
        8 => "8",
        _ => "9",
    };
    assert(r@ =~= seq![digit_char(d as nat)]);
    r
}

/// Writes `n` in decimal.
pub fn decimal_string(n: u64) -> (r: String)
    ensures
        r@ == decimal_text(n as nat),
    decreases n,
{
    if n < 10 {
        digit_str(n).to_string()
    } else {
        let mut s = decimal_string(n / 10);
        s.append(digit_str(n % 10));
        s
    }
}

pub open spec fn invalid_metadata() -> VetisError {
    VetisError::VirtualHost(VirtualHostError::File(FileError::InvalidMetadata))
}

/// The headers that answer a `HEAD` request for a file of `size` bytes, last modified at
/// the time written `date`, of media type `mime` when known: its length, its date and its
/// type, in this order; an `InvalidMetadata` error when the date or the type is not a
/// valid header value.
pub open spec fn metadata_header_list(size: u64, date: Seq<char>, mime: Option<Seq<char>>) -> Result<
    Seq<(Seq<char>, Seq<char>)>,
    VetisError,
> {
    let base = seq![("content-length"@, decimal_text(size as nat)), ("last-modified"@, date)];
    if !header_value_accepted(date) {
        Err(invalid_metadata())
    } else {
        match mime {
            None => Ok(base),
            Some(m) => if header_value_accepted(m) {
                Ok(base.push(("content-type"@, m)))
            } else {
                Err(invalid_metadata())
            },
        }
    }
}

/// The headers of the answer to a `HEAD` request, given the date already written.
pub fn metadata_headers_with_date(size: u64, date: &str, mime: Option<&String>) -> (r: Result<
    Vec<(String, String)>,
    VetisError,
>)
    ensures
        r matches Ok(v) ==> metadata_header_list(size, date@, crate::model::opt_ref_text(mime))
            == Ok::<Seq<(Seq<char>, Seq<char>)>, VetisError>(pair_seq(v@)),
        r matches Err(e) ==> metadata_header_list(size, date@, crate::model::opt_ref_text(mime))
            == Err::<Seq<(Seq<char>, Seq<char>)>, VetisError>(e),
{
    proof {
        reveal_strlit("content-length");
        reveal_strlit("last-modified");
        reveal_strlit("content-type");
    }
    if !header_value_valid(date) {
        return Err(VetisError::VirtualHost(VirtualHostError::File(FileError::InvalidMetadata)));
    }
    let mut v: Vec<(String, String)> = Vec::new();
    v.push(("content-length".to_string(), decimal_string(size)));
    v.push(("last-modified".to_string(), date.to_string()));
    match mime {
        None => {},
        Some(m) => {
            if !header_value_valid(m.as_str()) {
                return Err(VetisError::VirtualHost(VirtualHostError::File(FileError::InvalidMetadata)));
            }
            v.push(("content-type".to_string(), m.clone()));
        },
    }
    assert(pair_seq(v@) =~= match crate::model::opt_ref_text(mime) {
        None => seq![("content-length"@, decimal_text(size as nat)), ("last-modified"@, date@)],
        Some(m) => seq![("content-length"@, decimal_text(size as nat)), ("last-modified"@, date@)].push(("content-type"@, m)),
    });
    Ok(v)
}

/// The headers of the answer to a `HEAD` request for a file with `metadata`: its length,
/// the RFC 2822 form of when it was last modified, and its media type when known. `None`
/// when that date cannot be written.
pub fn metadata_headers(metadata: &StaticFileMetadata) -> (r: Option<
    Result<Vec<(String, String)>, VetisError>,
>)
    ensures
        r is None <==> rfc2822_date(metadata@.modified) is None,
        r matches Some(Ok(v)) ==> metadata_header_list(
            metadata@.size,
            rfc2822_date(metadata@.modified)->0,
            metadata@.mime,
        ) == Ok::<Seq<(Seq<char>, Seq<char>)>, VetisError>(pair_seq(v@)),
        r matches Some(Err(e)) ==> metadata_header_list(
            metadata@.size,
            rfc2822_date(metadata@.modified)->0,
            metadata@.mime,
        ) == Err::<Seq<(Seq<char>, Seq<char>)>, VetisError>(e),
{
    let date = match format_date(metadata.modified()) {
        None => return None,
        Some(d) => d,
    };
    Some(metadata_headers_with_date(metadata.size(), date.as_str(), metadata.mime()))
}

} // verus!
