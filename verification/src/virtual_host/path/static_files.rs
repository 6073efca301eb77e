//! Configuration of a static-files path: its URI, the directory it serves, the file
//! extensions it accepts, its index files, its optional basic authentication and its
//! file cache.
use vstd::prelude::*;

use std::time::Duration;

use crate::config::auth::BasicAuthConfig;
use crate::errors::{ConfigError, VetisError};
use crate::model::{opt_text_seq, text_seq};
use crate::std_types::{duration_from_secs, seconds};

verus! {

broadcast use vstd::string::group_string_axioms;

/// Largest file (in bytes) kept in memory by default: 10 MiB.
pub const MAX_FILE_SIZE: usize = 10485760;

/// Default time to live of a cached file, in seconds.
pub const DEFAULT_TTL_SECS: u64 = 60;

/// Default time to idle of a cached file, in seconds.
pub const DEFAULT_TTI_SECS: u64 = 10;

/// Default number of cached files.
pub const DEFAULT_CAPACITY: u64 = 1000;

/// Abstract content of file-cache settings.
pub struct CacheView {
    pub max_file_size: usize,
    pub ttl: Duration,
    pub tti: Duration,
    pub capacity: u64,
}

/// The default file-cache settings.
pub open spec fn default_cache_view() -> CacheView {
    CacheView {
        max_file_size: MAX_FILE_SIZE,
        ttl: seconds(DEFAULT_TTL_SECS),
        tti: seconds(DEFAULT_TTI_SECS),
        capacity: DEFAULT_CAPACITY,
    }
}

/// Collects file-cache settings.
#[derive(Debug, Clone)]
pub struct StaticPathCacheBuilder {
    max_file_size: usize,
    ttl: Duration,
    tti: Duration,
    capacity: u64,
}

impl View for StaticPathCacheBuilder {
    type V = CacheView;

    closed spec fn view(&self) -> CacheView {
        CacheView {
            max_file_size: self.max_file_size,
            ttl: self.ttl,
            tti: self.tti,
            capacity: self.capacity,
        }
    }
}

impl StaticPathCacheBuilder {
    pub fn max_file_size(self, max_file_size: usize) -> (r: Self)
        ensures
            r@ == (CacheView { max_file_size, ..self@ }),
    {
        StaticPathCacheBuilder { max_file_size, ..self }
    }

    pub fn ttl(self, ttl: Duration) -> (r: Self)
        ensures
            r@ == (CacheView { ttl, ..self@ }),
    {
        StaticPathCacheBuilder { ttl, ..self }
    }

    pub fn tti(self, tti: Duration) -> (r: Self)
        ensures
            r@ == (CacheView { tti, ..self@ }),
    {
        StaticPathCacheBuilder { tti, ..self }
    }

    pub fn capacity(self, capacity: u64) -> (r: Self)
        ensures
            r@ == (CacheView { capacity, ..self@ }),
    {
        StaticPathCacheBuilder { capacity, ..self }
    }

    pub fn build(self) -> (r: StaticPathCache)
        ensures
            r@ == self@,
    {
        StaticPathCache {
            max_file_size: self.max_file_size,
            ttl: self.ttl,
            tti: self.tti,
            capacity: self.capacity,
        }
    }
}

/// File-cache settings of a static path.
#[derive(Debug, Clone)]
pub struct StaticPathCache {
    max_file_size: usize,
    ttl: Duration,
    tti: Duration,
    capacity: u64,
}

impl View for StaticPathCache {
    type V = CacheView;

    closed spec fn view(&self) -> CacheView {
        CacheView {
            max_file_size: self.max_file_size,
            ttl: self.ttl,
            tti: self.tti,
            capacity: self.capacity,
        }
    }
}

impl Default for StaticPathCache {
    fn default() -> (r: Self)
        ensures
            r@ == default_cache_view(),
    {
        StaticPathCache {
            max_file_size: MAX_FILE_SIZE,
            ttl: duration_from_secs(DEFAULT_TTL_SECS),
            tti: duration_from_secs(DEFAULT_TTI_SECS),
            capacity: DEFAULT_CAPACITY,
        }
    }
}

impl StaticPathCache {
    /// A builder holding the default settings.
    pub fn builder() -> (r: StaticPathCacheBuilder)
        ensures
            r@ == default_cache_view(),
    {
        StaticPathCacheBuilder {
            max_file_size: MAX_FILE_SIZE,
            ttl: duration_from_secs(DEFAULT_TTL_SECS),
            tti: duration_from_secs(DEFAULT_TTI_SECS),
            capacity: DEFAULT_CAPACITY,
        }
    }

    pub fn max_file_size(&self) -> (r: usize)
        ensures
            r == self@.max_file_size,
    {
        self.max_file_size
    }

    pub fn ttl(&self) -> (r: Duration)
        ensures
            r == self@.ttl,
    {
        self.ttl
    }

    pub fn tti(&self) -> (r: Duration)
        ensures
            r == self@.tti,
    {
        self.tti
    }

    pub fn capacity(&self) -> (r: u64)
        ensures
            r == self@.capacity,
    {
        self.capacity
    }
}

/// Abstract content of a static-files path configuration.
pub struct StaticPathView {
    pub uri: Seq<char>,
    pub extensions: Seq<char>,
    pub directory: Seq<char>,
    pub index_files: Option<Seq<Seq<char>>>,
    pub basic_auth: Option<BasicAuthConfig>,
    pub cache: Option<CacheView>,
}

pub open spec fn opt_cache(c: Option<StaticPathCache>) -> Option<CacheView> {
    match c {
        Some(c) => Some(c@),
        None => None,
    }
}

/// Collects the settings of a static-files path.
pub struct StaticPathConfigBuilder {
    uri: String,
    extensions: String,
    directory: String,
    index_files: Option<Vec<String>>,
    basic_auth: Option<BasicAuthConfig>,
    cache: Option<StaticPathCache>,
}

impl View for StaticPathConfigBuilder {
    type V = StaticPathView;

    closed spec fn view(&self) -> StaticPathView {
        StaticPathView {
            uri: self.uri@,
            extensions: self.extensions@,
            directory: self.directory@,
            index_files: opt_text_seq(self.index_files),
            basic_auth: self.basic_auth,
            cache: opt_cache(self.cache),
        }
    }
}

impl StaticPathConfigBuilder {
    pub fn uri(self, uri: &str) -> (r: Self)
        ensures
            r@ == (StaticPathView { uri: uri@, ..self@ }),
    {
        StaticPathConfigBuilder { uri: uri.to_string(), ..self }
    }

    pub fn extensions(self, extensions: &str) -> (r: Self)
        ensures
            r@ == (StaticPathView { extensions: extensions@, ..self@ }),
    {
        StaticPathConfigBuilder { extensions: extensions.to_string(), ..self }
    }

    pub fn directory(self, directory: &str) -> (r: Self)
        ensures
            r@ == (StaticPathView { directory: directory@, ..self@ }),
    {
        StaticPathConfigBuilder { directory: directory.to_string(), ..self }
    }

    pub fn index_files(self, index_files: Vec<String>) -> (r: Self)
        ensures
            r@ == (StaticPathView { index_files: Some(text_seq(index_files@)), ..self@ }),
    {
        StaticPathConfigBuilder { index_files: Some(index_files), ..self }
    }

    pub fn basic_auth(self, basic_auth: BasicAuthConfig) -> (r: Self)
        ensures
            r@ == (StaticPathView { basic_auth: Some(basic_auth), ..self@ }),
    {
        StaticPathConfigBuilder { basic_auth: Some(basic_auth), ..self }
    }

    pub fn cache(self, cache: StaticPathCache) -> (r: Self)
        ensures
            r@ == (StaticPathView { cache: Some(cache@), ..self@ }),
    {
        StaticPathConfigBuilder { cache: Some(cache), ..self }
    }

    /// Checks that the URI, the extension pattern and the directory are all given.
    pub fn build(self) -> (r: Result<StaticPathConfig, VetisError>)
        ensures
            self@.uri.len() == 0 ==> (r matches Err(VetisError::Config(ConfigError::Path(m)))
                && m@ == "URI cannot be empty"@),
            self@.uri.len() != 0 && self@.extensions.len() == 0 ==> (r matches Err(
                VetisError::Config(ConfigError::Path(m)),
            ) && m@ == "Extensions cannot be empty"@),
            self@.uri.len() != 0 && self@.extensions.len() != 0 && self@.directory.len() == 0 ==> (
            r matches Err(VetisError::Config(ConfigError::Path(m))) && m@
                == "Directory cannot be empty"@),
            self@.uri.len() != 0 && self@.extensions.len() != 0 && self@.directory.len() != 0 ==> (
            r matches Ok(c) && c@ == self@),
    {
        if self.uri.as_str().is_empty() {
            return Err(VetisError::Config(ConfigError::Path("URI cannot be empty".to_string())));
        }
        if self.extensions.as_str().is_empty() {
            return Err(
                VetisError::Config(ConfigError::Path("Extensions cannot be empty".to_string())),
            );
        }
        if self.directory.as_str().is_empty() {
            return Err(
                VetisError::Config(ConfigError::Path("Directory cannot be empty".to_string())),
            );
        }
        Ok(
            StaticPathConfig {
                uri: self.uri,
                extensions: self.extensions,
                directory: self.directory,
                index_files: self.index_files,
                basic_auth: self.basic_auth,
                cache: self.cache,
            },
        )
    }
}

/// Settings of a static-files path.
pub struct StaticPathConfig {
    uri: String,
    extensions: String,
    directory: String,
    index_files: Option<Vec<String>>,
    basic_auth: Option<BasicAuthConfig>,
    cache: Option<StaticPathCache>,
}

impl View for StaticPathConfig {
    type V = StaticPathView;

    closed spec fn view(&self) -> StaticPathView {
        StaticPathView {
            uri: self.uri@,
            extensions: self.extensions@,
            directory: self.directory@,
            index_files: opt_text_seq(self.index_files),
            basic_auth: self.basic_auth,
            cache: opt_cache(self.cache),
        }
    }
}

impl Clone for StaticPathConfig {
    /// A copy with the same URI, extension pattern and directory.
    fn clone(&self) -> (r: Self)
        ensures
            r@.uri == self@.uri,
            r@.extensions == self@.extensions,
            r@.directory == self@.directory,
    {
        proof {
            use_type_invariant(self);
        }
        StaticPathConfig {
            uri: self.uri.clone(),
            extensions: self.extensions.clone(),
            directory: self.directory.clone(),
            index_files: self.index_files.clone(),
            basic_auth: self.basic_auth.clone(),
            cache: self.cache.clone(),
        }
    }
}

impl StaticPathConfig {
    /// A built static path has a URI, an extension pattern and a directory.
    #[verifier::type_invariant]
    spec fn well_formed(&self) -> bool {
        self.uri@.len() > 0 && self.extensions@.len() > 0 && self.directory@.len() > 0
    }

    /// A builder serving `.` under `/` for `.html` files, with no index files, no
    /// authentication and the default cache settings.
    pub fn builder() -> (r: StaticPathConfigBuilder)
        ensures
            r@ == (StaticPathView {
                uri: "/"@,
                extensions: ".html"@,
                directory: "."@,
                index_files: None,
                basic_auth: None,
                cache: Some(default_cache_view()),
            }),
    {
        StaticPathConfigBuilder {
            uri: "/".to_string(),
            extensions: ".html".to_string(),
            directory: ".".to_string(),
            index_files: None,
            basic_auth: None,
            cache: Some(StaticPathCache::default()),
        }
    }

    pub fn uri(&self) -> (r: &str)
        ensures
            r@ == self@.uri,
            r@.len() > 0,
    {
        proof {
            use_type_invariant(self);
        }
        self.uri.as_str()
    }

    pub fn extensions(&self) -> (r: &str)
        ensures
            r@ == self@.extensions,
            r@.len() > 0,
    {
        proof {
            use_type_invariant(self);
        }
        self.extensions.as_str()
    }

    pub fn directory(&self) -> (r: &str)
        ensures
            r@ == self@.directory,
            r@.len() > 0,
    {
        proof {
            use_type_invariant(self);
        }
        self.directory.as_str()
    }

    pub fn index_files(&self) -> (r: &Option<Vec<String>>)
        ensures
            opt_text_seq(*r) == self@.index_files,
    {
        &self.index_files
    }

    pub fn basic_auth(&self) -> (r: &Option<BasicAuthConfig>)
        ensures
            *r == self@.basic_auth,
    {
        &self.basic_auth
    }

    pub fn cache(&self) -> (r: &Option<StaticPathCache>)
        ensures
            opt_cache(*r) == self@.cache,
    {
        &self.cache
    }
}

} // verus!
