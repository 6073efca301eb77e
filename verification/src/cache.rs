//! Settings of the in-memory file cache.
use vstd::prelude::*;

use std::time::Duration;

use crate::std_types::{duration_from_secs, seconds};

verus! {

/// Largest file (in bytes) kept in memory by default: 10 MiB.
pub const MAX_FILE_SIZE: usize = 10485760;

/// Default time to live of a cached file, in seconds.
pub const DEFAULT_TTL_SECS: u64 = 60;

/// Default time to idle of a cached file, in seconds.
pub const DEFAULT_TTI_SECS: u64 = 10;

/// Default number of cached files.
pub const DEFAULT_CAPACITY: u64 = 1000;

/// Abstract content of file-cache settings.
pub struct CacheView {
    pub max_file_size: usize,
    pub ttl: Duration,
    pub tti: Duration,
    pub capacity: u64,
}

/// The default file-cache settings.
pub open spec fn default_cache_view() -> CacheView {
    CacheView {
        max_file_size: MAX_FILE_SIZE,
        ttl: seconds(DEFAULT_TTL_SECS),
        tti: seconds(DEFAULT_TTI_SECS),
        capacity: DEFAULT_CAPACITY,
    }
}

/// Collects file-cache settings.
#[derive(Debug, Clone)]
pub struct CacheConfigBuilder {
    max_file_size: usize,
    ttl: Duration,
    tti: Duration,
    capacity: u64,
}

impl View for CacheConfigBuilder {
    type V = CacheView;

    closed spec fn view(&self) -> CacheView {
        CacheView {
            max_file_size: self.max_file_size,
            ttl: self.ttl,
            tti: self.tti,
            capacity: self.capacity,
        }
    }
}

impl CacheConfigBuilder {
    pub fn max_file_size(self, max_file_size: usize) -> (r: Self)
        ensures
            r@ == (CacheView { max_file_size, ..self@ }),
    {
        CacheConfigBuilder { max_file_size, ..self }
    }

    pub fn ttl(self, ttl: Duration) -> (r: Self)
        ensures
            r@ == (CacheView { ttl, ..self@ }),
    {
        CacheConfigBuilder { ttl, ..self }
    }

    pub fn tti(self, tti: Duration) -> (r: Self)
        ensures
            r@ == (CacheView { tti, ..self@ }),
    {
        CacheConfigBuilder { tti, ..self }
    }

    pub fn capacity(self, capacity: u64) -> (r: Self)
        ensures
            r@ == (CacheView { capacity, ..self@ }),
    {
        CacheConfigBuilder { capacity, ..self }
    }

    pub fn build(self) -> (r: CacheConfig)
        ensures
            r@ == self@,
    {
        CacheConfig {
            max_file_size: self.max_file_size,
            ttl: self.ttl,
            tti: self.tti,
            capacity: self.capacity,
        }
    }
}

/// File-cache settings of a static path.
#[derive(Debug, Clone)]
pub struct CacheConfig {
    max_file_size: usize,
    ttl: Duration,
    tti: Duration,
    capacity: u64,
}

impl View for CacheConfig {
    type V = CacheView;

    closed spec fn view(&self) -> CacheView {
        CacheView {
            max_file_size: self.max_file_size,
            ttl: self.ttl,
            tti: self.tti,
            capacity: self.capacity,
        }
    }
}

impl Default for CacheConfig {
    fn default() -> (r: Self)
        ensures
            r@ == default_cache_view(),
    {
        CacheConfig {
            max_file_size: MAX_FILE_SIZE,
            ttl: duration_from_secs(DEFAULT_TTL_SECS),
            tti: duration_from_secs(DEFAULT_TTI_SECS),
            capacity: DEFAULT_CAPACITY,
        }
    }
}

impl CacheConfig {
    /// A builder holding the default settings.
    pub fn builder() -> (r: CacheConfigBuilder)
        ensures
            r@ == default_cache_view(),
    {
        CacheConfigBuilder {
            max_file_size: MAX_FILE_SIZE,
            ttl: duration_from_secs(DEFAULT_TTL_SECS),
            tti: duration_from_secs(DEFAULT_TTI_SECS),
            capacity: DEFAULT_CAPACITY,
        }
    }

    pub fn max_file_size(&self) -> (r: usize)
        ensures
            r == self@.max_file_size,
    {
        self.max_file_size
    }

    pub fn ttl(&self) -> (r: Duration)
        ensures
            r == self@.ttl,
    {
        self.ttl
    }

    pub fn tti(&self) -> (r: Duration)
        ensures
            r == self@.tti,
    {
        self.tti
    }

    pub fn capacity(&self) -> (r: u64)
        ensures
            r == self@.capacity,
    {
        self.capacity
    }
}

} // verus!
