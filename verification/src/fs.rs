//! Files served from memory or from disk, with their metadata.
use vstd::prelude::*;

use std::path::PathBuf;
use std::time::SystemTime;

use crate::model::{opt_ref_text, opt_text};
use crate::std_types::system_time_now;

verus! {

/// Abstract content of file metadata.
pub struct FileMetadataView {
    pub mime: Option<Seq<char>>,
    pub size: u64,
    pub modified: SystemTime,
    pub etag: Option<Seq<char>>,
}

/// Collects the metadata of a file.
pub struct FileMetadataBuilder {
    mime: Option<String>,
    size: u64,
    modified: SystemTime,
    etag: Option<String>,
}

impl View for FileMetadataBuilder {
    type V = FileMetadataView;

    closed spec fn view(&self) -> FileMetadataView {
        FileMetadataView {
            mime: opt_text(self.mime),
            size: self.size,
            modified: self.modified,
            etag: opt_text(self.etag),
        }
    }
}

impl FileMetadataBuilder {
    pub fn mime(self, mime: Option<String>) -> (r: Self)
        ensures
            r@ == (FileMetadataView { mime: opt_text(mime), ..self@ }),
    {
        FileMetadataBuilder { mime, ..self }
    }

    pub fn size(self, size: u64) -> (r: Self)
        ensures
            r@ == (FileMetadataView { size, ..self@ }),
    {
        FileMetadataBuilder { size, ..self }
    }

    pub fn modified(self, modified: SystemTime) -> (r: Self)
        ensures
            r@ == (FileMetadataView { modified, ..self@ }),
    {
        FileMetadataBuilder { modified, ..self }
    }

    pub fn etag(self, etag: Option<String>) -> (r: Self)
        ensures
            r@ == (FileMetadataView { etag: opt_text(etag), ..self@ }),
    {
        FileMetadataBuilder { etag, ..self }
    }

    pub fn build(self) -> (r: FileMetadata)
        ensures
            r@ == self@,
    {
        FileMetadata { mime: self.mime, size: self.size, modified: self.modified, etag: self.etag }
    }
}

/// Metadata of a file: content type, size, modification time and entity tag.
#[derive(Clone)]
pub struct FileMetadata {
    mime: Option<String>,
    size: u64,
    modified: SystemTime,
    etag: Option<String>,
}

impl View for FileMetadata {
    type V = FileMetadataView;

    closed spec fn view(&self) -> FileMetadataView {
        FileMetadataView {
            mime: opt_text(self.mime),
            size: self.size,
            modified: self.modified,
            etag: opt_text(self.etag),
        }
    }
}

impl FileMetadata {
    /// A builder with no content type, size 0, the current time and no entity tag.
    pub fn builder() -> (r: FileMetadataBuilder)
        ensures
            r@.mime is None,
            r@.size == 0,
            r@.etag is None,
    {
        FileMetadataBuilder { mime: None, size: 0, modified: system_time_now(), etag: None }
    }

    pub fn mime(&self) -> (r: Option<&String>)
        ensures
            opt_ref_text(r) == self@.mime,
    {
        self.mime.as_ref()
    }

    pub fn size(&self) -> (r: u64)
        ensures
            r == self@.size,
    {
        self.size
    }

    pub fn modified(&self) -> (r: SystemTime)
        ensures
            r == self@.modified,
    {
        self.modified
    }

    pub fn etag(&self) -> (r: Option<&String>)
        ensures
            opt_ref_text(r) == self@.etag,
    {
        self.etag.as_ref()
    }
}

/// Access to a file's metadata and content.
pub trait File {
    fn metadata(&self) -> &FileMetadata;

    fn data(&self) -> Option<&Vec<u8>>;

    fn path(&self) -> Option<&PathBuf>;
}

/// A file whose content is held in memory, or one that is read from its path.
#[derive(Clone)]
pub enum FileSource {
    Data { data: Vec<u8>, metadata: FileMetadata },
    Path { path: PathBuf, metadata: FileMetadata },
}

impl File for FileSource {
    fn metadata(&self) -> (r: &FileMetadata)
        ensures
            *r == match self {
                FileSource::Data { metadata, .. } => *metadata,
                FileSource::Path { metadata, .. } => *metadata,
            },
    {
        match self {
            FileSource::Data { metadata, .. } => metadata,
            FileSource::Path { metadata, .. } => metadata,
        }
    }

    fn data(&self) -> (r: Option<&Vec<u8>>)
        ensures
            match self {
                FileSource::Data { data, .. } => r == Some(data),
                FileSource::Path { .. } => r is None,
            },
    {
        match self {
            FileSource::Data { data, .. } => Some(data),
            FileSource::Path { .. } => None,
        }
    }

    fn path(&self) -> (r: Option<&PathBuf>)
        ensures
            match self {
                FileSource::Data { .. } => r is None,
                FileSource::Path { path, .. } => r == Some(path),
            },
    {
        match self {
            FileSource::Data { .. } => None,
            FileSource::Path { path, .. } => Some(path),
        }
    }
}

} // verus!
