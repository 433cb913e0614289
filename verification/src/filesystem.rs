//! Filesystem-browsing data shapes: entries, permissions, metadata, sorting, operations and search matches.

use vstd::prelude::*;

verus! {

#[derive(Debug, Clone, PartialEq)]
pub enum EntryType {
    File,
    Directory,
    Symlink,
    Pipe,
    Socket,
    BlockDevice,
    CharDevice,
    Unknown,
}

#[derive(Debug, Clone, PartialEq)]
pub struct FilePermissions {
    pub readable: bool,
    pub writable: bool,
    pub executable: bool,
    pub owner: String,
    pub group: String,
    pub mode: String,
}

#[derive(Debug, Clone, PartialEq)]
pub struct FileMetadata {
    pub line_count: Option<usize>,
    pub encoding: Option<String>,
    pub language: Option<String>,
    pub is_binary: bool,
    pub is_executable: bool,
    pub is_archive: bool,
    pub is_image: bool,
    pub is_video: bool,
    pub is_audio: bool,
    pub checksum: Option<String>,
}

#[derive(Debug, Clone, PartialEq)]
pub enum SortBy {
    Name,
    Size,
    Modified,
    Created,
    Type,
    Extension,
}

#[derive(Debug, Clone, PartialEq)]
pub enum SortOrder {
    Ascending,
    Descending,
}

#[derive(Debug, Clone, PartialEq)]
pub enum OperationType {
    Copy,
    Move,
    Delete,
    Archive,
    Extract,
    Compress,
    Encrypt,
    Decrypt,
}

#[derive(Debug, Clone, PartialEq)]
pub enum OperationStatus {
    Pending,
    Running,
    Paused,
    Completed,
    Failed,
    Cancelled,
}

#[derive(Debug, Clone, PartialEq)]
pub enum WatchEventType {
    Created,
    Modified,
    Deleted,
    Moved,
    All,
}

#[derive(Debug, Clone, PartialEq)]
pub struct PathCompletion {
    pub path: String,
    pub display: String,
    pub entry_type: EntryType,
    pub is_accessible: bool,
    pub priority: i32,
}

#[derive(Debug, Clone, PartialEq)]
pub struct SearchMatch {
    pub match_type: MatchType,
    pub text: String,
    pub line_number: Option<usize>,
    pub column_start: Option<usize>,
    pub column_end: Option<usize>,
}

#[derive(Debug, Clone, PartialEq)]
pub enum MatchType {
    FileName,
    FilePath,
    FileContent,
    FileType,
    FileSize,
}

#[derive(Debug, Clone, PartialEq)]
pub enum SearchType {
    Name,
    Content,
    Both,
}

} // verus!
