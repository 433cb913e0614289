//! Clipboard and selection data shapes.

use vstd::prelude::*;

verus! {

#[derive(Debug, Clone, PartialEq)]
pub enum SelectionType {
    Character,  // Normal text selection
    Word,       // Word-based selection
    Line,       // Line-based selection
    Block,      // Block/rectangular selection
    Stream,     // Streaming selection
}

#[derive(Debug, Clone, PartialEq)]
pub struct SelectionMetadata {
    pub source: String,
    pub command_context: Option<String>,
    pub file_path: Option<String>,
    pub is_sensitive: bool,
    pub tags: Vec<String>,
}

#[derive(Debug, Clone, PartialEq)]
pub enum ClipboardContentType {
    PlainText,
    RichText,
    Html,
    Image,
    File,
    Command,
    Output,
    Code,
    Url,
    Path,
}

#[derive(Debug, Clone, PartialEq)]
pub enum ClipboardSource {
    Terminal,
    System,
    Manual,
    Command,
    File,
    Selection,
}

#[derive(Debug, Clone, PartialEq)]
pub struct ClipboardMetadata {
    pub language: Option<String>,
    pub file_extension: Option<String>,
    pub mime_type: Option<String>,
    pub encoding: String,
    pub line_count: usize,
    pub char_count: usize,
    pub word_count: usize,
    pub is_multiline: bool,
    pub contains_ansi: bool,
    pub security_level: SecurityLevel,
}

#[derive(Debug, Clone, PartialEq)]
pub enum SecurityLevel {
    Public,     // Safe to share
    Internal,   // Internal use only
    Private,    // Contains sensitive data
    Secret,     // Contains secrets/passwords
}

#[derive(Debug, Clone, PartialEq)]
pub enum MultiSelectionMode {
    Sequential,  // Selections in order
    Block,       // Block selections
    Scattered,   // Non-contiguous selections
}

#[derive(Debug, Clone, PartialEq)]
pub struct ClipboardSync {
    pub enabled: bool,
    pub sync_to_system: bool,
    pub sync_from_system: bool,
    pub auto_detect_content_type: bool,
    pub preserve_formatting: bool,
    pub sanitize_content: bool,
}

} // verus!
