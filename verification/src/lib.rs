//! Core engine of an interactive terminal emulator.
//!
//! The crate decodes the byte stream a pseudo-terminal emits into structured
//! terminal operations, maintains the visible character grid, tracks shell
//! prompts and command history heuristically, and keeps a bounded,
//! ANSI-stripped scrollback store with plain and regular-expression search.
//! A session registry composes those parts per session id; the surrounding
//! data shapes of the terminal surface live beside them.

pub mod accessibility;
pub mod ai;
pub mod ansi;
pub mod clipboard;
pub mod decode;
pub mod dev_tools;
pub mod execution_context;
pub mod filesystem;
pub mod grid;
pub mod monitor;
pub mod network;
pub mod outside;
pub mod params;
pub mod process;
pub mod registry;
pub mod search;
pub mod security;
pub mod session;
pub mod settings;
pub mod shell_hooks;
pub mod shell_integration;
pub mod tabs;
pub mod terminal;
pub mod terminal_types;
pub mod text;
pub mod theme;
pub mod workflows;
pub mod workspace;
