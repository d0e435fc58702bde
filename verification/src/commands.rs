//! The command layer: one module per sub-command, each with its
//! parameter struct, its argument-list builder, and the parser for the
//! server's output.

pub mod common;

pub mod add;
pub mod addremove;
pub mod annotate;
pub mod archive;
pub mod backout;
pub mod bookmark;
pub mod bookmarks;
pub mod branch;
pub mod branches;
pub mod bundle;
pub mod cat;
pub mod clone;
pub mod commit;
pub mod config;
pub mod copy;
pub mod diff;
pub mod export;
pub mod forget;
pub mod grep;
pub mod heads;
pub mod identify;
pub mod import;
pub mod incoming;
pub mod init;
pub mod log;
pub mod manifest;
pub mod merge;
pub mod mv;
pub mod outgoing;
pub mod parents;
pub mod paths;
pub mod phase;
pub mod pull;
pub mod push;
pub mod remove;
pub mod resolve;
pub mod revert;
pub mod root;
pub mod status;
pub mod summary;
pub mod tag;
pub mod tags;
pub mod tip;
pub mod update;
pub mod version;
