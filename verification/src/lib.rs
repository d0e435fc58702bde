//! Client-side engine for the Mercurial command-server protocol.
//!
//! The library covers the wire format of the command server (request
//! framing, response-frame demultiplexing, the `hello` handshake), the
//! error and result model, and the per-command argument builders and
//! output parsers.  Process spawning and pipe I/O live outside the
//! library; anything that talks to a real server does so through the
//! [`client::Runner`] trait.

pub mod builder;
pub mod client;
pub mod codec;
pub mod commands;
pub mod protocol;
pub mod scan;

pub use self::builder::MkArg;
pub use self::client::{Basic, HglibError, NoPrompt, Playback, Prompt, Runner};
pub use self::commands::{
    add, addremove, annotate, archive, backout, bookmark, bookmarks, branch, branches, bundle,
    cat, clone, commit, common, config, copy, diff, export, forget, grep, heads, identify, import,
    incoming, init, log, manifest, merge, mv, outgoing, parents, paths, phase, pull, push, remove,
    resolve, revert, root, status, summary, tag, tags, tip, update, version,
};
