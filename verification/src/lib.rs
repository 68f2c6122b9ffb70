//! A packaging and lifecycle engine for reusable project templates.
//!
//! A template is a named snapshot of a directory tree together with the
//! commands to run after it is expanded. The crate holds the decisions of the
//! engine: how the fields of a capture are merged, which paths the ignore
//! patterns keep out, what goes into a record, how commands are split and run
//! in order, how the entries of an archive are drawn as a tree.
//!
//! The engine touches nothing itself. [`templater::Templater`] serves one
//! request as a conversation: it asks its host for one effect at a time
//! ([`protocol::Request`]) and decides on what the host reports
//! ([`protocol::Reply`]). [`conversation`] states what the engine asks, and
//! in which order, in whole conversations; [`world`] states what follows for
//! the metadata store and the archive artifacts when the host keeps its word.

pub mod archive;
pub mod cli;
pub mod conversation;
pub mod definition;
pub mod edit;
pub mod error;
pub mod filter;
pub mod listing;
pub mod path;
pub mod protocol;
pub mod runner;
pub mod template;
pub mod templater;
pub mod text;
pub mod tree;
pub mod world;
