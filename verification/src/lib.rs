//! Line-oriented text search over a file or a directory tree, with every
//! match handed to a caller-supplied callback and every failure reported as
//! one stable status code.
//!
//! The crate performs no input or output of its own: the caller describes
//! what it found on disk as a [`tree::PathTarget`], and the dispatcher decides
//! which files are searched, in which order matches are delivered, and which
//! status ends the call.

pub mod api;
pub mod dispatch;
pub mod engine;
pub mod laws;
pub mod parse;
pub mod plan;
pub mod status;
pub mod tree;
pub mod types;

pub use crate::api::{search_dir, search_file, search_path};
pub use crate::status::SearchStatusCode;
pub use crate::types::{CallbackError, SearchResult, SearchResultCallbackSink};
