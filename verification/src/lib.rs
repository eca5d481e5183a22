//! Loading and validating the configuration of a multi-project compiler.
//!
//! A configuration document names the source directories of every source
//! set, the glob patterns that exclude files, and the projects to compile.
//! The library decodes such a document strictly, assembles the runtime
//! [`config::Config`] and checks it against a record of the filesystem.
//! It performs no I/O itself: the caller reads the document, looks at the
//! paths the library asks about, and hands both in as plain values.
//!
//! - [`json`]: JSON values and the parser behind them.
//! - [`schema`]: what a JSON value means as a configuration document.
//! - [`decode`]: the decoder that computes that meaning.
//! - [`strictness`]: the schema is closed, and what decodes is well formed.
//! - [`filesystem`]: the record of what stands on disk.
//! - [`config`]: the configuration, its validation and loading.
//! - [`laws`]: what validation guarantees.
//! - [`errors`]: everything that can go wrong.
//! - [`scan`]: the two scans over indexed families that the rest is stated in.

pub mod config;
pub mod decode;
pub mod errors;
pub mod filesystem;
pub mod json;
pub mod laws;
pub mod scan;
pub mod schema;
pub mod strictness;
