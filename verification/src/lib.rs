//! Configuration model of the submission archiver: the typed options, their
//! defaults and the rules by which a TOML document becomes a configuration.
//!
//! [`Config::load_from_str`] parses a text with the `toml` crate and reads the
//! configuration from the document; [`Config::from_document`] does the second
//! half alone, on a document given as plain data. [`schema::resolve`] states
//! what both have to return, and [`laws`] holds what follows for every
//! document. Nothing here touches the file system: [`bootstrap`] decides what
//! start-up does, and its caller does it.

pub mod bootstrap;
pub mod config;
pub mod document;
pub mod error;
pub mod laws;
pub mod loader;
pub mod reader;
pub mod schema;
pub mod writer;

pub use config::{
    default_atcoder_out_dir, default_chunk_size, default_languages, default_once_template,
    default_per_chunk_template, default_per_file_template, default_request_interval_ms,
    default_state_dir,
};
pub use config::{
    ArchiveTargets, AtCoderConfig, CommitMode, Config, GitConfig, LangRule, OutFormat, UseIndex,
};
pub use document::Item;
pub use error::{BootstrapError, ConfigError, Field, Flaw, ParseFault, SchemaError};
