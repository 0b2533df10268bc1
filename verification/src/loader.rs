//! Loading: from the text of a configuration file, or from what reading the
//! file gave, to a configuration or the reason why there is none.

use crate::config::Config;
use crate::error::{ConfigError, ParseFault};
use crate::reader::{parse_document, toml_document};
use crate::schema::resolve;
use vstd::prelude::*;

verus! {

/// What loading a text has to give: a syntax fault where the parser refuses
/// the text, and else what the schema makes of the parsed document.
pub open spec fn loads_as(text: Seq<char>, r: Result<Config, ConfigError>) -> bool {
    match toml_document(text) {
        None => r matches Err(ConfigError::Parse(ParseFault::Syntax(_))),
        Some(content) => match resolve(content) {
            Ok(view) => r matches Ok(config) && config@ == view,
            Err(fault) => r matches Err(ConfigError::Parse(ParseFault::Schema(e))) && e == fault,
        },
    }
}

impl Config {
    /// Loads a configuration from TOML text. Every field of the result is
    /// filled in: from the document, or with its default. What was loaded
    /// can be written as a document again.
    pub fn load_from_str(text: &str) -> (r: Result<Config, ConfigError>)
        ensures
            loads_as(text@, r),
            r matches Ok(config) ==> config.atcoder.writable(),
    {
        match parse_document(text) {
            Err(fault) => Err(ConfigError::Parse(fault)),
            Ok(root) => match Config::from_document(&root) {
                Ok(config) => Ok(config),
                Err(fault) => Err(ConfigError::Parse(ParseFault::Schema(fault))),
            },
        }
    }

    /// Loads a configuration from what reading its file gave: the text, or
    /// the reason why the file could not be read, which is kept.
    pub fn load_from_read(read: Result<String, String>) -> (r: Result<Config, ConfigError>)
        ensures
            match read {
                Ok(text) => loads_as(text@, r),
                Err(reason) => r matches Err(ConfigError::Io(kept)) && kept@ == reason@,
            },
            r matches Ok(config) ==> config.atcoder.writable(),
    {
        match read {
            Ok(text) => Config::load_from_str(text.as_str()),
            Err(reason) => Err(ConfigError::Io(reason)),
        }
    }
}

} // verus!
