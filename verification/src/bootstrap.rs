//! Start-up, as far as it decides: which file to read, and what follows from
//! what reading it and creating the state directory gave. The caller reads
//! and creates; nothing here touches the file system.

use crate::config::Config;
use crate::error::{BootstrapError, ConfigError};
use crate::loader::loads_as;
use vstd::prelude::*;

verus! {

/// The configuration file that is read where the command line names none.
pub const DEFAULT_CONFIG_PATH: &'static str = "config.toml";

/// What start-up does once the configuration file was read, or was not.
#[derive(Debug, Clone, PartialEq, Eq)]
pub enum Step {
    /// The configuration is loaded: create its `state_dir` with every
    /// missing parent, and hand what came of it to [`after_create`].
    CreateStateDir(Config),
    /// There is no configuration: stop with this error and create nothing.
    Fail(ConfigError),
}

/// The path of the configuration file: the first argument of the command
/// line, or `config.toml` where there is none.
pub fn config_path(argument: Option<String>) -> (r: String)
    ensures
        r@ == match argument {
            Some(path) => path@,
            None => DEFAULT_CONFIG_PATH@,
        },
{
    match argument {
        Some(path) => path,
        None => DEFAULT_CONFIG_PATH.to_owned(),
    }
}

/// Decides on what reading the configuration file gave. A file that could not
/// be read, or that holds no configuration, ends start-up before anything is
/// created; its error is handed on as it is.
pub fn after_read(read: Result<String, String>) -> (r: Step)
    ensures
        match read {
            Err(reason) => r matches Step::Fail(ConfigError::Io(kept)) && kept@ == reason@,
            Ok(text) => match r {
                Step::CreateStateDir(config) => loads_as(text@, Ok(config)),
                Step::Fail(error) => loads_as(text@, Err(error)),
            },
        },
{
    match Config::load_from_read(read) {
        Ok(config) => Step::CreateStateDir(config),
        Err(error) => Step::Fail(error),
    }
}

/// Decides on what creating the state directory gave: the configuration goes
/// on to the archiver, or the failure is reported with the path that was tried.
pub fn after_create(config: Config, created: Result<(), String>) -> (r: Result<
    Config,
    BootstrapError,
>)
    ensures
        match created {
            Ok(_) => r == Ok::<Config, BootstrapError>(config),
            Err(reason) => r matches Err(BootstrapError::StateDir { path, reason: kept })
                && path@ == config.state_dir@ && kept@ == reason@,
        },
{
    match created {
        Ok(_) => Ok(config),
        Err(reason) => {
            let path = config.state_dir.clone();
            Err(BootstrapError::StateDir { path, reason })
        },
    }
}

} // verus!
