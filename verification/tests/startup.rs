use submission_archiver::bootstrap::{after_create, after_read, config_path, Step};
use submission_archiver::bootstrap::DEFAULT_CONFIG_PATH;
use submission_archiver::{BootstrapError, Config, ConfigError, Field, Flaw, ParseFault, SchemaError};

#[test]
fn config_path_defaults_to_config_toml() {
    assert_eq!(config_path(None), "config.toml");
    assert_eq!(DEFAULT_CONFIG_PATH, "config.toml");
}

#[test]
fn config_path_takes_the_argument() {
    assert_eq!(config_path(Some("conf/my.toml".to_string())), "conf/my.toml");
    assert_eq!(config_path(Some(String::new())), "");
}

#[test]
fn a_failed_read_ends_start_up_with_a_configuration_error() {
    let step = after_read(Err("not found".to_string()));
    assert_eq!(step, Step::Fail(ConfigError::Io("not found".to_string())));
}

#[test]
fn a_text_that_is_no_configuration_ends_start_up() {
    let step = after_read(Ok("[atcoder]\nuser_id = 1\n".to_string()));
    let fault = SchemaError { field: Field::UserId, flaw: Flaw::WrongType };
    assert_eq!(step, Step::Fail(ConfigError::Parse(ParseFault::Schema(fault))));
    let step = after_read(Ok("= 1".to_string()));
    assert!(matches!(step, Step::Fail(ConfigError::Parse(ParseFault::Syntax(_)))));
}

#[test]
fn a_loaded_configuration_asks_for_its_state_directory() {
    let step = after_read(Ok("state_dir = \"work/state\"\n".to_string()));
    let mut expected = Config::default();
    expected.state_dir = "work/state".to_string();
    assert_eq!(step, Step::CreateStateDir(expected));
}

#[test]
fn after_create_hands_the_configuration_on() {
    let config = Config::default();
    assert_eq!(after_create(config.clone(), Ok(())), Ok(config));
}

#[test]
fn after_create_reports_the_path_and_the_reason() {
    let mut config = Config::default();
    config.state_dir = "/proc/nope".to_string();
    let error = after_create(config, Err("read-only".to_string())).unwrap_err();
    assert_eq!(
        error,
        BootstrapError::StateDir { path: "/proc/nope".to_string(), reason: "read-only".to_string() }
    );
    assert_eq!(error.describe(), "cannot create the state directory /proc/nope: read-only");
}

#[test]
fn a_configuration_error_is_described_as_it_is() {
    let error = BootstrapError::Config(ConfigError::Io("gone".to_string()));
    assert_eq!(error.describe(), "cannot read the configuration: gone");
}
