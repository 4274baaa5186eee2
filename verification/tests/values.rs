use index_config::error::Error;
use index_config::info::{ConfigSource, Info, ENV_VAR_CONFIG_TOML, ENV_VAR_CONFIG_TOML_PATH};
use index_config::metadata::{App, Metadata, Purpose, Version, LATEST_VERSION, VERSION_2};
use index_config::tsl::{Tsl, FREE_PORT};

#[test]
fn toml_text_from_the_environment_has_priority() {
    let info = Info::new("default.toml".to_string(), Some("a = 1".to_string()), Some("env.toml".to_string())).unwrap();
    assert_eq!(info.source(), ConfigSource::TomlText("a = 1".to_string()));
}

#[test]
fn the_file_path_from_the_environment_replaces_the_default() {
    let info = Info::new("default.toml".to_string(), None, Some("env.toml".to_string())).unwrap();
    assert_eq!(info.source(), ConfigSource::TomlFile("env.toml".to_string()));
}

#[test]
fn the_default_file_path_is_used_when_the_environment_gives_none() {
    let info = Info::new("default.toml".to_string(), None, None).unwrap();
    assert_eq!(info.source(), ConfigSource::TomlFile("default.toml".to_string()));
}

#[test]
fn info_from_toml_reads_the_given_text() {
    let info = Info::from_toml("[metadata]");
    assert_eq!(info.source(), ConfigSource::TomlText("[metadata]".to_string()));
}

#[test]
fn default_info_reads_the_empty_file_path() {
    assert_eq!(Info::default().source(), ConfigSource::TomlFile(String::new()));
}

#[test]
fn environment_variable_names() {
    assert_eq!(ENV_VAR_CONFIG_TOML, "TORRUST_INDEX_CONFIG_TOML");
    assert_eq!(ENV_VAR_CONFIG_TOML_PATH, "TORRUST_INDEX_CONFIG_TOML_PATH");
}

#[test]
fn version_constructors() {
    assert_eq!(Version::new("1.2.3").schema_version, "1.2.3");
    assert_eq!(Version::latest(), Version::new("2.0.0"));
    assert_eq!(Version::default(), Version::latest());
    assert_eq!(Version::default_semver(), "2.0.0");
    assert_eq!(LATEST_VERSION, "2.0.0");
    assert_eq!(VERSION_2, "2.0.0");
}

#[test]
fn metadata_defaults() {
    assert_eq!(Metadata::default_app(), App::TorrustIndex);
    assert_eq!(Metadata::default_purpose(), Purpose::Configuration);
    assert_eq!(Metadata::default_schema_version(), Version::new("2.0.0"));
    assert_eq!(
        Metadata::default(),
        Metadata {
            app: App::TorrustIndex,
            purpose: Purpose::Configuration,
            schema_version: Version::new("2.0.0"),
        }
    );
}

#[test]
fn tsl_defaults() {
    assert_eq!(Tsl::default(), Tsl { ssl_cert_path: None, ssl_key_path: None });
    assert_eq!(Tsl::default_ssl_cert_path(), Some(String::new()));
    assert_eq!(Tsl::default_ssl_key_path(), Some(String::new()));
}

#[test]
fn free_port_is_zero() {
    assert_eq!(FREE_PORT, 0);
}

#[test]
fn a_figment_error_becomes_a_config_error() {
    let err = figment::Error::from("bad value".to_string());
    match Error::from(err) {
        Error::ConfigError { source } => assert_eq!(source.to_string(), "bad value"),
        other => panic!("unexpected error: {other:?}"),
    }
}
