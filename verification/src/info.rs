//! Where the configuration is loaded from.

use crate::error::Error;
use vstd::prelude::*;

verus! {

/// Name of the environment variable that holds the whole configuration in
/// TOML. It has priority over the configuration file.
pub const ENV_VAR_CONFIG_TOML: &'static str = "TORRUST_INDEX_CONFIG_TOML";

/// Name of the environment variable that holds the configuration file's path.
pub const ENV_VAR_CONFIG_TOML_PATH: &'static str = "TORRUST_INDEX_CONFIG_TOML_PATH";

/// The text view of an optional string.
pub open spec fn opt_view(s: Option<String>) -> Option<Seq<char>> {
    match s {
        Some(t) => Some(t@),
        None => None,
    }
}

/// Information required for loading config.
#[derive(Debug, Clone)]
pub struct Info {
    config_toml: Option<String>,
    config_toml_path: String,
}

/// Where the configuration text comes from.
#[derive(Debug, Clone, PartialEq, Eq)]
pub enum ConfigSource {
    /// The configuration is this TOML text.
    TomlText(String),
    /// The configuration is in the TOML file at this path.
    TomlFile(String),
}

impl View for Info {
    /// The configuration TOML text, if one was given, and the path of the
    /// configuration file.
    type V = (Option<Seq<char>>, Seq<char>);

    closed spec fn view(&self) -> (Option<Seq<char>>, Seq<char>) {
        (opt_view(self.config_toml), self.config_toml_path@)
    }
}

impl Info {
    /// Build configuration info from what the environment holds: the
    /// configuration TOML from `ENV_VAR_CONFIG_TOML`, if that variable is set,
    /// and the file path from `ENV_VAR_CONFIG_TOML_PATH` if that one is set,
    /// else the default path.
    pub fn new(
        default_config_toml_path: String,
        env_config_toml: Option<String>,
        env_config_toml_path: Option<String>,
    ) -> (r: Result<Self, Error>)
        ensures
            r matches Ok(info) && info@.0 == opt_view(env_config_toml) && info@.1 == (
            match env_config_toml_path {
                Some(p) => p@,
                None => default_config_toml_path@,
            }),
    {
        let config_toml_path = match env_config_toml_path {
            Some(p) => p,
            None => default_config_toml_path,
        };
        Ok(Self { config_toml: env_config_toml, config_toml_path })
    }

    /// Info for a configuration given directly as TOML text.
    pub fn from_toml(config_toml: &str) -> (r: Self)
        ensures
            r@.0 == Some(config_toml@),
            r@.1 == Seq::<char>::empty(),
    {
        Self { config_toml: Some(config_toml.to_owned()), config_toml_path: String::new() }
    }

    /// Where the configuration is read from: the TOML text when one was given,
    /// whatever the file path; the file only when no text was given.
    pub fn source(&self) -> (r: ConfigSource)
        ensures
            match self@.0 {
                Some(text) => r matches ConfigSource::TomlText(t) && t@ == text,
                None => r matches ConfigSource::TomlFile(p) && p@ == self@.1,
            },
    {
        match &self.config_toml {
            Some(text) => ConfigSource::TomlText(text.clone()),
            None => ConfigSource::TomlFile(self.config_toml_path.clone()),
        }
    }
}

impl Default for Info {
    fn default() -> (r: Self)
        ensures
            r@.0 == None::<Seq<char>>,
            r@.1 == Seq::<char>::empty(),
    {
        Self { config_toml: None, config_toml_path: String::new() }
    }
}

} // verus!
