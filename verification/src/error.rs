//! Errors that can occur when loading the configuration.

use crate::metadata::Version;
use figment::Error as FigmentError;
use vstd::prelude::*;

verus! {

/// Errors that can occur when loading the configuration.
#[derive(Debug)]
pub enum Error {
    /// Unable to load the configuration from the environment variable.
    /// This error only occurs if there is no configuration file and the
    /// configuration environment variable is not set.
    UnableToLoadFromEnvironmentVariable { source: FigmentError },
    /// Unable to load the configuration from the configuration file.
    UnableToLoadFromConfigFile { source: FigmentError },
    /// Failed processing the configuration.
    ConfigError { source: FigmentError },
    /// The error for errors that can never happen.
    Infallible,
    /// The configuration declares a schema version that is not accepted.
    UnsupportedVersion { version: Version },
    /// A mandatory option was not given by the user. It holds the option's path.
    MissingMandatoryOption { path: String },
}

impl From<FigmentError> for Error {
    fn from(err: FigmentError) -> (r: Self) {
        Self::ConfigError { source: err }
    }
}

impl vstd::std_specs::convert::FromSpecImpl<FigmentError> for Error {
    open spec fn obeys_from_spec() -> bool {
        true
    }

    open spec fn from_spec(err: FigmentError) -> Self {
        Self::ConfigError { source: err }
    }
}

} // verus!
