//! What a configuration says about itself: which application it is for, its
//! purpose, and the version of the schema it follows.

use vstd::prelude::*;

verus! {

/// The schema version that this library accepts.
pub const VERSION_2: &'static str = "2.0.0";

/// The most recent schema version.
pub const LATEST_VERSION: &'static str = "2.0.0";

/// The application a configuration is meant for.
#[derive(PartialEq, Eq, Structural, Debug, Clone, Copy)]
pub enum App {
    TorrustIndex,
}

/// What a parsed file is for.
#[derive(PartialEq, Eq, Structural, Debug, Clone, Copy)]
pub enum Purpose {
    Configuration,
}

/// The configuration version.
#[derive(PartialEq, Eq, Debug, Clone)]
pub struct Version {
    pub schema_version: String,
}

impl View for Version {
    type V = Seq<char>;

    open spec fn view(&self) -> Seq<char> {
        self.schema_version@
    }
}

impl Version {
    /// A version with the given semantic version text.
    pub fn new(semver: &str) -> (r: Self)
        ensures
            r@ == semver@,
    {
        Self { schema_version: semver.to_owned() }
    }

    /// The most recent schema version.
    pub fn latest() -> (r: Self)
        ensures
            r@ == LATEST_VERSION@,
    {
        Self { schema_version: LATEST_VERSION.to_owned() }
    }

    /// The text of the most recent schema version.
    pub fn default_semver() -> (r: String)
        ensures
            r@ == LATEST_VERSION@,
    {
        LATEST_VERSION.to_owned()
    }
}

impl Default for Version {
    fn default() -> (r: Self)
        ensures
            r@ == LATEST_VERSION@,
    {
        Self { schema_version: Self::default_semver() }
    }
}

/// Information about the configuration specification.
#[derive(PartialEq, Eq, Debug, Clone)]
pub struct Metadata {
    /// The application this configuration is valid for.
    pub app: App,
    /// The purpose of this parsed file.
    pub purpose: Purpose,
    /// The schema version for the configuration.
    pub schema_version: Version,
}

impl Metadata {
    /// The application a configuration is for when it does not say.
    pub fn default_app() -> (r: App)
        ensures
            r == App::TorrustIndex,
    {
        App::TorrustIndex
    }

    /// The purpose of a configuration when it does not say.
    pub fn default_purpose() -> (r: Purpose)
        ensures
            r == Purpose::Configuration,
    {
        Purpose::Configuration
    }

    /// The schema version of a configuration when it does not say.
    pub fn default_schema_version() -> (r: Version)
        ensures
            r@ == LATEST_VERSION@,
    {
        Version::latest()
    }
}

impl Default for Metadata {
    fn default() -> (r: Self)
        ensures
            r.app == App::TorrustIndex,
            r.purpose == Purpose::Configuration,
            r.schema_version@ == LATEST_VERSION@,
    {
        Self {
            app: Self::default_app(),
            purpose: Self::default_purpose(),
            schema_version: Self::default_schema_version(),
        }
    }
}

/// Whether a configuration with the given schema version text is accepted.
pub open spec fn is_supported_schema_version(version: Seq<char>) -> bool {
    version == VERSION_2@
}

/// The most recent schema version is the one that is accepted, so a
/// configuration that leaves its schema version at the default is accepted.
pub proof fn latest_version_is_supported()
    ensures
        is_supported_schema_version(LATEST_VERSION@),
{
    reveal_strlit("2.0.0");
}

/// Exactly one schema version is accepted: the text "2.0.0". Any other text,
/// such as "2.1.0" or "2.0", is refused.
pub proof fn only_version_2_0_0_is_supported(version: Seq<char>)
    ensures
        is_supported_schema_version(version) <==> version == "2.0.0"@,
{
    reveal_strlit("2.0.0");
}

} // verus!
