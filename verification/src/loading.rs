//! Loading the configuration: choosing its source, merging the environment
//! overrides over it, and refusing it when a mandatory option is missing or
//! its schema version is not accepted.

use crate::error::Error;
use crate::info::{ConfigSource, Info};
use crate::metadata::{
    is_supported_schema_version, only_version_2_0_0_is_supported, Version, VERSION_2,
};
use crate::sources::{
    env_merged_over, figment_from_toml_file, figment_from_toml_string, figment_values, find_value,
    merge_env_overrides, read_from_toml_file, toml_values,
};
use figment::Error as FigmentError;
use figment::Figment;
use vstd::prelude::*;

verus! {

/// Prefix of the environment variables that override configuration options.
pub const CONFIG_OVERRIDE_PREFIX: &'static str = "TORRUST_INDEX_CONFIG_OVERRIDE_";

/// What stands for the path separator `.` in the names of those variables.
pub const CONFIG_OVERRIDE_SEPARATOR: &'static str = "__";

/// The options that the user must give, from the TOML or from the
/// environment, in the order in which they are checked.
pub open spec fn mandatory_option_paths() -> Seq<Seq<char>> {
    seq![
        "auth.user_claim_token_pepper"@,
        "logging.threshold"@,
        "metadata.schema_version"@,
        "tracker.token"@,
    ]
}

/// The first of `required` that is not in `present`, if any.
pub open spec fn first_missing(required: Seq<Seq<char>>, present: Set<Seq<char>>) -> Option<
    Seq<char>,
>
    decreases required.len(),
{
    if required.len() == 0 {
        None
    } else if !present.contains(required[0]) {
        Some(required[0])
    } else {
        first_missing(required.drop_first(), present)
    }
}

/// No option is missing exactly when every required option is present, and
/// a missing option is one of the required options that is not present.
pub proof fn lemma_first_missing_none(required: Seq<Seq<char>>, present: Set<Seq<char>>)
    ensures
        first_missing(required, present) is None <==> forall|i: int|
            0 <= i < required.len() ==> present.contains(#[trigger] required[i]),
        first_missing(required, present) matches Some(p) ==> required.contains(p) && !present.contains(p),
    decreases required.len(),
{
    if required.len() > 0 {
        lemma_first_missing_none(required.drop_first(), present);
        if present.contains(required[0]) {
            assert forall|i: int| 1 <= i < required.len() implies
                #[trigger] required[i] == required.drop_first()[i - 1] by {}
            if let Some(p) = first_missing(required, present) {
                let j = choose|j: int| 0 <= j < required.drop_first().len() && required.drop_first()[j] == p;
                assert(required[j + 1] == p);
            }
        }
    }
}

/// The mandatory options are exactly these four paths, each named once: the
/// authentication pepper, the logging threshold, the schema version and the
/// tracker token.
pub proof fn mandatory_options_are_the_four_paths()
    ensures
        mandatory_option_paths().len() == 4,
        mandatory_option_paths().contains("auth.user_claim_token_pepper"@),
        mandatory_option_paths().contains("logging.threshold"@),
        mandatory_option_paths().contains("metadata.schema_version"@),
        mandatory_option_paths().contains("tracker.token"@),
        forall|p: Seq<char>| #[trigger] mandatory_option_paths().contains(p) ==> {
            ||| p == "auth.user_claim_token_pepper"@
            ||| p == "logging.threshold"@
            ||| p == "metadata.schema_version"@
            ||| p == "tracker.token"@
        },
{
    let m = mandatory_option_paths();
    assert(m[0] == "auth.user_claim_token_pepper"@);
    assert(m[1] == "logging.threshold"@);
    assert(m[2] == "metadata.schema_version"@);
    assert(m[3] == "tracker.token"@);
}

/// A configuration that lacks any one of the four mandatory paths is refused:
/// some mandatory option is reported missing, and it is one that is absent.
pub proof fn a_missing_mandatory_option_is_reported(present: Set<Seq<char>>, p: Seq<char>)
    requires
        p == "auth.user_claim_token_pepper"@ || p == "logging.threshold"@ || p
            == "metadata.schema_version"@ || p == "tracker.token"@,
        !present.contains(p),
    ensures
        first_missing(mandatory_option_paths(), present) matches Some(q) && !present.contains(q),
{
    mandatory_options_are_the_four_paths();
    lemma_first_missing_none(mandatory_option_paths(), present);
    let i = choose|i: int| 0 <= i < mandatory_option_paths().len() && mandatory_option_paths()[i] == p;
    assert(!present.contains(mandatory_option_paths()[i]));
}

/// Make sure that the user has given every mandatory option: a value must be
/// found for each of them in the figment, or the first one (in the order of
/// `mandatory_option_paths`) that is not found is named in the error.
pub fn check_mandatory_options(figment: &Figment) -> (r: Result<(), Error>)
    ensures
        match first_missing(mandatory_option_paths(), figment_values(*figment).dom()) {
            None => r is Ok,
            Some(p) => r matches Err(Error::MissingMandatoryOption { path }) && path@ == p,
        },
        !figment_values(*figment).dom().contains(Seq::<char>::empty()) ==> (r matches Err(
            Error::MissingMandatoryOption { path },
        ) && path@ == mandatory_option_paths()[0]),
        r is Ok <==> {
            &&& figment_values(*figment).dom().contains("auth.user_claim_token_pepper"@)
            &&& figment_values(*figment).dom().contains("logging.threshold"@)
            &&& figment_values(*figment).dom().contains("metadata.schema_version"@)
            &&& figment_values(*figment).dom().contains("tracker.token"@)
        },
        r matches Err(e) ==> (e matches Error::MissingMandatoryOption { path } && !figment_values(
            *figment,
        ).dom().contains(path@)),
{
    proof {
        mandatory_options_are_the_four_paths();
        lemma_first_missing_none(mandatory_option_paths(), figment_values(*figment).dom());
    }
    let mandatory_options: [&str; 4] = [
        "auth.user_claim_token_pepper",
        "logging.threshold",
        "metadata.schema_version",
        "tracker.token",
    ];
    let ghost required = mandatory_option_paths();
    let ghost present = figment_values(*figment).dom();
    assert(required.skip(0) =~= required);
    let mut i: usize = 0;
    while i < 4
        invariant
            0 <= i <= 4,
            required == mandatory_option_paths(),
            present == figment_values(*figment).dom(),
            forall|k: int| 0 <= k < 4 ==> (#[trigger] mandatory_options[k])@ == required[k],
            first_missing(required, present) == first_missing(required.skip(i as int), present),
            i > 0 ==> present.contains(Seq::<char>::empty()),
        decreases 4 - i,
    {
        let option = mandatory_options[i];
        assert(required.skip(i as int)[0] == required[i as int]);
        assert(required.skip(i as int).drop_first() =~= required.skip(i + 1));
        match find_value(figment, option) {
            Ok(_) => {},
            Err(_) => {
                return Err(Error::MissingMandatoryOption { path: option.to_owned() });
            },
        }
        i = i + 1;
    }
    Ok(())
}

/// Refuse a schema version that is not accepted, handing it back in the error.
pub fn check_schema_version(version: Version) -> (r: Result<(), Error>)
    ensures
        if is_supported_schema_version(version@) {
            r is Ok
        } else {
            r matches Err(Error::UnsupportedVersion { version: v }) && v == version
        },
        r is Ok <==> version@ == "2.0.0"@,
{
    proof {
        only_version_2_0_0_is_supported(version@);
    }
    let supported = Version::new(VERSION_2);
    if version.schema_version == supported.schema_version {
        Ok(())
    } else {
        Err(Error::UnsupportedVersion { version })
    }
}

/// What `settings_from_figment` gives for `figment`: the first missing
/// mandatory option, if any; else a `ConfigError` that `extract` returned;
/// else the settings that `extract` returned when their schema version (as
/// `schema_version` reads it) is accepted, or that version refused.
pub open spec fn settings_outcome<S, E, V>(
    figment: Figment,
    extract: E,
    schema_version: V,
    r: Result<S, Error>,
) -> bool where E: Fn(Figment) -> Result<S, FigmentError>, V: Fn(&S) -> Version {
    match first_missing(mandatory_option_paths(), figment_values(figment).dom()) {
        Some(p) => r matches Err(Error::MissingMandatoryOption { path }) && path@ == p,
        None => {
            ||| (r matches Err(Error::ConfigError { source }) && call_ensures(
                extract,
                (figment,),
                Err(source),
            ))
            ||| exists|s: S, v: Version|
                #![trigger call_ensures(extract, (figment,), Ok(s)), call_ensures(schema_version, (&s,), v)]
                {
                    &&& call_ensures(extract, (figment,), Ok(s))
                    &&& call_ensures(schema_version, (&s,), v)
                    &&& if is_supported_schema_version(v@) {
                        r == Ok::<S, Error>(s)
                    } else {
                        r == Err::<S, Error>(Error::UnsupportedVersion { version: v })
                    }
                }
        },
    }
}

/// Settings that are given back were extracted from a configuration holding
/// all four mandatory paths, and their schema version reads "2.0.0".
pub proof fn accepted_settings_are_complete_and_version_2_0_0<S, E, V>(
    figment: Figment,
    extract: E,
    schema_version: V,
    r: Result<S, Error>,
) where E: Fn(Figment) -> Result<S, FigmentError>, V: Fn(&S) -> Version
    requires
        settings_outcome(figment, extract, schema_version, r),
        r is Ok,
    ensures
        figment_values(figment).dom().contains("auth.user_claim_token_pepper"@),
        figment_values(figment).dom().contains("logging.threshold"@),
        figment_values(figment).dom().contains("metadata.schema_version"@),
        figment_values(figment).dom().contains("tracker.token"@),
        call_ensures(extract, (figment,), Ok::<S, FigmentError>(r->Ok_0)),
        exists|v: Version| #[trigger] call_ensures(schema_version, (&r->Ok_0,), v) && v@ == "2.0.0"@,
{
    mandatory_options_are_the_four_paths();
    lemma_first_missing_none(mandatory_option_paths(), figment_values(figment).dom());
    let (s, v) = choose|s: S, v: Version|
        #![trigger call_ensures(extract, (figment,), Ok(s)), call_ensures(schema_version, (&s,), v)]
        {
            &&& call_ensures(extract, (figment,), Ok(s))
            &&& call_ensures(schema_version, (&s,), v)
            &&& if is_supported_schema_version(v@) {
                r == Ok::<S, Error>(s)
            } else {
                r == Err::<S, Error>(Error::UnsupportedVersion { version: v })
            }
        };
    only_version_2_0_0_is_supported(v@);
    assert(call_ensures(schema_version, (&r->Ok_0,), v));
}

/// The settings that a configuration gives: every mandatory option must be
/// given; then the settings are extracted from it with `extract`, and their
/// schema version, read with `schema_version`, must be the accepted one.
/// A failed extraction is a `ConfigError`, whatever the schema version.
///
/// The settings' type and how they are extracted (with their defaults filled
/// in) belong to the caller, so both are taken as arguments.
pub fn settings_from_figment<S, E, V>(figment: Figment, extract: E, schema_version: V) -> (r:
    Result<S, Error>) where E: Fn(Figment) -> Result<S, FigmentError>, V: Fn(&S) -> Version
    requires
        call_requires(extract, (figment,)),
        forall|s: &S| call_requires(schema_version, (s,)),
    ensures
        settings_outcome(figment, extract, schema_version, r),
        !figment_values(figment).dom().contains(Seq::<char>::empty()) ==> (r matches Err(
            Error::MissingMandatoryOption { path },
        ) && path@ == mandatory_option_paths()[0]),
{
    let ghost given = figment;
    check_mandatory_options(&figment)?;
    let settings = match extract(figment) {
        Ok(settings) => settings,
        Err(err) => return Err(Error::from(err)),
    };
    let version = schema_version(&settings);
    let ghost v = version;
    match check_schema_version(version) {
        Ok(()) => {
            assert(call_ensures(extract, (given,), Ok(settings)) && call_ensures(schema_version, (&settings,), v));
            Ok(settings)
        },
        Err(err) => {
            assert(call_ensures(extract, (given,), Ok(settings)) && call_ensures(schema_version, (&settings,), v));
            Err(err)
        },
    }
}

/// Holds of a figment that the source of `info` (its view) gave: what its TOML
/// text parses to when it holds one, else a figment read from its file path.
pub open spec fn source_described(info: (Option<Seq<char>>, Seq<char>), figment: Figment) -> bool {
    match info.0 {
        Some(text) => figment_values(figment) == toml_values(text),
        None => read_from_toml_file(figment, info.1),
    }
}

/// The configuration as its source gives it, before the environment
/// overrides: the TOML text of `info` when it holds one (the file is then not
/// read), else the TOML file at its path. What the file gives depends on what
/// is on disk, so for it only that it was read from that path is stated.
pub fn source_figment(info: &Info) -> (r: Figment)
    ensures
        source_described(info@, r),
{
    match info.source() {
        ConfigSource::TomlText(text) => figment_from_toml_string(text.as_str()),
        ConfigSource::TomlFile(path) => figment_from_toml_file(path.as_str()),
    }
}

/// Load the settings described by `info`. The TOML text, when `info` holds
/// one, has priority over the configuration file (see `source_figment`); the
/// environment overrides are merged over either, and the result goes through
/// `settings_from_figment` with `extract` and `schema_version`. What the
/// merged configuration holds depends on the environment and on what is on
/// disk, so the result is stated as what `settings_from_figment` gives for a
/// figment that the environment was merged over (with the override prefix and
/// separator) and that the source of `info` gave, and what follows of it.
pub fn load_settings<S, E, V>(info: &Info, extract: E, schema_version: V) -> (r: Result<
    S,
    Error,
>) where E: Fn(Figment) -> Result<S, FigmentError>, V: Fn(&S) -> Version
    requires
        forall|f: Figment| call_requires(extract, (f,)),
        forall|s: &S| call_requires(schema_version, (s,)),
    ensures
        exists|base: Figment, merged: Figment|
            #![trigger env_merged_over(merged, base, CONFIG_OVERRIDE_PREFIX@, CONFIG_OVERRIDE_SEPARATOR@)]
            {
                &&& source_described(info@, base)
                &&& env_merged_over(merged, base, CONFIG_OVERRIDE_PREFIX@, CONFIG_OVERRIDE_SEPARATOR@)
                &&& settings_outcome(merged, extract, schema_version, r)
            },
        info@.0 matches Some(text) && !toml_values(text).dom().contains(Seq::<char>::empty())
            ==> (r matches Err(Error::MissingMandatoryOption { path }) && path@
            == mandatory_option_paths()[0]),
        r matches Ok(s) ==> exists|f: Figment, v: Version|
            #![trigger call_ensures(extract, (f,), Ok(s)), call_ensures(schema_version, (&s,), v)]
            {
                &&& forall|i: int|
                    0 <= i < mandatory_option_paths().len() ==> figment_values(f).dom().contains(
                        #[trigger] mandatory_option_paths()[i],
                    )
                &&& call_ensures(extract, (f,), Ok(s))
                &&& call_ensures(schema_version, (&s,), v)
                &&& is_supported_schema_version(v@)
            },
        r matches Err(Error::MissingMandatoryOption { path }) ==> mandatory_option_paths().contains(
            path@,
        ),
        r matches Err(Error::UnsupportedVersion { version }) ==> {
            &&& !is_supported_schema_version(version@)
            &&& exists|f: Figment, s: S|
                #![trigger call_ensures(extract, (f,), Ok(s)), call_ensures(schema_version, (&s,), version)]
                call_ensures(extract, (f,), Ok(s)) && call_ensures(schema_version, (&s,), version)
        },
        r matches Err(Error::ConfigError { source }) ==> exists|f: Figment|
            call_ensures(extract, (f,), Err(source)),
        r matches Err(e) ==> (e is MissingMandatoryOption || e is UnsupportedVersion || e is ConfigError),
{
    let figment = source_figment(info);
    let ghost base = figment;
    let figment = merge_env_overrides(figment, CONFIG_OVERRIDE_PREFIX, CONFIG_OVERRIDE_SEPARATOR);
    proof {
        lemma_first_missing_none(mandatory_option_paths(), figment_values(figment).dom());
    }
    let ghost merged = figment;
    let r = settings_from_figment(figment, extract, schema_version);
    proof {
        if r is Ok {
            let (s, v) = choose|s: S, v: Version|
                #![trigger call_ensures(extract, (merged,), Ok(s)), call_ensures(schema_version, (&s,), v)]
                {
                    &&& call_ensures(extract, (merged,), Ok(s))
                    &&& call_ensures(schema_version, (&s,), v)
                    &&& if is_supported_schema_version(v@) {
                        r == Ok::<S, Error>(s)
                    } else {
                        r == Err::<S, Error>(Error::UnsupportedVersion { version: v })
                    }
                };
            let t = r->Ok_0;
            assert(exists|f: Figment, v: Version|
                #![trigger call_ensures(extract, (f,), Ok(t)), call_ensures(schema_version, (&t,), v)]
                {
                    &&& forall|i: int|
                        0 <= i < mandatory_option_paths().len() ==> figment_values(f).dom().contains(
                            #[trigger] mandatory_option_paths()[i],
                        )
                    &&& call_ensures(extract, (f,), Ok(t))
                    &&& call_ensures(schema_version, (&t,), v)
                    &&& is_supported_schema_version(v@)
                });
        }
    }
    assert(source_described(info@, base) && env_merged_over(merged, base, CONFIG_OVERRIDE_PREFIX@, CONFIG_OVERRIDE_SEPARATOR@));
    r
}

} // verus!
