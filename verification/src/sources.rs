//! The configuration sources of the `figment` crate, as the loader uses them.
//!
//! A [`Figment`] is treated as a collection: what it holds is named by
//! [`figment_values`], a map from each dotted key path at which the combined
//! figment evaluates successfully and holds a value, to the text of that value
//! when it is a string or a single character (`None` for a value of any other
//! kind). A figment whose sources fail to evaluate holds nothing.

use figment::providers::{Env, Format, Toml};
use figment::value::Value;
use figment::Error as FigmentError;
use figment::Figment;
use vstd::prelude::*;

verus! {

#[verifier::external_type_specification]
#[verifier::external_body]
pub struct ExFigment(Figment);

#[verifier::external_type_specification]
#[verifier::external_body]
pub struct ExFigmentError(FigmentError);

#[verifier::external_type_specification]
#[verifier::external_body]
pub struct ExValue(Value);

/// What a figment holds: for each dotted key path at which it holds a value,
/// the text of that value when it is a string or a character, else `None`. The
/// empty path stands for the root: a figment holds a value there exactly when
/// it evaluates successfully.
pub uninterp spec fn figment_values(figment: Figment) -> Map<Seq<char>, Option<Seq<char>>>;

/// What a figment made from TOML source text alone holds.
pub uninterp spec fn toml_values(text: Seq<char>) -> Map<Seq<char>, Option<Seq<char>>>;

/// `Figment::from(Toml::string(text))`: a figment whose only source is the
/// given TOML text. Its contents depend on that text alone: they are what
/// `toml_values` names for it.
#[verifier::external_body]
pub(crate) fn figment_from_toml_string(text: &str) -> (r: Figment)
    ensures
        figment_values(r) == toml_values(text@),
{
    Figment::from(Toml::string(text))
}

/// Holds of a figment that `Figment::from(Toml::file(path))` gave for this
/// path. It is a relation, not a function: two reads of one path may give
/// different figments, as the file may change between them.
pub uninterp spec fn read_from_toml_file(figment: Figment, path: Seq<char>) -> bool;

/// Holds of a figment that `base.merge(Env::prefixed(prefix).split(separator))`
/// gave. It is a relation, not a function: the result depends on the
/// environment at the time of the merge.
pub uninterp spec fn env_merged_over(
    merged: Figment,
    base: Figment,
    prefix: Seq<char>,
    separator: Seq<char>,
) -> bool;

/// `Figment::from(Toml::file(path))`: a figment whose only source is the TOML
/// file found at `path` (searched for from the working directory upwards when
/// the path is relative). What it holds depends on what is on disk, so only
/// that it was read from `path` is stated.
#[verifier::external_body]
pub(crate) fn figment_from_toml_file(path: &str) -> (r: Figment)
    ensures
        read_from_toml_file(r, path@),
{
    Figment::from(Toml::file(path))
}

/// `figment.merge(Env::prefixed(prefix).split(separator))`: the figment with the
/// environment variables whose names start with `prefix` merged over it, the
/// rest of each name taken as a key path with `separator` standing for `.`.
/// What it holds depends on the environment of the process, so that is not
/// stated beyond `env_merged_over`. What is stated besides: the environment
/// provider never fails, so the merged figment evaluates exactly when `figment`
/// does (an earlier failure is kept). A figment evaluates exactly when it holds
/// a value at the empty path, its root.
#[verifier::external_body]
pub(crate) fn merge_env_overrides(figment: Figment, prefix: &str, separator: &str) -> (r: Figment)
    ensures
        env_merged_over(r, figment, prefix@, separator@),
        figment_values(r).dom().contains(Seq::<char>::empty()) <==> figment_values(
            figment,
        ).dom().contains(Seq::<char>::empty()),
{
    figment.merge(Env::prefixed(prefix).split(separator))
}

/// `Figment::find_value`: the value at a dotted key path. It is found exactly
/// when the figment holds a value at that path, which can only be when the
/// figment evaluates, that is, holds a value at its root (the empty path).
#[verifier::external_body]
pub(crate) fn find_value(figment: &Figment, path: &str) -> (r: Result<Value, FigmentError>)
    ensures
        r is Ok <==> figment_values(*figment).dom().contains(path@),
        r is Ok ==> figment_values(*figment).dom().contains(Seq::<char>::empty()),
{
    figment.find_value(path)
}

} // verus!
