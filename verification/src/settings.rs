//! Layered settings read through the `config` crate: an optional TOML file
//! overridden by environment variables that carry a prefix.
//!
//! The `config` crate merges the sources and converts the values; what it
//! answers for a key is named here, as a function of the sources alone, and
//! the library builds on those names. Every call takes sources held to
//! `keys::sources_panic_free`, on which `config` does not panic.

use vstd::prelude::*;
use crate::keys::sources_panic_free;

verus! {

/// The error value of the `config` crate, carried through unchanged.
#[verifier::external_type_specification]
#[verifier::external_body]
pub struct ExConfigError(config::ConfigError);

/// Whether `config` builds a configuration from the optional TOML text
/// `file` and the environment pairs `env` (read with `prefix`, `separator`
/// and value parsing switched by `parse`).
pub uninterp spec fn settings_build_ok(
    file: Option<Seq<char>>,
    env: Seq<(Seq<char>, Seq<char>)>,
    prefix: Seq<char>,
    separator: Seq<char>,
    parse: bool,
) -> bool;

/// What `config` answers for `key` read as a string from those sources;
/// `None` when it answers with an error.
pub uninterp spec fn settings_text(
    file: Option<Seq<char>>,
    env: Seq<(Seq<char>, Seq<char>)>,
    prefix: Seq<char>,
    separator: Seq<char>,
    parse: bool,
    key: Seq<char>,
) -> Option<Seq<char>>;

/// What `config` answers for `key` deserialized as a `u16`.
pub uninterp spec fn settings_u16(
    file: Option<Seq<char>>,
    env: Seq<(Seq<char>, Seq<char>)>,
    prefix: Seq<char>,
    separator: Seq<char>,
    parse: bool,
    key: Seq<char>,
) -> Option<u16>;

/// What `config` answers for `key` deserialized as a `bool`.
pub uninterp spec fn settings_bool(
    file: Option<Seq<char>>,
    env: Seq<(Seq<char>, Seq<char>)>,
    prefix: Seq<char>,
    separator: Seq<char>,
    parse: bool,
    key: Seq<char>,
) -> Option<bool>;

/// What `config` answers for `key` deserialized as a `usize`.
pub uninterp spec fn settings_usize(
    file: Option<Seq<char>>,
    env: Seq<(Seq<char>, Seq<char>)>,
    prefix: Seq<char>,
    separator: Seq<char>,
    parse: bool,
    key: Seq<char>,
) -> Option<usize>;

/// Calls `config::ConfigBuilder::build` on a builder holding the TOML text
/// (when there is one) and then an `Environment` source fed with `env` in
/// its order. Claimed: it succeeds exactly when the named outcome says so;
/// nothing is claimed of the error value. The sources are held to
/// `keys::sources_panic_free`, which leaves out the keys with a negative or
/// too large array index, on which `config` panics.
#[verifier::external_body]
pub(crate) fn build_settings(
    file: &Option<String>,
    env: &Vec<(String, String)>,
    prefix: &str,
    separator: &str,
    parse: bool,
) -> (r: Result<(), config::ConfigError>)
    requires
        sources_panic_free(file.deep_view(), env.deep_view(), prefix@, separator@, parse),
    ensures
        r is Ok <==> settings_build_ok(file.deep_view(), env.deep_view(), prefix@, separator@, parse),
{
    config::Config::builder()
        .add_source(file.iter().map(|t| config::File::from_str(t, config::FileFormat::Toml)).collect::<Vec<_>>())
        .add_source(config::Environment::with_prefix(prefix).separator(separator).try_parsing(parse)
            .source(Some(env.iter().cloned().collect())))
        .build().map(|_| ())
}

/// Builds the configuration as `build_settings` does and calls
/// `config::Config::get_string` for `key`. Claimed: the answer is the named
/// one; nothing is claimed of the error value.
#[verifier::external_body]
pub(crate) fn read_text(
    file: &Option<String>,
    env: &Vec<(String, String)>,
    prefix: &str,
    separator: &str,
    parse: bool,
    key: &str,
) -> (r: Result<String, config::ConfigError>)
    requires
        sources_panic_free(file.deep_view(), env.deep_view(), prefix@, separator@, parse),
    ensures
        r is Ok <==> settings_text(file.deep_view(), env.deep_view(), prefix@, separator@, parse, key@) is Some,
        r matches Ok(s) ==> Some(s@) == settings_text(file.deep_view(), env.deep_view(), prefix@, separator@, parse, key@),
{
    config::Config::builder()
        .add_source(file.iter().map(|t| config::File::from_str(t, config::FileFormat::Toml)).collect::<Vec<_>>())
        .add_source(config::Environment::with_prefix(prefix).separator(separator).try_parsing(parse)
            .source(Some(env.iter().cloned().collect())))
        .build().and_then(|c| c.get_string(key))
}

/// Builds the configuration as `build_settings` does and calls
/// `config::Config::get::<u16>` for `key`. Claimed: the answer is the named
/// one; nothing is claimed of the error value.
#[verifier::external_body]
pub(crate) fn read_u16(
    file: &Option<String>,
    env: &Vec<(String, String)>,
    prefix: &str,
    separator: &str,
    parse: bool,
    key: &str,
) -> (r: Result<u16, config::ConfigError>)
    requires
        sources_panic_free(file.deep_view(), env.deep_view(), prefix@, separator@, parse),
    ensures
        r is Ok <==> settings_u16(file.deep_view(), env.deep_view(), prefix@, separator@, parse, key@) is Some,
        r matches Ok(v) ==> Some(v) == settings_u16(file.deep_view(), env.deep_view(), prefix@, separator@, parse, key@),
{
    config::Config::builder()
        .add_source(file.iter().map(|t| config::File::from_str(t, config::FileFormat::Toml)).collect::<Vec<_>>())
        .add_source(config::Environment::with_prefix(prefix).separator(separator).try_parsing(parse)
            .source(Some(env.iter().cloned().collect())))
        .build().and_then(|c| c.get::<u16>(key))
}

/// Builds the configuration as `build_settings` does and calls
/// `config::Config::get::<bool>` for `key`. Claimed: the answer is the named
/// one; nothing is claimed of the error value.
#[verifier::external_body]
pub(crate) fn read_bool(
    file: &Option<String>,
    env: &Vec<(String, String)>,
    prefix: &str,
    separator: &str,
    parse: bool,
    key: &str,
) -> (r: Result<bool, config::ConfigError>)
    requires
        sources_panic_free(file.deep_view(), env.deep_view(), prefix@, separator@, parse),
    ensures
        r is Ok <==> settings_bool(file.deep_view(), env.deep_view(), prefix@, separator@, parse, key@) is Some,
        r matches Ok(v) ==> Some(v) == settings_bool(file.deep_view(), env.deep_view(), prefix@, separator@, parse, key@),
{
    config::Config::builder()
        .add_source(file.iter().map(|t| config::File::from_str(t, config::FileFormat::Toml)).collect::<Vec<_>>())
        .add_source(config::Environment::with_prefix(prefix).separator(separator).try_parsing(parse)
            .source(Some(env.iter().cloned().collect())))
        .build().and_then(|c| c.get::<bool>(key))
}

/// Builds the configuration as `build_settings` does and calls
/// `config::Config::get::<usize>` for `key`. Claimed: the answer is the
/// named one; nothing is claimed of the error value.
#[verifier::external_body]
pub(crate) fn read_usize(
    file: &Option<String>,
    env: &Vec<(String, String)>,
    prefix: &str,
    separator: &str,
    parse: bool,
    key: &str,
) -> (r: Result<usize, config::ConfigError>)
    requires
        sources_panic_free(file.deep_view(), env.deep_view(), prefix@, separator@, parse),
    ensures
        r is Ok <==> settings_usize(file.deep_view(), env.deep_view(), prefix@, separator@, parse, key@) is Some,
        r matches Ok(v) ==> Some(v) == settings_usize(file.deep_view(), env.deep_view(), prefix@, separator@, parse, key@),
{
    config::Config::builder()
        .add_source(file.iter().map(|t| config::File::from_str(t, config::FileFormat::Toml)).collect::<Vec<_>>())
        .add_source(config::Environment::with_prefix(prefix).separator(separator).try_parsing(parse)
            .source(Some(env.iter().cloned().collect())))
        .build().and_then(|c| c.get::<usize>(key))
}

} // verus!
