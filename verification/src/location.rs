//! Location resolution: which of the two configured servers a
//! human-supplied (or absent, hence defaulted) location name refers to,
//! under the caller's locale.

use vstd::prelude::*;
use crate::config::{Config, ConfigKey};
use crate::error::CoreError;
use crate::text::str_eq;

verus! {

/// One of the two statically known streaming-server identities. No other
/// value is valid.
#[derive(Clone, Copy, Debug, PartialEq, Eq, Structural)]
pub enum ServerAlias {
    Singil,
    Cwmc,
}

/// The language variant of the display literals: Korean, or the default
/// English treatment of every other tag.
#[derive(Clone, Copy, Debug, PartialEq, Eq, Structural)]
pub enum Locale {
    Korean,
    English,
}

/// Which locale a raw tag denotes: exactly the tag `"ko"` selects the
/// Korean literals; any other tag, or no tag, falls back to the default.
pub open spec fn locale_of(tag: Option<Seq<char>>) -> Locale {
    match tag {
        Option::Some(t) => if t == "ko"@ {
            Locale::Korean
        } else {
            Locale::English
        },
        Option::None => Locale::English,
    }
}

/// Turn an optional raw locale tag into the locale the literals are read
/// under.
pub fn locale_from_tag(tag: Option<&str>) -> (l: Locale)
    ensures
        l == locale_of(
            match tag {
                Option::Some(t) => Option::Some(t@),
                Option::None => Option::None,
            },
        ),
{
    match tag {
        Some(t) => if str_eq(t, "ko") {
            Locale::Korean
        } else {
            Locale::English
        },
        None => Locale::English,
    }
}

/// The configuration key of the display literal for an alias under a
/// locale.
pub open spec fn literal_key(alias: ServerAlias, locale: Locale) -> ConfigKey {
    match (alias, locale) {
        (ServerAlias::Singil, Locale::Korean) => ConfigKey::SingilLiteralKo,
        (ServerAlias::Singil, Locale::English) => ConfigKey::SingilLiteralEn,
        (ServerAlias::Cwmc, Locale::Korean) => ConfigKey::CwmcLiteralKo,
        (ServerAlias::Cwmc, Locale::English) => ConfigKey::CwmcLiteralEn,
    }
}

/// The configuration key of an alias's host identifier.
pub open spec fn host_key(alias: ServerAlias) -> ConfigKey {
    match alias {
        ServerAlias::Singil => ConfigKey::SingilHost,
        ServerAlias::Cwmc => ConfigKey::CwmcHost,
    }
}

/// Executable counterpart of [`literal_key`].
pub fn key_for_literal(alias: ServerAlias, locale: Locale) -> (k: ConfigKey)
    ensures
        k == literal_key(alias, locale),
{
    match (alias, locale) {
        (ServerAlias::Singil, Locale::Korean) => ConfigKey::SingilLiteralKo,
        (ServerAlias::Singil, Locale::English) => ConfigKey::SingilLiteralEn,
        (ServerAlias::Cwmc, Locale::Korean) => ConfigKey::CwmcLiteralKo,
        (ServerAlias::Cwmc, Locale::English) => ConfigKey::CwmcLiteralEn,
    }
}

/// Executable counterpart of [`host_key`].
pub fn key_for_host(alias: ServerAlias) -> (k: ConfigKey)
    ensures
        k == host_key(alias),
{
    match alias {
        ServerAlias::Singil => ConfigKey::SingilHost,
        ServerAlias::Cwmc => ConfigKey::CwmcHost,
    }
}

/// The possible outcomes of resolution, as a mathematical model.
#[derive(Clone, Copy, Debug, PartialEq, Eq, Structural)]
pub enum Resolution {
    /// A unique alias was determined.
    Target(ServerAlias),
    /// A display literal the resolution needs is not configured.
    Missing(ConfigKey),
    /// A location was supplied and matches neither literal.
    Unmatched,
}

/// What resolution yields: both locale-specific literals are read first
/// (a missing one is fatal, the primary alias's first); then no supplied
/// location defaults to the primary alias, a supplied one is compared for
/// exact equality against the primary literal and then the secondary one.
pub open spec fn resolve_model(config: Config, locale: Locale, raw: Option<Seq<char>>) -> Resolution {
    let singil_key = literal_key(ServerAlias::Singil, locale);
    let cwmc_key = literal_key(ServerAlias::Cwmc, locale);
    match config.spec_get(singil_key) {
        Option::None => Resolution::Missing(singil_key),
        Option::Some(lit_singil) => match config.spec_get(cwmc_key) {
            Option::None => Resolution::Missing(cwmc_key),
            Option::Some(lit_cwmc) => match raw {
                Option::None => Resolution::Target(ServerAlias::Singil),
                Option::Some(v) => if v == lit_singil {
                    Resolution::Target(ServerAlias::Singil)
                } else if v == lit_cwmc {
                    Resolution::Target(ServerAlias::Cwmc)
                } else {
                    Resolution::Unmatched
                },
            },
        },
    }
}

/// Resolve an optional raw location under a locale to a server alias, or
/// fail: with the missing configuration key, or with the unmatched input
/// itself.
pub fn resolve(config: &Config, locale: Locale, raw: &Option<String>) -> (r: Result<
    ServerAlias,
    CoreError,
>)
    ensures
        match resolve_model(*config, locale, raw.deep_view()) {
            Resolution::Target(alias) => r == Ok::<ServerAlias, CoreError>(alias),
            Resolution::Missing(key) => r == Err::<ServerAlias, CoreError>(
                CoreError::ConfigMissing(key),
            ),
            Resolution::Unmatched => (r matches Err(e) && e matches CoreError::InvalidLocation(s)
                && raw matches Some(v) && s@ == v@),
        },
{
    let lit_singil = match config.get(key_for_literal(ServerAlias::Singil, locale)) {
        Ok(v) => v,
        Err(e) => {
            return Err(e);
        },
    };
    let lit_cwmc = match config.get(key_for_literal(ServerAlias::Cwmc, locale)) {
        Ok(v) => v,
        Err(e) => {
            return Err(e);
        },
    };
    match raw {
        None => Ok(ServerAlias::Singil),
        Some(v) => {
            if str_eq(v.as_str(), lit_singil.as_str()) {
                Ok(ServerAlias::Singil)
            } else if str_eq(v.as_str(), lit_cwmc.as_str()) {
                Ok(ServerAlias::Cwmc)
            } else {
                Err(CoreError::InvalidLocation(v.clone()))
            }
        },
    }
}

/// With both literals configured, resolving with no supplied location
/// yields the primary alias, under every locale.
pub proof fn lemma_resolve_default_is_singil(config: Config, locale: Locale)
    requires
        config.spec_get(literal_key(ServerAlias::Singil, locale)) is Some,
        config.spec_get(literal_key(ServerAlias::Cwmc, locale)) is Some,
    ensures
        resolve_model(config, locale, Option::None) == Resolution::Target(ServerAlias::Singil),
{
}

/// With both literals configured and distinct, input exactly equal to an
/// alias's literal resolves to that alias, under every locale.
pub proof fn lemma_resolve_literal_match(config: Config, locale: Locale, raw: Seq<char>)
    requires
        config.spec_get(literal_key(ServerAlias::Singil, locale)) is Some,
        config.spec_get(literal_key(ServerAlias::Cwmc, locale)) is Some,
        config.spec_get(literal_key(ServerAlias::Singil, locale))->0 != config.spec_get(
            literal_key(ServerAlias::Cwmc, locale),
        )->0,
    ensures
        raw == config.spec_get(literal_key(ServerAlias::Singil, locale))->0 ==> resolve_model(
            config,
            locale,
            Option::Some(raw),
        ) == Resolution::Target(ServerAlias::Singil),
        raw == config.spec_get(literal_key(ServerAlias::Cwmc, locale))->0 ==> resolve_model(
            config,
            locale,
            Option::Some(raw),
        ) == Resolution::Target(ServerAlias::Cwmc),
{
}

/// With both literals configured, input equal to neither literal is
/// rejected as an invalid location, under every locale.
pub proof fn lemma_resolve_unmatched(config: Config, locale: Locale, raw: Seq<char>)
    requires
        config.spec_get(literal_key(ServerAlias::Singil, locale)) is Some,
        config.spec_get(literal_key(ServerAlias::Cwmc, locale)) is Some,
        raw != config.spec_get(literal_key(ServerAlias::Singil, locale))->0,
        raw != config.spec_get(literal_key(ServerAlias::Cwmc, locale))->0,
    ensures
        resolve_model(config, locale, Option::Some(raw)) == Resolution::Unmatched,
{
}

} // verus!
