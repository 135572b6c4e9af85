//! The process-wide configuration store: an immutable set of string
//! values keyed by the two server aliases and the two locales, plus one
//! shared port. It is built once at startup and only read afterwards.
//!
//! A key may be absent; absence is reported at the point of use as
//! [`CoreError::ConfigMissing`], not in a separate validation pass.

use vstd::prelude::*;
use crate::error::CoreError;

verus! {

/// The keys the store can hold: a display literal per alias and locale,
/// a host per alias, and the port both servers share.
#[derive(Clone, Copy, Debug, PartialEq, Eq, Structural)]
pub enum ConfigKey {
    SingilLiteralKo,
    SingilLiteralEn,
    CwmcLiteralKo,
    CwmcLiteralEn,
    SingilHost,
    CwmcHost,
    Port,
}

/// The configuration store itself. A `None` field stands for a key that
/// was never provided.
pub struct Config {
    pub singil_literal_ko: Option<String>,
    pub singil_literal_en: Option<String>,
    pub cwmc_literal_ko: Option<String>,
    pub cwmc_literal_en: Option<String>,
    pub singil_host: Option<String>,
    pub cwmc_host: Option<String>,
    pub port: Option<String>,
}

impl Config {
    /// The mathematical content of the store: each key maps to the
    /// character sequence of its value, or to nothing.
    pub open spec fn spec_get(self, key: ConfigKey) -> Option<Seq<char>> {
        let field = match key {
            ConfigKey::SingilLiteralKo => self.singil_literal_ko,
            ConfigKey::SingilLiteralEn => self.singil_literal_en,
            ConfigKey::CwmcLiteralKo => self.cwmc_literal_ko,
            ConfigKey::CwmcLiteralEn => self.cwmc_literal_en,
            ConfigKey::SingilHost => self.singil_host,
            ConfigKey::CwmcHost => self.cwmc_host,
            ConfigKey::Port => self.port,
        };
        match field {
            Option::Some(s) => Option::Some(s@),
            Option::None => Option::None,
        }
    }

    /// Read one value. A present key yields its value; an absent key is
    /// the fatal-for-this-command configuration error, naming the key.
    pub fn get(&self, key: ConfigKey) -> (r: Result<String, CoreError>)
        ensures
            match self.spec_get(key) {
                Option::Some(v) => r matches Ok(s) && s@ == v,
                Option::None => r == Err::<String, CoreError>(CoreError::ConfigMissing(key)),
            },
    {
        let field = match key {
            ConfigKey::SingilLiteralKo => &self.singil_literal_ko,
            ConfigKey::SingilLiteralEn => &self.singil_literal_en,
            ConfigKey::CwmcLiteralKo => &self.cwmc_literal_ko,
            ConfigKey::CwmcLiteralEn => &self.cwmc_literal_en,
            ConfigKey::SingilHost => &self.singil_host,
            ConfigKey::CwmcHost => &self.cwmc_host,
            ConfigKey::Port => &self.port,
        };
        match field {
            Some(s) => Ok(s.clone()),
            None => Err(CoreError::ConfigMissing(key)),
        }
    }
}

} // verus!
