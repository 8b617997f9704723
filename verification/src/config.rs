//! Process configuration, read once at startup. Every value is mandatory;
//! a missing or malformed one is a fatal startup error, never a per-request
//! one.

use vstd::prelude::*;

use crate::text::{all_dec_digits, dec_val, parse_u64};

verus! {

/// Everything the process needs: the search API credentials, the content
/// version the index is pinned to, and the bot's own identity.
pub struct Config {
    pub algolia_api_key: String,
    pub algolia_app_id: String,
    pub tailwind_version: String,
    pub discord_token: String,
    pub application_id: u64,
}

/// Which required value was missing or malformed at startup.
#[derive(Debug)]
pub enum ConfigError {
    MissingApiKey,
    MissingAppId,
    MissingVersion,
    MissingToken,
    MissingApplicationId,
    InvalidApplicationId,
}

/// A digit string that denotes a value fitting in a `u64`.
pub open spec fn valid_u64_text(s: Seq<char>) -> bool {
    s.len() > 0 && all_dec_digits(s) && dec_val(s) <= u64::MAX
}

/// The error owed for a given set of startup values, checked in a fixed
/// order; none when all are present and well formed.
pub open spec fn expected_config_error(
    api_key: Option<String>,
    app_id: Option<String>,
    version: Option<String>,
    token: Option<String>,
    application_id: Option<String>,
) -> Option<ConfigError> {
    if api_key is None {
        Option::Some(ConfigError::MissingApiKey)
    } else if app_id is None {
        Option::Some(ConfigError::MissingAppId)
    } else if version is None {
        Option::Some(ConfigError::MissingVersion)
    } else if token is None {
        Option::Some(ConfigError::MissingToken)
    } else if application_id is None {
        Option::Some(ConfigError::MissingApplicationId)
    } else if !valid_u64_text(application_id.unwrap()@) {
        Option::Some(ConfigError::InvalidApplicationId)
    } else {
        Option::None
    }
}

impl Config {
    /// Assemble the configuration from the raw startup values. Succeeds
    /// exactly when every value is present and the application identifier
    /// is a decimal number fitting in a `u64`.
    pub fn from_values(
        api_key: Option<String>,
        app_id: Option<String>,
        version: Option<String>,
        token: Option<String>,
        application_id: Option<String>,
    ) -> (r: Result<Config, ConfigError>)
        ensures
            (r is Ok) == (expected_config_error(
                api_key,
                app_id,
                version,
                token,
                application_id,
            ) is None),
            r matches Result::Err(e) ==> Option::Some(e) == expected_config_error(
                api_key,
                app_id,
                version,
                token,
                application_id,
            ),
            r matches Result::Ok(c) ==> {
                &&& Option::Some(c.algolia_api_key) == api_key
                &&& Option::Some(c.algolia_app_id) == app_id
                &&& Option::Some(c.tailwind_version) == version
                &&& Option::Some(c.discord_token) == token
                &&& c.application_id == dec_val(application_id.unwrap()@)
            },
    {
        let algolia_api_key = match api_key {
            Option::Some(k) => k,
            Option::None => {
                return Result::Err(ConfigError::MissingApiKey);
            },
        };
        let algolia_app_id = match app_id {
            Option::Some(a) => a,
            Option::None => {
                return Result::Err(ConfigError::MissingAppId);
            },
        };
        let tailwind_version = match version {
            Option::Some(v) => v,
            Option::None => {
                return Result::Err(ConfigError::MissingVersion);
            },
        };
        let discord_token = match token {
            Option::Some(t) => t,
            Option::None => {
                return Result::Err(ConfigError::MissingToken);
            },
        };
        let id_text = match application_id {
            Option::Some(i) => i,
            Option::None => {
                return Result::Err(ConfigError::MissingApplicationId);
            },
        };
        match parse_u64(id_text.as_str()) {
            Option::Some(n) => Result::Ok(
                Config {
                    algolia_api_key,
                    algolia_app_id,
                    tailwind_version,
                    discord_token,
                    application_id: n,
                },
            ),
            Option::None => Result::Err(ConfigError::InvalidApplicationId),
        }
    }
}

} // verus!
