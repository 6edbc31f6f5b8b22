//! Startup configuration: the API key and the resume index, handed in as
//! the raw environment values and validated before any network activity.

use vstd::prelude::*;
use crate::numerals::parse_index_spec;
use crate::numerals::parse_index_text;

verus! {

/// The two values the tool starts from.
#[derive(Debug, Clone, PartialEq, Eq)]
pub struct Config {
    /// Opaque service key, used verbatim as a query parameter.
    pub api_key: String,
    /// Position in the candidate sequence at which to begin.
    pub start_index: usize,
}

/// Why the configuration was rejected.
#[derive(Debug, Clone, PartialEq, Eq)]
pub enum ConfigError {
    /// The API-key variable was absent from the environment.
    MissingApiKey,
    /// The index variable was absent from the environment.
    MissingIndex,
    /// The index text did not read as a non-negative decimal number;
    /// `text` holds it.
    InvalidIndex { text: String },
}

/// Validates the two environment values. The key need only be present;
/// the index must be present and, after trimming, read as a non-negative
/// decimal number. The key is checked first, so a run missing both is
/// reported as missing the key.
pub fn load_config(api_key: Option<String>, index_text: Option<String>) -> (r: Result<
    Config,
    ConfigError,
>)
    ensures
        (match (api_key, index_text) {
            (Option::None, _) => r == Err::<Config, ConfigError>(ConfigError::MissingApiKey),
            (Option::Some(_), Option::None) => r == Err::<Config, ConfigError>(
                ConfigError::MissingIndex,
            ),
            (Option::Some(k), Option::Some(t)) => match parse_index_spec(t@) {
                Option::Some(n) => r matches Ok(c) && c.api_key@ == k@ && c.start_index == n,
                Option::None => r matches Err(
                    ConfigError::InvalidIndex { text },
                ) && text@ == t@,
            },
        }),
{
    let key = match api_key {
        Option::None => {
            return Err(ConfigError::MissingApiKey);
        },
        Option::Some(k) => k,
    };
    let text = match index_text {
        Option::None => {
            return Err(ConfigError::MissingIndex);
        },
        Option::Some(t) => t,
    };
    match parse_index_text(text.as_str()) {
        Option::None => Err(ConfigError::InvalidIndex { text }),
        Option::Some(n) => Ok(Config { api_key: key, start_index: n }),
    }
}

} // verus!
