//! The settings of the tool, once its configuration file has been read.
//!
//! Reading and parsing the file is the caller's business. What is decided here
//! is whether the token has been filled in, and which defaults stand in for
//! the settings that the file leaves out.

use vstd::prelude::*;

verus! {

/// The token that a freshly written configuration file holds.
pub const TOKEN_PLACEHOLDER: &'static str = "YOUR_API_TOKEN_HERE";

/// The model that is asked where the file names none.
pub const DEFAULT_MODEL: &'static str = "gpt-4-vision-preview";

/// The token budget where the file sets none.
pub const DEFAULT_MAX_TOKENS: u32 = 1024;

/// The request timeout, in seconds, where the file sets none.
pub const DEFAULT_TIMEOUT_SECONDS: u64 = 60;

/// What the configuration file says.
#[derive(Debug, PartialEq, Eq)]
pub struct ConfigFile {
    pub api_url: String,
    pub api_token: String,
    pub model_name: Option<String>,
    pub max_tokens: Option<u32>,
    pub request_timeout_seconds: Option<u64>,
}

/// The settings that the pipeline runs with.
#[derive(Debug, PartialEq, Eq)]
pub struct Config {
    pub api_url: String,
    pub api_token: String,
    pub model_name: String,
    pub max_tokens: u32,
    pub request_timeout_seconds: u64,
}

/// Why a configuration file cannot be used.
#[derive(Clone, Copy, Debug, PartialEq, Eq, Structural)]
pub enum ConfigError {
    /// The token is empty or still the placeholder.
    TokenNotSet,
}

/// Model of a [`Config`].
pub struct ConfigModel {
    pub api_url: Seq<char>,
    pub api_token: Seq<char>,
    pub model_name: Seq<char>,
    pub max_tokens: u32,
    pub request_timeout_seconds: u64,
}

impl View for Config {
    type V = ConfigModel;

    open spec fn view(&self) -> ConfigModel {
        ConfigModel {
            api_url: self.api_url@,
            api_token: self.api_token@,
            model_name: self.model_name@,
            max_tokens: self.max_tokens,
            request_timeout_seconds: self.request_timeout_seconds,
        }
    }
}

/// A token has been filled in: it is neither empty nor the placeholder.
pub open spec fn token_is_set(token: Seq<char>) -> bool {
    token.len() > 0 && token != TOKEN_PLACEHOLDER@
}

impl ConfigFile {
    /// The settings that this file amounts to, with the defaults filled in.
    pub open spec fn resolved(&self) -> Result<ConfigModel, ConfigError> {
        if token_is_set(self.api_token@) {
            Ok(
                ConfigModel {
                    api_url: self.api_url@,
                    api_token: self.api_token@,
                    model_name: match self.model_name {
                        Some(name) => name@,
                        None => DEFAULT_MODEL@,
                    },
                    max_tokens: match self.max_tokens {
                        Some(n) => n,
                        None => DEFAULT_MAX_TOKENS,
                    },
                    request_timeout_seconds: match self.request_timeout_seconds {
                        Some(n) => n,
                        None => DEFAULT_TIMEOUT_SECONDS,
                    },
                },
            )
        } else {
            Err(ConfigError::TokenNotSet)
        }
    }

    /// Checks the token and fills in the defaults.
    pub fn resolve(self) -> (outcome: Result<Config, ConfigError>)
        ensures
            match outcome {
                Ok(config) => self.resolved() == Ok::<_, ConfigError>(config@),
                Err(e) => self.resolved() == Err::<ConfigModel, _>(e),
            },
    {
        if self.api_token.as_str().is_empty() || self.api_token == TOKEN_PLACEHOLDER.to_owned() {
            return Err(ConfigError::TokenNotSet);
        }
        let model_name = match self.model_name {
            Some(name) => name,
            None => DEFAULT_MODEL.to_owned(),
        };
        let max_tokens = match self.max_tokens {
            Some(n) => n,
            None => DEFAULT_MAX_TOKENS,
        };
        let request_timeout_seconds = match self.request_timeout_seconds {
            Some(n) => n,
            None => DEFAULT_TIMEOUT_SECONDS,
        };
        Ok(
            Config {
                api_url: self.api_url,
                api_token: self.api_token,
                model_name,
                max_tokens,
                request_timeout_seconds,
            },
        )
    }
}

} // verus!
