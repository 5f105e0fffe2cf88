//! The client's tuning parameters and their validation.
use vstd::prelude::*;

use crate::error::DeepSeekError;

verus! {

pub const DEFAULT_BASE_URL: &'static str = "https://api.deepseek.com";

pub const DEFAULT_MODEL: &'static str = "deepseek-chat";

pub const DEFAULT_MAX_TOKENS: u32 = 4096;

/// The default sampling temperature, in thousandths (0.7).
pub const DEFAULT_TEMPERATURE_MILLI: i32 = 700;

/// The default request timeout, in seconds.
pub const DEFAULT_TIMEOUT: u64 = 180;

/// The highest sampling temperature the service takes, in thousandths (2.0).
pub const MAX_TEMPERATURE_MILLI: i32 = 2000;

/// What a client is built from. The sampling temperature is held in
/// thousandths, so that 0.7 is 700.
#[derive(Clone, Debug, PartialEq)]
pub struct Config {
    pub api_key: String,
    pub base_url: String,
    pub model: String,
    pub max_tokens: u32,
    pub temperature_milli: i32,
    pub timeout: u64,
}

/// The first problem that validation finds in `c`, if any.
pub open spec fn config_problem(c: Config) -> Option<Seq<char>> {
    if c.api_key@.len() == 0 {
        Some("API key cannot be empty"@)
    } else if c.temperature_milli < 0 || c.temperature_milli > MAX_TEMPERATURE_MILLI {
        Some("Temperature must be between 0.0 and 2.0"@)
    } else if c.max_tokens == 0 {
        Some("Max tokens must be greater than 0"@)
    } else if c.timeout == 0 {
        Some("Timeout must be greater than 0"@)
    } else {
        None
    }
}

impl Config {
    /// Accepts the configuration, or names the first problem found: an empty
    /// credential, a temperature outside [0.0, 2.0], no output tokens, no timeout.
    pub fn validate(&self) -> (r: Result<(), String>)
        ensures
            r is Ok <==> config_problem(*self) is None,
            r matches Err(m) ==> config_problem(*self) == Some(m@),
    {
        if self.api_key.unicode_len() == 0 {
            return Err(String::from_str("API key cannot be empty"));
        }
        if self.temperature_milli < 0 || self.temperature_milli > MAX_TEMPERATURE_MILLI {
            return Err(String::from_str("Temperature must be between 0.0 and 2.0"));
        }
        if self.max_tokens == 0 {
            return Err(String::from_str("Max tokens must be greater than 0"));
        }
        if self.timeout == 0 {
            return Err(String::from_str("Timeout must be greater than 0"));
        }
        Ok(())
    }

    /// The check made before any request: a configuration problem becomes a
    /// `ConfigError` carrying its description.
    pub fn check(&self) -> (r: Result<(), DeepSeekError>)
        ensures
            r is Ok <==> config_problem(*self) is None,
            r matches Err(e) ==> (e matches DeepSeekError::ConfigError { message } && Some(
                message@,
            ) == config_problem(*self)),
    {
        match self.validate() {
            Ok(()) => Ok(()),
            Err(message) => Err(DeepSeekError::ConfigError { message }),
        }
    }
}

impl Config {
    /// This configuration with the tuning parameters given on the command
    /// line; the endpoint base changes only when one is given.
    pub fn with_overrides(
        self,
        model: String,
        temperature_milli: i32,
        max_tokens: u32,
        timeout: u64,
        base_url: Option<String>,
    ) -> (r: Config)
        ensures
            r.api_key == self.api_key,
            r.model == model,
            r.temperature_milli == temperature_milli,
            r.max_tokens == max_tokens,
            r.timeout == timeout,
            base_url matches Some(b) ==> r.base_url == b,
            base_url is None ==> r.base_url == self.base_url,
    {
        let base = match base_url {
            Some(b) => b,
            None => self.base_url,
        };
        Config {
            api_key: self.api_key,
            base_url: base,
            model,
            max_tokens,
            temperature_milli,
            timeout,
        }
    }
}

impl Default for Config {
    /// The defaults, with an empty credential.
    fn default() -> (r: Config)
        ensures
            r.api_key@.len() == 0,
            r.base_url@ == DEFAULT_BASE_URL@,
            r.model@ == DEFAULT_MODEL@,
            r.max_tokens == DEFAULT_MAX_TOKENS,
            r.temperature_milli == DEFAULT_TEMPERATURE_MILLI,
            r.timeout == DEFAULT_TIMEOUT,
    {
        Config {
            api_key: String::new(),
            base_url: String::from_str(DEFAULT_BASE_URL),
            model: String::from_str(DEFAULT_MODEL),
            max_tokens: DEFAULT_MAX_TOKENS,
            temperature_milli: DEFAULT_TEMPERATURE_MILLI,
            timeout: DEFAULT_TIMEOUT,
        }
    }
}

} // verus!
