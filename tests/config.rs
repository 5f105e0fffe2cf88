use deepseek_json::config::{
    DEFAULT_BASE_URL, DEFAULT_MAX_TOKENS, DEFAULT_MODEL, DEFAULT_TEMPERATURE_MILLI, DEFAULT_TIMEOUT,
};
use deepseek_json::{Config, DeepSeekError};

fn config_with(api_key: &str, max_tokens: u32, temperature_milli: i32, timeout: u64) -> Config {
    Config {
        api_key: api_key.to_string(),
        base_url: DEFAULT_BASE_URL.to_string(),
        model: DEFAULT_MODEL.to_string(),
        max_tokens,
        temperature_milli,
        timeout,
    }
}

#[test]
fn validate_rejects_empty_api_key() {
    let config = Config {
        api_key: String::new(),
        base_url: DEFAULT_BASE_URL.to_string(),
        model: DEFAULT_MODEL.to_string(),
        max_tokens: DEFAULT_MAX_TOKENS,
        temperature_milli: DEFAULT_TEMPERATURE_MILLI,
        timeout: DEFAULT_TIMEOUT,
    };
    let err = config.validate().unwrap_err();
    assert!(
        err.to_string().contains("API key cannot be empty"),
        "unexpected error: {}",
        err
    );
}

#[test]
fn validate_rejects_temperature_out_of_range() {
    let mut config = Config {
        api_key: "k".to_string(),
        base_url: DEFAULT_BASE_URL.to_string(),
        model: DEFAULT_MODEL.to_string(),
        max_tokens: DEFAULT_MAX_TOKENS,
        temperature_milli: -100,
        timeout: DEFAULT_TIMEOUT,
    };
    let err = config.validate().unwrap_err();
    assert!(
        err.to_string()
            .contains("Temperature must be between 0.0 and 2.0"),
        "unexpected error: {}",
        err
    );

    config.temperature_milli = 2100;
    let err = config.validate().unwrap_err();
    assert!(
        err.to_string()
            .contains("Temperature must be between 0.0 and 2.0"),
        "unexpected error: {}",
        err
    );
}

#[test]
fn validate_rejects_zero_values() {
    let mut config = Config {
        api_key: "k".to_string(),
        base_url: DEFAULT_BASE_URL.to_string(),
        model: DEFAULT_MODEL.to_string(),
        max_tokens: 0,
        temperature_milli: DEFAULT_TEMPERATURE_MILLI,
        timeout: DEFAULT_TIMEOUT,
    };
    let err = config.validate().unwrap_err();
    assert!(
        err.to_string()
            .contains("Max tokens must be greater than 0"),
        "unexpected error: {}",
        err
    );

    config.max_tokens = 1;
    config.timeout = 0;
    let err = config.validate().unwrap_err();
    assert!(
        err.to_string().contains("Timeout must be greater than 0"),
        "unexpected error: {}",
        err
    );
}

#[test]
fn new_with_invalid_config_returns_config_error() {
    let bad_config = Config {
        api_key: String::new(),
        base_url: "http://localhost".to_string(),
        model: "m".to_string(),
        max_tokens: 1,
        temperature_milli: 0,
        timeout: 1,
    };
    match bad_config.check() {
        Err(DeepSeekError::ConfigError { message }) => {
            assert!(message.contains("API key cannot be empty"));
        }
        other => panic!("expected ConfigError, got {:?}", other),
    }
}

#[test]
fn defaults_validate_once_a_key_is_set() {
    let mut config = Config::default();
    assert_eq!(config.base_url, "https://api.deepseek.com");
    assert_eq!(config.model, "deepseek-chat");
    assert_eq!(config.max_tokens, 4096);
    assert_eq!(config.temperature_milli, 700);
    assert_eq!(config.timeout, 180);
    assert!(config.validate().is_err());
    config.api_key = "test_key".to_string();
    assert_eq!(config.validate(), Ok(()));
    assert!(config.check().is_ok());
}

#[test]
fn temperature_above_two_is_a_config_error() {
    let config = config_with("k", 4096, 2500, 180);
    match config.check() {
        Err(DeepSeekError::ConfigError { message }) => {
            assert_eq!(message, "Temperature must be between 0.0 and 2.0");
        }
        other => panic!("expected ConfigError, got {:?}", other),
    }
}

#[test]
fn zero_max_tokens_is_a_config_error() {
    let config = config_with("k", 0, 700, 180);
    match config.check() {
        Err(DeepSeekError::ConfigError { message }) => {
            assert_eq!(message, "Max tokens must be greater than 0");
        }
        other => panic!("expected ConfigError, got {:?}", other),
    }
}

#[test]
fn temperature_bounds_are_inclusive() {
    assert!(config_with("k", 1, 0, 1).validate().is_ok());
    assert!(config_with("k", 1, 2000, 1).validate().is_ok());
    assert!(config_with("k", 1, 2001, 1).validate().is_err());
}

#[test]
fn empty_key_is_reported_before_other_problems() {
    let err = config_with("", 0, 5000, 0).validate().unwrap_err();
    assert_eq!(err, "API key cannot be empty");
}

#[test]
fn overrides_replace_tuning_and_keep_the_key() {
    let mut base = Config::default();
    base.api_key = "k".to_string();
    let c = base.clone().with_overrides("m2".to_string(), 1250, 33, 9, None);
    assert_eq!(c.api_key, "k");
    assert_eq!(c.model, "m2");
    assert_eq!(c.temperature_milli, 1250);
    assert_eq!(c.max_tokens, 33);
    assert_eq!(c.timeout, 9);
    assert_eq!(c.base_url, "https://api.deepseek.com");
    let c = base.with_overrides("m".to_string(), 0, 1, 1, Some("https://example.com".to_string()));
    assert_eq!(c.base_url, "https://example.com");
}
