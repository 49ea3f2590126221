use llm_manager::config::LlmConfig;
use llm_manager::credentials::{api_key_for, base_url_of};
use llm_manager::error::LlmError;

fn full_config() -> LlmConfig {
    LlmConfig {
        anthropic_key: Some("SECRET-REDACTED-anthropic".to_string()),
        openai_key: Some("SECRET-REDACTED-openai".to_string()),
        openrouter_key: Some("SECRET-REDACTED-openrouter".to_string()),
        zhipu_key: Some("SECRET-REDACTED-zhipu".to_string()),
        groq_key: Some("SECRET-REDACTED-groq".to_string()),
        together_key: Some("SECRET-REDACTED-together".to_string()),
        fireworks_key: Some("SECRET-REDACTED-fireworks".to_string()),
        deepseek_key: Some("SECRET-REDACTED-deepseek".to_string()),
        xai_key: Some("SECRET-REDACTED-xai".to_string()),
        mistral_key: Some("SECRET-REDACTED-mistral".to_string()),
        ollama_key: Some("SECRET-REDACTED-ollama".to_string()),
        opencode_zen_key: Some("SECRET-REDACTED-opencode-zen".to_string()),
        nvidia_key: Some("SECRET-REDACTED-nvidia".to_string()),
        ollama_base_url: Some("http://localhost:11434".to_string()),
    }
}

#[test]
fn each_known_provider_yields_its_own_secret() {
    let config = full_config();
    let providers = vec![
        "anthropic",
        "openai",
        "openrouter",
        "zhipu",
        "groq",
        "together",
        "fireworks",
        "deepseek",
        "xai",
        "mistral",
        "ollama",
        "opencode-zen",
        "nvidia",
    ];
    for provider in providers {
        let key = api_key_for(&config, provider).unwrap();
        assert_eq!(key, format!("SECRET-REDACTED-{}", provider));
    }
}

#[test]
fn unknown_provider_fails_whatever_the_configuration() {
    let full = full_config();
    let empty = LlmConfig::empty();
    for config in [&full, &empty] {
        match api_key_for(config, "bedrock") {
            Err(LlmError::UnknownProvider(p)) => assert_eq!(p, "bedrock"),
            other => panic!("expected UnknownProvider, got {:?}", other),
        }
    }
}

#[test]
fn provider_name_matching_is_exact() {
    let config = full_config();
    assert!(matches!(
        api_key_for(&config, "Anthropic"),
        Err(LlmError::UnknownProvider(_))
    ));
    assert!(matches!(
        api_key_for(&config, "anthropic "),
        Err(LlmError::UnknownProvider(_))
    ));
    assert!(matches!(
        api_key_for(&config, ""),
        Err(LlmError::UnknownProvider(_))
    ));
}

#[test]
fn configured_anthropic_secret_is_returned() {
    let mut config = LlmConfig::empty();
    config.anthropic_key = Some("SECRET-REDACTED".to_string());
    assert_eq!(api_key_for(&config, "anthropic").unwrap(), "SECRET-REDACTED");
}

#[test]
fn missing_anthropic_secret_names_the_provider() {
    let config = LlmConfig::empty();
    match api_key_for(&config, "anthropic") {
        Err(LlmError::MissingProviderKey(p)) => assert_eq!(p, "anthropic"),
        other => panic!("expected MissingProviderKey, got {:?}", other),
    }
}

#[test]
fn missing_key_is_per_provider_not_global() {
    let mut config = LlmConfig::empty();
    config.openai_key = Some("SECRET-REDACTED".to_string());
    assert!(api_key_for(&config, "openai").is_ok());
    assert!(matches!(
        api_key_for(&config, "groq"),
        Err(LlmError::MissingProviderKey(_))
    ));
}

#[test]
fn base_url_override_is_returned_as_configured() {
    let config = full_config();
    assert_eq!(base_url_of(&config), Some("http://localhost:11434".to_string()));
    assert_eq!(base_url_of(&LlmConfig::empty()), None);
}
