//! Credential lookup over one snapshot.
//!
//! These functions take the snapshot as an argument, so they are verified for
//! every snapshot a load of the store can hand back: the facade only supplies
//! the current one.

use vstd::prelude::*;

use crate::config::LlmConfig;
use crate::error::LlmError;
use crate::text::str_eq;

verus! {

/// Whether `provider` is one of the fixed enumeration of provider names.
pub open spec fn is_known_provider(provider: Seq<char>) -> bool {
    ||| provider == "anthropic"@
    ||| provider == "openai"@
    ||| provider == "openrouter"@
    ||| provider == "zhipu"@
    ||| provider == "groq"@
    ||| provider == "together"@
    ||| provider == "fireworks"@
    ||| provider == "deepseek"@
    ||| provider == "xai"@
    ||| provider == "mistral"@
    ||| provider == "ollama"@
    ||| provider == "opencode-zen"@
    ||| provider == "nvidia"@
}

/// The view of an optional secret.
pub open spec fn key_view(key: Option<String>) -> Option<Seq<char>> {
    match key {
        Some(s) => Some(s@),
        None => None,
    }
}

/// The secret the snapshot configures for a known provider, if any.
pub open spec fn configured_key(config: LlmConfig, provider: Seq<char>) -> Option<Seq<char>> {
    if provider == "anthropic"@ {
        key_view(config.anthropic_key)
    } else if provider == "openai"@ {
        key_view(config.openai_key)
    } else if provider == "openrouter"@ {
        key_view(config.openrouter_key)
    } else if provider == "zhipu"@ {
        key_view(config.zhipu_key)
    } else if provider == "groq"@ {
        key_view(config.groq_key)
    } else if provider == "together"@ {
        key_view(config.together_key)
    } else if provider == "fireworks"@ {
        key_view(config.fireworks_key)
    } else if provider == "deepseek"@ {
        key_view(config.deepseek_key)
    } else if provider == "xai"@ {
        key_view(config.xai_key)
    } else if provider == "mistral"@ {
        key_view(config.mistral_key)
    } else if provider == "ollama"@ {
        key_view(config.ollama_key)
    } else if provider == "opencode-zen"@ {
        key_view(config.opencode_zen_key)
    } else if provider == "nvidia"@ {
        key_view(config.nvidia_key)
    } else {
        None
    }
}

/// Returns the configured secret, or the missing-key error naming the
/// recognized provider that has none.
fn key_or_missing(key: &Option<String>, provider: &str) -> (r: Result<String, LlmError>)
    ensures
        (key matches Some(k) ==> r matches Ok(s) && s@ == k@),
        (key is None ==> (r matches Err(e) && e matches LlmError::MissingProviderKey(p)
            && p@ == provider@)),
{
    match key {
        Some(k) => Ok(k.clone()),
        None => Err(LlmError::MissingProviderKey(provider.to_owned())),
    }
}

/// Looks `provider` up in one snapshot.
///
/// Fails with `UnknownProvider` exactly when the name is outside the fixed
/// enumeration, with `MissingProviderKey` exactly when the provider is
/// recognized but the snapshot holds no secret for it, and returns the
/// configured secret otherwise.
pub fn api_key_for(config: &LlmConfig, provider: &str) -> (r: Result<String, LlmError>)
    ensures
        !is_known_provider(provider@) ==> (r matches Err(e)
            && e matches LlmError::UnknownProvider(p) && p@ == provider@),
        is_known_provider(provider@) ==> (match configured_key(*config, provider@) {
            Some(k) => r matches Ok(s) && s@ == k,
            None => r matches Err(e) && e matches LlmError::MissingProviderKey(p)
                && p@ == provider@,
        }),
{
    if str_eq(provider, "anthropic") {
        key_or_missing(&config.anthropic_key, provider)
    } else if str_eq(provider, "openai") {
        key_or_missing(&config.openai_key, provider)
    } else if str_eq(provider, "openrouter") {
        key_or_missing(&config.openrouter_key, provider)
    } else if str_eq(provider, "zhipu") {
        key_or_missing(&config.zhipu_key, provider)
    } else if str_eq(provider, "groq") {
        key_or_missing(&config.groq_key, provider)
    } else if str_eq(provider, "together") {
        key_or_missing(&config.together_key, provider)
    } else if str_eq(provider, "fireworks") {
        key_or_missing(&config.fireworks_key, provider)
    } else if str_eq(provider, "deepseek") {
        key_or_missing(&config.deepseek_key, provider)
    } else if str_eq(provider, "xai") {
        key_or_missing(&config.xai_key, provider)
    } else if str_eq(provider, "mistral") {
        key_or_missing(&config.mistral_key, provider)
    } else if str_eq(provider, "ollama") {
        key_or_missing(&config.ollama_key, provider)
    } else if str_eq(provider, "opencode-zen") {
        key_or_missing(&config.opencode_zen_key, provider)
    } else if str_eq(provider, "nvidia") {
        key_or_missing(&config.nvidia_key, provider)
    } else {
        Err(LlmError::UnknownProvider(provider.to_owned()))
    }
}

/// The snapshot's base-URL override, if any.
pub fn base_url_of(config: &LlmConfig) -> (r: Option<String>)
    ensures
        r == config.ollama_base_url,
{
    match &config.ollama_base_url {
        Some(url) => Some(url.clone()),
        None => None,
    }
}

} // verus!
