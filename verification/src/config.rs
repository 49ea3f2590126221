//! The immutable credential snapshot: one optional secret per provider in the
//! fixed enumeration, plus an optional base-URL override for ollama.
//!
//! A snapshot is never edited in place. A reload builds a whole new
//! [`LlmConfig`] and publishes it through the facade, so a reader always sees
//! one snapshot's fields together, never a mix of two.

use vstd::prelude::*;

verus! {

/// Provider credentials delivered by the surrounding configuration system.
///
/// `None` for a key means the operator configured no secret for that
/// provider; a lookup of it fails with a missing-key error rather than
/// falling back to another provider.
#[derive(Clone)]
pub struct LlmConfig {
    pub anthropic_key: Option<String>,
    pub openai_key: Option<String>,
    pub openrouter_key: Option<String>,
    pub zhipu_key: Option<String>,
    pub groq_key: Option<String>,
    pub together_key: Option<String>,
    pub fireworks_key: Option<String>,
    pub deepseek_key: Option<String>,
    pub xai_key: Option<String>,
    pub mistral_key: Option<String>,
    pub ollama_key: Option<String>,
    pub opencode_zen_key: Option<String>,
    pub nvidia_key: Option<String>,
    /// Base-URL override, meaningful for the ollama provider only.
    pub ollama_base_url: Option<String>,
}

impl LlmConfig {
    /// A snapshot with no secret configured for any provider.
    pub fn empty() -> (c: LlmConfig)
        ensures
            c.anthropic_key is None,
            c.openai_key is None,
            c.openrouter_key is None,
            c.zhipu_key is None,
            c.groq_key is None,
            c.together_key is None,
            c.fireworks_key is None,
            c.deepseek_key is None,
            c.xai_key is None,
            c.mistral_key is None,
            c.ollama_key is None,
            c.opencode_zen_key is None,
            c.nvidia_key is None,
            c.ollama_base_url is None,
    {
        LlmConfig {
            anthropic_key: None,
            openai_key: None,
            openrouter_key: None,
            zhipu_key: None,
            groq_key: None,
            together_key: None,
            fireworks_key: None,
            deepseek_key: None,
            xai_key: None,
            mistral_key: None,
            ollama_key: None,
            opencode_zen_key: None,
            nvidia_key: None,
            ollama_base_url: None,
        }
    }
}

} // verus!
