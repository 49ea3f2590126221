use llm_manager::resolver::split_model_name;

#[test]
fn splits_on_first_separator() {
    let (provider, model) = split_model_name("openai/gpt-4");
    assert_eq!(provider, "openai");
    assert_eq!(model, "gpt-4");
}

#[test]
fn defaults_to_anthropic_without_separator() {
    let (provider, model) = split_model_name("my-model");
    assert_eq!(provider, "anthropic");
    assert_eq!(model, "my-model");
}

#[test]
fn later_separators_stay_in_the_model_part() {
    let (provider, model) = split_model_name("openrouter/meta/llama-3");
    assert_eq!(provider, "openrouter");
    assert_eq!(model, "meta/llama-3");
}

#[test]
fn empty_name_resolves_to_default_provider() {
    let (provider, model) = split_model_name("");
    assert_eq!(provider, "anthropic");
    assert_eq!(model, "");
}

#[test]
fn leading_separator_gives_empty_provider() {
    let (provider, model) = split_model_name("/gpt-4");
    assert_eq!(provider, "");
    assert_eq!(model, "gpt-4");
}

#[test]
fn trailing_separator_gives_empty_model() {
    let (provider, model) = split_model_name("ollama/");
    assert_eq!(provider, "ollama");
    assert_eq!(model, "");
}

#[test]
fn separator_splits_non_ascii_names() {
    let (provider, model) = split_model_name("zhipu/GLM-4-Flash\u{00e9}");
    assert_eq!(provider, "zhipu");
    assert_eq!(model, "GLM-4-Flash\u{00e9}");
}
