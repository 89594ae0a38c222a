use orcascore::providers::{
    derive_display_label, derive_friendly_name, load_provider_config, models_from_anthropic_response,
    models_from_openai_response, resolve_model_name, ActiveProviderConfig, AnthropicConfig,
    LiteLLMConfig, ModelInfo, Provider, ProviderConfig, ProviderSettings,
};

#[test]
fn friendly_name_strips_date_suffix() {
    assert_eq!(derive_friendly_name("orca-sonnet-4-20250514"), "orca-sonnet-4");
    assert_eq!(derive_friendly_name("orca-sonnet-4-5-20251012"), "orca-sonnet-4-5");
}

#[test]
fn friendly_name_is_identity_without_suffix() {
    assert_eq!(derive_friendly_name("gpt-4"), "gpt-4");
    assert_eq!(derive_friendly_name("model-1234567"), "model-1234567");
    assert_eq!(derive_friendly_name("model-123456789"), "model-123456789");
    assert_eq!(derive_friendly_name("model20250514"), "model20250514");
    assert_eq!(derive_friendly_name(""), "");
}

#[test]
fn friendly_name_allows_empty_prefix() {
    assert_eq!(derive_friendly_name("-12345678"), "");
}

#[test]
fn provider_from_str_is_case_insensitive() {
    assert!(matches!(Provider::from_str("ANTHROPIC"), Ok(Provider::Anthropic)));
    assert!(matches!(Provider::from_str("LiteLLM"), Ok(Provider::LiteLLM)));
    assert_eq!(
        Provider::from_str("azure").unwrap_err(),
        "Unknown provider: azure"
    );
}

#[test]
fn anthropic_config_endpoints_and_headers() {
    let c = AnthropicConfig { api_key: "k1".to_string() };
    assert_eq!(c.get_endpoint(), "https://api.anthropic.com/v1/messages");
    assert_eq!(c.get_models_endpoint(), "https://api.anthropic.com/v1/models");
    let h = c.get_headers();
    assert_eq!(h.len(), 2);
    assert_eq!(h[0].0, "x-api-key");
    assert_eq!(h[0].1, "k1");
    assert_eq!(h[1].0, "anthropic-version");
    assert_eq!(h[1].1, "2023-06-01");
    assert!(c.validate().is_ok());
}

#[test]
fn anthropic_config_rejects_blank_key() {
    let c = AnthropicConfig { api_key: "   ".to_string() };
    assert_eq!(c.validate().unwrap_err(), "Anthropic API key cannot be empty");
}

#[test]
fn litellm_config_trims_trailing_slashes() {
    let c = LiteLLMConfig { base_url: "http://gw.example.com//".to_string(), api_key: "k".to_string() };
    assert_eq!(c.get_endpoint(), "http://gw.example.com/v1/messages");
    assert_eq!(c.get_models_endpoint(), "http://gw.example.com/v1/models");
    let h = c.get_headers();
    assert_eq!(h.len(), 1);
    assert_eq!(h[0].0, "Authorization");
    assert_eq!(h[0].1, "Bearer k");
    assert!(c.validate().is_ok());
}

#[test]
fn litellm_config_validation_errors() {
    let blank_base = LiteLLMConfig { base_url: " ".to_string(), api_key: "k".to_string() };
    assert_eq!(blank_base.validate().unwrap_err(), "LiteLLM base URL cannot be empty");
    let blank_key = LiteLLMConfig { base_url: "http://x".to_string(), api_key: "".to_string() };
    assert_eq!(blank_key.validate().unwrap_err(), "LiteLLM API key cannot be empty");
    let bad_url = LiteLLMConfig { base_url: "not a url".to_string(), api_key: "k".to_string() };
    let err = bad_url.validate().unwrap_err();
    assert!(err.starts_with("Invalid URL format: "), "got: {}", err);
}

fn empty_settings() -> ProviderSettings {
    ProviderSettings {
        api_provider: None,
        anthropic_api_key: None,
        anthropic_api_key_env: None,
        litellm_base_url: None,
        litellm_api_key: None,
    }
}

#[test]
fn load_config_defaults_to_anthropic() {
    let mut s = empty_settings();
    s.anthropic_api_key = Some("stored".to_string());
    match load_provider_config(&s).unwrap() {
        ActiveProviderConfig::Anthropic(c) => assert_eq!(c.api_key, "stored"),
        _ => panic!("expected the Anthropic configuration"),
    }
}

#[test]
fn load_config_falls_back_to_environment_key() {
    let mut s = empty_settings();
    s.anthropic_api_key_env = Some("from-env".to_string());
    match load_provider_config(&s).unwrap() {
        ActiveProviderConfig::Anthropic(c) => assert_eq!(c.api_key, "from-env"),
        _ => panic!("expected the Anthropic configuration"),
    }
}

#[test]
fn load_config_reports_missing_anthropic_key() {
    let s = empty_settings();
    assert_eq!(
        load_provider_config(&s).unwrap_err(),
        "Anthropic API key not configured. Please set it in Settings."
    );
}

#[test]
fn load_config_reports_unknown_provider() {
    let mut s = empty_settings();
    s.api_provider = Some("bedrock".to_string());
    assert_eq!(load_provider_config(&s).unwrap_err(), "Unknown provider: bedrock");
}

#[test]
fn load_config_litellm_needs_both_settings() {
    let mut s = empty_settings();
    s.api_provider = Some("litellm".to_string());
    assert_eq!(
        load_provider_config(&s).unwrap_err(),
        "LiteLLM base URL not configured. Please set it in Settings."
    );
    s.litellm_base_url = Some("http://gw".to_string());
    assert_eq!(
        load_provider_config(&s).unwrap_err(),
        "LiteLLM API key not configured. Please set it in Settings."
    );
    s.litellm_api_key = Some("k".to_string());
    match load_provider_config(&s).unwrap() {
        ActiveProviderConfig::LiteLLM(c) => {
            assert_eq!(c.base_url, "http://gw");
            assert_eq!(c.api_key, "k");
        },
        _ => panic!("expected the LiteLLM configuration"),
    }
}

#[test]
fn display_label_capitalizes_words() {
    assert_eq!(derive_display_label("orca-sonnet-4"), "Orca Sonnet 4");
    assert_eq!(derive_display_label("gpt-4o"), "Gpt 4o");
    assert_eq!(derive_display_label("--x--"), "X");
    assert_eq!(derive_display_label(""), "");
}

#[test]
fn anthropic_models_are_parsed_and_renamed() {
    let text = "{\"data\":[{\"id\":\"orca-sonnet-4-20250514\",\"display_name\":\"Orca Sonnet 4\"},{\"id\":\"orca-opus-4-20250514\",\"display_name\":\"Orca Opus 4\"}]}";
    let models = models_from_anthropic_response(text).unwrap();
    assert_eq!(models.len(), 2);
    assert_eq!(models[0].id, "orca-sonnet-4-20250514");
    assert_eq!(models[0].display_name, "orca-sonnet-4");
    assert_eq!(models[0].display_label, "Orca Sonnet 4");
    assert_eq!(models[1].display_name, "orca-opus-4");
}

#[test]
fn anthropic_models_parse_failure_is_reported() {
    let err = models_from_anthropic_response("not json").unwrap_err();
    assert!(err.starts_with("Failed to parse Anthropic models response: "), "got: {}", err);
}

#[test]
fn openai_models_derive_labels() {
    let text = "{\"data\":[{\"id\":\"orca-sonnet-4-20250514\"}]}";
    let models = models_from_openai_response(text).unwrap();
    assert_eq!(models.len(), 1);
    assert_eq!(models[0].display_name, "orca-sonnet-4");
    assert_eq!(models[0].display_label, "Orca Sonnet 4");
}

#[test]
fn openai_models_parse_failure_is_reported() {
    let err = models_from_openai_response("{}").unwrap_err();
    assert!(err.starts_with("Failed to parse LiteLLM models response: "), "got: {}", err);
}

#[test]
fn resolve_model_name_takes_first_match() {
    let models = vec![
        ModelInfo {
            id: "m-a-20250101".to_string(),
            display_name: "m-a".to_string(),
            display_label: "M A".to_string(),
        },
        ModelInfo {
            id: "m-a-20250301".to_string(),
            display_name: "m-a".to_string(),
            display_label: "M A".to_string(),
        },
    ];
    assert_eq!(resolve_model_name(&models, "m-a"), "m-a-20250101");
}

#[test]
fn resolve_model_name_passes_unknown_names_through() {
    let models: Vec<ModelInfo> = Vec::new();
    assert_eq!(resolve_model_name(&models, "m-a-20250101"), "m-a-20250101");
}
