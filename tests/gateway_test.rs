use fuckmit::config::{EnvVars, GatewayConfig, ProviderConfig};
use fuckmit::error::GatewayError;
use fuckmit::gateway::LLMGateway;
use fuckmit::providers::{ProviderSettings, ProviderType};
use fuckmit::types::{ChatChoice, ChatMessage, ChatResponse, MessageRole, Usage};

fn s(x: &str) -> String {
    x.to_string()
}

#[test]
fn provider_names_parse_ignoring_case() {
    assert_eq!(ProviderType::parse("OpenAI"), Ok(ProviderType::OpenAI));
    assert_eq!(ProviderType::parse("AZURE"), Ok(ProviderType::Azure));
    assert_eq!(ProviderType::parse("deepseek"), Ok(ProviderType::DeepSeek));
    assert_eq!("Qwen".parse::<ProviderType>(), Ok(ProviderType::Qwen));
    assert_eq!(
        ProviderType::parse("mistral"),
        Err(s("Unknown provider type: mistral"))
    );
    assert_eq!(ProviderType::from_lowercase("OpenAI"), None);
    assert_eq!(ProviderType::from_lowercase("openai"), Some(ProviderType::OpenAI));
    assert_eq!(ProviderType::Qwen.name(), "qwen");
}

#[test]
fn gateway_construction_fails_fast_on_missing_key() {
    let config = GatewayConfig::new(ProviderType::OpenAI)
        .with_provider(ProviderType::OpenAI, ProviderConfig::new(s("sk-1")))
        .with_provider(ProviderType::Qwen, ProviderConfig::new(s("")));
    match LLMGateway::new(config) {
        Err(GatewayError::Config(m)) => assert_eq!(m, "Qwen API key is required"),
        _ => panic!("expected a configuration error"),
    }
}

#[test]
fn gateway_requires_default_provider_and_azure_details() {
    let empty = GatewayConfig::new(ProviderType::OpenAI);
    assert!(matches!(LLMGateway::new(empty), Err(GatewayError::Config(_))));

    let other_default = GatewayConfig::new(ProviderType::Azure)
        .with_provider(ProviderType::OpenAI, ProviderConfig::new(s("k")));
    assert!(matches!(LLMGateway::new(other_default), Err(GatewayError::Config(_))));

    let azure_no_endpoint = GatewayConfig::new(ProviderType::Azure)
        .with_provider(ProviderType::Azure, ProviderConfig::new(s("k")).with_default_model(s("dep")));
    match LLMGateway::new(azure_no_endpoint) {
        Err(GatewayError::Config(m)) => assert_eq!(m, "Azure endpoint is required"),
        _ => panic!("expected a configuration error"),
    }

    let azure_no_deployment = GatewayConfig::new(ProviderType::Azure).with_provider(
        ProviderType::Azure,
        ProviderConfig::new(s("k")).with_base_url(s("https://x.example")),
    );
    match LLMGateway::new(azure_no_deployment) {
        Err(GatewayError::Config(m)) => assert_eq!(m, "Azure deployment name is required"),
        _ => panic!("expected a configuration error"),
    }
}

#[test]
fn gateway_resolves_provider_and_model() {
    let config = GatewayConfig::new(ProviderType::Qwen)
        .with_provider(ProviderType::Qwen, ProviderConfig::new(s("qk")))
        .with_provider(
            ProviderType::OpenAI,
            ProviderConfig::new(s("ok"))
                .with_base_url(s("http://localhost:9"))
                .with_default_model(s("gpt-4")),
        )
        .with_timeout(30)
        .with_max_retries(2);
    let gateway = LLMGateway::new(config).expect("valid configuration");
    assert_eq!(gateway.default_provider(), ProviderType::Qwen);
    assert_eq!(
        gateway.available_providers(),
        vec![ProviderType::OpenAI, ProviderType::Qwen]
    );
    assert!(gateway.has_provider(&ProviderType::OpenAI));
    assert!(!gateway.has_provider(&ProviderType::Azure));
    assert_eq!(gateway.config().timeout_seconds, Some(30));
    assert_eq!(gateway.config().max_retries, Some(2));

    let call = gateway
        .prepare_chat(vec![ChatMessage::user(s("hi"))], None, None, Some(100))
        .expect("default provider is configured");
    assert_eq!(call.provider, ProviderType::Qwen);
    assert_eq!(call.model, "qwen-max");
    assert_eq!(
        call.url,
        "https://dashscope.aliyuncs.com/compatible-mode/v1/chat/completions"
    );
    assert_eq!(call.auth, (s("Authorization"), s("Bearer qk")));
    assert_eq!(call.max_tokens, Some(100));
    assert_eq!(call.messages.len(), 1);

    let call = gateway
        .prepare_chat(vec![], Some(ProviderType::OpenAI), None, None)
        .unwrap();
    assert_eq!(call.model, "gpt-4");
    assert_eq!(call.url, "http://localhost:9/chat/completions");

    let call = gateway
        .prepare_chat(vec![], Some(ProviderType::OpenAI), Some(s("m")), None)
        .unwrap();
    assert_eq!(call.model, "m");

    match gateway.prepare_chat(vec![], Some(ProviderType::DeepSeek), None, None) {
        Err(GatewayError::Config(m)) => assert_eq!(m, "Provider deepseek is not configured"),
        _ => panic!("expected a configuration error"),
    }
}

#[test]
fn azure_addresses_the_deployment() {
    let config = GatewayConfig::new(ProviderType::Azure).with_provider(
        ProviderType::Azure,
        ProviderConfig::new(s("az"))
            .with_base_url(s("https://r.openai.azure.com"))
            .with_default_model(s("dep1"))
            .with_extra(s("api_version"), s("2023-05-15")),
    );
    let gateway = LLMGateway::new(config).unwrap();
    let call = gateway.prepare_chat(vec![], None, Some(s("gpt-4o")), None).unwrap();
    assert_eq!(call.model, "dep1");
    assert_eq!(
        call.url,
        "https://r.openai.azure.com/openai/deployments/dep1/chat/completions?api-version=2023-05-15"
    );
    assert_eq!(call.auth, (s("api-key"), s("az")));
}

#[test]
fn provider_settings_defaults() {
    let c = ProviderConfig::new(s("k"));
    let p = ProviderSettings::new(ProviderType::DeepSeek, &c).unwrap();
    assert_eq!(p.default_model(), Some("deepseek-coder"));
    assert_eq!(p.chat_url().unwrap(), "https://api.deepseek.com/v1/chat/completions");
    assert!(!p.supports_streaming());
    assert!(p.validate_config().is_ok());
    let a = ProviderSettings::new(
        ProviderType::Azure,
        &ProviderConfig::new(s("k")).with_base_url(s("https://e")),
    )
    .unwrap();
    assert_eq!(a.api_version, "2024-02-15-preview");
    assert_eq!(a.default_model(), None);
    assert!(matches!(a.chat_url(), Err(GatewayError::Config(_))));
}

#[test]
fn extra_settings_later_entry_wins() {
    let c = ProviderConfig::new(s("k"))
        .with_extra(s("a"), s("1"))
        .with_extra(s("b"), s("2"))
        .with_extra(s("a"), s("3"));
    assert_eq!(c.get_extra("a"), Some(&s("3")));
    assert_eq!(c.get_extra("b"), Some(&s("2")));
    assert_eq!(c.get_extra("c"), None);
}

#[test]
fn gateway_config_getters() {
    let config = GatewayConfig::new(ProviderType::OpenAI)
        .with_provider(ProviderType::OpenAI, ProviderConfig::new(s("k1")));
    assert_eq!(config.get_default_provider_config().unwrap().api_key, "k1");
    assert!(config.get_provider_config(&ProviderType::Azure).is_none());
}

#[test]
fn transport_errors_are_classified() {
    assert!(matches!(
        GatewayError::from_transport(true, Some(401), s("t")),
        GatewayError::Timeout(_)
    ));
    assert!(matches!(
        GatewayError::from_transport(false, Some(401), s("t")),
        GatewayError::Auth(_)
    ));
    assert!(matches!(
        GatewayError::from_transport(false, Some(429), s("t")),
        GatewayError::RateLimit(_)
    ));
    assert!(matches!(
        GatewayError::from_transport(false, Some(404), s("t")),
        GatewayError::InvalidRequest(_)
    ));
    assert!(matches!(
        GatewayError::from_transport(false, Some(503), s("t")),
        GatewayError::Http(_)
    ));
    assert!(matches!(
        GatewayError::from_transport(false, None, s("t")),
        GatewayError::Http(_)
    ));
    assert_eq!(
        GatewayError::Config(s("bad")).describe(),
        "Configuration error: bad"
    );
    assert_eq!(GatewayError::Other(s("x")).describe(), "Error: x");
}

#[test]
fn env_vars_build_the_configuration() {
    let mut vars = EnvVars::default();
    vars.llm_model = Some(s("Qwen/qwen-plus"));
    vars.openai_api_key = Some(s("ok"));
    vars.qwen_api_key = Some(s("qk"));
    vars.qwen_model = Some(s("qwen-turbo"));
    vars.timeout_seconds = Some(s("+45"));
    vars.max_retries = Some(s("3"));
    let c = GatewayConfig::from_vars(&vars).unwrap();
    assert_eq!(c.default_provider, ProviderType::Qwen);
    assert_eq!(
        c.get_provider_config(&ProviderType::Qwen).unwrap().default_model,
        Some(s("qwen-plus"))
    );
    assert_eq!(c.get_provider_config(&ProviderType::OpenAI).unwrap().api_key, "ok");
    assert!(c.get_provider_config(&ProviderType::Azure).is_none());
    assert_eq!(c.timeout_seconds, Some(45));
    assert_eq!(c.max_retries, Some(3));
}

#[test]
fn env_vars_errors() {
    let mut vars = EnvVars::default();
    match GatewayConfig::from_vars(&vars) {
        Err(GatewayError::Config(m)) => assert_eq!(
            m,
            "No providers configured. Please set at least one provider's API key."
        ),
        _ => panic!("expected a configuration error"),
    }
    vars.azure_api_key = Some(s("a"));
    match GatewayConfig::from_vars(&vars) {
        Err(GatewayError::Config(m)) => assert_eq!(m, "Default provider OpenAI is not configured"),
        _ => panic!("expected a configuration error"),
    }
    vars.llm_model = Some(s("gpt-4"));
    match GatewayConfig::from_vars(&vars) {
        Err(GatewayError::Config(m)) => assert_eq!(
            m,
            "LLM_MODEL must be in format 'provider/model' (e.g., 'openai/gpt-4')"
        ),
        _ => panic!("expected a configuration error"),
    }
    vars.llm_model = Some(s("foo/bar"));
    match GatewayConfig::from_vars(&vars) {
        Err(GatewayError::Config(m)) => assert_eq!(m, "Invalid provider in LLM_MODEL: foo"),
        _ => panic!("expected a configuration error"),
    }
    vars.llm_model = Some(s("azure/dep"));
    vars.azure_api_version = Some(s("v1"));
    vars.timeout_seconds = Some(s("18446744073709551616"));
    match GatewayConfig::from_vars(&vars) {
        Err(GatewayError::Config(m)) => assert_eq!(m, "Invalid timeout value"),
        _ => panic!("expected a configuration error"),
    }
    vars.timeout_seconds = Some(s("18446744073709551615"));
    vars.max_retries = Some(s("4294967296"));
    match GatewayConfig::from_vars(&vars) {
        Err(GatewayError::Config(m)) => assert_eq!(m, "Invalid max retries value"),
        _ => panic!("expected a configuration error"),
    }
    vars.max_retries = Some(s("-1"));
    assert!(GatewayConfig::from_vars(&vars).is_err());
    vars.max_retries = None;
    let c = GatewayConfig::from_vars(&vars).unwrap();
    assert_eq!(c.timeout_seconds, Some(u64::MAX));
    let az = c.get_provider_config(&ProviderType::Azure).unwrap();
    assert_eq!(az.default_model, Some(s("dep")));
    assert_eq!(az.get_extra("api_version"), Some(&s("v1")));
}

#[test]
fn response_content_and_message() {
    let empty = ChatResponse {
        id: s("1"),
        object: s("chat.completion"),
        created: 0,
        model: s("m"),
        choices: vec![],
        usage: Usage { prompt_tokens: 1, completion_tokens: 2, total_tokens: 3 },
        system_fingerprint: None,
    };
    assert_eq!(empty.content(), None);
    assert!(empty.message().is_none());
    let mut full = empty.clone();
    full.choices.push(ChatChoice {
        index: 0,
        message: ChatMessage::assistant(s("done")),
        finish_reason: Some(s("stop")),
    });
    assert_eq!(full.content(), Some("done"));
    assert_eq!(full.message().unwrap().role, MessageRole::Assistant);
    assert_eq!(ChatMessage::system(s("x")).role.as_str(), "system");
    assert_eq!(ChatMessage::new(MessageRole::Function, s("f")).content, "f");
}

#[test]
fn reply_status_is_checked() {
    let p = ProviderSettings::new(ProviderType::Azure, &ProviderConfig::new(s("k")).with_base_url(s("https://e"))).unwrap();
    assert!(p.check_status(200, "200 OK", "").is_ok());
    assert!(p.check_status(299, "299", "").is_ok());
    match p.check_status(500, "500 Internal Server Error", "boom") {
        Err(GatewayError::Provider(m)) => {
            assert_eq!(m, "Azure OpenAI API error 500 Internal Server Error: boom")
        }
        _ => panic!("expected a provider error"),
    }
}

#[test]
fn unconfigured_provider_lists_the_available_ones() {
    let config = GatewayConfig::new(ProviderType::OpenAI)
        .with_provider(ProviderType::OpenAI, ProviderConfig::new(s("a")))
        .with_provider(ProviderType::DeepSeek, ProviderConfig::new(s("b")));
    let gateway = LLMGateway::new(config).unwrap();
    assert!(gateway.require_provider(&ProviderType::DeepSeek).is_ok());
    match gateway.require_provider(&ProviderType::Qwen) {
        Err(GatewayError::Config(m)) => assert_eq!(
            m,
            "Provider qwen is not configured. Available providers: openai, deepseek"
        ),
        _ => panic!("expected a configuration error"),
    }
}
