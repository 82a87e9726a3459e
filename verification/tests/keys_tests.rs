use money_routes::error::RouteError;
use money_routes::json::JsonValue;
use money_routes::keys::{
    build_metadata, can_mask, check_key_active, decorate_key_response, key_test_kind, mask_api_key,
    mask_secret, KeyKind,
    update_key_metadata, validate_key_type,
};
use money_routes::providers::{
    check_provider_active, choose_llm_client, get_llm_client_from_env, get_llm_client_from_env_with_proxy,
    llm_error_message, parse_provider, parse_provider_ignoring_case, response_preview,
    settings_from_config, EnvLlmClient, LlmProvider, LlmSettings,
};

fn settings(key: &str) -> LlmSettings {
    LlmSettings {
        provider: LlmProvider::OpenAI,
        api_key: key.to_string(),
        base_url: "https://api.openai.com/v1".to_string(),
        model: Some("gpt-4o-mini".to_string()),
        max_tokens: 2048,
        proxy_url: None,
    }
}

fn lookup<'a>(entries: &'a [(String, JsonValue)], key: &str) -> Option<&'a JsonValue> {
    entries.iter().find(|(k, _)| k == key).map(|(_, v)| v)
}

#[test]
fn masks_secrets_to_four_bytes() {
    assert_eq!(mask_secret("abcdefgh"), "abcd****");
    assert_eq!(mask_secret("abcd"), "****");
    assert_eq!(mask_secret(""), "****");
    assert_eq!(mask_api_key("sk-12345"), "sk-1****");
    assert_eq!(mask_secret("éaxyz"), "éax****");
    assert!(can_mask("abcdef"));
    assert!(!can_mask("密钥abc"));
    assert!(can_mask("密"));
}

#[test]
fn validates_key_types() {
    assert!(validate_key_type("exchange").is_ok());
    assert!(validate_key_type("ai_provider").is_ok());
    match validate_key_type("broker") {
        Err(RouteError::Validation(m)) => assert_eq!(m, "key_type must be 'exchange' or 'ai_provider'"),
        other => panic!("unexpected {:?}", other),
    }
}

#[test]
fn builds_metadata_by_key_type() {
    match build_metadata("exchange", None, None, None, None) {
        JsonValue::Object(e) => {
            assert_eq!(e.len(), 1);
            assert_eq!(lookup(&e, "is_demo").and_then(|v| v.as_bool()), Some(false));
        }
        other => panic!("unexpected {:?}", other),
    }
    match build_metadata("ai_provider", None, Some("deepseek".to_string()), None, None) {
        JsonValue::Object(e) => {
            assert_eq!(lookup(&e, "provider").and_then(|v| v.as_str()), Some("deepseek"));
            assert_eq!(lookup(&e, "base_url").and_then(|v| v.as_str()), Some("https://api.openai.com/v1"));
            assert_eq!(lookup(&e, "model").and_then(|v| v.as_str()), Some("gpt-4o-mini"));
        }
        other => panic!("unexpected {:?}", other),
    }
    match build_metadata("other", Some(true), None, None, None) {
        JsonValue::Object(e) => assert!(e.is_empty()),
        other => panic!("unexpected {:?}", other),
    }
}

#[test]
fn decorates_and_updates_key_metadata() {
    let metadata = JsonValue::Object(vec![
        ("is_demo".to_string(), JsonValue::Bool(true)),
        ("model".to_string(), JsonValue::Str("m1".to_string())),
    ]);
    let mut response = vec![("id".to_string(), JsonValue::Str("1".to_string()))];
    decorate_key_response(&mut response, "exchange", &metadata);
    assert_eq!(lookup(&response, "is_demo").and_then(|v| v.as_bool()), Some(true));
    assert!(lookup(&response, "model").is_none());
    let mut response = vec![];
    decorate_key_response(&mut response, "ai_provider", &metadata);
    assert_eq!(lookup(&response, "model").and_then(|v| v.as_str()), Some("m1"));
    assert!(lookup(&response, "is_demo").is_none());

    let mut stored = vec![("is_demo".to_string(), JsonValue::Bool(false))];
    update_key_metadata(&mut stored, "exchange", Some(true), Some("x".to_string()), None, None);
    assert_eq!(lookup(&stored, "is_demo").and_then(|v| v.as_bool()), Some(true));
    assert!(lookup(&stored, "provider").is_none());
    update_key_metadata(&mut stored, "ai_provider", Some(false), None, Some("u".to_string()), None);
    assert_eq!(lookup(&stored, "is_demo").and_then(|v| v.as_bool()), Some(true));
    assert_eq!(lookup(&stored, "base_url").and_then(|v| v.as_str()), Some("u"));
}

#[test]
fn reads_provider_names_and_defaults() {
    assert_eq!(parse_provider("deepseek"), LlmProvider::DeepSeek);
    assert_eq!(parse_provider("DeepSeek"), LlmProvider::OpenAI);
    assert_eq!(parse_provider_ignoring_case("DeepSeek"), LlmProvider::DeepSeek);
    assert_eq!(parse_provider("custom"), LlmProvider::Custom);
    assert_eq!(LlmProvider::Anthropic.default_base_url(), "https://api.anthropic.com/v1");
    assert_eq!(LlmProvider::Custom.default_model(), Some("local-model"));
    assert_eq!(LlmProvider::Anthropic.default_model(), None);
}

#[test]
fn stored_provider_configs_need_a_key_unless_custom() {
    assert!(settings_from_config("openai", String::new(), None, None, None, None).is_none());
    let custom = settings_from_config("Custom", String::new(), None, None, Some(512), None).unwrap();
    assert_eq!(custom.provider, LlmProvider::Custom);
    assert_eq!(custom.base_url, "http://localhost:11434/v1");
    assert_eq!(custom.max_tokens, 512);
    let ds = settings_from_config("deepseek", "k".to_string(), None, Some("m".to_string()), None, None).unwrap();
    assert_eq!(ds.base_url, "https://api.deepseek.com/v1");
    assert_eq!(ds.model.as_deref(), Some("m"));
    assert_eq!(ds.max_tokens, 2048);
}

#[test]
fn environment_client_and_choice() {
    let env = Ok(EnvLlmClient { settings: settings("k"), configured: true });
    let c = get_llm_client_from_env_with_proxy(env, Some("socks5://p")).unwrap();
    assert_eq!(c.proxy_url.as_deref(), Some("socks5://p"));
    let env = Ok(EnvLlmClient { settings: settings(""), configured: false });
    assert!(get_llm_client_from_env(env).is_none());
    assert!(get_llm_client_from_env(Err("no env".to_string())).is_none());

    let chosen = choose_llm_client(Ok(Some(settings("db"))), Some(settings("env"))).unwrap();
    assert_eq!(chosen.api_key, "db");
    let chosen = choose_llm_client(Err("db down".to_string()), Some(settings("env"))).unwrap();
    assert_eq!(chosen.api_key, "env");
    match choose_llm_client(Ok(None), None) {
        Err(RouteError::Validation(m)) => assert!(m.starts_with("未配置 AI 模型")),
        other => panic!("unexpected {:?}", other),
    }
}

#[test]
fn explains_model_failures() {
    assert_eq!(llm_error_message("HTTP 401 Unauthorized"), "AI 模型认证失败，API Key 无效或已过期，请在系统设置中重新配置");
    assert_eq!(llm_error_message("status 403"), "AI 模型访问被拒绝，请检查 API Key 权限");
    assert_eq!(llm_error_message("429 Too Many Requests"), "AI 模型请求过于频繁，请稍后重试");
    assert_eq!(llm_error_message("operation TimedOut"), "AI 模型请求超时，请检查网络连接");
    assert_eq!(llm_error_message("boom"), "AI 模型调用失败: boom。请检查 API Key 和网络配置");
}

#[test]
fn previews_long_replies() {
    let long = "x".repeat(150);
    assert_eq!(response_preview(&long), format!("{}...", "x".repeat(100)));
    assert_eq!(response_preview("short"), "short");
    assert_eq!(response_preview(&"字".repeat(100)), "字".repeat(100));
}

#[test]
fn disabled_keys_and_providers_are_not_tested() {
    assert!(check_key_active(true).is_ok());
    assert!(matches!(check_key_active(false),
        Err(RouteError::Validation(m)) if m == "API key is disabled, please enable it first"));
    assert!(check_provider_active(true).is_ok());
    assert!(matches!(check_provider_active(false),
        Err(RouteError::Validation(m)) if m == "AI provider config is disabled, please enable it first"));
}

#[test]
fn key_types_choose_the_test() {
    assert_eq!(key_test_kind("exchange").unwrap(), KeyKind::Exchange);
    assert_eq!(key_test_kind("ai_provider").unwrap(), KeyKind::AiProvider);
    assert!(matches!(key_test_kind("ssh"),
        Err(RouteError::Validation(m)) if m == "Unknown key_type: ssh"));
}
