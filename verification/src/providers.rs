//! Language-model providers: which provider a stored name means, its default
//! endpoint and model, and which client configuration a request uses.
use vstd::prelude::*;
use crate::error::RouteError;
use crate::text::{contains_str, seq_contains, str_eq, to_chars, to_lower, take_chars, unicode_lower};

verus! {

/// The model providers a key can be for.
#[derive(PartialEq, Eq, Structural, Clone, Copy, Debug)]
pub enum LlmProvider {
    OpenAI,
    DeepSeek,
    Anthropic,
    Custom,
}

/// The provider a stored name means (compared as it is); any unknown name
/// means OpenAI.
pub open spec fn spec_provider(name: Seq<char>) -> LlmProvider {
    if name == "deepseek"@ {
        LlmProvider::DeepSeek
    } else if name == "anthropic"@ {
        LlmProvider::Anthropic
    } else if name == "custom"@ {
        LlmProvider::Custom
    } else {
        LlmProvider::OpenAI
    }
}

/// The provider a stored name means, compared as it is.
pub fn parse_provider(name: &str) -> (p: LlmProvider)
    ensures
        p == spec_provider(name@),
{
    if str_eq(name, "deepseek") {
        LlmProvider::DeepSeek
    } else if str_eq(name, "anthropic") {
        LlmProvider::Anthropic
    } else if str_eq(name, "custom") {
        LlmProvider::Custom
    } else {
        LlmProvider::OpenAI
    }
}

/// The provider a stored name means, compared in lower case.
pub fn parse_provider_ignoring_case(name: &str) -> (p: LlmProvider)
    ensures
        p == spec_provider(unicode_lower(name@)),
{
    let lower = to_lower(name);
    parse_provider(lower.as_str())
}

impl LlmProvider {
    /// The endpoint used when none is configured.
    pub fn default_base_url(&self) -> (u: &'static str)
        ensures
            *self == LlmProvider::OpenAI ==> u@ == "https://api.openai.com/v1"@,
            *self == LlmProvider::DeepSeek ==> u@ == "https://api.deepseek.com/v1"@,
            *self == LlmProvider::Anthropic ==> u@ == "https://api.anthropic.com/v1"@,
            *self == LlmProvider::Custom ==> u@ == "http://localhost:11434/v1"@,
    {
        match self {
            LlmProvider::OpenAI => "https://api.openai.com/v1",
            LlmProvider::DeepSeek => "https://api.deepseek.com/v1",
            LlmProvider::Anthropic => "https://api.anthropic.com/v1",
            LlmProvider::Custom => "http://localhost:11434/v1",
        }
    }

    /// The model used when none is configured. Anthropic's default model is
    /// not named in this library: `None` leaves it to the client, which knows
    /// the provider's default.
    pub fn default_model(&self) -> (m: Option<&'static str>)
        ensures
            *self == LlmProvider::OpenAI ==> (m matches Some(x) && x@ == "gpt-4o-mini"@),
            *self == LlmProvider::DeepSeek ==> (m matches Some(x) && x@ == "deepseek-chat"@),
            *self == LlmProvider::Anthropic ==> m is None,
            *self == LlmProvider::Custom ==> (m matches Some(x) && x@ == "local-model"@),
    {
        match self {
            LlmProvider::OpenAI => Some("gpt-4o-mini"),
            LlmProvider::DeepSeek => Some("deepseek-chat"),
            LlmProvider::Anthropic => None,
            LlmProvider::Custom => Some("local-model"),
        }
    }
}

/// How a model client is set up, apart from its sampling temperature.
#[derive(Debug)]
pub struct LlmSettings {
    pub provider: LlmProvider,
    pub api_key: String,
    pub base_url: String,
    /// The model; `None` asks for the provider's own default.
    pub model: Option<String>,
    pub max_tokens: i32,
    /// The proxy that requests go through, if any.
    pub proxy_url: Option<String>,
}

/// The endpoint of `provider` unless one is configured.
pub open spec fn url_or_default(provider: LlmProvider, url: Option<Seq<char>>) -> Seq<char> {
    match url {
        Some(u) => u,
        None => match provider {
            LlmProvider::OpenAI => "https://api.openai.com/v1"@,
            LlmProvider::DeepSeek => "https://api.deepseek.com/v1"@,
            LlmProvider::Anthropic => "https://api.anthropic.com/v1"@,
            LlmProvider::Custom => "http://localhost:11434/v1"@,
        },
    }
}

/// The model of `provider` unless one is configured (`None`: the provider's
/// own default, left to the client).
pub open spec fn model_or_default(provider: LlmProvider, model: Option<Seq<char>>) -> Option<Seq<char>> {
    match model {
        Some(m) => Some(m),
        None => match provider {
            LlmProvider::OpenAI => Some("gpt-4o-mini"@),
            LlmProvider::DeepSeek => Some("deepseek-chat"@),
            LlmProvider::Anthropic => None,
            LlmProvider::Custom => Some("local-model"@),
        },
    }
}

/// The view of an optional string.
pub open spec fn opt_view(s: Option<String>) -> Option<Seq<char>> {
    match s {
        Some(x) => Some(x@),
        None => None,
    }
}

/// The client settings a user's stored provider configuration gives: the
/// provider read in lower case, the configured endpoint, model and token limit
/// or the provider's defaults (2048 tokens). A configuration without a key is
/// unusable, except for a custom provider, which needs none.
pub fn settings_from_config(
    provider_name: &str,
    api_key: String,
    base_url: Option<String>,
    model: Option<String>,
    max_tokens: Option<i32>,
    proxy_url: Option<String>,
) -> (r: Option<LlmSettings>)
    ensures
        ({
            let p = spec_provider(unicode_lower(provider_name@));
            match r {
                Some(s) => {
                    &&& !(api_key@.len() == 0 && p != LlmProvider::Custom)
                    &&& s.provider == p
                    &&& s.api_key@ == api_key@
                    &&& s.base_url@ == url_or_default(p, opt_view(base_url))
                    &&& opt_view(s.model) == model_or_default(p, opt_view(model))
                    &&& s.max_tokens == match max_tokens {
                        Some(t) => t,
                        None => 2048,
                    }
                    &&& opt_view(s.proxy_url) == opt_view(proxy_url)
                },
                None => api_key@.len() == 0 && p != LlmProvider::Custom,
            }
        }),
{
    let provider = parse_provider_ignoring_case(provider_name);
    if api_key.as_str().is_empty() && provider != LlmProvider::Custom {
        return None;
    }
    let base_url = match base_url {
        Some(u) => u,
        None => String::from_str(provider.default_base_url()),
    };
    let model = match model {
        Some(m) => Some(m),
        None => match provider.default_model() {
            Some(m) => Some(String::from_str(m)),
            None => None,
        },
    };
    let max_tokens = match max_tokens {
        Some(t) => t,
        None => 2048,
    };
    Some(LlmSettings { provider, api_key, base_url, model, max_tokens, proxy_url })
}

/// A client built from the environment, and whether it has what it needs (a key).
#[derive(Debug)]
pub struct EnvLlmClient {
    pub settings: LlmSettings,
    pub configured: bool,
}

/// The client from the environment, routed through `proxy_url` when one is
/// given: none when the environment gave no client or an unconfigured one.
pub fn get_llm_client_from_env_with_proxy(
    env: Result<EnvLlmClient, String>,
    proxy_url: Option<&str>,
) -> (r: Option<LlmSettings>)
    ensures
        match env {
            Ok(c) => if c.configured {
                (r matches Some(s) && s.provider == c.settings.provider && s.api_key@
                    == c.settings.api_key@ && s.base_url@ == c.settings.base_url@ && opt_view(s.model)
                    == opt_view(c.settings.model) && s.max_tokens == c.settings.max_tokens && opt_view(
                    s.proxy_url,
                ) == match proxy_url {
                    Some(u) => Some(u@),
                    None => opt_view(c.settings.proxy_url),
                })
            } else {
                r is None
            },
            Err(_) => r is None,
        },
{
    match env {
        Ok(client) => {
            if client.configured {
                let mut settings = client.settings;
                match proxy_url {
                    Some(u) => {
                        settings.proxy_url = Some(String::from_str(u));
                    },
                    None => {},
                }
                Some(settings)
            } else {
                None
            }
        },
        Err(_) => None,
    }
}

/// The client from the environment, as it was built.
pub fn get_llm_client_from_env(env: Result<EnvLlmClient, String>) -> (r: Option<LlmSettings>)
    ensures
        match env {
            Ok(c) => if c.configured {
                (r matches Some(s) && s.provider == c.settings.provider && s.api_key@
                    == c.settings.api_key@ && s.base_url@ == c.settings.base_url@ && opt_view(s.model)
                    == opt_view(c.settings.model) && s.max_tokens == c.settings.max_tokens && opt_view(
                    s.proxy_url,
                ) == opt_view(c.settings.proxy_url))
            } else {
                r is None
            },
            Err(_) => r is None,
        },
{
    get_llm_client_from_env_with_proxy(env, None)
}

/// A provider configuration is tested only when it is enabled.
pub fn check_provider_active(is_active: bool) -> (r: Result<(), RouteError>)
    ensures
        r is Ok <==> is_active,
        !is_active ==> (r matches Err(RouteError::Validation(m)) && m@
            == "AI provider config is disabled, please enable it first"@),
{
    if is_active {
        Ok(())
    } else {
        Err(RouteError::Validation(String::from_str("AI provider config is disabled, please enable it first")))
    }
}

/// The message returned when no model is configured at all.
pub open spec fn no_model_message() -> Seq<char> {
    "未配置 AI 模型，请在系统设置中配置 API Key（支持 OpenAI/DeepSeek/Anthropic）"@
}

/// The client a request uses: the user's own configuration when it is usable,
/// else the environment's; with neither, a validation error.
pub fn choose_llm_client(
    from_db: Result<Option<LlmSettings>, String>,
    from_env: Option<LlmSettings>,
) -> (r: Result<LlmSettings, RouteError>)
    ensures
        from_db matches Ok(Some(s)) ==> r == Ok::<LlmSettings, RouteError>(s),
        !(from_db matches Ok(Some(_))) && from_env is Some ==> r == Ok::<LlmSettings, RouteError>(
            from_env->0,
        ),
        !(from_db matches Ok(Some(_))) && from_env is None ==> (r matches Err(
            RouteError::Validation(m),
        ) && m@ == no_model_message()),
{
    match from_db {
        Ok(Some(s)) => Ok(s),
        _ => match from_env {
            Some(s) => Ok(s),
            None => Err(
                RouteError::Validation(
                    String::from_str(
                        "未配置 AI 模型，请在系统设置中配置 API Key（支持 OpenAI/DeepSeek/Anthropic）",
                    ),
                ),
            ),
        },
    }
}

} // verus!

verus! {

/// The message a user sees when a model call failed with `e`: the failure is
/// named by what the error text mentions (authentication, refused access,
/// rate limit, timeout), else it is quoted.
pub open spec fn spec_llm_error_message(e: Seq<char>) -> Seq<char> {
    if seq_contains(e, "401"@) || seq_contains(e, "Authentication"@) || seq_contains(e, "invalid"@) {
        "AI 模型认证失败，API Key 无效或已过期，请在系统设置中重新配置"@
    } else if seq_contains(e, "403"@) {
        "AI 模型访问被拒绝，请检查 API Key 权限"@
    } else if seq_contains(e, "429"@) {
        "AI 模型请求过于频繁，请稍后重试"@
    } else if seq_contains(e, "timeout"@) || seq_contains(e, "TimedOut"@) {
        "AI 模型请求超时，请检查网络连接"@
    } else {
        "AI 模型调用失败: "@ + e + "。请检查 API Key 和网络配置"@
    }
}

/// The message a user sees when a model call failed with the error text `e`.
pub fn llm_error_message(e: &str) -> (m: String)
    ensures
        m@ == spec_llm_error_message(e@),
{
    let v = to_chars(e);
    if contains_str(&v, "401") || contains_str(&v, "Authentication") || contains_str(&v, "invalid") {
        String::from_str("AI 模型认证失败，API Key 无效或已过期，请在系统设置中重新配置")
    } else if contains_str(&v, "403") {
        String::from_str("AI 模型访问被拒绝，请检查 API Key 权限")
    } else if contains_str(&v, "429") {
        String::from_str("AI 模型请求过于频繁，请稍后重试")
    } else if contains_str(&v, "timeout") || contains_str(&v, "TimedOut") {
        String::from_str("AI 模型请求超时，请检查网络连接")
    } else {
        let mut m = String::from_str("AI 模型调用失败: ");
        m.append(e);
        m.append("。请检查 API Key 和网络配置");
        m
    }
}

/// The preview of a test reply: its first 100 characters and `...` when it
/// is longer, the whole reply otherwise.
pub fn response_preview(response: &str) -> (p: String)
    ensures
        p@ == if response@.len() > 100 {
            response@.take(100) + "..."@
        } else {
            response@
        },
{
    if response.unicode_len() > 100 {
        let mut p = take_chars(response, 100);
        p.append("...");
        p
    } else {
        String::from_str(response)
    }
}

} // verus!
