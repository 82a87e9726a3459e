//! System settings: the outbound proxy configuration kept as key/value rows.
use vstd::prelude::*;
use crate::error::RouteError;
use crate::json::{member, str_of, JsonValue};
use crate::text::{replace_all, replace_all_seq, str_eq};

verus! {

/// The proxy configuration as the settings page shows it.
#[derive(Debug)]
pub struct ProxyConfig {
    pub enabled: bool,
    pub url: String,
    pub proxy_type: String,
    pub test_url: String,
}

/// A change to the proxy configuration; a missing field is left as it is.
#[derive(Debug)]
pub struct UpdateProxyConfig {
    pub enabled: Option<bool>,
    pub url: Option<String>,
    pub proxy_type: Option<String>,
    pub test_url: Option<String>,
}

/// The outcome of a test request through the proxy.
#[derive(Debug)]
pub struct ProxyTestResult {
    pub success: bool,
    pub message: String,
    pub latency_ms: Option<u64>,
}

/// The proxy configuration as plain values.
pub struct ProxyView {
    pub enabled: bool,
    pub url: Seq<char>,
    pub proxy_type: Seq<char>,
    pub test_url: Seq<char>,
}

impl ProxyConfig {
    /// The configuration's values.
    pub open spec fn view(&self) -> ProxyView {
        ProxyView {
            enabled: self.enabled,
            url: self.url@,
            proxy_type: self.proxy_type@,
            test_url: self.test_url@,
        }
    }
}

/// The configuration before any setting is stored: disabled, no URL, SOCKS5,
/// tested against OKX.
pub open spec fn default_proxy() -> ProxyView {
    ProxyView {
        enabled: false,
        url: Seq::empty(),
        proxy_type: "socks5"@,
        test_url: "https://www.okx.com"@,
    }
}

/// The configuration after reading one stored row: a known key sets its field
/// (the flag is on only for the value `true`), any other key changes nothing.
pub open spec fn apply_row(c: ProxyView, key: Seq<char>, value: Seq<char>) -> ProxyView {
    if key == "proxy_enabled"@ {
        ProxyView { enabled: value == "true"@, ..c }
    } else if key == "proxy_url"@ {
        ProxyView { url: value, ..c }
    } else if key == "proxy_type"@ {
        ProxyView { proxy_type: value, ..c }
    } else if key == "proxy_test_url"@ {
        ProxyView { test_url: value, ..c }
    } else {
        c
    }
}

/// The configuration that stored rows give, read in order from the defaults.
pub open spec fn read_rows(rows: Seq<(Seq<char>, Seq<char>)>) -> ProxyView
    decreases rows.len(),
{
    if rows.len() == 0 {
        default_proxy()
    } else {
        apply_row(read_rows(rows.drop_last()), rows.last().0, rows.last().1)
    }
}

/// The rows as plain values.
pub open spec fn rows_view(rows: Seq<(String, String)>) -> Seq<(Seq<char>, Seq<char>)> {
    rows.map_values(|r: (String, String)| (r.0@, r.1@))
}

/// The proxy configuration that the stored `proxy` rows give.
pub fn proxy_config_from_rows(rows: &Vec<(String, String)>) -> (c: ProxyConfig)
    ensures
        c.view() == read_rows(rows_view(rows@)),
{
    let mut c = ProxyConfig {
        enabled: false,
        url: String::new(),
        proxy_type: String::from_str("socks5"),
        test_url: String::from_str("https://www.okx.com"),
    };
    let mut i: usize = 0;
    assert(rows_view(rows@.take(0)) =~= Seq::<(Seq<char>, Seq<char>)>::empty());
    while i < rows.len()
        invariant
            i <= rows.len(),
            c.view() == read_rows(rows_view(rows@.take(i as int))),
        decreases rows.len() - i,
    {
        assert(rows_view(rows@.take(i + 1)).drop_last() =~= rows_view(rows@.take(i as int)));
        let key = rows[i].0.as_str();
        let value = &rows[i].1;
        if str_eq(key, "proxy_enabled") {
            c.enabled = str_eq(value.as_str(), "true");
        } else if str_eq(key, "proxy_url") {
            c.url = value.clone();
        } else if str_eq(key, "proxy_type") {
            c.proxy_type = value.clone();
        } else if str_eq(key, "proxy_test_url") {
            c.test_url = value.clone();
        }
        i = i + 1;
    }
    assert(rows@.take(i as int) =~= rows@);
    c
}

/// The rows an update stores, in the order it stores them: the flag as
/// `true` or `false`, then the URL, the proxy type and the test URL, each only
/// when given.
pub open spec fn update_rows(u: UpdateProxyConfig) -> Seq<(Seq<char>, Seq<char>)> {
    (match u.enabled {
        Some(b) => seq![("proxy_enabled"@, if b { "true"@ } else { "false"@ })],
        None => Seq::empty(),
    }) + (match u.url {
        Some(x) => seq![("proxy_url"@, x@)],
        None => Seq::empty(),
    }) + (match u.proxy_type {
        Some(x) => seq![("proxy_type"@, x@)],
        None => Seq::empty(),
    }) + (match u.test_url {
        Some(x) => seq![("proxy_test_url"@, x@)],
        None => Seq::empty(),
    })
}

/// The key/value rows that an update writes.
pub fn proxy_update_rows(u: &UpdateProxyConfig) -> (rows: Vec<(String, String)>)
    ensures
        rows_view(rows@) == update_rows(*u),
{
    let mut rows: Vec<(String, String)> = Vec::new();
    match u.enabled {
        Some(b) => {
            let v = if b { "true" } else { "false" };
            rows.push((String::from_str("proxy_enabled"), String::from_str(v)));
        },
        None => {},
    }
    match &u.url {
        Some(x) => rows.push((String::from_str("proxy_url"), x.clone())),
        None => {},
    }
    match &u.proxy_type {
        Some(x) => rows.push((String::from_str("proxy_type"), x.clone())),
        None => {},
    }
    match &u.test_url {
        Some(x) => rows.push((String::from_str("proxy_test_url"), x.clone())),
        None => {},
    }
    assert(rows_view(rows@) =~= update_rows(*u));
    rows
}

/// Whether requests go through the proxy: it is enabled and has a URL.
pub fn should_use_proxy(config: &ProxyConfig) -> (r: bool)
    ensures
        r == (config.enabled && config.url@.len() > 0),
{
    config.enabled && !config.url.as_str().is_empty()
}

/// The result reported when the proxy's settings do not make a proxy.
pub fn invalid_proxy_result(error: &str) -> (r: ProxyTestResult)
    ensures
        !r.success,
        r.message@ == "代理配置无效: "@ + error@,
        r.latency_ms is None,
{
    let mut message = String::from_str("代理配置无效: ");
    message.append(error);
    ProxyTestResult { success: false, message, latency_ms: None }
}

/// The result reported for a test request that got an HTTP answer; `status` is
/// the status as text, `ok` whether it is a success.
pub fn answered_proxy_result(ok: bool, status: &str, latency_ms: u64) -> (r: ProxyTestResult)
    ensures
        r.success == ok,
        r.message@ == (if ok { "连接成功 (HTTP "@ } else { "连接失败 (HTTP "@ }) + status@ + ")"@,
        r.latency_ms == Some(latency_ms),
{
    let mut message = if ok {
        String::from_str("连接成功 (HTTP ")
    } else {
        String::from_str("连接失败 (HTTP ")
    };
    message.append(status);
    message.append(")");
    ProxyTestResult { success: ok, message, latency_ms: Some(latency_ms) }
}

/// The result reported for a test request that failed before any answer.
pub fn failed_proxy_result(error: &str, latency_ms: u64) -> (r: ProxyTestResult)
    ensures
        !r.success,
        r.message@ == "连接失败: "@ + error@,
        r.latency_ms == Some(latency_ms),
{
    let mut message = String::from_str("连接失败: ");
    message.append(error);
    ProxyTestResult { success: false, message, latency_ms: Some(latency_ms) }
}

/// The value of a setting update: the request's `value` member when it is a
/// string, else a validation error.
pub fn setting_value(body: &JsonValue) -> (r: Result<String, RouteError>)
    ensures
        match r {
            Ok(v) => str_of(member(*body, "value"@)) == Some(v@),
            Err(e) => str_of(member(*body, "value"@)) is None && (e matches RouteError::Validation(
                m,
            ) && m@ == "Missing 'value' field"@),
        },
{
    match body.get("value") {
        Some(v) => match v.as_str() {
            Some(s) => Ok(String::from_str(s)),
            None => Err(RouteError::Validation(String::from_str("Missing 'value' field"))),
        },
        None => Err(RouteError::Validation(String::from_str("Missing 'value' field"))),
    }
}

} // verus!

verus! {

/// The configuration `c` with the fields an update gives replaced.
pub open spec fn updated_view(c: ProxyView, u: UpdateProxyConfig) -> ProxyView {
    ProxyView {
        enabled: match u.enabled {
            Some(b) => b,
            None => c.enabled,
        },
        url: match u.url {
            Some(x) => x@,
            None => c.url,
        },
        proxy_type: match u.proxy_type {
            Some(x) => x@,
            None => c.proxy_type,
        },
        test_url: match u.test_url {
            Some(x) => x@,
            None => c.test_url,
        },
    }
}

proof fn lemma_read_rows_append(rows: Seq<(Seq<char>, Seq<char>)>, more: Seq<(Seq<char>, Seq<char>)>)
    requires
        more.len() <= 1,
    ensures
        read_rows(rows + more) == if more.len() == 0 {
            read_rows(rows)
        } else {
            apply_row(read_rows(rows), more[0].0, more[0].1)
        },
{
    if more.len() == 0 {
        assert(rows + more =~= rows);
    } else {
        assert((rows + more).drop_last() =~= rows);
    }
}

/// What is read back after an update is what was there, with every field the
/// update gives replaced by the given value: the flag, URL, proxy type and
/// test URL each come back as written, the others as before.
pub proof fn proxy_update_reads_back(rows: Seq<(Seq<char>, Seq<char>)>, u: UpdateProxyConfig)
    ensures
        read_rows(rows + update_rows(u)) == updated_view(read_rows(rows), u),
{
    reveal_strlit("proxy_enabled");
    reveal_strlit("proxy_url");
    reveal_strlit("proxy_type");
    reveal_strlit("proxy_test_url");
    reveal_strlit("true");
    reveal_strlit("false");
    assert("proxy_enabled"@.len() == 13);
    assert("proxy_url"@.len() == 9);
    assert("proxy_type"@.len() == 10);
    assert("proxy_test_url"@.len() == 14);
    assert("true"@.len() == 4);
    assert("false"@.len() == 5);
    let a: Seq<(Seq<char>, Seq<char>)> = match u.enabled {
        Some(b) => seq![("proxy_enabled"@, if b { "true"@ } else { "false"@ })],
        None => Seq::empty(),
    };
    let b: Seq<(Seq<char>, Seq<char>)> = match u.url {
        Some(x) => seq![("proxy_url"@, x@)],
        None => Seq::empty(),
    };
    let c: Seq<(Seq<char>, Seq<char>)> = match u.proxy_type {
        Some(x) => seq![("proxy_type"@, x@)],
        None => Seq::empty(),
    };
    let d: Seq<(Seq<char>, Seq<char>)> = match u.test_url {
        Some(x) => seq![("proxy_test_url"@, x@)],
        None => Seq::empty(),
    };
    assert(update_rows(u) == a + b + c + d);
    assert(rows + (a + b + c + d) =~= (((rows + a) + b) + c) + d);
    lemma_read_rows_append(rows, a);
    lemma_read_rows_append(rows + a, b);
    lemma_read_rows_append((rows + a) + b, c);
    lemma_read_rows_append(((rows + a) + b) + c, d);
}

} // verus!

verus! {

/// The proxy address as the HTTP client takes it: `socks5h://` becomes
/// `socks5://`, then `https://` becomes `http://`, wherever they occur.
pub open spec fn spec_client_proxy_url(url: Seq<char>) -> Seq<char> {
    replace_all_seq(replace_all_seq(url, "socks5h://"@, "socks5://"@), "https://"@, "http://"@)
}

/// The proxy address as the HTTP client takes it.
pub fn client_proxy_url(url: &str) -> (r: String)
    ensures
        r@ == spec_client_proxy_url(url@),
{
    proof {
        reveal_strlit("socks5h://");
        reveal_strlit("https://");
        assert("socks5h://"@.len() == 10);
        assert("https://"@.len() == 8);
    }
    let a = replace_all(url, "socks5h://", "socks5://");
    replace_all(a.as_str(), "https://", "http://")
}

} // verus!
