use money_routes::json::JsonValue;
use money_routes::reports::{
    infer_legacy_report_locale, localize_report, normalize_report_locale, report_locale_from_lower,
};

fn s(text: &str) -> JsonValue {
    JsonValue::Str(text.to_string())
}

fn obj(members: Vec<(&str, JsonValue)>) -> JsonValue {
    JsonValue::Object(members.into_iter().map(|(k, v)| (k.to_string(), v)).collect())
}

#[test]
fn selects_requested_report_translation() {
    let report = obj(vec![
        ("title", s("BTC 报告")),
        (
            "content",
            obj(vec![
                ("locale", s("zh-CN")),
                (
                    "translations",
                    obj(vec![
                        ("zh-CN", obj(vec![("title", s("BTC 报告")), ("content", s("中文正文"))])),
                        ("en-US", obj(vec![("title", s("BTC Report")), ("content", s("English body"))])),
                    ]),
                ),
            ]),
        ),
    ]);

    let localized = localize_report(report, "en-US");
    assert_eq!(localized.get("title").and_then(|v| v.as_str()), Some("BTC Report"));
    assert_eq!(localized.get("content").and_then(|v| v.as_str()), Some("English body"));
    assert_eq!(localized.get("requested_locale").and_then(|v| v.as_str()), Some("en-US"));
    assert_eq!(localized.get("language_match").and_then(|v| v.as_bool()), Some(true));
}

#[test]
fn never_returns_mismatched_legacy_content() {
    let report = obj(vec![
        ("title", s("BTC 分析报告")),
        ("content", obj(vec![("raw", s("中文正文"))])),
    ]);

    let localized = localize_report(report, "en-US");
    assert!(localized.get("content").map(|v| v.is_null()).unwrap_or(false));
    assert_eq!(localized.get("language_match").and_then(|v| v.as_bool()), Some(false));
}

#[test]
fn keeps_legacy_content_in_its_own_language() {
    let report = obj(vec![("title", s("BTC Weekly")), ("content", obj(vec![("raw", s("English text"))]))]);
    let localized = localize_report(report, "en-US");
    assert_eq!(localized.get("locale").and_then(|v| v.as_str()), Some("en-US"));
    assert_eq!(localized.get("language_match").and_then(|v| v.as_bool()), Some(true));
    let content = localized.get("content").expect("content kept");
    assert_eq!(content.get("raw").and_then(|v| v.as_str()), Some("English text"));
    match localized.get("available_locales") {
        Some(JsonValue::Array(items)) => {
            assert_eq!(items.len(), 1);
            assert_eq!(items[0].as_str(), Some("en-US"));
        }
        other => panic!("unexpected available_locales: {:?}", other),
    }
}

#[test]
fn missing_translation_reports_source_locale() {
    let report = obj(vec![
        ("title", s("BTC")),
        (
            "content",
            obj(vec![
                ("locale", s("zh-CN")),
                ("translations", obj(vec![("zh-CN", obj(vec![("content", s("正文"))]))])),
            ]),
        ),
    ]);
    let localized = localize_report(report, "en-US");
    assert!(localized.get("content").map(|v| v.is_null()).unwrap_or(false));
    assert_eq!(localized.get("locale").and_then(|v| v.as_str()), Some("zh-CN"));
    assert_eq!(localized.get("title").and_then(|v| v.as_str()), Some("BTC"));
}

#[test]
fn a_report_that_is_not_an_object_comes_back_unchanged() {
    let localized = localize_report(s("plain"), "zh-CN");
    assert_eq!(localized.as_str(), Some("plain"));
}

#[test]
fn normalizes_requested_locales() {
    assert_eq!(normalize_report_locale(None), "en-US");
    assert_eq!(normalize_report_locale(Some("zh_TW")), "zh-TW");
    assert_eq!(normalize_report_locale(Some("zh-Hant-HK")), "zh-TW");
    assert_eq!(normalize_report_locale(Some("zh")), "zh-CN");
    assert_eq!(normalize_report_locale(Some("ZH-cn")), "zh-CN");
    assert_eq!(normalize_report_locale(Some("fr-FR")), "en-US");
    assert_eq!(report_locale_from_lower("zh-hk"), "zh-TW");
}

#[test]
fn infers_locale_of_legacy_reports() {
    assert_eq!(infer_legacy_report_locale(&obj(vec![("title", s("市场"))])), "zh-CN");
    assert_eq!(
        infer_legacy_report_locale(&obj(vec![("title", s("Market")), ("content", obj(vec![("键", s("x"))]))])),
        "zh-CN"
    );
    assert_eq!(
        infer_legacy_report_locale(&obj(vec![("title", s("Market")), ("content", s("plain"))])),
        "en-US"
    );
}
