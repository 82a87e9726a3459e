use money_routes::json::JsonValue;
use money_routes::replies::{
    parse_agent_json_response, parse_dept_report_response, parse_fund_manager_response,
    parse_llm_comprehensive_response, parse_reply, Confidence,
};

#[test]
fn reply_json_is_read_inside_code_fences() {
    let v = parse_reply("  ```json\n{\"a\": [1, 2.50, \"x\"], \"b\": null}\n```  ").unwrap();
    match v {
        JsonValue::Object(members) => {
            assert_eq!(members.len(), 2);
            assert_eq!(members[0].0, "a");
            assert!(matches!(&members[0].1, JsonValue::Array(items)
                if matches!(&items[0], JsonValue::Number(n) if n == "1")
                && matches!(&items[1], JsonValue::Number(n) if n == "2.5")
                && matches!(&items[2], JsonValue::Str(s) if s == "x")));
            assert!(matches!(members[1].1, JsonValue::Null));
        }
        _ => panic!("not an object"),
    }
    assert!(parse_reply("not json").is_none());
    assert!(matches!(parse_reply("true"), Some(JsonValue::Bool(true))));
}

#[test]
fn agent_replies_read_fields_or_keep_raw_text() {
    let p = parse_agent_json_response(
        "```\n{\"sentiment\": \"bullish\", \"confidence\": 0.7, \"key_factors\": [\"etf\"]}\n```",
    );
    assert_eq!(p.sentiment, "bullish");
    assert!(matches!(p.confidence, Confidence::Reported(ref n) if n == "0.7"));
    assert_eq!(p.analysis, "分析结果解析失败");
    assert_eq!(p.key_factors, vec!["etf".to_string()]);
    let raw = parse_agent_json_response("markets look fine");
    assert_eq!(raw.sentiment, "neutral");
    assert_eq!(raw.analysis, "markets look fine");
    assert!(matches!(raw.confidence, Confidence::Low));
}

#[test]
fn department_and_fund_replies() {
    let d = parse_dept_report_response("{\"consensus\": \"bearish\", \"bull_summary\": \"b\"}");
    assert_eq!(d.consensus, "bearish");
    assert_eq!(d.bull_summary, "b");
    assert_eq!(d.bear_summary, "");
    let none = parse_dept_report_response("oops");
    assert_eq!(none.consensus, "neutral");
    let f = parse_fund_manager_response("{\"action\": \"short\", \"leverage\": 3, \"reasoning\": \"r\"}");
    assert_eq!(f.action, "short");
    assert_eq!(f.leverage, 3);
    assert_eq!(f.reasoning, "r");
    let hold = parse_fund_manager_response("no idea");
    assert_eq!(hold.action, "hold");
    assert_eq!(hold.leverage, 2);
    assert_eq!(hold.reasoning, "no idea");
}

#[test]
fn comprehensive_replies() {
    let c = parse_llm_comprehensive_response(
        "{\"direction\": \"bullish\", \"risk_level\": \"low\", \"stop_loss\": 90, \"take_profit\": [100, 105]}",
    );
    assert_eq!(c.direction, "bullish");
    assert_eq!(c.risk_level, "low");
    assert_eq!(c.stop_loss.as_deref(), Some("90"));
    assert_eq!(c.take_profit.unwrap(), vec!["100".to_string(), "105".to_string()]);
    assert_eq!(c.leverage_suggestion, 2);
    let d = parse_llm_comprehensive_response("plain text");
    assert_eq!(d.direction, "neutral");
    assert_eq!(d.risk_level, "medium");
    assert_eq!(d.analysis, "plain text");
}
